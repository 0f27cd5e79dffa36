use descord::commands::ParamType;
use descord::reconcile::{
    record_for, matches_remote, param_type_code, plan_reconciliation, ReconcileOp, RemoteCommand,
    RemoteOption, SlashCommand, SlashParam,
};
use descord::rest::{command_path, commands_path};

fn local(name: &str, description: &str) -> SlashCommand {
    SlashCommand {
        name: name.to_string(),
        description: description.to_string(),
        params: vec![SlashParam {
            name: "user_name".to_string(),
            rename: Some("name".to_string()),
            description: "who".to_string(),
            kind: ParamType::String,
        }],
        handler: 0,
    }
}

fn remote(id: &str, name: &str, description: &str) -> RemoteCommand {
    RemoteCommand {
        id: id.to_string(),
        name: name.to_string(),
        description: description.to_string(),
        options: vec![RemoteOption {
            name: "name".to_string(),
            description: "who".to_string(),
            kind: 3,
        }],
    }
}

fn summary(ops: &[ReconcileOp]) -> Vec<String> {
    ops.iter()
        .map(|op| match op {
            ReconcileOp::Create { local } => format!("create {}", local),
            ReconcileOp::Update { local, remote_id } => format!("update {} {}", local, remote_id),
            ReconcileOp::Keep { local, remote_id } => format!("keep {} {}", local, remote_id),
            ReconcileOp::Delete { remote_id } => format!("delete {}", remote_id),
        })
        .collect()
}

#[test]
fn update_create_delete_each_once() {
    let locals = vec![local("a", "v1"), local("b", "v2")];
    let remotes = vec![remote("1", "a", "v1_old"), remote("3", "c", "v3")];
    let ops = plan_reconciliation(&locals, &remotes);
    assert_eq!(summary(&ops), vec!["update 0 1", "create 1", "delete 3"]);
}

#[test]
fn second_run_issues_no_calls() {
    let locals = vec![local("a", "v1"), local("b", "v2")];
    let remotes = vec![remote("1", "a", "v1"), remote("2", "b", "v2")];
    let ops = plan_reconciliation(&locals, &remotes);
    assert_eq!(summary(&ops), vec!["keep 0 1", "keep 1 2"]);
}

#[test]
fn option_change_forces_update() {
    let locals = vec![local("a", "v1")];
    let mut r = remote("1", "a", "v1");
    r.options[0].kind = param_type_code(ParamType::Int);
    assert!(!matches_remote(&locals[0], &r));
    let ops = plan_reconciliation(&locals, &vec![r]);
    assert_eq!(summary(&ops), vec!["update 0 1"]);
}

#[test]
fn renamed_parameter_is_compared_by_shown_name() {
    let l = local("a", "v1");
    assert!(matches_remote(&l, &remote("1", "a", "v1")));
    let mut r = remote("1", "a", "v1");
    r.options[0].name = "user_name".to_string();
    assert!(!matches_remote(&l, &r));
}

#[test]
fn empty_registry_creates_everything() {
    let locals = vec![local("a", "v1"), local("b", "v2")];
    let ops = plan_reconciliation(&locals, &vec![]);
    assert_eq!(summary(&ops), vec!["create 0", "create 1"]);
    let ops = plan_reconciliation(&vec![], &vec![remote("9", "z", "old")]);
    assert_eq!(summary(&ops), vec!["delete 9"]);
}

#[test]
fn type_codes() {
    assert_eq!(param_type_code(ParamType::String), 3);
    assert_eq!(param_type_code(ParamType::Int), 4);
    assert_eq!(param_type_code(ParamType::User), 6);
    assert_eq!(param_type_code(ParamType::Channel), 7);
    assert_eq!(param_type_code(ParamType::Bool), 3);
}

#[test]
fn registry_paths() {
    assert_eq!(commands_path("42"), "applications/42/commands");
    assert_eq!(command_path("42", "7"), "applications/42/commands/7");
}

#[test]
fn recorded_ids_after_each_step() {
    let create = ReconcileOp::Create { local: 1 };
    assert_eq!(record_for(&create, true, Some("77".to_string())), Some((1, "77".to_string())));
    assert_eq!(record_for(&create, false, None), None);
    assert_eq!(record_for(&create, true, None), None);
    let update = ReconcileOp::Update { local: 0, remote_id: "11".to_string() };
    assert_eq!(record_for(&update, true, None), Some((0, "11".to_string())));
    assert_eq!(record_for(&update, false, None), None);
    let keep = ReconcileOp::Keep { local: 2, remote_id: "12".to_string() };
    assert_eq!(record_for(&keep, true, None), Some((2, "12".to_string())));
    let delete = ReconcileOp::Delete { remote_id: "13".to_string() };
    assert_eq!(record_for(&delete, true, None), None);
}
