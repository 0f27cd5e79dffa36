use descord::commands::ParamType;
use descord::gateway::{GatewayAction, GatewayInput};
use descord::reconcile::{ReconcileOp, SlashCommand, SlashParam};
use descord::wire::{action_frame, command_body, frame_input, reconcile_registry, response_id};
use descord::text::{digit_runs_ok, MAX_DIGIT_RUN};
use descord::CreateMessageData;

fn slash(name: &str, description: &str) -> SlashCommand {
    SlashCommand {
        name: name.to_string(),
        description: description.to_string(),
        params: vec![SlashParam {
            name: "n".to_string(),
            rename: Some("count".to_string()),
            description: "how many".to_string(),
            kind: ParamType::Int,
        }],
        handler: 0,
    }
}

#[test]
fn registry_text_is_reconciled() {
    let registry = r#"[
        {"id": "11", "name": "a", "description": "old",
         "options": [{"name": "count", "description": "how many", "type": 4}]},
        {"id": "33", "name": "c", "description": "v3", "options": []}
    ]"#;
    let ops = reconcile_registry(&vec![slash("a", "v1"), slash("b", "v2")], registry).unwrap();
    assert_eq!(ops.len(), 3);
    assert!(matches!(&ops[0], ReconcileOp::Update { local: 0, remote_id } if remote_id == "11"));
    assert!(matches!(&ops[1], ReconcileOp::Create { local: 1 }));
    assert!(matches!(&ops[2], ReconcileOp::Delete { remote_id } if remote_id == "33"));
}

#[test]
fn registry_in_sync_is_kept() {
    let registry = r#"[{"id": "11", "name": "a", "description": "v1",
        "options": [{"name": "count", "description": "how many", "type": 4}]}]"#;
    let ops = reconcile_registry(&vec![slash("a", "v1")], registry).unwrap();
    assert_eq!(ops.len(), 1);
    assert!(matches!(&ops[0], ReconcileOp::Keep { local: 0, remote_id } if remote_id == "11"));
}

#[test]
fn malformed_registry_gives_no_plan() {
    assert!(reconcile_registry(&vec![slash("a", "v1")], "not json").is_none());
    let ops = reconcile_registry(&vec![slash("a", "v1")], "[]").unwrap();
    assert_eq!(ops.len(), 1);
    assert!(matches!(&ops[0], ReconcileOp::Create { local: 0 }));
}

#[test]
fn command_body_lists_shown_names_and_type_codes() {
    let body = command_body(&slash("a", "v1"));
    let v = json::parse(&body).unwrap();
    assert_eq!(v["name"].as_str(), Some("a"));
    assert_eq!(v["description"].as_str(), Some("v1"));
    assert_eq!(v["options"][0]["name"].as_str(), Some("count"));
    assert_eq!(v["options"][0]["description"].as_str(), Some("how many"));
    assert_eq!(v["options"][0]["type"].as_u8(), Some(4));
    assert_eq!(v["options"][0]["required"].as_bool(), Some(true));
}

#[test]
fn response_ids() {
    assert_eq!(response_id(r#"{"id": "1234", "username": "bot"}"#), Some("1234".to_string()));
    assert_eq!(response_id(r#"{"username": "bot"}"#), None);
    assert_eq!(response_id("1234"), None);
}

#[test]
fn frames_decode_to_session_inputs() {
    let hello = r#"{"op": 10, "d": {"heartbeat_interval": 41250}, "s": null, "t": null}"#;
    assert!(matches!(frame_input(hello), Some(GatewayInput::Hello { heartbeat_interval: 41250 })));
    let ready = r#"{"op": 0, "s": 1, "t": "READY",
        "d": {"session_id": "sid", "resume_gateway_url": "wss://r"}}"#;
    match frame_input(ready) {
        Some(GatewayInput::Ready { sequence, session_id, resume_gateway_url }) => {
            assert_eq!(sequence, 1);
            assert_eq!(session_id, "sid");
            assert_eq!(resume_gateway_url, "wss://r");
        }
        other => panic!("unexpected input {:?}", other),
    }
    let invalid = r#"{"op": 9, "d": true}"#;
    assert!(matches!(frame_input(invalid), Some(GatewayInput::InvalidSession { resumable: true })));
    assert!(matches!(frame_input(r#"{"op": 11}"#), Some(GatewayInput::HeartbeatAck)));
    assert!(frame_input("garbage").is_none());
    assert!(frame_input(r#"{"op": 99}"#).is_none());
}

#[test]
fn action_frames() {
    let f = action_frame("tok", 513, &GatewayAction::SendIdentify).unwrap();
    let v = json::parse(&f).unwrap();
    assert_eq!(v["op"].as_u64(), Some(2));
    assert_eq!(v["d"]["token"].as_str(), Some("tok"));
    assert_eq!(v["d"]["intents"].as_u32(), Some(513));
    let f = action_frame(
        "tok",
        513,
        &GatewayAction::SendResume { session_id: "sid".to_string(), sequence: 9 },
    )
    .unwrap();
    let v = json::parse(&f).unwrap();
    assert_eq!(v["op"].as_u64(), Some(6));
    assert_eq!(v["d"]["session_id"].as_str(), Some("sid"));
    assert_eq!(v["d"]["seq"].as_u64(), Some(9));
    let f = action_frame("tok", 513, &GatewayAction::SendHeartbeat { sequence: Some(5) }).unwrap();
    let v = json::parse(&f).unwrap();
    assert_eq!(v["op"].as_u64(), Some(1));
    assert_eq!(v["d"].as_u64(), Some(5));
    let f = action_frame("tok", 513, &GatewayAction::SendHeartbeat { sequence: None }).unwrap();
    assert!(json::parse(&f).unwrap()["d"].is_null());
    assert!(action_frame("tok", 513, &GatewayAction::Reconnect).is_none());
}

#[test]
fn message_body() {
    let m = CreateMessageData { content: "hi".to_string(), tts: true, flags: Some(4) };
    let v = json::parse(&m.to_json()).unwrap();
    assert_eq!(v["content"].as_str(), Some("hi"));
    assert_eq!(v["tts"].as_bool(), Some(true));
    assert_eq!(v["flags"].as_u32(), Some(4));
}

#[test]
fn long_digit_runs_are_refused_before_parsing() {
    let ok = format!("[{{\"id\": \"1\", \"n\": 0.{}}}]", "0".repeat(MAX_DIGIT_RUN - 1));
    assert!(digit_runs_ok(&ok));
    let long = format!("[{{\"id\": \"1\", \"n\": 0.{}}}]", "0".repeat(32769));
    assert!(!digit_runs_ok(&long));
    assert!(reconcile_registry(&vec![slash("a", "v1")], &long).is_none());
    assert!(reconcile_registry(&vec![slash("a", "v1")], &ok).is_some());
    let frame = format!("{{\"op\": 11, \"d\": 0.{}}}", "0".repeat(32769));
    assert!(frame_input(&frame).is_none());
    let id = format!("{{\"id\": \"7\", \"x\": 0.{}}}", "0".repeat(32769));
    assert_eq!(response_id(&id), None);
    assert!(digit_runs_ok(&"1".repeat(MAX_DIGIT_RUN)));
    assert!(!digit_runs_ok(&"1".repeat(MAX_DIGIT_RUN + 1)));
    assert!(digit_runs_ok(&format!("{}x{}", "1".repeat(MAX_DIGIT_RUN), "2".repeat(MAX_DIGIT_RUN))));
}
