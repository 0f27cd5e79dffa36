use vstd::prelude::*;

use crate::commands::ParamType;
use crate::text::str_eq;

verus! {

/// One parameter of a slash command: its name, an optional name to show
/// instead, its description and its type.
#[derive(Debug, Clone)]
pub struct SlashParam {
    pub name: String,
    pub rename: Option<String>,
    pub description: String,
    pub kind: ParamType,
}

/// A locally declared slash command and the handler it runs.
#[derive(Debug, Clone)]
pub struct SlashCommand {
    pub name: String,
    pub description: String,
    pub params: Vec<SlashParam>,
    pub handler: usize,
}

/// One option of a command in the server's registry.
#[derive(Debug, Clone)]
pub struct RemoteOption {
    pub name: String,
    pub description: String,
    pub kind: u8,
}

/// A command in the server's registry.
#[derive(Debug, Clone)]
pub struct RemoteCommand {
    pub id: String,
    pub name: String,
    pub description: String,
    pub options: Vec<RemoteOption>,
}

/// One step of a reconciliation: create a local command remotely, update the
/// remote command that shares its name, keep that remote command as it is, or
/// delete a remote command that no local one declares.
#[derive(Debug, Clone)]
pub enum ReconcileOp {
    Create { local: usize },
    Update { local: usize, remote_id: String },
    Keep { local: usize, remote_id: String },
    Delete { remote_id: String },
}

/// An option as the registry describes it: name, description, type code.
pub type OptionView = (Seq<char>, Seq<char>, u8);

pub struct ParamView {
    pub name: Seq<char>,
    pub rename: Option<Seq<char>>,
    pub description: Seq<char>,
    pub kind: ParamType,
}

pub struct SlashView {
    pub name: Seq<char>,
    pub description: Seq<char>,
    pub params: Seq<ParamView>,
    pub handler: usize,
}

pub struct RemoteView {
    pub id: Seq<char>,
    pub name: Seq<char>,
    pub description: Seq<char>,
    pub options: Seq<OptionView>,
}

pub enum OpView {
    Create { local: int },
    Update { local: int, remote_id: Seq<char> },
    Keep { local: int, remote_id: Seq<char> },
    Delete { remote_id: Seq<char> },
}

impl View for SlashParam {
    type V = ParamView;

    open spec fn view(&self) -> ParamView {
        ParamView {
            name: self.name@,
            rename: match self.rename {
                Some(r) => Some(r@),
                None => None,
            },
            description: self.description@,
            kind: self.kind,
        }
    }
}

impl View for SlashCommand {
    type V = SlashView;

    open spec fn view(&self) -> SlashView {
        SlashView {
            name: self.name@,
            description: self.description@,
            params: self.params@.map_values(|p: SlashParam| p@),
            handler: self.handler,
        }
    }
}

impl View for RemoteCommand {
    type V = RemoteView;

    open spec fn view(&self) -> RemoteView {
        RemoteView {
            id: self.id@,
            name: self.name@,
            description: self.description@,
            options: self.options@.map_values(|o: RemoteOption| (o.name@, o.description@, o.kind)),
        }
    }
}

impl View for ReconcileOp {
    type V = OpView;

    open spec fn view(&self) -> OpView {
        match self {
            ReconcileOp::Create { local } => OpView::Create { local: *local as int },
            ReconcileOp::Update { local, remote_id } => OpView::Update {
                local: *local as int,
                remote_id: remote_id@,
            },
            ReconcileOp::Keep { local, remote_id } => OpView::Keep {
                local: *local as int,
                remote_id: remote_id@,
            },
            ReconcileOp::Delete { remote_id } => OpView::Delete { remote_id: remote_id@ },
        }
    }
}

pub open spec fn slash_views(s: Seq<SlashCommand>) -> Seq<SlashView> {
    s.map_values(|c: SlashCommand| c@)
}

pub open spec fn remote_views(s: Seq<RemoteCommand>) -> Seq<RemoteView> {
    s.map_values(|c: RemoteCommand| c@)
}

pub open spec fn op_views(s: Seq<ReconcileOp>) -> Seq<OpView> {
    s.map_values(|o: ReconcileOp| o@)
}

/// The registry's code for a parameter type: a string is 3, an integer 4, a
/// user 6, a channel 7; any other type is registered as a string.
pub open spec fn type_code(t: ParamType) -> u8 {
    match t {
        ParamType::String => 3,
        ParamType::Int => 4,
        ParamType::User => 6,
        ParamType::Channel => 7,
        _ => 3,
    }
}

/// The registry's code for a parameter type.
pub fn param_type_code(t: ParamType) -> (r: u8)
    ensures
        r == type_code(t),
{
    match t {
        ParamType::String => 3,
        ParamType::Int => 4,
        ParamType::User => 6,
        ParamType::Channel => 7,
        _ => 3,
    }
}

/// The name under which a parameter is shown: its rename if it has one.
pub open spec fn shown_name(p: ParamView) -> Seq<char> {
    match p.rename {
        Some(r) => r,
        None => p.name,
    }
}

/// The options that a local command declares, as the registry would hold them.
pub open spec fn local_options(c: SlashView) -> Seq<OptionView> {
    c.params.map_values(|p: ParamView| (shown_name(p), p.description, type_code(p.kind)))
}

/// A remote command matches a local one in description and in its ordered
/// options (name, description, type).
pub open spec fn in_sync(c: SlashView, r: RemoteView) -> bool {
    c.description == r.description && local_options(c) == r.options
}

/// `j` is the first remote command named `name`.
pub open spec fn is_first(remote: Seq<RemoteView>, name: Seq<char>, j: int) -> bool {
    &&& 0 <= j < remote.len()
    &&& remote[j].name == name
    &&& forall|k: int| 0 <= k < j ==> remote[k].name != name
}

/// The first remote command named `name`, if any.
pub open spec fn first_remote(remote: Seq<RemoteView>, name: Seq<char>) -> Option<int> {
    if exists|j: int| is_first(remote, name, j) {
        Some(choose|j: int| is_first(remote, name, j))
    } else {
        None
    }
}

/// Some local command is named `name`.
pub open spec fn declared(local: Seq<SlashView>, name: Seq<char>) -> bool {
    exists|i: int| 0 <= i < local.len() && #[trigger] local[i].name == name
}

/// What becomes of local command `i`: created if no remote command shares its
/// name, else updated or kept as the first such one is out of or in sync.
pub open spec fn local_op(local: Seq<SlashView>, remote: Seq<RemoteView>, i: int) -> OpView {
    match first_remote(remote, local[i].name) {
        None => OpView::Create { local: i },
        Some(j) => if in_sync(local[i], remote[j]) {
            OpView::Keep { local: i, remote_id: remote[j].id }
        } else {
            OpView::Update { local: i, remote_id: remote[j].id }
        },
    }
}

/// The deletions: each remote command that no local one declares, in order.
pub open spec fn delete_ops(local: Seq<SlashView>, remote: Seq<RemoteView>) -> Seq<OpView>
    decreases remote.len(),
{
    if remote.len() == 0 {
        seq![]
    } else {
        let rest = delete_ops(local, remote.drop_last());
        if declared(local, remote.last().name) {
            rest
        } else {
            rest.push(OpView::Delete { remote_id: remote.last().id })
        }
    }
}

/// The reconciliation plan: one step per local command, in order, then the
/// deletions.
pub open spec fn plan_spec(local: Seq<SlashView>, remote: Seq<RemoteView>) -> Seq<OpView> {
    Seq::new(local.len(), |i: int| local_op(local, remote, i)) + delete_ops(local, remote)
}

proof fn lemma_first_unique(remote: Seq<RemoteView>, name: Seq<char>, j: int)
    requires
        is_first(remote, name, j),
    ensures
        first_remote(remote, name) == Some(j),
{
    let k = choose|k: int| is_first(remote, name, k);
    assert(is_first(remote, name, k));
    if k < j {
        assert(remote[k].name != name);
    }
    if j < k {
        assert(remote[j].name != name);
    }
}

/// Which local command to record under which remote id once a step has run:
/// a create that succeeded records the id the server returned, an update that
/// succeeded and a keep record the remote id, and a deletion records nothing.
pub open spec fn record_spec(op: OpView, succeeded: bool, created_id: Option<Seq<char>>) -> Option<
    (int, Seq<char>),
> {
    match op {
        OpView::Create { local } => if succeeded {
            match created_id {
                Some(id) => Some((local, id)),
                None => None,
            }
        } else {
            None
        },
        OpView::Update { local, remote_id } => if succeeded {
            Some((local, remote_id))
        } else {
            None
        },
        OpView::Keep { local, remote_id } => Some((local, remote_id)),
        OpView::Delete { .. } => None,
    }
}

/// Which local command to record under which remote id once `op` has run;
/// `succeeded` tells whether its call went through, and `created_id` is the
/// id that a create returned.
pub fn record_for(op: &ReconcileOp, succeeded: bool, created_id: Option<String>) -> (r: Option<
    (usize, String),
>)
    ensures
        match r {
            Some((i, id)) => record_spec(op@, succeeded, crate::gateway::opt_view(created_id))
                == Some((i as int, id@)),
            None => record_spec(op@, succeeded, crate::gateway::opt_view(created_id)) is None,
        },
{
    match op {
        ReconcileOp::Create { local } => if succeeded {
            match created_id {
                Some(id) => Some((*local, id)),
                None => None,
            }
        } else {
            None
        },
        ReconcileOp::Update { local, remote_id } => if succeeded {
            Some((*local, remote_id.clone()))
        } else {
            None
        },
        ReconcileOp::Keep { local, remote_id } => Some((*local, remote_id.clone())),
        ReconcileOp::Delete { .. } => None,
    }
}

/// The first remote command named `name`.
fn find_remote(remote: &Vec<RemoteCommand>, name: &str) -> (r: Option<usize>)
    ensures
        first_remote(remote_views(remote@), name@) == match r {
            Some(j) => Some(j as int),
            None => None,
        },
{
    let ghost rv = remote_views(remote@);
    let mut j: usize = 0;
    while j < remote.len()
        invariant
            rv == remote_views(remote@),
            j <= remote@.len(),
            forall|k: int| 0 <= k < j ==> rv[k].name != name@,
        decreases remote@.len() - j,
    {
        if str_eq(remote[j].name.as_str(), name) {
            proof {
                lemma_first_unique(rv, name@, j as int);
            }
            return Some(j);
        }
        j = j + 1;
    }
    assert forall|k: int| !is_first(rv, name@, k) by {
        if 0 <= k < rv.len() {
            assert(rv[k].name != name@);
        }
    }
    None
}

/// Whether some local command is named `name`.
fn is_declared(local: &Vec<SlashCommand>, name: &str) -> (r: bool)
    ensures
        r == declared(slash_views(local@), name@),
{
    let ghost lv = slash_views(local@);
    let mut i: usize = 0;
    while i < local.len()
        invariant
            lv == slash_views(local@),
            i <= local@.len(),
            forall|k: int| 0 <= k < i ==> lv[k].name != name@,
        decreases local@.len() - i,
    {
        if str_eq(local[i].name.as_str(), name) {
            assert(lv[i as int].name == name@);
            return true;
        }
        i = i + 1;
    }
    false
}

/// Whether a remote command matches a local one in description and options.
pub fn matches_remote(c: &SlashCommand, r: &RemoteCommand) -> (b: bool)
    ensures
        b == in_sync(c@, r@),
{
    let ghost lo = local_options(c@);
    let ghost ro = r@.options;
    if !str_eq(c.description.as_str(), r.description.as_str()) {
        return false;
    }
    if c.params.len() != r.options.len() {
        assert(lo.len() != ro.len());
        return false;
    }
    let mut i: usize = 0;
    while i < c.params.len()
        invariant
            lo == local_options(c@),
            ro == r@.options,
            lo.len() == ro.len(),
            lo.len() == c.params@.len(),
            i <= lo.len(),
            forall|k: int| 0 <= k < i ==> lo[k] == ro[k],
        decreases lo.len() - i,
    {
        let p = &c.params[i];
        let o = &r.options[i];
        assert(lo[i as int] == (shown_name(p@), p@.description, type_code(p.kind)));
        assert(ro[i as int] == (o.name@, o.description@, o.kind));
        let shown = match &p.rename {
            Some(n) => n.as_str(),
            None => p.name.as_str(),
        };
        if !str_eq(shown, o.name.as_str()) || !str_eq(p.description.as_str(), o.description.as_str())
            || param_type_code(p.kind) != o.kind {
            assert(lo[i as int] != ro[i as int]);
            return false;
        }
        i = i + 1;
    }
    assert(lo =~= ro);
    true
}

/// Plans the reconciliation of the local slash commands with the server's
/// registry: one step per local command (create, update or keep), then a
/// deletion for each remote command that no local one declares.
pub fn plan_reconciliation(local: &Vec<SlashCommand>, remote: &Vec<RemoteCommand>) -> (r: Vec<
    ReconcileOp,
>)
    ensures
        op_views(r@) == plan_spec(slash_views(local@), remote_views(remote@)),
{
    let ghost lv = slash_views(local@);
    let ghost rv = remote_views(remote@);
    let mut out: Vec<ReconcileOp> = Vec::new();
    let mut i: usize = 0;
    while i < local.len()
        invariant
            lv == slash_views(local@),
            rv == remote_views(remote@),
            i <= local@.len(),
            op_views(out@) == Seq::new(i as nat, |k: int| local_op(lv, rv, k)),
        decreases local@.len() - i,
    {
        let ghost before = op_views(out@);
        let op = match find_remote(remote, local[i].name.as_str()) {
            None => ReconcileOp::Create { local: i },
            Some(j) => {
                let id = remote[j].id.clone();
                if matches_remote(&local[i], &remote[j]) {
                    ReconcileOp::Keep { local: i, remote_id: id }
                } else {
                    ReconcileOp::Update { local: i, remote_id: id }
                }
            },
        };
        assert(op@ == local_op(lv, rv, i as int));
        out.push(op);
        assert(op_views(out@) =~= before.push(local_op(lv, rv, i as int)));
        assert(op_views(out@) =~= Seq::new((i + 1) as nat, |k: int| local_op(lv, rv, k)));
        i = i + 1;
    }
    let ghost creates = op_views(out@);
    assert(rv.subrange(0, 0) =~= Seq::<RemoteView>::empty());
    assert(creates + delete_ops(lv, rv.subrange(0, 0)) =~= creates);
    let mut j: usize = 0;
    while j < remote.len()
        invariant
            lv == slash_views(local@),
            rv == remote_views(remote@),
            j <= rv.len(),
            op_views(out@) == creates + delete_ops(lv, rv.subrange(0, j as int)),
        decreases rv.len() - j,
    {
        let ghost before = op_views(out@);
        assert(rv.subrange(0, j + 1).drop_last() =~= rv.subrange(0, j as int));
        assert(rv.subrange(0, j + 1).last() == rv[j as int]);
        if !is_declared(local, remote[j].name.as_str()) {
            out.push(ReconcileOp::Delete { remote_id: remote[j].id.clone() });
            assert(op_views(out@) =~= before.push(OpView::Delete { remote_id: rv[j as int].id }));
            assert(creates + delete_ops(lv, rv.subrange(0, j + 1)) =~= (creates + delete_ops(
                lv,
                rv.subrange(0, j as int),
            )).push(OpView::Delete { remote_id: rv[j as int].id }));
        }
        j = j + 1;
    }
    assert(rv.subrange(0, rv.len() as int) =~= rv);
    out
}

proof fn lemma_no_deletes(local: Seq<SlashView>, remote: Seq<RemoteView>)
    requires
        forall|j: int| 0 <= j < remote.len() ==> declared(local, #[trigger] remote[j].name),
    ensures
        delete_ops(local, remote) == Seq::<OpView>::empty(),
    decreases remote.len(),
{
    if remote.len() > 0 {
        let rest = remote.drop_last();
        assert forall|j: int| 0 <= j < rest.len() implies declared(local, #[trigger] rest[j].name) by {
            assert(rest[j] == remote[j]);
        }
        lemma_no_deletes(local, rest);
        assert(declared(local, remote[remote.len() - 1].name));
    }
}

/// Reconciling against a registry that already holds every local command,
/// in sync, under its name, and nothing else, issues no create, update or
/// delete: every step keeps a remote command as it is.
pub proof fn lemma_reconcile_idempotent(local: Seq<SlashView>, remote: Seq<RemoteView>)
    requires
        forall|i: int|
            0 <= i < local.len() ==> (#[trigger] first_remote(remote, local[i].name) matches Some(
                j,
            ) && in_sync(local[i], remote[j])),
        forall|j: int| 0 <= j < remote.len() ==> declared(local, #[trigger] remote[j].name),
    ensures
        plan_spec(local, remote).len() == local.len(),
        forall|k: int|
            0 <= k < plan_spec(local, remote).len() ==> #[trigger] plan_spec(local, remote)[k] is Keep,
{
    lemma_no_deletes(local, remote);
    let plan = plan_spec(local, remote);
    assert(plan =~= Seq::new(local.len(), |i: int| local_op(local, remote, i)));
    assert forall|k: int| 0 <= k < plan.len() implies #[trigger] plan[k] is Keep by {
        assert(first_remote(remote, local[k].name) is Some);
    }
}

/// Against local commands A and B and a registry holding an outdated A and a
/// command C that is not declared locally, reconciliation updates A, creates
/// B and deletes C, and issues nothing else.
pub proof fn lemma_reconcile_example(
    a: SlashView,
    b: SlashView,
    a_old: RemoteView,
    c: RemoteView,
)
    requires
        a_old.name == a.name,
        !in_sync(a, a_old),
        a.name != b.name,
        c.name != a.name,
        c.name != b.name,
    ensures
        plan_spec(seq![a, b], seq![a_old, c]) == seq![
            OpView::Update { local: 0, remote_id: a_old.id },
            OpView::Create { local: 1 },
            OpView::Delete { remote_id: c.id },
        ],
{
    let local = seq![a, b];
    let remote = seq![a_old, c];
    lemma_first_unique(remote, a.name, 0);
    assert forall|j: int| !is_first(remote, b.name, j) by {
        if 0 <= j < 2 {
            assert(remote[j].name != b.name);
        }
    }
    assert(local[0] == a);
    assert(local[1] == b);
    assert(local_op(local, remote, 0) == OpView::Update { local: 0, remote_id: a_old.id });
    assert(local_op(local, remote, 1) == OpView::Create { local: 1 });
    let first = remote.drop_last();
    assert(first =~= seq![a_old]);
    assert(first.drop_last() =~= Seq::<RemoteView>::empty());
    assert(declared(local, a_old.name));
    assert(!declared(local, c.name)) by {
        assert forall|i: int| 0 <= i < 2 implies local[i].name != c.name by {}
    }
    assert(delete_ops(local, first.drop_last()) == Seq::<OpView>::empty());
    assert(delete_ops(local, first) == Seq::<OpView>::empty());
    assert(delete_ops(local, remote) =~= seq![OpView::Delete { remote_id: c.id }]);
    assert(plan_spec(local, remote) =~= seq![
        OpView::Update { local: 0, remote_id: a_old.id },
        OpView::Create { local: 1 },
        OpView::Delete { remote_id: c.id },
    ]);
}

/// `op` deletes a remote command that no local one declares.
pub open spec fn deletes_undeclared(local: Seq<SlashView>, remote: Seq<RemoteView>, op: OpView) -> bool {
    exists|j: int|
        0 <= j < remote.len() && !declared(local, remote[j].name) && op == (OpView::Delete {
            remote_id: remote[j].id,
        })
}

/// If local command `i` has an in-sync remote namesake, `op` keeps it.
pub open spec fn keeps_if_synced(
    local: Seq<SlashView>,
    remote: Seq<RemoteView>,
    i: int,
    op: OpView,
) -> bool {
    match first_remote(remote, local[i].name) {
        Some(j) => in_sync(local[i], remote[j]) ==> op == (OpView::Keep {
            local: i,
            remote_id: remote[j].id,
        }),
        None => true,
    }
}

proof fn lemma_deletes_are_undeclared(local: Seq<SlashView>, remote: Seq<RemoteView>)
    ensures
        forall|k: int|
            0 <= k < delete_ops(local, remote).len() ==> deletes_undeclared(
                local,
                remote,
                #[trigger] delete_ops(local, remote)[k],
            ),
    decreases remote.len(),
{
    if remote.len() > 0 {
        let rest = remote.drop_last();
        lemma_deletes_are_undeclared(local, rest);
        let d = delete_ops(local, remote);
        let dr = delete_ops(local, rest);
        assert forall|k: int| 0 <= k < d.len() implies deletes_undeclared(
            local,
            remote,
            #[trigger] d[k],
        ) by {
            if k < dr.len() {
                assert(deletes_undeclared(local, rest, dr[k]));
                let j = choose|j: int|
                    0 <= j < rest.len() && !declared(local, rest[j].name) && dr[k] == (
                    OpView::Delete { remote_id: rest[j].id });
                assert(rest[j] == remote[j]);
                assert(d[k] == dr[k]);
            } else {
                let j = remote.len() - 1;
                assert(d[k] == (OpView::Delete { remote_id: remote[j].id }));
            }
        }
    }
}

/// Reconciliation touches only what differs: a local command whose remote
/// namesake is in sync is kept (no create or update names it), and every
/// deletion is of a remote command that no local one declares.
pub proof fn lemma_reconcile_leaves_synced_alone(
    local: Seq<SlashView>,
    remote: Seq<RemoteView>,
)
    ensures
        forall|i: int|
            0 <= i < local.len() ==> keeps_if_synced(
                local,
                remote,
                i,
                #[trigger] plan_spec(local, remote)[i],
            ),
        forall|k: int|
            local.len() <= k < plan_spec(local, remote).len() ==> deletes_undeclared(
                local,
                remote,
                #[trigger] plan_spec(local, remote)[k],
            ),
{
    lemma_deletes_are_undeclared(local, remote);
    let p = plan_spec(local, remote);
    let d = delete_ops(local, remote);
    assert forall|k: int| local.len() <= k < p.len() implies deletes_undeclared(
        local,
        remote,
        #[trigger] p[k],
    ) by {
        assert(p[k] == d[k - local.len()]);
    }
}

} // verus!
