use vstd::prelude::*;

use crate::gateway::{
    classify, classify_spec, ActionView, EnvelopeView, EventEnvelope, GatewayAction, GatewayInput,
    OP_HEARTBEAT, OP_IDENTIFY, OP_RESUME,
};
use crate::models::CreateMessageData;
use crate::text::{digit_runs_bounded, digit_runs_ok};
use crate::reconcile::{
    local_options, param_type_code, plan_reconciliation, plan_spec, op_views, remote_views,
    slash_views, OptionView, ReconcileOp, RemoteCommand, RemoteOption, SlashCommand, SlashView,
};

verus! {

/// The commands that a registry listing in JSON text describes, if the text
/// parses.
pub uninterp spec fn registry_of(text: Seq<char>) -> Option<Seq<crate::reconcile::RemoteView>>;

/// The frame that a gateway message in JSON text describes, if it is one.
pub uninterp spec fn envelope_of(text: Seq<char>) -> Option<EnvelopeView>;

/// The `id` field of a JSON object in text, if it has a string there.
pub uninterp spec fn id_of(text: Seq<char>) -> Option<Seq<char>>;

/// The JSON body that creates or updates a command.
pub uninterp spec fn command_json_of(
    name: Seq<char>,
    description: Seq<char>,
    options: Seq<OptionView>,
) -> Seq<char>;

/// The JSON body of a message to send.
pub uninterp spec fn message_json_of(content: Seq<char>, tts: bool, flags: Option<u32>) -> Seq<
    char,
>;

/// The frame with opcode `op` that identifies with a token and an intents
/// bitmask.
pub uninterp spec fn identify_json_of(op: u64, token: Seq<char>, intents: u32) -> Seq<char>;

/// The frame with opcode `op` that resumes with a token, a session id and a
/// sequence number.
pub uninterp spec fn resume_json_of(
    op: u64,
    token: Seq<char>,
    session_id: Seq<char>,
    sequence: u64,
) -> Seq<char>;

/// The frame with opcode `op` whose payload is a sequence number, or null.
pub uninterp spec fn heartbeat_json_of(op: u64, sequence: Option<u64>) -> Seq<char>;

/// Relies on `json::stringify`: an Identify frame with the token, the intents
/// and the client's identification.
#[verifier::external_body]
fn encode_identify(op: u64, token: &str, intents: u32) -> (r: String)
    ensures
        r@ == identify_json_of(op, token@, intents),
{
    let mut props = json::JsonValue::new_object();
    props["os"] = "rust".into();
    props["browser"] = "descord".into();
    props["device"] = "descord".into();
    let mut d = json::JsonValue::new_object();
    d["token"] = token.into();
    d["intents"] = intents.into();
    d["properties"] = props;
    let mut frame = json::JsonValue::new_object();
    frame["op"] = op.into();
    frame["d"] = d;
    json::stringify(frame)
}

/// Relies on `json::stringify`: a Resume frame with the token, the session id
/// and the sequence number.
#[verifier::external_body]
fn encode_resume(op: u64, token: &str, session_id: &str, sequence: u64) -> (r: String)
    ensures
        r@ == resume_json_of(op, token@, session_id@, sequence),
{
    let mut d = json::JsonValue::new_object();
    d["token"] = token.into();
    d["session_id"] = session_id.into();
    d["seq"] = sequence.into();
    let mut frame = json::JsonValue::new_object();
    frame["op"] = op.into();
    frame["d"] = d;
    json::stringify(frame)
}

/// Relies on `json::stringify`: a Heartbeat frame whose payload is the
/// sequence number, or `null`.
#[verifier::external_body]
fn encode_heartbeat(op: u64, sequence: Option<u64>) -> (r: String)
    ensures
        r@ == heartbeat_json_of(op, sequence),
{
    let mut frame = json::JsonValue::new_object();
    frame["op"] = op.into();
    frame["d"] = sequence.into();
    json::stringify(frame)
}

/// The frame that an action of the session sends, if it sends one.
pub fn action_frame(token: &str, intents: u32, action: &GatewayAction) -> (r: Option<String>)
    ensures
        match action@ {
            ActionView::SendIdentify => r matches Some(f) && f@ == identify_json_of(
                OP_IDENTIFY,
                token@,
                intents,
            ),
            ActionView::SendResume { session_id, sequence } => r matches Some(f) && f@
                == resume_json_of(OP_RESUME, token@, session_id, sequence),
            ActionView::SendHeartbeat { sequence } => r matches Some(f) && f@ == heartbeat_json_of(
                OP_HEARTBEAT,
                sequence,
            ),
            _ => r is None,
        },
{
    match action {
        GatewayAction::SendIdentify => Some(encode_identify(OP_IDENTIFY, token, intents)),
        GatewayAction::SendResume { session_id, sequence } => Some(
            encode_resume(OP_RESUME, token, session_id.as_str(), *sequence),
        ),
        GatewayAction::SendHeartbeat { sequence } => Some(
            encode_heartbeat(OP_HEARTBEAT, *sequence),
        ),
        _ => None,
    }
}

/// Relies on `json::parse` and the `JsonValue` accessors: the registry listing
/// is read entry by entry, a missing field reading as empty (or type 0); text
/// that does not parse gives nothing.
/// The text holds no digit run longer than the parser's 16-bit exponent can
/// count, on which `json::parse` would overflow.
#[verifier::external_body]
fn decode_registry(text: &str) -> (r: Option<Vec<RemoteCommand>>)
    requires
        digit_runs_bounded(text@),
    ensures
        match r {
            Some(cs) => registry_of(text@) == Some(remote_views(cs@)),
            None => registry_of(text@) is None,
        },
{
    let v = json::parse(text).ok()?;
    let s = |x: &json::JsonValue| x.as_str().unwrap_or("").to_string();
    Some(v.members().map(|c| RemoteCommand {
        id: s(&c["id"]),
        name: s(&c["name"]),
        description: s(&c["description"]),
        options: c["options"].members().map(|o| RemoteOption {
            name: s(&o["name"]),
            description: s(&o["description"]),
            kind: o["type"].as_u8().unwrap_or(0),
        }).collect(),
    }).collect())
}

/// Relies on `json::parse` and the `JsonValue` accessors: the opcode, the
/// sequence, the event name and the payload fields of a gateway frame.
/// The text holds no digit run longer than the parser's 16-bit exponent can
/// count, on which `json::parse` would overflow.
#[verifier::external_body]
fn decode_envelope(text: &str) -> (r: Option<EventEnvelope>)
    requires
        digit_runs_bounded(text@),
    ensures
        match r {
            Some(e) => envelope_of(text@) == Some(e@),
            None => envelope_of(text@) is None,
        },
{
    let v = json::parse(text).ok()?;
    let d = &v["d"];
    let s = |x: &json::JsonValue| x.as_str().map(|t| t.to_string());
    Some(EventEnvelope {
        opcode: v["op"].as_u64()?,
        sequence: v["s"].as_u64(),
        event_name: s(&v["t"]),
        heartbeat_interval: d["heartbeat_interval"].as_u64(),
        resumable: d.as_bool().unwrap_or(false),
        session_id: s(&d["session_id"]),
        resume_gateway_url: s(&d["resume_gateway_url"]),
    })
}

/// Relies on `json::parse` and `JsonValue::as_str`: the string under `id`.
/// The text holds no digit run longer than the parser's 16-bit exponent can
/// count, on which `json::parse` would overflow.
#[verifier::external_body]
fn decode_id(text: &str) -> (r: Option<String>)
    requires
        digit_runs_bounded(text@),
    ensures
        match r {
            Some(id) => id_of(text@) == Some(id@),
            None => id_of(text@) is None,
        },
{
    json::parse(text).ok()?["id"].as_str().map(|s| s.to_string())
}

/// Relies on `json::stringify`: an object with the name, the description and
/// the options (each required).
#[verifier::external_body]
fn encode_command(name: &str, description: &str, options: &Vec<(String, String, u8)>) -> (r: String)
    ensures
        r@ == command_json_of(
            name@,
            description@,
            options@.map_values(|o: (String, String, u8)| (o.0@, o.1@, o.2)),
        ),
{
    let mut list = json::JsonValue::new_array();
    for (n, d, t) in options {
        let mut o = json::JsonValue::new_object();
        o["name"] = n.as_str().into();
        o["description"] = d.as_str().into();
        o["type"] = (*t).into();
        o["required"] = true.into();
        let _ = list.push(o);
    }
    let mut obj = json::JsonValue::new_object();
    obj["name"] = name.into();
    obj["description"] = description.into();
    obj["options"] = list;
    json::stringify(obj)
}

impl CreateMessageData {
    /// The JSON body of this message. Relies on `json::stringify` on an object
    /// of its fields, absent flags written as `null`.
    #[verifier::external_body]
    pub fn to_json(&self) -> (r: String)
        ensures
            r@ == message_json_of(self.content@, self.tts, self.flags),
    {
        let mut obj = json::JsonValue::new_object();
        obj["content"] = self.content.as_str().into();
        obj["tts"] = self.tts.into();
        obj["flags"] = self.flags.into();
        json::stringify(obj)
    }
}

/// Plans the reconciliation of the local slash commands with the registry
/// listing that the server returned as JSON text. Text that does not parse,
/// or has a digit run the JSON parser cannot take, gives no plan.
pub fn reconcile_registry(local: &Vec<SlashCommand>, registry: &str) -> (r: Option<
    Vec<ReconcileOp>,
>)
    ensures
        !digit_runs_bounded(registry@) ==> r is None,
        digit_runs_bounded(registry@) ==> match registry_of(registry@) {
            Some(remote) => r matches Some(ops) && op_views(ops@) == plan_spec(
                slash_views(local@),
                remote,
            ),
            None => r is None,
        },
{
    if !digit_runs_ok(registry) {
        return None;
    }
    match decode_registry(registry) {
        Some(remote) => Some(plan_reconciliation(local, &remote)),
        None => None,
    }
}

/// The session input that a gateway message in JSON text stands for. Text
/// with a digit run the JSON parser cannot take stands for none.
pub fn frame_input(text: &str) -> (r: Option<GatewayInput>)
    ensures
        !digit_runs_bounded(text@) ==> r is None,
        digit_runs_bounded(text@) ==> match envelope_of(text@) {
            Some(e) => match r {
                Some(i) => classify_spec(e) == Some(i@),
                None => classify_spec(e) is None,
            },
            None => r is None,
        },
{
    if !digit_runs_ok(text) {
        return None;
    }
    match decode_envelope(text) {
        Some(e) => classify(e),
        None => None,
    }
}

/// The id in a JSON response (the bot user, or a created command). Text with
/// a digit run the JSON parser cannot take has none.
pub fn response_id(text: &str) -> (r: Option<String>)
    ensures
        !digit_runs_bounded(text@) ==> r is None,
        digit_runs_bounded(text@) ==> match r {
            Some(id) => id_of(text@) == Some(id@),
            None => id_of(text@) is None,
        },
{
    if !digit_runs_ok(text) {
        return None;
    }
    decode_id(text)
}

/// The JSON body that creates or updates `command` in the registry: its
/// options are its parameters, under their shown names, with their type codes.
pub fn command_body(command: &SlashCommand) -> (r: String)
    ensures
        r@ == command_json_of(command.name@, command.description@, local_options(command@)),
{
    let ghost lo = local_options(command@);
    let mut options: Vec<(String, String, u8)> = Vec::new();
    let mut i: usize = 0;
    while i < command.params.len()
        invariant
            i <= command.params@.len(),
            lo == local_options(command@),
            options@.map_values(|o: (String, String, u8)| (o.0@, o.1@, o.2)) == lo.subrange(
                0,
                i as int,
            ),
        decreases command.params@.len() - i,
    {
        let p = &command.params[i];
        let shown = match &p.rename {
            Some(n) => n.clone(),
            None => p.name.clone(),
        };
        let ghost before = options@.map_values(|o: (String, String, u8)| (o.0@, o.1@, o.2));
        options.push((shown, p.description.clone(), param_type_code(p.kind)));
        assert(options@.map_values(|o: (String, String, u8)| (o.0@, o.1@, o.2)) =~= before.push(
            lo[i as int],
        ));
        assert(lo.subrange(0, i + 1) =~= lo.subrange(0, i as int).push(lo[i as int]));
        i = i + 1;
    }
    assert(lo.subrange(0, lo.len() as int) =~= lo);
    encode_command(command.name.as_str(), command.description.as_str(), &options)
}

} // verus!
