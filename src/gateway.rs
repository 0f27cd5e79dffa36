use vstd::prelude::*;

use crate::text::str_eq;

verus! {

/// Gateway opcode: a dispatched event.
pub const OP_DISPATCH: u64 = 0;
/// Gateway opcode: a heartbeat.
pub const OP_HEARTBEAT: u64 = 1;
/// Gateway opcode: the Identify handshake.
pub const OP_IDENTIFY: u64 = 2;
/// Gateway opcode: the Resume handshake.
pub const OP_RESUME: u64 = 6;
/// Gateway opcode: the server asks for a reconnect.
pub const OP_RECONNECT: u64 = 7;
/// Gateway opcode: the session was invalidated.
pub const OP_INVALID_SESSION: u64 = 9;
/// Gateway opcode: the server greeting that carries the heartbeat interval.
pub const OP_HELLO: u64 = 10;
/// Gateway opcode: acknowledgement of a heartbeat.
pub const OP_HEARTBEAT_ACK: u64 = 11;

/// Where a gateway session stands.
#[derive(Debug, Clone, Copy, PartialEq, Eq, Structural)]
pub enum SessionState {
    Connecting,
    AwaitingHello,
    Identifying,
    Resuming,
    Ready,
    Reconnecting,
    Closed,
}

/// Heartbeat bookkeeping: the interval in milliseconds, when the last heartbeat
/// went out, whether its acknowledgement is still awaited, and the latest
/// sequence number seen.
#[derive(Debug, Clone, Copy, PartialEq, Eq, Structural)]
pub struct HeartbeatState {
    pub interval: u64,
    pub last_sent_at: u64,
    pub ack_pending: bool,
    pub last_sequence: Option<u64>,
}

/// What a Resume needs: the session id, the last sequence and the gateway
/// address to resume against.
#[derive(Debug, Clone)]
pub struct SessionIdentity {
    pub session_id: String,
    pub last_sequence: u64,
    pub resume_gateway_url: String,
}

pub struct IdentityView {
    pub session_id: Seq<char>,
    pub last_sequence: u64,
    pub resume_gateway_url: Seq<char>,
}

impl View for SessionIdentity {
    type V = IdentityView;

    open spec fn view(&self) -> IdentityView {
        IdentityView {
            session_id: self.session_id@,
            last_sequence: self.last_sequence,
            resume_gateway_url: self.resume_gateway_url@,
        }
    }
}

/// One thing that happened to the session: the transport came up, a frame
/// arrived (a heartbeat request is the server asking for a heartbeat at
/// once; it is answered only when no acknowledgement is pending), the
/// heartbeat timer fired, or the transport closed fatally.
#[derive(Debug, Clone)]
pub enum GatewayInput {
    Connected,
    Hello { heartbeat_interval: u64 },
    Ready { sequence: u64, session_id: String, resume_gateway_url: String },
    Resumed { sequence: u64 },
    Dispatch { sequence: u64 },
    HeartbeatAck,
    HeartbeatDue { now: u64 },
    HeartbeatRequest,
    Reconnect,
    InvalidSession { resumable: bool },
    FatalClose,
}

pub enum InputView {
    Connected,
    Hello { heartbeat_interval: u64 },
    Ready { sequence: u64, session_id: Seq<char>, resume_gateway_url: Seq<char> },
    Resumed { sequence: u64 },
    Dispatch { sequence: u64 },
    HeartbeatAck,
    HeartbeatDue { now: u64 },
    HeartbeatRequest,
    Reconnect,
    InvalidSession { resumable: bool },
    FatalClose,
}

impl View for GatewayInput {
    type V = InputView;

    open spec fn view(&self) -> InputView {
        match self {
            GatewayInput::Connected => InputView::Connected,
            GatewayInput::Hello { heartbeat_interval } => InputView::Hello {
                heartbeat_interval: *heartbeat_interval,
            },
            GatewayInput::Ready { sequence, session_id, resume_gateway_url } => InputView::Ready {
                sequence: *sequence,
                session_id: session_id@,
                resume_gateway_url: resume_gateway_url@,
            },
            GatewayInput::Resumed { sequence } => InputView::Resumed { sequence: *sequence },
            GatewayInput::Dispatch { sequence } => InputView::Dispatch { sequence: *sequence },
            GatewayInput::HeartbeatAck => InputView::HeartbeatAck,
            GatewayInput::HeartbeatDue { now } => InputView::HeartbeatDue { now: *now },
            GatewayInput::HeartbeatRequest => InputView::HeartbeatRequest,
            GatewayInput::Reconnect => InputView::Reconnect,
            GatewayInput::InvalidSession { resumable } => InputView::InvalidSession {
                resumable: *resumable,
            },
            GatewayInput::FatalClose => InputView::FatalClose,
        }
    }
}

/// What the driver of the connection must do next.
#[derive(Debug, Clone)]
pub enum GatewayAction {
    Nothing,
    StartReadLoop,
    SendIdentify,
    SendResume { session_id: String, sequence: u64 },
    SendHeartbeat { sequence: Option<u64> },
    Emit { sequence: u64 },
    Reconnect,
    Fatal,
}

pub enum ActionView {
    Nothing,
    StartReadLoop,
    SendIdentify,
    SendResume { session_id: Seq<char>, sequence: u64 },
    SendHeartbeat { sequence: Option<u64> },
    Emit { sequence: u64 },
    Reconnect,
    Fatal,
}

impl View for GatewayAction {
    type V = ActionView;

    open spec fn view(&self) -> ActionView {
        match self {
            GatewayAction::Nothing => ActionView::Nothing,
            GatewayAction::StartReadLoop => ActionView::StartReadLoop,
            GatewayAction::SendIdentify => ActionView::SendIdentify,
            GatewayAction::SendResume { session_id, sequence } => ActionView::SendResume {
                session_id: session_id@,
                sequence: *sequence,
            },
            GatewayAction::SendHeartbeat { sequence } => ActionView::SendHeartbeat {
                sequence: *sequence,
            },
            GatewayAction::Emit { sequence } => ActionView::Emit { sequence: *sequence },
            GatewayAction::Reconnect => ActionView::Reconnect,
            GatewayAction::Fatal => ActionView::Fatal,
        }
    }
}

/// The gateway session: its state, its heartbeat and, while it can be resumed,
/// its identity.
#[derive(Debug)]
pub struct Session {
    state: SessionState,
    heartbeat: HeartbeatState,
    identity: Option<SessionIdentity>,
}

pub struct SessionView {
    pub state: SessionState,
    pub heartbeat: HeartbeatState,
    pub identity: Option<IdentityView>,
}

impl View for Session {
    type V = SessionView;

    closed spec fn view(&self) -> SessionView {
        SessionView {
            state: self.state,
            heartbeat: self.heartbeat,
            identity: match self.identity {
                Some(id) => Some(id@),
                None => None,
            },
        }
    }
}

impl SessionView {
    /// The session's invariant: a closed session keeps no identity, a ready one
    /// has one, and the identity's sequence is the latest one seen.
    pub open spec fn wf(self) -> bool {
        &&& (self.state == SessionState::Closed ==> self.identity is None)
        &&& (self.state == SessionState::Ready ==> self.identity is Some)
        &&& (self.identity matches Some(id) ==> self.heartbeat.last_sequence == Some(
            id.last_sequence,
        ))
    }

    /// The heartbeat timer runs from the Hello until the session leaves.
    pub open spec fn heartbeating(self) -> bool {
        self.state == SessionState::Identifying || self.state == SessionState::Resuming
            || self.state == SessionState::Ready
    }
}

/// The session before the transport is up.
pub open spec fn initial_session() -> SessionView {
    SessionView {
        state: SessionState::Connecting,
        heartbeat: HeartbeatState {
            interval: 0,
            last_sent_at: 0,
            ack_pending: false,
            last_sequence: None,
        },
        identity: None,
    }
}

/// Sets the latest sequence number, in the heartbeat and in the identity.
pub open spec fn with_sequence(s: SessionView, sequence: u64) -> SessionView {
    SessionView {
        heartbeat: HeartbeatState { last_sequence: Some(sequence), ..s.heartbeat },
        identity: match s.identity {
            Some(id) => Some(IdentityView { last_sequence: sequence, ..id }),
            None => None,
        },
        ..s
    }
}

/// The larger of the sequence seen so far and a newly dispatched one.
pub open spec fn advanced(current: Option<u64>, sequence: u64) -> u64 {
    match current {
        Some(c) => if sequence > c {
            sequence
        } else {
            c
        },
        None => sequence,
    }
}

/// The transition table of the session: the next session and the action due.
pub open spec fn step_spec(s: SessionView, input: InputView) -> (SessionView, ActionView) {
    if s.state == SessionState::Closed {
        (s, ActionView::Nothing)
    } else {
        match input {
            InputView::Connected => if s.state == SessionState::Connecting || s.state
                == SessionState::Reconnecting {
                (SessionView { state: SessionState::AwaitingHello, ..s }, ActionView::StartReadLoop)
            } else {
                (s, ActionView::Nothing)
            },
            InputView::Hello { heartbeat_interval } => if s.state == SessionState::AwaitingHello {
                let hb = HeartbeatState {
                    interval: heartbeat_interval,
                    ack_pending: false,
                    ..s.heartbeat
                };
                match s.identity {
                    Some(id) => (
                        SessionView { state: SessionState::Resuming, heartbeat: hb, ..s },
                        ActionView::SendResume {
                            session_id: id.session_id,
                            sequence: id.last_sequence,
                        },
                    ),
                    None => (
                        SessionView {
                            state: SessionState::Identifying,
                            heartbeat: HeartbeatState { last_sequence: None, ..hb },
                            identity: None,
                        },
                        ActionView::SendIdentify,
                    ),
                }
            } else {
                (s, ActionView::Nothing)
            },
            InputView::Ready { sequence, session_id, resume_gateway_url } => if s.state
                == SessionState::Identifying {
                (
                    SessionView {
                        state: SessionState::Ready,
                        heartbeat: HeartbeatState { last_sequence: Some(sequence), ..s.heartbeat },
                        identity: Some(
                            IdentityView {
                                session_id,
                                last_sequence: sequence,
                                resume_gateway_url,
                            },
                        ),
                    },
                    ActionView::Emit { sequence },
                )
            } else {
                (s, ActionView::Nothing)
            },
            InputView::Resumed { sequence } => if s.state == SessionState::Resuming
                && s.identity is Some {
                (
                    SessionView { state: SessionState::Ready, ..with_sequence(s, sequence) },
                    ActionView::Emit { sequence },
                )
            } else {
                (s, ActionView::Nothing)
            },
            InputView::Dispatch { sequence } => if s.state == SessionState::Ready || s.state
                == SessionState::Resuming {
                (
                    with_sequence(s, advanced(s.heartbeat.last_sequence, sequence)),
                    ActionView::Emit { sequence },
                )
            } else {
                (s, ActionView::Nothing)
            },
            InputView::HeartbeatAck => if s.heartbeating() {
                (
                    SessionView {
                        heartbeat: HeartbeatState { ack_pending: false, ..s.heartbeat },
                        ..s
                    },
                    ActionView::Nothing,
                )
            } else {
                (s, ActionView::Nothing)
            },
            InputView::HeartbeatDue { now } => if !s.heartbeating() {
                (s, ActionView::Nothing)
            } else if s.heartbeat.ack_pending {
                (SessionView { state: SessionState::Reconnecting, ..s }, ActionView::Reconnect)
            } else {
                (
                    SessionView {
                        heartbeat: HeartbeatState {
                            ack_pending: true,
                            last_sent_at: now,
                            ..s.heartbeat
                        },
                        ..s
                    },
                    ActionView::SendHeartbeat { sequence: s.heartbeat.last_sequence },
                )
            },
            InputView::HeartbeatRequest => if s.heartbeating() && !s.heartbeat.ack_pending {
                (s, ActionView::SendHeartbeat { sequence: s.heartbeat.last_sequence })
            } else {
                (s, ActionView::Nothing)
            },
            InputView::Reconnect => (
                SessionView { state: SessionState::Reconnecting, ..s },
                ActionView::Reconnect,
            ),
            InputView::InvalidSession { resumable } => if resumable {
                (SessionView { state: SessionState::Reconnecting, ..s }, ActionView::Reconnect)
            } else {
                (
                    SessionView {
                        state: SessionState::AwaitingHello,
                        heartbeat: HeartbeatState { last_sequence: None, ..s.heartbeat },
                        identity: None,
                    },
                    ActionView::Reconnect,
                )
            },
            InputView::FatalClose => (
                SessionView { state: SessionState::Closed, identity: None, ..s },
                ActionView::Fatal,
            ),
        }
    }
}

impl Session {
    /// A session whose transport is not yet up.
    pub fn new() -> (r: Session)
        ensures
            r@ == initial_session(),
            r@.wf(),
    {
        Session {
            state: SessionState::Connecting,
            heartbeat: HeartbeatState {
                interval: 0,
                last_sent_at: 0,
                ack_pending: false,
                last_sequence: None,
            },
            identity: None,
        }
    }

    pub fn state(&self) -> (r: SessionState)
        ensures
            r == self@.state,
    {
        self.state
    }

    pub fn heartbeat(&self) -> (r: HeartbeatState)
        ensures
            r == self@.heartbeat,
    {
        self.heartbeat
    }

    pub fn identity(&self) -> (r: &Option<SessionIdentity>)
        ensures
            r matches Some(id) ==> self@.identity == Some(id@),
            r is None ==> self@.identity is None,
    {
        &self.identity
    }

    /// Feeds one input to the session: moves it along the transition table and
    /// returns the action that the driver must perform.
    pub fn step(&mut self, input: GatewayInput) -> (r: GatewayAction)
        ensures
            (final(self)@, r@) == step_spec(old(self)@, input@),
            old(self)@.wf() ==> final(self)@.wf(),
    {
        if self.state == SessionState::Closed {
            return GatewayAction::Nothing;
        }
        match input {
            GatewayInput::Connected => {
                if self.state == SessionState::Connecting || self.state
                    == SessionState::Reconnecting {
                    self.state = SessionState::AwaitingHello;
                    GatewayAction::StartReadLoop
                } else {
                    GatewayAction::Nothing
                }
            },
            GatewayInput::Hello { heartbeat_interval } => {
                if self.state != SessionState::AwaitingHello {
                    return GatewayAction::Nothing;
                }
                self.heartbeat.interval = heartbeat_interval;
                self.heartbeat.ack_pending = false;
                match &self.identity {
                    Some(id) => {
                        let action = GatewayAction::SendResume {
                            session_id: id.session_id.clone(),
                            sequence: id.last_sequence,
                        };
                        self.state = SessionState::Resuming;
                        action
                    },
                    None => {
                        self.state = SessionState::Identifying;
                        self.heartbeat.last_sequence = None;
                        GatewayAction::SendIdentify
                    },
                }
            },
            GatewayInput::Ready { sequence, session_id, resume_gateway_url } => {
                if self.state != SessionState::Identifying {
                    return GatewayAction::Nothing;
                }
                self.state = SessionState::Ready;
                self.heartbeat.last_sequence = Some(sequence);
                self.identity = Some(
                    SessionIdentity { session_id, last_sequence: sequence, resume_gateway_url },
                );
                GatewayAction::Emit { sequence }
            },
            GatewayInput::Resumed { sequence } => {
                if self.state != SessionState::Resuming || self.identity.is_none() {
                    return GatewayAction::Nothing;
                }
                self.set_sequence(sequence);
                self.state = SessionState::Ready;
                GatewayAction::Emit { sequence }
            },
            GatewayInput::Dispatch { sequence } => {
                if self.state != SessionState::Ready && self.state != SessionState::Resuming {
                    return GatewayAction::Nothing;
                }
                let next = match self.heartbeat.last_sequence {
                    Some(c) => if sequence > c {
                        sequence
                    } else {
                        c
                    },
                    None => sequence,
                };
                self.set_sequence(next);
                GatewayAction::Emit { sequence }
            },
            GatewayInput::HeartbeatAck => {
                if self.is_heartbeating() {
                    self.heartbeat.ack_pending = false;
                }
                GatewayAction::Nothing
            },
            GatewayInput::HeartbeatDue { now } => {
                if !self.is_heartbeating() {
                    GatewayAction::Nothing
                } else if self.heartbeat.ack_pending {
                    self.state = SessionState::Reconnecting;
                    GatewayAction::Reconnect
                } else {
                    self.heartbeat.ack_pending = true;
                    self.heartbeat.last_sent_at = now;
                    GatewayAction::SendHeartbeat { sequence: self.heartbeat.last_sequence }
                }
            },
            GatewayInput::HeartbeatRequest => {
                if self.is_heartbeating() && !self.heartbeat.ack_pending {
                    GatewayAction::SendHeartbeat { sequence: self.heartbeat.last_sequence }
                } else {
                    GatewayAction::Nothing
                }
            },
            GatewayInput::Reconnect => {
                self.state = SessionState::Reconnecting;
                GatewayAction::Reconnect
            },
            GatewayInput::InvalidSession { resumable } => {
                if resumable {
                    self.state = SessionState::Reconnecting;
                } else {
                    self.state = SessionState::AwaitingHello;
                    self.heartbeat.last_sequence = None;
                    self.identity = None;
                }
                GatewayAction::Reconnect
            },
            GatewayInput::FatalClose => {
                self.state = SessionState::Closed;
                self.identity = None;
                GatewayAction::Fatal
            },
        }
    }

    /// The address to connect to next: the resume address of the identity,
    /// if there is one and it is not empty, else `default`.
    pub fn reconnect_url(&self, default: &str) -> (r: String)
        ensures
            r@ == (match self@.identity {
                Some(id) => if id.resume_gateway_url.len() > 0 {
                    id.resume_gateway_url
                } else {
                    default@
                },
                None => default@,
            }),
    {
        match &self.identity {
            Some(id) => if id.resume_gateway_url.unicode_len() > 0 {
                id.resume_gateway_url.clone()
            } else {
                String::from_str(default)
            },
            None => String::from_str(default),
        }
    }

    fn is_heartbeating(&self) -> (r: bool)
        ensures
            r == self@.heartbeating(),
    {
        self.state == SessionState::Identifying || self.state == SessionState::Resuming
            || self.state == SessionState::Ready
    }

    fn set_sequence(&mut self, sequence: u64)
        ensures
            final(self)@ == with_sequence(old(self)@, sequence),
    {
        self.heartbeat.last_sequence = Some(sequence);
        match &mut self.identity {
            Some(id) => {
                id.last_sequence = sequence;
            },
            None => {},
        }
    }
}

/// A Hello followed by the READY dispatch brings a fresh session to Ready, with
/// the READY dispatch's sequence as its latest sequence.
pub proof fn lemma_handshake_reaches_ready(
    heartbeat_interval: u64,
    sequence: u64,
    session_id: Seq<char>,
    resume_gateway_url: Seq<char>,
)
    ensures
        ({
            let (s1, a1) = step_spec(initial_session(), InputView::Connected);
            let (s2, a2) = step_spec(s1, InputView::Hello { heartbeat_interval });
            let (s3, a3) = step_spec(
                s2,
                InputView::Ready { sequence, session_id, resume_gateway_url },
            );
            &&& a2 == ActionView::SendIdentify
            &&& s3.state == SessionState::Ready
            &&& s3.heartbeat.last_sequence == Some(sequence)
            &&& s3.identity matches Some(id) && id.last_sequence == sequence
        }),
{
}

/// A heartbeat that goes unacknowledged until the next interval elapses sends a
/// ready session to Reconnecting, and its identity survives the transition.
pub proof fn lemma_missed_ack_reconnects(s: SessionView, sent_at: u64, due_at: u64)
    requires
        s.wf(),
        s.state == SessionState::Ready,
        !s.heartbeat.ack_pending,
    ensures
        ({
            let (s1, a1) = step_spec(s, InputView::HeartbeatDue { now: sent_at });
            let (s2, a2) = step_spec(s1, InputView::HeartbeatDue { now: due_at });
            &&& a1 == ActionView::SendHeartbeat { sequence: s.heartbeat.last_sequence }
            &&& s2.state == SessionState::Reconnecting
            &&& a2 == ActionView::Reconnect
            &&& s2.identity == s.identity
            &&& s2.identity is Some
        }),
{
}

/// No heartbeat goes out while the previous one is unacknowledged.
pub proof fn lemma_no_heartbeat_while_ack_pending(s: SessionView, input: InputView)
    requires
        s.heartbeat.ack_pending,
    ensures
        !(step_spec(s, input).1 is SendHeartbeat),
{
}

/// While the session stays Ready, its latest sequence number never decreases,
/// and the session keeps an identity to resume with.
pub proof fn lemma_sequence_monotone_while_ready(s: SessionView, input: InputView)
    requires
        s.wf(),
        s.state == SessionState::Ready,
        step_spec(s, input).0.state == SessionState::Ready,
    ensures
        ({
            let next = step_spec(s, input).0;
            &&& next.wf()
            &&& next.heartbeat.last_sequence matches Some(n) && n >= s.heartbeat.last_sequence->0
        }),
{
}

/// A decoded inbound frame: its opcode, sequence number and event name, and
/// the payload fields that the session reads.
#[derive(Debug, Clone)]
pub struct EventEnvelope {
    pub opcode: u64,
    pub sequence: Option<u64>,
    pub event_name: Option<String>,
    pub heartbeat_interval: Option<u64>,
    pub resumable: bool,
    pub session_id: Option<String>,
    pub resume_gateway_url: Option<String>,
}

pub struct EnvelopeView {
    pub opcode: u64,
    pub sequence: Option<u64>,
    pub event_name: Option<Seq<char>>,
    pub heartbeat_interval: Option<u64>,
    pub resumable: bool,
    pub session_id: Option<Seq<char>>,
    pub resume_gateway_url: Option<Seq<char>>,
}

pub open spec fn opt_view(o: Option<String>) -> Option<Seq<char>> {
    match o {
        Some(s) => Some(s@),
        None => None,
    }
}

impl View for EventEnvelope {
    type V = EnvelopeView;

    open spec fn view(&self) -> EnvelopeView {
        EnvelopeView {
            opcode: self.opcode,
            sequence: self.sequence,
            event_name: opt_view(self.event_name),
            heartbeat_interval: self.heartbeat_interval,
            resumable: self.resumable,
            session_id: opt_view(self.session_id),
            resume_gateway_url: opt_view(self.resume_gateway_url),
        }
    }
}

pub open spec fn text_or_empty(o: Option<Seq<char>>) -> Seq<char> {
    match o {
        Some(s) => s,
        None => Seq::empty(),
    }
}

/// What an inbound frame means to the session. A Hello without an interval
/// and an unknown opcode mean nothing; a dispatch without a sequence counts
/// as sequence 0.
pub open spec fn classify_spec(e: EnvelopeView) -> Option<InputView> {
    let seq = match e.sequence {
        Some(n) => n,
        None => 0,
    };
    if e.opcode == OP_HELLO {
        match e.heartbeat_interval {
            Some(i) => Some(InputView::Hello { heartbeat_interval: i }),
            None => None,
        }
    } else if e.opcode == OP_HEARTBEAT_ACK {
        Some(InputView::HeartbeatAck)
    } else if e.opcode == OP_HEARTBEAT {
        Some(InputView::HeartbeatRequest)
    } else if e.opcode == OP_RECONNECT {
        Some(InputView::Reconnect)
    } else if e.opcode == OP_INVALID_SESSION {
        Some(InputView::InvalidSession { resumable: e.resumable })
    } else if e.opcode == OP_DISPATCH {
        if e.event_name == Some("READY"@) {
            Some(
                InputView::Ready {
                    sequence: seq,
                    session_id: text_or_empty(e.session_id),
                    resume_gateway_url: text_or_empty(e.resume_gateway_url),
                },
            )
        } else if e.event_name == Some("RESUMED"@) {
            Some(InputView::Resumed { sequence: seq })
        } else {
            Some(InputView::Dispatch { sequence: seq })
        }
    } else {
        None
    }
}

fn take_or_empty(o: Option<String>) -> (r: String)
    ensures
        r@ == text_or_empty(opt_view(o)),
{
    match o {
        Some(s) => s,
        None => String::new(),
    }
}

fn name_is(name: &Option<String>, expected: &str) -> (r: bool)
    ensures
        r == (opt_view(*name) == Some(expected@)),
{
    match name {
        Some(n) => str_eq(n.as_str(), expected),
        None => false,
    }
}

/// Turns a decoded frame into the session input it stands for.
pub fn classify(e: EventEnvelope) -> (r: Option<GatewayInput>)
    ensures
        match r {
            Some(i) => classify_spec(e@) == Some(i@),
            None => classify_spec(e@) is None,
        },
{
    let seq = match e.sequence {
        Some(n) => n,
        None => 0,
    };
    if e.opcode == OP_HELLO {
        match e.heartbeat_interval {
            Some(i) => Some(GatewayInput::Hello { heartbeat_interval: i }),
            None => None,
        }
    } else if e.opcode == OP_HEARTBEAT_ACK {
        Some(GatewayInput::HeartbeatAck)
    } else if e.opcode == OP_HEARTBEAT {
        Some(GatewayInput::HeartbeatRequest)
    } else if e.opcode == OP_RECONNECT {
        Some(GatewayInput::Reconnect)
    } else if e.opcode == OP_INVALID_SESSION {
        Some(GatewayInput::InvalidSession { resumable: e.resumable })
    } else if e.opcode == OP_DISPATCH {
        if name_is(&e.event_name, "READY") {
            Some(
                GatewayInput::Ready {
                    sequence: seq,
                    session_id: take_or_empty(e.session_id),
                    resume_gateway_url: take_or_empty(e.resume_gateway_url),
                },
            )
        } else if name_is(&e.event_name, "RESUMED") {
            Some(GatewayInput::Resumed { sequence: seq })
        } else {
            Some(GatewayInput::Dispatch { sequence: seq })
        }
    } else {
        None
    }
}

/// Close codes after which the session must not be retried: authentication
/// failed, or the shard, API version or intents were refused.
pub open spec fn fatal_close_spec(code: u16) -> bool {
    code == 4004 || code == 4010 || code == 4011 || code == 4012 || code == 4013 || code == 4014
}

/// Whether a close code ends the session for good.
pub fn is_fatal_close(code: u16) -> (r: bool)
    ensures
        r == fatal_close_spec(code),
{
    code == 4004 || code == 4010 || code == 4011 || code == 4012 || code == 4013 || code == 4014
}

/// The input that a transport close with `code` stands for.
pub fn close_input(code: u16) -> (r: GatewayInput)
    ensures
        fatal_close_spec(code) ==> r@ == InputView::FatalClose,
        !fatal_close_spec(code) ==> r@ == InputView::Reconnect,
{
    if is_fatal_close(code) {
        GatewayInput::FatalClose
    } else {
        GatewayInput::Reconnect
    }
}

} // verus!
