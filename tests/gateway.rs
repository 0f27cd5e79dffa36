use descord::gateway::{
    classify, close_input, is_fatal_close, EventEnvelope, GatewayAction, GatewayInput, Session,
    SessionState,
};

fn ready_session() -> Session {
    let mut s = Session::new();
    s.step(GatewayInput::Connected);
    s.step(GatewayInput::Hello { heartbeat_interval: 41250 });
    s.step(GatewayInput::Ready {
        sequence: 1,
        session_id: "abc".to_string(),
        resume_gateway_url: "wss://resume".to_string(),
    });
    s
}

#[test]
fn handshake_reaches_ready_with_ready_sequence() {
    let mut s = Session::new();
    assert_eq!(s.state(), SessionState::Connecting);
    assert!(matches!(s.step(GatewayInput::Connected), GatewayAction::StartReadLoop));
    assert_eq!(s.state(), SessionState::AwaitingHello);
    assert!(matches!(
        s.step(GatewayInput::Hello { heartbeat_interval: 41250 }),
        GatewayAction::SendIdentify
    ));
    assert_eq!(s.state(), SessionState::Identifying);
    assert_eq!(s.heartbeat().interval, 41250);
    let a = s.step(GatewayInput::Ready {
        sequence: 7,
        session_id: "abc".to_string(),
        resume_gateway_url: "wss://resume".to_string(),
    });
    assert!(matches!(a, GatewayAction::Emit { sequence: 7 }));
    assert_eq!(s.state(), SessionState::Ready);
    assert_eq!(s.heartbeat().last_sequence, Some(7));
    assert_eq!(s.identity().as_ref().unwrap().last_sequence, 7);
}

#[test]
fn missed_ack_reconnects_and_keeps_identity() {
    let mut s = ready_session();
    let a = s.step(GatewayInput::HeartbeatDue { now: 100 });
    assert!(matches!(a, GatewayAction::SendHeartbeat { sequence: Some(1) }));
    assert!(s.heartbeat().ack_pending);
    let a = s.step(GatewayInput::HeartbeatDue { now: 200 });
    assert!(matches!(a, GatewayAction::Reconnect));
    assert_eq!(s.state(), SessionState::Reconnecting);
    let id = s.identity().as_ref().unwrap();
    assert_eq!(id.session_id, "abc");
    assert_eq!(id.last_sequence, 1);
}

#[test]
fn acked_heartbeat_keeps_session_ready() {
    let mut s = ready_session();
    s.step(GatewayInput::HeartbeatDue { now: 100 });
    s.step(GatewayInput::HeartbeatAck);
    assert!(!s.heartbeat().ack_pending);
    let a = s.step(GatewayInput::HeartbeatDue { now: 200 });
    assert!(matches!(a, GatewayAction::SendHeartbeat { sequence: Some(1) }));
    assert_eq!(s.state(), SessionState::Ready);
    assert_eq!(s.heartbeat().last_sent_at, 200);
}

#[test]
fn dispatch_sequence_never_decreases() {
    let mut s = ready_session();
    s.step(GatewayInput::Dispatch { sequence: 5 });
    assert_eq!(s.heartbeat().last_sequence, Some(5));
    let a = s.step(GatewayInput::Dispatch { sequence: 3 });
    assert!(matches!(a, GatewayAction::Emit { sequence: 3 }));
    assert_eq!(s.heartbeat().last_sequence, Some(5));
    assert_eq!(s.identity().as_ref().unwrap().last_sequence, 5);
}

#[test]
fn reconnect_then_hello_resumes() {
    let mut s = ready_session();
    s.step(GatewayInput::Dispatch { sequence: 9 });
    assert!(matches!(s.step(GatewayInput::Reconnect), GatewayAction::Reconnect));
    assert_eq!(s.state(), SessionState::Reconnecting);
    assert!(matches!(s.step(GatewayInput::Connected), GatewayAction::StartReadLoop));
    match s.step(GatewayInput::Hello { heartbeat_interval: 1000 }) {
        GatewayAction::SendResume { session_id, sequence } => {
            assert_eq!(session_id, "abc");
            assert_eq!(sequence, 9);
        }
        other => panic!("unexpected action {:?}", other),
    }
    assert_eq!(s.state(), SessionState::Resuming);
    assert!(matches!(s.step(GatewayInput::Resumed { sequence: 12 }), GatewayAction::Emit { sequence: 12 }));
    assert_eq!(s.state(), SessionState::Ready);
    assert_eq!(s.heartbeat().last_sequence, Some(12));
}

#[test]
fn resumable_invalid_session_keeps_identity() {
    let mut s = ready_session();
    let a = s.step(GatewayInput::InvalidSession { resumable: true });
    assert!(matches!(a, GatewayAction::Reconnect));
    assert_eq!(s.state(), SessionState::Reconnecting);
    assert!(s.identity().is_some());
}

#[test]
fn non_resumable_invalid_session_discards_identity() {
    let mut s = ready_session();
    let a = s.step(GatewayInput::InvalidSession { resumable: false });
    assert!(matches!(a, GatewayAction::Reconnect));
    assert_eq!(s.state(), SessionState::AwaitingHello);
    assert!(s.identity().is_none());
    assert!(matches!(
        s.step(GatewayInput::Hello { heartbeat_interval: 1000 }),
        GatewayAction::SendIdentify
    ));
}

#[test]
fn fatal_close_is_terminal() {
    let mut s = ready_session();
    assert!(matches!(s.step(GatewayInput::FatalClose), GatewayAction::Fatal));
    assert_eq!(s.state(), SessionState::Closed);
    assert!(s.identity().is_none());
    assert!(matches!(s.step(GatewayInput::Connected), GatewayAction::Nothing));
    assert!(matches!(s.step(GatewayInput::Reconnect), GatewayAction::Nothing));
    assert_eq!(s.state(), SessionState::Closed);
}

#[test]
fn frames_out_of_order_are_ignored() {
    let mut s = Session::new();
    assert!(matches!(s.step(GatewayInput::Hello { heartbeat_interval: 5 }), GatewayAction::Nothing));
    assert!(matches!(s.step(GatewayInput::Dispatch { sequence: 3 }), GatewayAction::Nothing));
    assert!(matches!(s.step(GatewayInput::HeartbeatDue { now: 1 }), GatewayAction::Nothing));
    assert_eq!(s.state(), SessionState::Connecting);
    assert_eq!(s.heartbeat().last_sequence, None);
}

#[test]
fn heartbeat_request_is_answered_at_once() {
    let mut s = ready_session();
    let a = s.step(GatewayInput::HeartbeatRequest);
    assert!(matches!(a, GatewayAction::SendHeartbeat { sequence: Some(1) }));
    assert!(!s.heartbeat().ack_pending);
    assert_eq!(s.state(), SessionState::Ready);
}

fn envelope(opcode: u64, sequence: Option<u64>, name: Option<&str>) -> EventEnvelope {
    EventEnvelope {
        opcode,
        sequence,
        event_name: name.map(|n| n.to_string()),
        heartbeat_interval: None,
        resumable: false,
        session_id: None,
        resume_gateway_url: None,
    }
}

#[test]
fn frames_classify_by_opcode_and_name() {
    let mut hello = envelope(10, None, None);
    hello.heartbeat_interval = Some(41250);
    assert!(matches!(classify(hello), Some(GatewayInput::Hello { heartbeat_interval: 41250 })));
    assert!(classify(envelope(10, None, None)).is_none());
    assert!(matches!(classify(envelope(11, None, None)), Some(GatewayInput::HeartbeatAck)));
    assert!(matches!(classify(envelope(1, None, None)), Some(GatewayInput::HeartbeatRequest)));
    assert!(matches!(classify(envelope(7, None, None)), Some(GatewayInput::Reconnect)));
    let mut invalid = envelope(9, None, None);
    invalid.resumable = true;
    assert!(matches!(classify(invalid), Some(GatewayInput::InvalidSession { resumable: true })));
    assert!(matches!(
        classify(envelope(0, Some(4), Some("MESSAGE_CREATE"))),
        Some(GatewayInput::Dispatch { sequence: 4 })
    ));
    assert!(matches!(
        classify(envelope(0, Some(8), Some("RESUMED"))),
        Some(GatewayInput::Resumed { sequence: 8 })
    ));
    let mut ready = envelope(0, Some(1), Some("READY"));
    ready.session_id = Some("sid".to_string());
    match classify(ready) {
        Some(GatewayInput::Ready { sequence, session_id, resume_gateway_url }) => {
            assert_eq!(sequence, 1);
            assert_eq!(session_id, "sid");
            assert_eq!(resume_gateway_url, "");
        }
        other => panic!("unexpected input {:?}", other),
    }
    assert!(classify(envelope(42, None, None)).is_none());
}

#[test]
fn fatal_close_codes() {
    assert!(is_fatal_close(4004));
    assert!(is_fatal_close(4014));
    assert!(!is_fatal_close(1000));
    assert!(!is_fatal_close(4000));
    assert!(matches!(close_input(4004), GatewayInput::FatalClose));
    assert!(matches!(close_input(1006), GatewayInput::Reconnect));
}

#[test]
fn heartbeat_request_waits_for_pending_ack() {
    let mut s = ready_session();
    s.step(GatewayInput::HeartbeatDue { now: 100 });
    let a = s.step(GatewayInput::HeartbeatRequest);
    assert!(matches!(a, GatewayAction::Nothing));
    assert!(s.heartbeat().ack_pending);
    s.step(GatewayInput::HeartbeatAck);
    let a = s.step(GatewayInput::HeartbeatRequest);
    assert!(matches!(a, GatewayAction::SendHeartbeat { sequence: Some(1) }));
}

#[test]
fn reconnect_address_follows_identity() {
    let mut s = Session::new();
    assert_eq!(s.reconnect_url("wss://default"), "wss://default");
    s.step(GatewayInput::Connected);
    s.step(GatewayInput::Hello { heartbeat_interval: 10 });
    s.step(GatewayInput::Ready {
        sequence: 1,
        session_id: "abc".to_string(),
        resume_gateway_url: "wss://resume".to_string(),
    });
    assert_eq!(s.reconnect_url("wss://default"), "wss://resume");
    s.step(GatewayInput::InvalidSession { resumable: false });
    assert_eq!(s.reconnect_url("wss://default"), "wss://default");
}
