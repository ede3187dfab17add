use discord_rs::session::{
    backoff_delay, GatewayEvent, Phase, Session, SessionAction,
};

fn connect_to_ready(s: &mut Session, session_id: &str) {
    assert!(matches!(s.step(GatewayEvent::ConnectRequested), SessionAction::OpenTransport));
    assert!(matches!(s.step(GatewayEvent::TransportOpened), SessionAction::DoNothing));
    let a = s.step(GatewayEvent::Hello { heartbeat_interval: 41250 });
    assert!(matches!(a, SessionAction::SendIdentify));
    assert_eq!(s.phase, Phase::Identifying);
    s.step(GatewayEvent::ReadyReceived { session_id: session_id.to_string() });
    assert_eq!(s.phase, Phase::Ready);
}

#[test]
fn fresh_session_identifies_and_captures_session_id() {
    let mut s = Session::new();
    connect_to_ready(&mut s, "abc123");
    assert_eq!(s.session_id.as_deref(), Some("abc123"));
    assert_eq!(s.heartbeat_interval, 41250);
}

#[test]
fn dispatch_updates_sequence_monotonically_and_forwards() {
    let mut s = Session::new();
    connect_to_ready(&mut s, "abc123");
    match s.step(GatewayEvent::Dispatch { sequence: 3 }) {
        SessionAction::Forward { sequence } => assert_eq!(sequence, 3),
        _ => panic!("dispatch payloads are forwarded when Ready"),
    }
    assert_eq!(s.sequence, Some(3));
    s.step(GatewayEvent::Dispatch { sequence: 7 });
    assert_eq!(s.sequence, Some(7));
    // An out-of-order smaller ordinal never moves the tracked value back.
    s.step(GatewayEvent::Dispatch { sequence: 5 });
    assert_eq!(s.sequence, Some(7));
}

#[test]
fn dispatch_is_not_forwarded_before_ready() {
    let mut s = Session::new();
    s.step(GatewayEvent::ConnectRequested);
    s.step(GatewayEvent::TransportOpened);
    assert!(matches!(
        s.step(GatewayEvent::Dispatch { sequence: 9 }),
        SessionAction::DoNothing
    ));
    assert_eq!(s.sequence, None);
}

#[test]
fn resumable_disconnect_resumes_with_prior_identity() {
    let mut s = Session::new();
    connect_to_ready(&mut s, "sess-1");
    s.step(GatewayEvent::Dispatch { sequence: 12 });
    let a = s.step(GatewayEvent::TransportClosed { resumable: true });
    assert!(matches!(a, SessionAction::ScheduleBackoff { .. }));
    assert_eq!(s.phase, Phase::Reconnecting);
    s.step(GatewayEvent::BackoffElapsed);
    s.step(GatewayEvent::TransportOpened);
    match s.step(GatewayEvent::Hello { heartbeat_interval: 41250 }) {
        SessionAction::SendResume { session_id, sequence } => {
            assert_eq!(session_id, "sess-1");
            assert_eq!(sequence, 12);
        }
        _ => panic!("a resumable disconnect resumes"),
    }
    assert_eq!(s.phase, Phase::Resuming);
    s.step(GatewayEvent::ResumedReceived);
    assert_eq!(s.phase, Phase::Ready);
}

#[test]
fn non_resumable_disconnect_identifies_afresh() {
    let mut s = Session::new();
    connect_to_ready(&mut s, "sess-1");
    s.step(GatewayEvent::Dispatch { sequence: 12 });
    s.step(GatewayEvent::InvalidSession { resumable: false });
    assert_eq!(s.phase, Phase::Reconnecting);
    assert_eq!(s.session_id, None);
    assert_eq!(s.sequence, None);
    s.step(GatewayEvent::BackoffElapsed);
    s.step(GatewayEvent::TransportOpened);
    assert!(matches!(
        s.step(GatewayEvent::Hello { heartbeat_interval: 41250 }),
        SessionAction::SendIdentify
    ));
    assert_eq!(s.phase, Phase::Identifying);
}

#[test]
fn missed_heartbeat_degrades_then_second_miss_reconnects_resumably() {
    let mut s = Session::new();
    connect_to_ready(&mut s, "sess-9");
    s.step(GatewayEvent::Dispatch { sequence: 4 });
    // First interval: heartbeat sent, awaiting the ack.
    match s.step(GatewayEvent::HeartbeatDue) {
        SessionAction::SendHeartbeat { sequence } => assert_eq!(sequence, Some(4)),
        _ => panic!("heartbeat due sends a heartbeat"),
    }
    assert_eq!(s.phase, Phase::Ready);
    // No ack arrived: one grace interval, degraded but still heartbeating.
    assert!(matches!(
        s.step(GatewayEvent::HeartbeatDue),
        SessionAction::SendHeartbeat { .. }
    ));
    assert_eq!(s.phase, Phase::Degraded);
    // Second consecutive miss forces a reconnect; the session id is held, so
    // the resumable path is taken.
    assert!(matches!(
        s.step(GatewayEvent::HeartbeatDue),
        SessionAction::ScheduleBackoff { .. }
    ));
    assert_eq!(s.phase, Phase::Reconnecting);
    assert_eq!(s.session_id.as_deref(), Some("sess-9"));
    s.step(GatewayEvent::BackoffElapsed);
    s.step(GatewayEvent::TransportOpened);
    assert!(matches!(
        s.step(GatewayEvent::Hello { heartbeat_interval: 41250 }),
        SessionAction::SendResume { .. }
    ));
}

#[test]
fn ack_in_grace_interval_restores_ready() {
    let mut s = Session::new();
    connect_to_ready(&mut s, "sess-2");
    s.step(GatewayEvent::HeartbeatDue);
    s.step(GatewayEvent::HeartbeatDue);
    assert_eq!(s.phase, Phase::Degraded);
    s.step(GatewayEvent::HeartbeatAckReceived);
    assert_eq!(s.phase, Phase::Ready);
}

#[test]
fn hello_timeout_retries_the_connect() {
    let mut s = Session::new();
    s.step(GatewayEvent::ConnectRequested);
    s.step(GatewayEvent::TransportOpened);
    assert!(matches!(
        s.step(GatewayEvent::HelloTimeout),
        SessionAction::ScheduleBackoff { .. }
    ));
    assert_eq!(s.phase, Phase::Reconnecting);
    assert!(matches!(s.step(GatewayEvent::BackoffElapsed), SessionAction::OpenTransport));
    assert_eq!(s.phase, Phase::Connecting);
}

#[test]
fn auth_rejection_is_fatal_and_clears_identity() {
    let mut s = Session::new();
    s.step(GatewayEvent::ConnectRequested);
    s.step(GatewayEvent::TransportOpened);
    s.step(GatewayEvent::Hello { heartbeat_interval: 1000 });
    assert!(matches!(s.step(GatewayEvent::AuthRejected), SessionAction::CloseTransport));
    assert_eq!(s.phase, Phase::Disconnected);
    assert_eq!(s.session_id, None);
}

#[test]
fn server_requested_reconnect_stays_resumable() {
    let mut s = Session::new();
    connect_to_ready(&mut s, "sess-7");
    s.step(GatewayEvent::Dispatch { sequence: 2 });
    assert!(matches!(
        s.step(GatewayEvent::ReconnectRequested),
        SessionAction::ScheduleBackoff { .. }
    ));
    assert_eq!(s.phase, Phase::Reconnecting);
    assert_eq!(s.session_id.as_deref(), Some("sess-7"));
    assert_eq!(s.sequence, Some(2));
}

#[test]
fn consumer_cancellation_tears_down_without_retry() {
    let mut s = Session::new();
    connect_to_ready(&mut s, "sess-3");
    assert!(matches!(
        s.step(GatewayEvent::ConsumerCancelled),
        SessionAction::CloseTransport
    ));
    assert_eq!(s.phase, Phase::Disconnected);
    // Disconnected ignores backoff timers: no further retry.
    assert!(matches!(s.step(GatewayEvent::BackoffElapsed), SessionAction::DoNothing));
    assert_eq!(s.phase, Phase::Disconnected);
}

#[test]
fn backoff_doubles_and_is_capped() {
    assert_eq!(backoff_delay(2, 100, 0), 2);
    assert_eq!(backoff_delay(2, 100, 1), 4);
    assert_eq!(backoff_delay(2, 100, 5), 64);
    assert_eq!(backoff_delay(2, 100, 6), 100);
    assert_eq!(backoff_delay(2, 100, 63), 100);
    assert_eq!(backoff_delay(500, 100, 0), 100);
}
