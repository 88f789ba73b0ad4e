use packet_relay::engine::{
    engine_config_of,
    EngineAction, EngineConnectionManager, EngineEvent, EngineState, CONNECTION_BACKOFF_MS,
    HEARTBEAT_INTERVAL_MS,
};

#[test]
fn default_intervals() {
    assert_eq!(CONNECTION_BACKOFF_MS, 2000);
    assert_eq!(HEARTBEAT_INTERVAL_MS, 500);
}

#[test]
fn manager_starts_disconnected_and_dials_on_poll() {
    let mut m = EngineConnectionManager::new();
    assert_eq!(m.state, EngineState::Disconnected);
    let a = m.step(EngineEvent::PollTick);
    assert!(matches!(a, EngineAction::DialEngine));
    assert_eq!(m.state, EngineState::Connecting);
}

#[test]
fn connect_failure_backs_off_and_returns_to_disconnected() {
    let mut m = EngineConnectionManager::new();
    m.step(EngineEvent::PollTick);
    let a = m.step(EngineEvent::ConnectFailed);
    assert!(matches!(a, EngineAction::WaitBackoff));
    assert_eq!(m.state, EngineState::Disconnected);
    // The loop retries indefinitely: the next poll dials again.
    let b = m.step(EngineEvent::PollTick);
    assert!(matches!(b, EngineAction::DialEngine));
}

#[test]
fn successful_connect_streams_heartbeats_and_forwards() {
    let mut m = EngineConnectionManager::new();
    m.step(EngineEvent::PollTick);
    m.step(EngineEvent::ConnectSucceeded);
    assert_eq!(m.state, EngineState::Streaming);
    let hb = m.step(EngineEvent::HeartbeatDue);
    assert!(matches!(hb, EngineAction::SendHeartbeat));
    let fwd = m.step(EngineEvent::MirroredPacket(vec![1, 2, 3]));
    match fwd {
        EngineAction::ForwardPacket(p) => assert_eq!(p, vec![1, 2, 3]),
        other => panic!("expected a forward, got {:?}", other),
    }
    assert_eq!(m.state, EngineState::Streaming);
}

#[test]
fn stream_failure_tears_down_and_backs_off() {
    let mut m = EngineConnectionManager::new();
    m.step(EngineEvent::PollTick);
    m.step(EngineEvent::ConnectSucceeded);
    let a = m.step(EngineEvent::StreamFailed);
    assert!(matches!(a, EngineAction::WaitBackoff));
    assert_eq!(m.state, EngineState::Disconnected);
}

#[test]
fn shutdown_halts_from_every_state() {
    // Disconnected.
    let mut m = EngineConnectionManager::new();
    assert!(matches!(m.step(EngineEvent::ShutdownSeen), EngineAction::HaltThread));
    assert_eq!(m.state, EngineState::Shutdown);

    // Connecting.
    let mut m = EngineConnectionManager::new();
    m.step(EngineEvent::PollTick);
    assert!(matches!(m.step(EngineEvent::ShutdownSeen), EngineAction::HaltThread));
    assert_eq!(m.state, EngineState::Shutdown);

    // Streaming.
    let mut m = EngineConnectionManager::new();
    m.step(EngineEvent::PollTick);
    m.step(EngineEvent::ConnectSucceeded);
    assert!(matches!(m.step(EngineEvent::ShutdownSeen), EngineAction::HaltThread));
    assert_eq!(m.state, EngineState::Shutdown);
}

#[test]
fn shutdown_is_terminal_and_never_dials_again() {
    let mut m = EngineConnectionManager::new();
    m.step(EngineEvent::ShutdownSeen);
    assert!(matches!(m.step(EngineEvent::PollTick), EngineAction::HaltThread));
    assert_eq!(m.state, EngineState::Shutdown);
    assert!(matches!(m.step(EngineEvent::ConnectSucceeded), EngineAction::HaltThread));
    assert_eq!(m.state, EngineState::Shutdown);
    assert!(matches!(m.step(EngineEvent::HeartbeatDue), EngineAction::HaltThread));
    assert_eq!(m.state, EngineState::Shutdown);
}

#[test]
fn streaming_without_mirrored_packets_only_heartbeats() {
    // With mirroring disabled nothing enters the mirror channel, so the
    // manager only ever sees heartbeat ticks: it forwards nothing.
    let mut m = EngineConnectionManager::new();
    m.step(EngineEvent::PollTick);
    m.step(EngineEvent::ConnectSucceeded);
    for _ in 0..5 {
        let a = m.step(EngineEvent::HeartbeatDue);
        assert!(matches!(a, EngineAction::SendHeartbeat));
        let idle = m.step(EngineEvent::PollTick);
        assert!(matches!(idle, EngineAction::Ignore));
    }
    assert_eq!(m.state, EngineState::Streaming);
}

#[test]
fn manager_is_configured_only_with_both_urls() {
    let c = engine_config_of(
        Some("engine:8000".to_string()),
        Some("auth:8001".to_string()),
    );
    let cfg = c.expect("both urls present");
    assert_eq!(cfg.engine_url, "engine:8000");
    assert_eq!(cfg.auth_service_url, "auth:8001");
    assert!(engine_config_of(Some("engine:8000".to_string()), None).is_none());
    assert!(engine_config_of(None, Some("auth:8001".to_string())).is_none());
    assert!(engine_config_of(None, None).is_none());
}
