use hqmx_vpn::{
    Action, EngineStart, EngineStatus, Input, IpRange, SessionError, SessionEvent,
    SessionManager, SessionState, TunnelConfig, WireGuardService, DEFAULT_FAILURE_THRESHOLD,
};

fn valid_config() -> TunnelConfig {
    TunnelConfig {
        endpoint_host: "vpn.example.net".to_string(),
        endpoint_port: 51820,
        local_public_key: vec![1u8; 32],
        remote_public_key: vec![2u8; 32],
        preshared_key: None,
        allowed_ips: vec![IpRange { addr: vec![0, 0, 0, 0], prefix_len: 0 }],
        keepalive_secs: 25,
    }
}

fn connected(m: &mut SessionManager) {
    assert_eq!(m.connect(valid_config(), 100), Ok(Action::CreateInterface));
    assert_eq!(m.on_interface_created(Some(7)), Action::StartEngine(7));
    assert_eq!(m.on_engine_started(EngineStart::Started(9)), Action::Nothing);
    assert_eq!(m.status(), SessionState::Connected);
}

#[test]
fn valid_config_is_accepted() {
    assert!(valid_config().is_valid());
    let mut c = valid_config();
    c.preshared_key = Some(vec![3u8; 32]);
    c.allowed_ips.push(IpRange { addr: vec![0u8; 16], prefix_len: 128 });
    assert!(c.is_valid());
}

#[test]
fn malformed_configs_are_rejected() {
    let mut c = valid_config();
    c.endpoint_host = String::new();
    assert!(!c.is_valid());
    let mut c = valid_config();
    c.endpoint_host = " ".to_string();
    assert!(!c.is_valid());
    let mut c = valid_config();
    c.endpoint_port = 0;
    assert!(!c.is_valid());
    let mut c = valid_config();
    c.local_public_key = vec![1u8; 31];
    assert!(!c.is_valid());
    let mut c = valid_config();
    c.remote_public_key = vec![];
    assert!(!c.is_valid());
    let mut c = valid_config();
    c.preshared_key = Some(vec![1u8; 33]);
    assert!(!c.is_valid());
    let mut c = valid_config();
    c.allowed_ips.clear();
    assert!(!c.is_valid());
    let mut c = valid_config();
    c.allowed_ips.push(IpRange { addr: vec![10, 0, 0, 0], prefix_len: 33 });
    assert!(!c.is_valid());
    let mut c = valid_config();
    c.allowed_ips.push(IpRange { addr: vec![10, 0, 0], prefix_len: 8 });
    assert!(!c.is_valid());
}

#[test]
fn invalid_endpoint_gives_config_invalid_and_stays_idle() {
    let mut m = SessionManager::new(DEFAULT_FAILURE_THRESHOLD);
    let mut c = valid_config();
    c.endpoint_port = 0;
    assert_eq!(m.connect(c, 5), Err(SessionError::ConfigInvalid));
    assert_eq!(m.status(), SessionState::Idle);
    assert!(m.take_events().is_empty());
}

#[test]
fn handshake_timeout_returns_to_idle_and_destroys_interface() {
    let mut m = SessionManager::new(DEFAULT_FAILURE_THRESHOLD);
    assert_eq!(m.connect(valid_config(), 1), Ok(Action::CreateInterface));
    assert_eq!(m.on_interface_created(Some(4)), Action::StartEngine(4));
    assert_eq!(m.on_engine_started(EngineStart::TimedOut), Action::DestroyInterface(4));
    assert_eq!(m.status(), SessionState::Failed);
    assert_eq!(m.on_interface_destroyed(), Action::Nothing);
    assert_eq!(m.status(), SessionState::Idle);
    assert_eq!(m.last_error(), Some(SessionError::HandshakeTimeout));
    assert!(m.active_config().is_none());
    assert_eq!(
        m.take_events(),
        vec![SessionEvent::Connecting, SessionEvent::Failed(SessionError::HandshakeTimeout)]
    );
}

#[test]
fn three_failed_polls_fail_the_session() {
    let mut m = SessionManager::new(3);
    connected(&mut m);
    assert_eq!(m.on_health_poll(EngineStatus::Down), Action::Nothing);
    assert_eq!(m.on_health_poll(EngineStatus::Down), Action::Nothing);
    assert_eq!(m.status(), SessionState::Connected);
    assert_eq!(m.on_health_poll(EngineStatus::Down), Action::StopEngine(9));
    assert_eq!(m.status(), SessionState::Failed);
    assert!(!m.is_supervising());
    assert_eq!(m.on_engine_stopped(), Action::DestroyInterface(7));
    assert_eq!(m.on_interface_destroyed(), Action::Nothing);
    assert_eq!(m.status(), SessionState::Idle);
    assert_eq!(m.last_error(), Some(SessionError::HealthCheckTimeout));
    assert_eq!(
        m.take_events(),
        vec![
            SessionEvent::Connecting,
            SessionEvent::Connected,
            SessionEvent::Failed(SessionError::HealthCheckTimeout),
        ]
    );
}

#[test]
fn a_good_poll_resets_the_failure_count() {
    let mut m = SessionManager::new(3);
    connected(&mut m);
    assert_eq!(m.on_health_poll(EngineStatus::Down), Action::Nothing);
    assert_eq!(m.on_health_poll(EngineStatus::Down), Action::Nothing);
    assert_eq!(m.on_health_poll(EngineStatus::Up), Action::Nothing);
    assert_eq!(m.on_health_poll(EngineStatus::Down), Action::Nothing);
    assert_eq!(m.on_health_poll(EngineStatus::Degraded), Action::Nothing);
    assert_eq!(m.on_health_poll(EngineStatus::Down), Action::Nothing);
    assert_eq!(m.status(), SessionState::Connected);
}

#[test]
fn zero_threshold_counts_as_one() {
    let mut m = SessionManager::new(0);
    connected(&mut m);
    assert_eq!(m.on_health_poll(EngineStatus::Down), Action::StopEngine(9));
    assert_eq!(m.status(), SessionState::Failed);
}

#[test]
fn disconnect_twice_from_idle_succeeds_without_effect() {
    let mut m = SessionManager::new(3);
    assert_eq!(m.disconnect(), Action::Nothing);
    assert_eq!(m.disconnect(), Action::Nothing);
    assert_eq!(m.status(), SessionState::Idle);
    assert!(m.take_events().is_empty());
}

#[test]
fn disconnect_from_connected_tears_down() {
    let mut m = SessionManager::new(3);
    connected(&mut m);
    assert_eq!(m.disconnect(), Action::StopEngine(9));
    assert_eq!(m.status(), SessionState::Disconnecting);
    assert_eq!(m.disconnect(), Action::Nothing);
    assert_eq!(m.on_engine_stopped(), Action::DestroyInterface(7));
    assert_eq!(m.on_engine_stopped(), Action::Nothing);
    assert_eq!(m.on_interface_destroyed(), Action::Nothing);
    assert_eq!(m.status(), SessionState::Idle);
    assert_eq!(m.last_error(), None);
    assert_eq!(
        m.take_events(),
        vec![
            SessionEvent::Connecting,
            SessionEvent::Connected,
            SessionEvent::Disconnecting,
            SessionEvent::Disconnected,
        ]
    );
}

#[test]
fn disconnect_during_connect_is_applied_after_start() {
    let mut m = SessionManager::new(3);
    assert_eq!(m.connect(valid_config(), 1), Ok(Action::CreateInterface));
    assert_eq!(m.disconnect(), Action::Nothing);
    assert_eq!(m.status(), SessionState::Connecting);
    assert_eq!(m.on_interface_created(Some(2)), Action::StartEngine(2));
    assert_eq!(m.on_engine_started(EngineStart::Started(5)), Action::StopEngine(5));
    assert_eq!(m.status(), SessionState::Disconnecting);
    assert_eq!(m.on_engine_stopped(), Action::DestroyInterface(2));
    assert_eq!(m.on_interface_destroyed(), Action::Nothing);
    assert_eq!(m.status(), SessionState::Idle);
    assert_eq!(
        m.take_events(),
        vec![SessionEvent::Connecting, SessionEvent::Disconnecting, SessionEvent::Disconnected]
    );
}

#[test]
fn interface_creation_failure_leaks_nothing() {
    let mut m = SessionManager::new(3);
    assert_eq!(m.connect(valid_config(), 1), Ok(Action::CreateInterface));
    assert_eq!(m.on_interface_created(None), Action::Nothing);
    assert_eq!(m.status(), SessionState::Idle);
    assert_eq!(m.last_error(), Some(SessionError::InterfaceError));
    assert_eq!(m.on_interface_destroyed(), Action::Nothing);
    assert_eq!(m.status(), SessionState::Idle);
}

#[test]
fn engine_error_releases_interface_once() {
    let mut m = SessionManager::new(3);
    assert_eq!(m.connect(valid_config(), 1), Ok(Action::CreateInterface));
    assert_eq!(m.on_interface_created(Some(3)), Action::StartEngine(3));
    assert_eq!(m.on_engine_started(EngineStart::Failed(42)), Action::DestroyInterface(3));
    assert_eq!(m.on_engine_stopped(), Action::Nothing);
    assert_eq!(m.on_interface_destroyed(), Action::Nothing);
    assert_eq!(m.status(), SessionState::Idle);
    assert_eq!(m.on_interface_destroyed(), Action::Nothing);
    assert_eq!(m.status(), SessionState::Idle);
    assert_eq!(m.last_error(), Some(SessionError::EngineError(42)));
}

#[test]
fn second_connect_is_refused() {
    let mut m = SessionManager::new(3);
    assert_eq!(m.connect(valid_config(), 1), Ok(Action::CreateInterface));
    assert_eq!(m.connect(valid_config(), 2), Err(SessionError::AlreadyActive));
    assert_eq!(m.status(), SessionState::Connecting);
    assert_eq!(m.started_at(), 1);
    assert_eq!(m.take_events(), vec![SessionEvent::Connecting]);
}

#[test]
fn stray_resources_are_handed_back() {
    let mut m = SessionManager::new(3);
    assert_eq!(m.on_interface_created(Some(8)), Action::DestroyInterface(8));
    assert_eq!(m.on_engine_started(EngineStart::Started(6)), Action::StopEngine(6));
    assert_eq!(m.on_engine_started(EngineStart::TimedOut), Action::Nothing);
    assert_eq!(m.status(), SessionState::Idle);
}

#[test]
fn sessions_get_fresh_identifiers() {
    let mut m = SessionManager::new(3);
    connected(&mut m);
    assert_eq!(m.session_id(), 0);
    assert_eq!(m.active_config().map(|c| c.endpoint_port), Some(51820));
    m.disconnect();
    m.on_engine_stopped();
    m.on_interface_destroyed();
    assert_eq!(m.connect(valid_config(), 200), Ok(Action::CreateInterface));
    assert_eq!(m.session_id(), 1);
    assert_eq!(m.started_at(), 200);
}

#[test]
fn any_sequence_of_inputs_keeps_a_defined_state() {
    let mut m = SessionManager::new(2);
    let inputs = vec![
        Input::Disconnect,
        Input::Connect(valid_config(), 1),
        Input::Connect(valid_config(), 2),
        Input::EngineStopped,
        Input::InterfaceCreated(Some(1)),
        Input::HealthPoll(EngineStatus::Down),
        Input::EngineStarted(EngineStart::Started(2)),
        Input::HealthPoll(EngineStatus::Down),
        Input::Disconnect,
        Input::HealthPoll(EngineStatus::Down),
        Input::InterfaceDestroyed,
        Input::EngineStopped,
        Input::InterfaceDestroyed,
    ];
    let mut results = Vec::new();
    for input in inputs {
        results.push(m.handle(input));
    }
    assert_eq!(results[2], Err(SessionError::AlreadyActive));
    assert_eq!(results[8], Ok(Action::StopEngine(2)));
    assert_eq!(results[11], Ok(Action::DestroyInterface(1)));
    assert_eq!(m.status(), SessionState::Idle);
    assert!(m.active_config().is_none());
}

#[test]
fn wireguard_service_steps_succeed() {
    let s = WireGuardService::new();
    assert_eq!(s.start_interface(), Ok(()));
    assert_eq!(s.stop_interface(), Ok(()));
}
