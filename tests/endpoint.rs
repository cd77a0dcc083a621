use hqmx_vpn::{
    is_host_name, is_ipv6_literal, Action, IpRange, SessionError, SessionManager, SessionState,
    TunnelConfig,
};

fn config_with_host(host: &str) -> TunnelConfig {
    TunnelConfig {
        endpoint_host: host.to_string(),
        endpoint_port: 51820,
        local_public_key: vec![1u8; 32],
        remote_public_key: vec![2u8; 32],
        preshared_key: None,
        allowed_ips: vec![IpRange { addr: vec![10, 0, 0, 0], prefix_len: 8 }],
        keepalive_secs: 25,
    }
}

#[test]
fn host_with_a_space_gives_config_invalid() {
    for host in [" ", "a b", "vpn .example.net", "::::"] {
        let mut m = SessionManager::new(3);
        assert_eq!(m.connect(config_with_host(host), 1), Err(SessionError::ConfigInvalid));
        assert_eq!(m.status(), SessionState::Idle);
        assert!(m.take_events().is_empty());
    }
}

#[test]
fn well_formed_hosts_are_admitted() {
    for host in ["vpn.example.net", "10.0.0.1", "a-b.c", "x", "::1", "fe80::1", "1:2:3:4:5:6:7:8"] {
        let mut m = SessionManager::new(3);
        assert_eq!(m.connect(config_with_host(host), 1), Ok(Action::CreateInterface), "{}", host);
    }
}

#[test]
fn host_name_rules() {
    assert!(is_host_name("vpn.example.net"));
    assert!(is_host_name("A1-b2.example"));
    assert!(is_host_name("192.168.1.1"));
    assert!(!is_host_name(""));
    assert!(!is_host_name(" "));
    assert!(!is_host_name("a b"));
    assert!(!is_host_name(".example.net"));
    assert!(!is_host_name("example.net."));
    assert!(!is_host_name("a..b"));
    assert!(!is_host_name("-a.b"));
    assert!(!is_host_name("a-.b"));
    assert!(!is_host_name("a.-b"));
    assert!(!is_host_name("a_b"));
    assert!(!is_host_name("::1"));
    assert!(is_host_name(&"a".repeat(253)));
    assert!(!is_host_name(&"a".repeat(254)));
}

#[test]
fn ipv6_literal_rules() {
    assert!(is_ipv6_literal("::"));
    assert!(is_ipv6_literal("::1"));
    assert!(is_ipv6_literal("1::"));
    assert!(is_ipv6_literal("fe80::1:2"));
    assert!(is_ipv6_literal("2001:db8:0:0:0:0:0:1"));
    assert!(is_ipv6_literal("::1:2:3:4:5:6:7"));
    assert!(is_ipv6_literal("FFFF:ffff:0:0:0:0:0:0"));
    assert!(!is_ipv6_literal("::::"));
    assert!(!is_ipv6_literal(":::1"));
    assert!(!is_ipv6_literal("1:2:3:4:5:6:7"));
    assert!(!is_ipv6_literal("1:2:3:4:5:6:7:8:9"));
    assert!(!is_ipv6_literal("1::2::3"));
    assert!(!is_ipv6_literal("1:2:3:4:5:6:7:8::"));
    assert!(!is_ipv6_literal("12345::1"));
    assert!(!is_ipv6_literal(":1::2"));
    assert!(!is_ipv6_literal("1::2:"));
    assert!(!is_ipv6_literal("g::1"));
    assert!(!is_ipv6_literal("1"));
    assert!(!is_ipv6_literal("vpn.example.net"));
}
