use aurelay_engine::models::{DeviceInfo, SessionState, StreamConfig, TransportMode};

#[test]
fn mode_names_are_read_in_lowercase() {
    assert_eq!(TransportMode::from_lowercase("tcp"), Some(TransportMode::TcpOnly));
    assert_eq!(TransportMode::from_lowercase("tcp_only"), Some(TransportMode::TcpOnly));
    assert_eq!(TransportMode::from_lowercase("tcp_udp"), Some(TransportMode::TcpUdp));
    assert_eq!(TransportMode::from_lowercase("tcp_udp_auth"), Some(TransportMode::TcpUdpAuth));
    assert_eq!(TransportMode::from_lowercase("tls_udp_auth"), Some(TransportMode::TlsUdpAuth));
    assert_eq!(TransportMode::from_lowercase("TCP"), None);
    assert_eq!(TransportMode::from_lowercase(""), None);
    assert_eq!(TransportMode::from_lowercase("udp"), None);
    assert_eq!(TransportMode::from_lowercase("tcp_udp "), None);
}

#[test]
fn mode_names_are_read_in_any_case() {
    assert_eq!(TransportMode::from_str("tcp"), Some(TransportMode::TcpOnly));
    assert_eq!(TransportMode::from_str("TCP"), Some(TransportMode::TcpOnly));
    assert_eq!(TransportMode::from_str("Tcp_Only"), Some(TransportMode::TcpOnly));
    assert_eq!(TransportMode::from_str("TCP_UDP"), Some(TransportMode::TcpUdp));
    assert_eq!(TransportMode::from_str("tcp_UDP_auth"), Some(TransportMode::TcpUdpAuth));
    assert_eq!(TransportMode::from_str("TLS_UDP_AUTH"), Some(TransportMode::TlsUdpAuth));
    assert_eq!(TransportMode::from_str(""), None);
    assert_eq!(TransportMode::from_str("tls"), None);
    assert_eq!(TransportMode::from_str("tcp-udp"), None);
    assert_eq!(TransportMode::from_str(" tcp"), None);
}

#[test]
fn only_authenticated_modes_need_a_handshake() {
    assert!(!TransportMode::TcpOnly.requires_handshake());
    assert!(!TransportMode::TcpUdp.requires_handshake());
    assert!(TransportMode::TcpUdpAuth.requires_handshake());
    assert!(TransportMode::TlsUdpAuth.requires_handshake());
}

#[test]
fn all_modes_but_tcp_use_udp() {
    assert!(!TransportMode::TcpOnly.uses_udp());
    assert!(TransportMode::TcpUdp.uses_udp());
    assert!(TransportMode::TcpUdpAuth.uses_udp());
    assert!(TransportMode::TlsUdpAuth.uses_udp());
}

#[test]
fn mode_labels_are_the_variant_names() {
    let modes = [
        TransportMode::TcpOnly,
        TransportMode::TcpUdp,
        TransportMode::TcpUdpAuth,
        TransportMode::TlsUdpAuth,
    ];
    for mode in modes.iter() {
        assert_eq!(mode.label(), format!("{:?}", mode));
    }
}

#[test]
fn models_hold_their_fields() {
    let device = DeviceInfo { name: "pulse".to_string(), index: 3, is_monitor: false, is_default: true };
    let copy = device.clone();
    assert_eq!(copy.name, "pulse");
    assert_eq!(copy.index, 3);
    assert!(!copy.is_monitor);
    assert!(copy.is_default);
    let session = SessionState {
        token: Some(9),
        target_ip: "10.0.0.1".to_string(),
        target_port: 5000,
        mode: TransportMode::TcpUdpAuth,
    };
    let copy = session.clone();
    assert_eq!(copy.token, Some(9));
    assert_eq!(copy.target_ip, "10.0.0.1");
    assert_eq!(copy.target_port, 5000);
    assert_eq!(copy.mode, TransportMode::TcpUdpAuth);
}

#[test]
fn stream_config_reads_host_and_port() {
    let config = StreamConfig::new("192.168.1.50:6000", Some("pulse".to_string()), TransportMode::TcpUdp);
    assert_eq!(config.target_ip, "192.168.1.50");
    assert_eq!(config.port, 6000);
    assert_eq!(config.device_name, Some("pulse".to_string()));
    assert_eq!(config.mode, TransportMode::TcpUdp);
}

#[test]
fn stream_config_falls_back_to_the_default_port() {
    let plain = StreamConfig::new("192.168.1.50", None, TransportMode::TcpOnly);
    assert_eq!(plain.target_ip, "192.168.1.50");
    assert_eq!(plain.port, 5000);
    assert_eq!(plain.device_name, None);
    let no_number = StreamConfig::new("tv.local:stream", None, TransportMode::TcpOnly);
    assert_eq!(no_number.target_ip, "tv.local");
    assert_eq!(no_number.port, 5000);
    let empty_port = StreamConfig::new("tv.local:", None, TransportMode::TcpOnly);
    assert_eq!(empty_port.target_ip, "tv.local");
    assert_eq!(empty_port.port, 5000);
    let too_large = StreamConfig::new("tv.local:70000", None, TransportMode::TcpOnly);
    assert_eq!(too_large.port, 5000);
    let two_colons = StreamConfig::new("a:1:2", None, TransportMode::TcpOnly);
    assert_eq!(two_colons.target_ip, "a");
    assert_eq!(two_colons.port, 5000);
    let no_host = StreamConfig::new(":7000", None, TransportMode::TcpOnly);
    assert_eq!(no_host.target_ip, "");
    assert_eq!(no_host.port, 7000);
    let empty = StreamConfig::new("", None, TransportMode::TcpOnly);
    assert_eq!(empty.target_ip, "");
    assert_eq!(empty.port, 5000);
}
