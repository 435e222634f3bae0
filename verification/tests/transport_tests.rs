use aurelay_engine::models::{address, SessionState, TransportMode};
use aurelay_engine::network::transport::{
    chunk_payload, create_transport, AudioTransport, AuthenticatedUdpTransport,
    TcpTransport, Transport, TransportError, UdpTransport, WireKind, CHUNK_SIZE,
};

fn payload(len: usize) -> Vec<u8> {
    (0..len).map(|i| (i % 251) as u8).collect()
}

fn session(mode: TransportMode, token: Option<u64>) -> SessionState {
    SessionState { token, target_ip: "192.168.1.50".to_string(), target_port: 5000, mode }
}

#[test]
fn address_joins_host_and_port() {
    assert_eq!(address("192.168.1.50", 5000), "192.168.1.50:5000");
    assert_eq!(address("tv.local", 0), "tv.local:0");
    assert_eq!(address("", 65535), ":65535");
}

#[test]
fn chunks_are_full_but_the_last() {
    assert_eq!(CHUNK_SIZE, 1400);
    assert_eq!(chunk_payload(&[]).len(), 0);
    let one = chunk_payload(&[7]);
    assert_eq!(one, vec![vec![7u8]]);
    let full = chunk_payload(&payload(1400));
    assert_eq!(full.len(), 1);
    assert_eq!(full[0].len(), 1400);
    let over = chunk_payload(&payload(1401));
    assert_eq!(over.len(), 2);
    assert_eq!(over[0].len(), 1400);
    assert_eq!(over[1].len(), 1);
    let three = chunk_payload(&payload(3000));
    assert_eq!(three.len(), 3);
    assert_eq!(three[0].len(), 1400);
    assert_eq!(three[1].len(), 1400);
    assert_eq!(three[2].len(), 200);
    let even = chunk_payload(&payload(2800));
    assert_eq!(even.len(), 2);
    assert_eq!(even[1].len(), 1400);
}

#[test]
fn chunks_agree_with_std_and_rejoin() {
    for len in [0usize, 1, 2, 1399, 1400, 1401, 2799, 2800, 2801, 4200, 10_000] {
        let data = payload(len);
        let units = chunk_payload(&data);
        let expected: Vec<Vec<u8>> = data.chunks(1400).map(|c| c.to_vec()).collect();
        assert_eq!(units, expected);
        assert_eq!(units.concat(), data);
        for unit in units.iter() {
            assert!(!unit.is_empty());
            assert!(unit.len() <= CHUNK_SIZE);
        }
    }
}

#[test]
fn tcp_sends_the_payload_whole() {
    let mut tcp = TcpTransport::new("192.168.1.50:5000");
    assert_eq!(tcp.target, "192.168.1.50:5000");
    assert_eq!(tcp.packet_count, 0);
    let data = payload(5000);
    assert_eq!(tcp.send(&data), vec![data.clone()]);
    assert_eq!(tcp.packet_count, 1);
    assert_eq!(tcp.send(&[]), vec![Vec::<u8>::new()]);
    assert_eq!(tcp.packet_count, 2);
    assert_eq!(tcp.target, "192.168.1.50:5000");
}

#[test]
fn udp_sends_datagrams() {
    let mut udp = UdpTransport::new("192.168.1.50:5000");
    let data = payload(3000);
    let units = udp.send(&data);
    assert_eq!(units.len(), 3);
    assert_eq!(units.concat(), data);
    assert_eq!(udp.packet_count, 1);
    assert_eq!(udp.send(&[]).len(), 0);
    assert_eq!(udp.packet_count, 2);
}

#[test]
fn packet_count_wraps_around() {
    let mut tcp = TcpTransport { target: "x:1".to_string(), packet_count: usize::MAX };
    tcp.send(&[1]);
    assert_eq!(tcp.packet_count, 0);
    let mut udp = UdpTransport { target: "x:1".to_string(), packet_count: usize::MAX };
    udp.send(&[1]);
    assert_eq!(udp.packet_count, 0);
}

#[test]
fn authenticated_send_begins_with_the_token() {
    let token: u64 = 0x0102_0304_0506_0708;
    let mut auth = AuthenticatedUdpTransport::new("192.168.1.50:5000", token);
    assert_eq!(auth.token, token);
    let data = payload(100);
    let units = auth.send(&data);
    assert_eq!(units.len(), 1);
    assert_eq!(&units[0][..8], &token.to_le_bytes());
    assert_eq!(&units[0][..8], &[8u8, 7, 6, 5, 4, 3, 2, 1]);
    assert_eq!(&units[0][8..], &data[..]);
    assert_eq!(auth.inner.packet_count, 1);
}

#[test]
fn authenticated_send_of_nothing_is_the_token_alone() {
    let mut auth = AuthenticatedUdpTransport::new("x:1", 1);
    assert_eq!(auth.send(&[]), vec![vec![1u8, 0, 0, 0, 0, 0, 0, 0]]);
}

#[test]
fn authenticated_send_fills_one_datagram_exactly() {
    let mut auth = AuthenticatedUdpTransport::new("x:1", u64::MAX);
    let data = payload(1392);
    let units = auth.send(&data);
    assert_eq!(units.len(), 1);
    assert_eq!(units[0].len(), 1400);
    assert_eq!(&units[0][..8], &[0xffu8; 8]);
    assert_eq!(&units[0][8..], &data[..]);
}

#[test]
fn authenticated_send_cuts_token_and_payload_as_one() {
    let token: u64 = 42;
    let mut auth = AuthenticatedUdpTransport::new("x:1", token);
    let data = payload(1393);
    let units = auth.send(&data);
    assert_eq!(units.len(), 2);
    assert_eq!(units[0].len(), 1400);
    assert_eq!(&units[0][..8], &token.to_le_bytes());
    assert_eq!(&units[0][8..], &data[..1392]);
    assert_eq!(units[1], vec![data[1392]]);
    let mut whole = token.to_le_bytes().to_vec();
    whole.extend_from_slice(&data);
    assert_eq!(units.concat(), whole);
}

#[test]
fn close_is_advisory() {
    let mut tcp = TcpTransport::new("x:1");
    tcp.send(&[1]);
    assert!(tcp.close().is_ok());
    assert_eq!(tcp.packet_count, 1);
    assert_eq!(tcp.send(&[2]), vec![vec![2u8]]);
    let mut udp = UdpTransport::new("x:1");
    assert!(udp.close().is_ok());
    let mut auth = AuthenticatedUdpTransport::new("x:1", 3);
    assert!(auth.close().is_ok());
    assert_eq!(auth.token, 3);
}

#[test]
fn diagnostic_lines_thin_out() {
    for count in 0..20 {
        assert!(TcpTransport::reports(count));
    }
    assert!(!TcpTransport::reports(20));
    assert!(!TcpTransport::reports(99));
    assert!(TcpTransport::reports(100));
    assert!(!TcpTransport::reports(101));
    assert!(TcpTransport::reports(2000));
    assert!(UdpTransport::reports(0));
    assert!(!UdpTransport::reports(1));
    assert!(!UdpTransport::reports(499));
    assert!(UdpTransport::reports(500));
    assert!(UdpTransport::reports(1500));
}

#[test]
fn factory_maps_each_mode_to_its_transport() {
    match create_transport(&session(TransportMode::TcpOnly, None)) {
        Ok(Transport::Tcp(tcp)) => {
            assert_eq!(tcp.target, "192.168.1.50:5000");
            assert_eq!(tcp.packet_count, 0);
        }
        _ => panic!("TcpOnly must give the TCP transport"),
    }
    match create_transport(&session(TransportMode::TcpUdp, None)) {
        Ok(Transport::Udp(udp)) => assert_eq!(udp.target, "192.168.1.50:5000"),
        _ => panic!("TcpUdp must give the plain UDP transport"),
    }
    match create_transport(&session(TransportMode::TcpUdpAuth, Some(77))) {
        Ok(Transport::AuthenticatedUdp(auth)) => {
            assert_eq!(auth.inner.target, "192.168.1.50:5000");
            assert_eq!(auth.token, 77);
        }
        _ => panic!("TcpUdpAuth must give the authenticated transport"),
    }
    match create_transport(&session(TransportMode::TlsUdpAuth, Some(78))) {
        Ok(Transport::AuthenticatedUdp(auth)) => assert_eq!(auth.token, 78),
        _ => panic!("TlsUdpAuth must give the authenticated transport"),
    }
}

#[test]
fn factory_ignores_a_token_that_the_mode_does_not_use() {
    assert!(matches!(create_transport(&session(TransportMode::TcpOnly, Some(5))), Ok(Transport::Tcp(_))));
    assert!(matches!(create_transport(&session(TransportMode::TcpUdp, Some(5))), Ok(Transport::Udp(_))));
}

#[test]
fn factory_fails_without_a_token_in_authenticated_modes() {
    let auth = create_transport(&session(TransportMode::TcpUdpAuth, None));
    assert!(matches!(auth, Err(TransportError::MissingToken)));
    let tls = create_transport(&session(TransportMode::TlsUdpAuth, None));
    assert!(matches!(tls, Err(TransportError::MissingToken)));
}

#[test]
fn transport_knows_its_target_and_kind() {
    let tcp = create_transport(&session(TransportMode::TcpOnly, None)).unwrap();
    assert_eq!(tcp.target(), "192.168.1.50:5000");
    assert_eq!(tcp.kind(), WireKind::Stream);
    let udp = create_transport(&session(TransportMode::TcpUdp, None)).unwrap();
    assert_eq!(udp.target(), "192.168.1.50:5000");
    assert_eq!(udp.kind(), WireKind::Datagram);
    let auth = create_transport(&session(TransportMode::TcpUdpAuth, Some(1))).unwrap();
    assert_eq!(auth.target(), "192.168.1.50:5000");
    assert_eq!(auth.kind(), WireKind::Datagram);
}

#[test]
fn transport_sends_as_its_variant_does() {
    let data = payload(1500);
    let mut tcp = create_transport(&session(TransportMode::TcpOnly, None)).unwrap();
    assert_eq!(tcp.send(&data), vec![data.clone()]);
    let mut udp = create_transport(&session(TransportMode::TcpUdp, None)).unwrap();
    assert_eq!(udp.send(&data), vec![data[..1400].to_vec(), data[1400..].to_vec()]);
    let mut auth = create_transport(&session(TransportMode::TlsUdpAuth, Some(9))).unwrap();
    let units = auth.send(&data);
    assert_eq!(units.len(), 2);
    assert_eq!(&units[0][..8], &9u64.to_le_bytes());
    assert_eq!(units[1].len(), 108);
    assert!(tcp.close().is_ok());
    assert!(udp.close().is_ok());
    assert!(auth.close().is_ok());
}

#[test]
fn transport_errors_say_what_failed() {
    assert_eq!(TransportError::MissingToken.message(), "Session token required for authenticated mode");
    let connect = TransportError::Connect { target: "tv:5000".to_string(), cause: "refused".to_string() };
    assert_eq!(connect.message(), "Failed to connect to tv:5000: refused");
    let no_delay = TransportError::NoDelay { cause: "x".to_string() };
    assert_eq!(no_delay.message(), "Failed to set TCP_NODELAY: x");
    let bind = TransportError::Bind { cause: "in use".to_string() };
    assert_eq!(bind.message(), "Failed to bind UDP socket: in use");
    let write = TransportError::Write { cause: "broken pipe".to_string() };
    assert_eq!(write.message(), "Write error: broken pipe");
    let flush = TransportError::Flush { cause: "".to_string() };
    assert_eq!(flush.message(), "Flush error: ");
    let send = TransportError::Send { cause: "unreachable".to_string() };
    assert_eq!(send.message(), "UDP send error: unreachable");
}

#[test]
fn the_last_payload_is_reported_by_the_rule_of_its_transport() {
    let mut tcp = create_transport(&session(TransportMode::TcpOnly, None)).unwrap();
    for sent in 1..=101usize {
        tcp.send(&[0]);
        assert_eq!(tcp.reports_last(), sent <= 20 || sent == 101);
    }
    let mut udp = create_transport(&session(TransportMode::TcpUdp, None)).unwrap();
    for sent in 1..=501usize {
        udp.send(&[0]);
        assert_eq!(udp.reports_last(), sent == 1 || sent == 501);
    }
    let mut auth = create_transport(&session(TransportMode::TcpUdpAuth, Some(1))).unwrap();
    auth.send(&[0]);
    assert!(auth.reports_last());
    auth.send(&[0]);
    assert!(!auth.reports_last());
}
