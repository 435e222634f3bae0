use aurelay_engine::discovery::{
    broadcast_targets, classify_reply, discover_receivers_impl, discover_request_bytes,
    discovery_address, parse_response, request_connect_and_wait_impl, ConnectAction,
    ConnectOutcome, ConnectionRequest, DiscoveredReceiver, DiscoveryAction, DiscoveryRun,
    ANY_PORT_ADDRESS, DISCOVERY_BIND_ADDRESS, DISCOVERY_BUFFER_LEN, DISCOVERY_PORT,
    LIMITED_BROADCAST, POLL_TIMEOUT_MS, PROBE_ADDRESS, REPLY_BUFFER_LEN, RETRY_PAUSE_MS,
    ROUND_PAUSE_MS,
};
use aurelay_engine::logs::NativeLogs;

#[test]
fn discovery_constants() {
    assert_eq!(DISCOVERY_PORT, 5002);
    assert!(POLL_TIMEOUT_MS <= 500);
    assert_eq!(RETRY_PAUSE_MS, 50);
    assert_eq!(ROUND_PAUSE_MS, 10);
    assert_eq!(DISCOVERY_BUFFER_LEN, 1500);
    assert_eq!(REPLY_BUFFER_LEN, 1024);
    assert_eq!(ANY_PORT_ADDRESS, "0.0.0.0:0");
    assert_eq!(DISCOVERY_BIND_ADDRESS, "0.0.0.0:5002");
    assert_eq!(PROBE_ADDRESS, "8.8.8.8:80");
    assert_eq!(LIMITED_BROADCAST, "255.255.255.255");
    assert_eq!(discover_request_bytes(), b"AURELAY_DISCOVER".to_vec());
    assert_eq!(discovery_address("192.168.1.255"), "192.168.1.255:5002");
}

#[test]
fn broadcast_goes_to_the_segment_and_the_subnet() {
    assert_eq!(broadcast_targets(None), vec!["255.255.255.255".to_string()]);
    assert_eq!(
        broadcast_targets(Some("192.168.1.23")),
        vec!["255.255.255.255".to_string(), "192.168.1.255".to_string()]
    );
    assert_eq!(
        broadcast_targets(Some("10.0.0.255")),
        vec!["255.255.255.255".to_string(), "10.0.0.255".to_string()]
    );
}

#[test]
fn broadcast_names_no_address_twice() {
    assert_eq!(broadcast_targets(Some("255.255.255.7")), vec!["255.255.255.255".to_string()]);
}

#[test]
fn broadcast_passes_over_what_is_no_dotted_quad() {
    assert_eq!(broadcast_targets(Some("::1")), vec!["255.255.255.255".to_string()]);
    assert_eq!(broadcast_targets(Some("1.2.3")), vec!["255.255.255.255".to_string()]);
    assert_eq!(broadcast_targets(Some("1.2.3.4.5")), vec!["255.255.255.255".to_string()]);
    assert_eq!(broadcast_targets(Some("")), vec!["255.255.255.255".to_string()]);
    assert_eq!(
        broadcast_targets(Some("a.b.c.d")),
        vec!["255.255.255.255".to_string(), "a.b.c.255".to_string()]
    );
}

#[test]
fn an_announcement_names_port_and_name() {
    let receiver = parse_response("AURELAY_RESPONSE;5000;LivingRoomTV", "192.168.1.50").unwrap();
    assert_eq!(receiver.ip, "192.168.1.50");
    assert_eq!(receiver.port, "5000");
    assert_eq!(receiver.name, "LivingRoomTV");
    assert_eq!(receiver.entry(), "192.168.1.50:5000;LivingRoomTV");
}

#[test]
fn an_announcement_may_carry_more_fields() {
    let receiver = parse_response("AURELAY_RESPONSE;5000;TV;v2;extra", "10.0.0.7").unwrap();
    assert_eq!(receiver.entry(), "10.0.0.7:5000;TV");
    let odd = parse_response("AURELAY_RESPONSE_V2;;", "10.0.0.7").unwrap();
    assert_eq!(odd.port, "");
    assert_eq!(odd.name, "");
    assert_eq!(odd.entry(), "10.0.0.7:;");
    let text_port = parse_response("AURELAY_RESPONSE;http;My TV", "h").unwrap();
    assert_eq!(text_port.entry(), "h:http;My TV");
}

#[test]
fn other_texts_announce_nothing() {
    assert!(parse_response("", "h").is_none());
    assert!(parse_response("AURELAY_RESPONSE", "h").is_none());
    assert!(parse_response("AURELAY_RESPONSE;5000", "h").is_none());
    assert!(parse_response("AURELAY_DISCOVER;5000;TV", "h").is_none());
    assert!(parse_response("aurelay_response;5000;TV", "h").is_none());
    assert!(parse_response(" AURELAY_RESPONSE;5000;TV", "h").is_none());
    assert!(parse_response("x;AURELAY_RESPONSE;5000;TV", "h").is_none());
}

#[test]
fn a_run_listens_until_its_time_is_up() {
    let run = discover_receivers_impl(2);
    assert_eq!(run.next_action(0), DiscoveryAction::Receive);
    assert_eq!(run.next_action(1), DiscoveryAction::Receive);
    assert_eq!(run.next_action(2), DiscoveryAction::Finish);
    assert_eq!(run.next_action(3), DiscoveryAction::Finish);
    assert_eq!(run.next_action(u64::MAX), DiscoveryAction::Finish);
    assert_eq!(DiscoveryRun::new(0).next_action(0), DiscoveryAction::Finish);
    assert!(run.results().is_empty());
}

#[test]
fn one_receiver_answers_a_discovery() {
    let mut logs = NativeLogs::new();
    let mut run = discover_receivers_impl(2);
    let pause = run.on_datagram(b"AURELAY_RESPONSE;5000;LivingRoomTV", "192.168.1.50", &mut logs);
    assert_eq!(pause, 10);
    assert_eq!(run.results(), vec!["192.168.1.50:5000;LivingRoomTV".to_string()]);
    assert_eq!(logs.len(), 1);
    assert_eq!(logs.get(0), Some("Discovered: 192.168.1.50:5000;LivingRoomTV"));
}

#[test]
fn a_receiver_is_listed_once() {
    let mut logs = NativeLogs::new();
    let mut run = DiscoveryRun::new(5);
    for _ in 0..3 {
        run.on_datagram(b"AURELAY_RESPONSE;5000;TV", "192.168.1.50", &mut logs);
    }
    run.on_datagram(b"AURELAY_RESPONSE;5000;TV;again", "192.168.1.50", &mut logs);
    assert_eq!(run.results(), vec!["192.168.1.50:5000;TV".to_string()]);
    assert_eq!(logs.len(), 1);
}

#[test]
fn receivers_are_listed_in_the_order_seen() {
    let mut logs = NativeLogs::new();
    let mut run = DiscoveryRun::new(5);
    run.on_datagram(b"AURELAY_RESPONSE;5000;B", "192.168.1.51", &mut logs);
    run.on_datagram(b"AURELAY_RESPONSE;5000;A", "192.168.1.50", &mut logs);
    run.on_datagram(b"AURELAY_RESPONSE;5000;B", "192.168.1.51", &mut logs);
    run.on_datagram(b"AURELAY_RESPONSE;5001;A", "192.168.1.50", &mut logs);
    run.on_datagram(b"AURELAY_RESPONSE;5000;a", "192.168.1.50", &mut logs);
    let results = run.results();
    assert_eq!(
        results,
        vec![
            "192.168.1.51:5000;B".to_string(),
            "192.168.1.50:5000;A".to_string(),
            "192.168.1.50:5001;A".to_string(),
            "192.168.1.50:5000;a".to_string(),
        ]
    );
    for i in 0..results.len() {
        for j in 0..results.len() {
            if i != j {
                assert_ne!(results[i], results[j]);
            }
        }
    }
    assert_eq!(logs.len(), 4);
}

#[test]
fn receivers_with_one_line_count_as_one() {
    let mut logs = NativeLogs::new();
    let mut run = DiscoveryRun::new(5);
    run.on_text("AURELAY_RESPONSE;1:2;x", "a", &mut logs);
    run.on_text("AURELAY_RESPONSE;2;x", "a:1", &mut logs);
    assert_eq!(run.results(), vec!["a:1:2;x".to_string()]);
}

#[test]
fn other_datagrams_leave_the_run_as_it_is() {
    let mut logs = NativeLogs::new();
    let mut run = DiscoveryRun::new(5);
    assert_eq!(run.on_datagram(b"", "192.168.1.50", &mut logs), 0);
    assert_eq!(run.on_datagram(b"AURELAY_DISCOVER", "192.168.1.50", &mut logs), 10);
    assert_eq!(run.on_datagram(b"AURELAY_RESPONSE;5000", "192.168.1.50", &mut logs), 10);
    assert_eq!(run.on_datagram(&[0xff, 0xfe], "192.168.1.50", &mut logs), 10);
    assert!(run.results().is_empty());
    assert_eq!(logs.len(), 0);
    assert_eq!(run.on_receive_failed(), 60);
}

#[test]
fn a_datagram_is_read_leniently() {
    let mut logs = NativeLogs::new();
    let mut run = DiscoveryRun::new(5);
    let mut payload = b"AURELAY_RESPONSE;5000;TV".to_vec();
    payload.push(0xff);
    run.on_datagram(&payload, "192.168.1.50", &mut logs);
    assert_eq!(run.results(), vec!["192.168.1.50:5000;TV\u{fffd}".to_string()]);
    let mut utf8 = DiscoveryRun::new(5);
    utf8.on_datagram("AURELAY_RESPONSE;5000;Küche".as_bytes(), "192.168.1.50", &mut logs);
    assert_eq!(utf8.results(), vec!["192.168.1.50:5000;Küche".to_string()]);
}

#[test]
fn replies_are_told_apart_by_their_prefix() {
    assert_eq!(classify_reply("AURELAY_ACCEPT"), Some(ConnectOutcome::Accepted));
    assert_eq!(classify_reply("AURELAY_ACCEPTED;yes"), Some(ConnectOutcome::Accepted));
    assert_eq!(classify_reply("AURELAY_REJECT"), Some(ConnectOutcome::Rejected));
    assert_eq!(classify_reply("AURELAY_REJECT busy"), Some(ConnectOutcome::Rejected));
    assert_eq!(classify_reply("AURELAY_RESPONSE;5000;TV"), None);
    assert_eq!(classify_reply("aurelay_accept"), None);
    assert_eq!(classify_reply(""), None);
    assert_eq!(classify_reply(" AURELAY_ACCEPT"), None);
}

#[test]
fn outcomes_have_their_words() {
    assert_eq!(ConnectOutcome::Accepted.as_str(), "accepted");
    assert_eq!(ConnectOutcome::Rejected.as_str(), "rejected");
    assert_eq!(ConnectOutcome::Timeout.as_str(), "timeout");
    assert_eq!(ConnectOutcome::Accepted.answer(), Some("accepted".to_string()));
    assert_eq!(ConnectOutcome::Rejected.answer(), Some("rejected".to_string()));
    assert_eq!(ConnectOutcome::Timeout.answer(), None);
}

#[test]
fn a_request_names_the_sender() {
    let request =
        request_connect_and_wait_impl("192.168.1.50".to_string(), 3, "Desktop".to_string());
    assert_eq!(request.target, "192.168.1.50:5002");
    assert_eq!(request.message, "AURELAY_CONNECT;Desktop");
    assert_eq!(request.datagram(), b"AURELAY_CONNECT;Desktop".to_vec());
    assert_eq!(request.timeout_secs, 3);
    assert_eq!(request.note_prefix, "");
    assert_eq!(request.outcome, None);
    let named = ConnectionRequest::new("h", "Büro PC", 1, "[x] ");
    assert_eq!(named.datagram(), "AURELAY_CONNECT;Büro PC".as_bytes().to_vec());
    assert_eq!(named.note_prefix, "[x] ");
}

#[test]
fn a_rejection_ends_the_request() {
    let mut logs = NativeLogs::new();
    let mut request =
        request_connect_and_wait_impl("192.168.1.50".to_string(), 3, "Desktop".to_string());
    assert_eq!(request.next_action(0), ConnectAction::Receive);
    request.on_datagram(b"AURELAY_REJECT", "192.168.1.50", &mut logs);
    assert_eq!(request.outcome, Some(ConnectOutcome::Rejected));
    assert_eq!(request.next_action(0), ConnectAction::Finish(ConnectOutcome::Rejected));
    assert_eq!(request.next_action(99), ConnectAction::Finish(ConnectOutcome::Rejected));
    assert_eq!(logs.len(), 1);
    assert_eq!(logs.get(0), Some("Connection REJECTED by 192.168.1.50"));
}

#[test]
fn an_acceptance_ends_the_request() {
    let mut logs = NativeLogs::new();
    let mut request = ConnectionRequest::new("192.168.1.50", "Desktop", 3, "");
    request.on_datagram(b"AURELAY_ACCEPT", "192.168.1.50", &mut logs);
    assert_eq!(request.next_action(1), ConnectAction::Finish(ConnectOutcome::Accepted));
    assert_eq!(logs.get(0), Some("Connection ACCEPTED by 192.168.1.50"));
}

#[test]
fn the_first_answer_wins() {
    let mut logs = NativeLogs::new();
    let mut request = ConnectionRequest::new("192.168.1.50", "Desktop", 3, "");
    request.on_datagram(b"AURELAY_RESPONSE;5000;TV", "192.168.1.50", &mut logs);
    request.on_datagram(b"", "192.168.1.50", &mut logs);
    assert_eq!(request.outcome, None);
    request.on_datagram(b"AURELAY_ACCEPT", "192.168.1.50", &mut logs);
    request.on_datagram(b"AURELAY_REJECT", "192.168.1.51", &mut logs);
    request.on_text("AURELAY_REJECT", "192.168.1.52", &mut logs);
    assert_eq!(request.outcome, Some(ConnectOutcome::Accepted));
    assert_eq!(logs.len(), 1);
    assert_eq!(request.target, "192.168.1.50:5002");
    assert_eq!(request.message, "AURELAY_CONNECT;Desktop");
}

#[test]
fn a_request_without_answer_times_out() {
    let mut logs = NativeLogs::new();
    let mut request = ConnectionRequest::new("192.168.1.50", "Desktop", 3, "");
    assert_eq!(request.next_action(2), ConnectAction::Receive);
    assert_eq!(request.on_receive_failed(), 50);
    request.on_datagram(b"noise", "192.168.1.50", &mut logs);
    assert_eq!(request.next_action(3), ConnectAction::Finish(ConnectOutcome::Timeout));
    assert_eq!(request.next_action(4), ConnectAction::Finish(ConnectOutcome::Timeout));
    assert_eq!(request.outcome, None);
    assert_eq!(logs.len(), 0);
    let at_once = ConnectionRequest::new("h", "d", 0, "");
    assert_eq!(at_once.next_action(0), ConnectAction::Finish(ConnectOutcome::Timeout));
}

#[test]
fn an_abandoned_request_counts_as_unanswered() {
    let mut request = ConnectionRequest::new("192.168.1.50", "Desktop", 3, "");
    request.abandon();
    assert_eq!(request.outcome, Some(ConnectOutcome::Timeout));
    assert_eq!(request.next_action(0), ConnectAction::Finish(ConnectOutcome::Timeout));
    let mut logs = NativeLogs::new();
    request.on_datagram(b"AURELAY_ACCEPT", "192.168.1.50", &mut logs);
    assert_eq!(request.outcome, Some(ConnectOutcome::Timeout));
    let mut answered = ConnectionRequest::new("192.168.1.50", "Desktop", 3, "");
    answered.on_datagram(b"AURELAY_ACCEPT", "192.168.1.50", &mut logs);
    answered.abandon();
    assert_eq!(answered.outcome, Some(ConnectOutcome::Accepted));
}

#[test]
fn receivers_hold_their_fields() {
    let receiver = DiscoveredReceiver {
        ip: "1.2.3.4".to_string(),
        port: "5000".to_string(),
        name: "TV".to_string(),
    };
    let copy = receiver.clone();
    assert_eq!(copy.entry(), "1.2.3.4:5000;TV");
}
