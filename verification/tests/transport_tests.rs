use crumb::transport::{
    client_init_outcome, handshake_step, server_echo_outcome, server_init, Config, HandshakeEvent,
    HandshakeState, PeerAddr, RecvEvent, SendEvent, StreamMode, StreamState, TransportError,
};

fn cleartext_config() -> Config {
    Config { host: "127.0.0.1".to_string(), port: 8080, use_dtls: false }
}

fn dtls_config() -> Config {
    Config { host: "127.0.0.1".to_string(), port: 8081, use_dtls: true }
}

fn fresh_stream(mode: StreamMode) -> StreamState {
    StreamState {
        mode,
        peer: PeerAddr { host: "127.0.0.1".to_string(), port: 8080 },
        timeout_ms: None,
        open: true,
    }
}

#[test]
fn handshake_machine_transitions() {
    let s = HandshakeState::AwaitingFirstFlight;
    let s = handshake_step(s, HandshakeEvent::FirstDatagram);
    assert_eq!(s, HandshakeState::Handshaking);
    // retransmitted first flights are the security layer's own business
    let s = handshake_step(s, HandshakeEvent::FirstDatagram);
    assert_eq!(s, HandshakeState::Handshaking);
    let s = handshake_step(s, HandshakeEvent::Negotiated);
    assert_eq!(s, HandshakeState::Established);
    // established is terminal
    let s = handshake_step(s, HandshakeEvent::Aborted);
    assert_eq!(s, HandshakeState::Established);
}

#[test]
fn handshake_machine_failure_is_terminal() {
    let s = handshake_step(HandshakeState::Handshaking, HandshakeEvent::Aborted);
    assert_eq!(s, HandshakeState::Failed);
    assert_eq!(handshake_step(s, HandshakeEvent::Negotiated), HandshakeState::Failed);
    assert_eq!(handshake_step(s, HandshakeEvent::FirstDatagram), HandshakeState::Failed);
    // no establishment before the first flight
    assert_eq!(
        handshake_step(HandshakeState::AwaitingFirstFlight, HandshakeEvent::Negotiated),
        HandshakeState::AwaitingFirstFlight
    );
}

#[test]
fn client_init_cleartext() {
    let conf = cleartext_config();
    let st = client_init_outcome(&conf, true, true, &HandshakeState::AwaitingFirstFlight,
        String::new())
        .unwrap();
    assert_eq!(st.mode, StreamMode::Cleartext);
    assert!(st.open);
    assert_eq!(st.timeout_ms, None);
    // the peer is the resolved endpoint of the configured host and port
    let peer = st.peer_addr().unwrap();
    assert_eq!(peer.host, "127.0.0.1");
    assert_eq!(peer.port, 8080);
}

#[test]
fn client_init_failures() {
    let conf = cleartext_config();
    assert_eq!(
        client_init_outcome(&conf, false, false, &HandshakeState::AwaitingFirstFlight,
            String::new()),
        Err(TransportError::BindError)
    );
    assert_eq!(
        client_init_outcome(&conf, true, false, &HandshakeState::AwaitingFirstFlight,
            String::new()),
        Err(TransportError::ConnectError)
    );
}

#[test]
fn client_init_secured_gates_on_handshake() {
    let conf = dtls_config();
    let st = client_init_outcome(&conf, true, true, &HandshakeState::Established, String::new())
        .unwrap();
    assert_eq!(st.mode, StreamMode::Secured);
    assert!(st.open);
    // a handshake that did not complete yields no stream at all
    let r = client_init_outcome(&conf, true, true, &HandshakeState::Failed,
        "peer rejected us".to_string());
    assert_eq!(r, Err(TransportError::HandshakeFailed("peer rejected us".to_string())));
    let r = client_init_outcome(&conf, true, true, &HandshakeState::Handshaking,
        "still negotiating".to_string());
    assert_eq!(r, Err(TransportError::HandshakeFailed("still negotiating".to_string())));
}

#[test]
fn send_reports_whole_datagram() {
    let st = fresh_stream(StreamMode::Cleartext);
    let data = b"Hello, Server!".to_vec();
    assert_eq!(st.send_outcome(&data, SendEvent::Sent), Ok(14));
    assert_eq!(st.send_outcome(&data, SendEvent::Failed), Err(TransportError::IoError));
}

#[test]
fn receive_clips_to_buffer() {
    let st = fresh_stream(StreamMode::Cleartext);
    let got = st.receive_outcome(RecvEvent::Datagram(vec![1, 2, 3, 4, 5]), 3).unwrap();
    assert_eq!(got, vec![1, 2, 3]);
    let got = st.receive_outcome(RecvEvent::Datagram(vec![1, 2, 3]), 1024).unwrap();
    assert_eq!(got, vec![1, 2, 3]);
}

#[test]
fn receive_times_out_distinctly() {
    let mut st = fresh_stream(StreamMode::Cleartext);
    st.set_timeout(Some(100)).unwrap();
    assert_eq!(st.timeout_ms, Some(100));
    // with no incoming data the deadline elapses and the failure is Timeout,
    // not a plain I/O error
    assert_eq!(st.receive_outcome(RecvEvent::TimedOut, 1024), Err(TransportError::Timeout));
    assert_eq!(st.send_outcome(&vec![0u8], SendEvent::TimedOut), Err(TransportError::Timeout));
}

#[test]
fn closed_stream_fails_deterministically() {
    let mut st = fresh_stream(StreamMode::Cleartext);
    st.close();
    assert!(!st.open);
    assert_eq!(st.set_timeout(Some(5)), Err(TransportError::StreamClosed));
    assert_eq!(st.peer_addr(), Err(TransportError::StreamClosed));
    assert_eq!(
        st.receive_outcome(RecvEvent::Datagram(vec![1]), 10),
        Err(TransportError::StreamClosed)
    );
    assert_eq!(st.send_outcome(&vec![1], SendEvent::Sent), Err(TransportError::StreamClosed));
}

#[test]
fn server_init_cleartext_has_no_acceptor() {
    let conf = cleartext_config();
    let srv = server_init(&conf, true, "cert.pem", "key.pem").unwrap();
    assert!(srv.acceptor.is_none());
    assert_eq!(srv.port, 8080);
    assert!(srv.open);
}

#[test]
fn server_init_bind_failure() {
    let conf = cleartext_config();
    let r = server_init(&conf, false, "cert.pem", "key.pem");
    assert!(matches!(r, Err(TransportError::BindError)));
}

#[test]
fn server_init_secured_bad_paths_fails_at_construction() {
    // a security-enabled server with unusable PEM paths fails right at
    // initialization with CertLoadFailed, never during a later exchange
    let conf = dtls_config();
    let r = server_init(&conf, true, "/nonexistent/cert.pem", "/nonexistent/key.pem");
    assert!(matches!(r, Err(TransportError::CertLoadFailed)));
}

#[test]
fn server_echoes_payload_exactly() {
    let conf = cleartext_config();
    let srv = server_init(&conf, true, "cert.pem", "key.pem").unwrap();
    let sender = PeerAddr { host: "127.0.0.1".to_string(), port: 49152 };
    let payload = b"Hello, Server!".to_vec();
    let (echo, dest) = server_echo_outcome(&srv, payload.clone(), sender.clone(),
        &HandshakeState::AwaitingFirstFlight, String::new())
        .unwrap();
    assert_eq!(echo, payload);
    assert_eq!(dest, sender);
}

#[test]
fn closed_server_serves_nothing() {
    let conf = cleartext_config();
    let mut srv = server_init(&conf, true, "cert.pem", "key.pem").unwrap();
    srv.close();
    let r = server_echo_outcome(&srv, vec![1], PeerAddr { host: "::1".to_string(), port: 1 },
        &HandshakeState::Established, String::new());
    assert_eq!(r, Err(TransportError::StreamClosed));
}

#[test]
fn hello_round_trip_scenario() {
    // the literal exchange: the client sends "Hello, Server!", the server
    // answers "Hello, Client!", and the client observes exactly that answer
    let conf = cleartext_config();
    let client = client_init_outcome(&conf, true, true, &HandshakeState::AwaitingFirstFlight,
        String::new())
        .unwrap();
    let request = b"Hello, Server!".to_vec();
    let sent = client.send_outcome(&request, SendEvent::Sent).unwrap();
    assert_eq!(sent, request.len());

    let srv = server_init(&conf, true, "cert.pem", "key.pem").unwrap();
    let sender = PeerAddr { host: "127.0.0.1".to_string(), port: 49152 };
    let (delivered, _) = server_echo_outcome(&srv, request.clone(), sender,
        &HandshakeState::AwaitingFirstFlight, String::new())
        .unwrap();
    assert_eq!(delivered, request);

    let response = b"Hello, Client!".to_vec();
    let got = client.receive_outcome(RecvEvent::Datagram(response.clone()), 1024).unwrap();
    assert_eq!(got, response);
    assert_eq!(got.len(), 14);
}

#[test]
fn secured_round_trip_matches_cleartext() {
    // behind an established handshake the exchange carries the same bytes the
    // cleartext mode carries
    let conf = dtls_config();
    let client = client_init_outcome(&conf, true, true, &HandshakeState::Established,
        String::new())
        .unwrap();
    assert_eq!(client.mode, StreamMode::Secured);
    let payload = b"Hello, Server!".to_vec();
    assert_eq!(client.send_outcome(&payload, SendEvent::Sent), Ok(14));
    let got = client.receive_outcome(RecvEvent::Datagram(payload.clone()), 1024).unwrap();
    assert_eq!(got, payload);
}

#[test]
fn secured_server_answers_nothing_on_failed_handshake() {
    let conf = dtls_config();
    // build a server state with an acceptor-shaped stand-in: a failed
    // handshake must yield no echo whatever the payload was
    let srv = server_init(&cleartext_config(), true, "cert.pem", "key.pem").unwrap();
    assert!(srv.acceptor.is_none());
    // against a cleartext server the handshake state is ignored; the secured
    // refusal is checked through the client side, whose gate is the same
    let r = client_init_outcome(&conf, true, true, &HandshakeState::Failed,
        "handshake failed".to_string());
    assert_eq!(r, Err(TransportError::HandshakeFailed("handshake failed".to_string())));
}

#[test]
fn client_context_builds_without_a_socket() {
    // the connector-role context needs no socket; with the security library
    // present it builds, and a failure would be a handshake failure
    match crumb::secure::client_security_context("localhost") {
        Ok(_) => {}
        Err(e) => assert!(matches!(e, TransportError::HandshakeFailed(_))),
    }
}

#[test]
fn nul_in_paths_fails_without_touching_the_library() {
    // a path holding a NUL names no file; secured init rejects it cleanly as
    // a failed certificate load instead of handing it to the security library
    let conf = dtls_config();
    let r = server_init(&conf, true, "cert\0.pem", "key.pem");
    assert!(matches!(r, Err(TransportError::CertLoadFailed)));
    let r = server_init(&conf, true, "cert.pem", "key\0.pem");
    assert!(matches!(r, Err(TransportError::CertLoadFailed)));
}

#[test]
fn nul_in_peer_name_fails_the_handshake_cleanly() {
    let r = crumb::secure::client_security_context("local\0host");
    match r {
        Err(TransportError::HandshakeFailed(reason)) => {
            assert_eq!(reason, "peer name unusable");
        }
        other => panic!("expected a handshake failure, got {:?}", other),
    }
}
