use prism::addr::Ipv4;
use prism::protocol::wire::ControlMessage;
use prism::transport::crypto::generate_identity;
use prism::transport::pairing::{
    expired_after, ClientOutcome, ClientPairing, PairingError, PairingState, ServerOutcome, ServerPairing,
};

/// Runs a whole pairing between a client that typed `pin` and a server that
/// issued `state`, passing each message from one machine to the other.
fn run_pairing(
    pin: &str,
    client_name: &str,
    client_cert: &[u8],
    state: &PairingState,
    server_name: &str,
    server_cert: &[u8],
    client_ip: Ipv4,
    subnet_mask: Ipv4,
) -> (Result<(String, Vec<u8>), PairingError>, Result<Option<(String, Vec<u8>)>, PairingError>) {
    let mut to_server: Vec<ControlMessage> = Vec::new();
    let mut to_client: Vec<ControlMessage> = Vec::new();

    let step = ClientPairing::start(pin, client_name, client_cert);
    to_server.extend(step.send);
    let mut client = match step.outcome {
        ClientOutcome::Continue(c) => Some(c),
        _ => panic!("client should wait for the server"),
    };
    let mut client_result = None;

    let step = ServerPairing::start(state, server_name, server_cert, client_ip, subnet_mask);
    to_client.extend(step.send);
    let mut server = None;
    let mut server_result = None;
    match step.outcome {
        ServerOutcome::Continue(s) => server = Some(s),
        ServerOutcome::Done(peer) => server_result = Some(Ok(peer)),
        ServerOutcome::Failed(e) => server_result = Some(Err(e)),
    }

    for _ in 0..8 {
        if let Some(s) = server.take() {
            if !to_server.is_empty() {
                let msg = to_server.remove(0);
                let step = s.on_message(msg);
                to_client.extend(step.send);
                match step.outcome {
                    ServerOutcome::Continue(next) => server = Some(next),
                    ServerOutcome::Done(peer) => server_result = Some(Ok(peer)),
                    ServerOutcome::Failed(e) => server_result = Some(Err(e)),
                }
            } else {
                server = Some(s);
            }
        }
        if let Some(c) = client.take() {
            if !to_client.is_empty() {
                let msg = to_client.remove(0);
                let step = c.on_message(msg);
                to_server.extend(step.send);
                match step.outcome {
                    ClientOutcome::Continue(next) => client = Some(next),
                    ClientOutcome::Paired { server_name, server_cert_der } => {
                        client_result = Some(Ok((server_name, server_cert_der)))
                    }
                    ClientOutcome::Failed(e) => client_result = Some(Err(e)),
                }
            } else {
                client = Some(c);
            }
        }
    }
    (
        client_result.expect("the client run should end"),
        server_result.expect("the server run should end"),
    )
}

#[test]
fn test_pairing_success() {
    let (server_cert, _server_key) = generate_identity("server").unwrap();
    let (client_cert, _client_key) = generate_identity("client").unwrap();

    let pairing_state = PairingState::new();
    let pin = pairing_state.pin().to_string();

    let client_ip = Ipv4::new(100, 64, 0, 2);
    let subnet_mask = Ipv4::new(255, 255, 255, 0);

    let (client_result, server_result) = run_pairing(
        &pin,
        "test-client",
        &client_cert,
        &pairing_state,
        "test-server",
        &server_cert,
        client_ip,
        subnet_mask,
    );

    let (name, cert) = server_result.unwrap().expect("pairing should succeed");
    assert_eq!(name, "test-client");
    assert_eq!(cert, client_cert);

    let (server_name, server_cert_received) = client_result.unwrap();
    assert_eq!(server_name, "test-server");
    assert_eq!(server_cert_received, server_cert);
}

#[test]
fn test_wrong_pin_rejected() {
    let (server_cert, _server_key) = generate_identity("server").unwrap();
    let (client_cert, _client_key) = generate_identity("client").unwrap();

    let pairing_state = PairingState::new();
    let wrong_pin = "000000";

    let client_ip = Ipv4::new(100, 64, 0, 2);
    let subnet_mask = Ipv4::new(255, 255, 255, 0);

    let (client_result, server_result) = run_pairing(
        wrong_pin,
        "test-client",
        &client_cert,
        &pairing_state,
        "test-server",
        &server_cert,
        client_ip,
        subnet_mask,
    );

    assert!(server_result.unwrap().is_none(), "server should reject wrong PIN");
    assert!(client_result.is_err(), "client_pair should fail with wrong PIN");
}

fn hex(s: &str) -> Vec<u8> {
    (0..s.len()).step_by(2).map(|i| u8::from_str_radix(&s[i..i + 2], 16).unwrap()).collect()
}

#[test]
fn pin_is_six_decimal_digits() {
    for _ in 0..50 {
        let state = PairingState::new();
        let pin = state.pin();
        assert_eq!(pin.len(), 6);
        assert!(pin.chars().all(|c| c.is_ascii_digit()));
    }
    let state = PairingState::default();
    assert_eq!(state.pin().len(), 6);
}

#[test]
fn fresh_pin_is_valid_and_others_are_not() {
    let state = PairingState::new();
    let pin = state.pin().to_string();
    assert!(!state.is_expired());
    assert!(state.matches_pin(&pin));
    assert!(state.is_valid(&pin));
    let other: String = pin.chars().map(|c| if c == '9' { '0' } else { ((c as u8) + 1) as char }).collect();
    assert!(!state.matches_pin(&other));
    assert!(!state.is_valid(&other));
    assert!(!state.is_valid(""));
    assert!(!state.is_valid(&format!("{}0", pin)));
}

#[test]
fn expiry_is_strictly_after_five_minutes() {
    assert!(!expired_after(0));
    assert!(!expired_after(299_999_999_999));
    assert!(!expired_after(300_000_000_000));
    assert!(expired_after(300_000_000_001));
    assert!(expired_after(u128::MAX));
}

#[test]
fn expired_pin_is_refused_before_any_exchange() {
    let state = PairingState::new();
    let step = ServerPairing::begin(true, &state, "srv", &[1, 2, 3], Ipv4::new(100, 64, 0, 2), Ipv4::new(255, 255, 255, 0));
    match step.send {
        Some(ControlMessage::PairReject { reason }) => assert_eq!(reason, "Pin Expired"),
        _ => panic!("an expired PIN must be refused"),
    }
    assert!(matches!(step.outcome, ServerOutcome::Done(None)));

    let step = ServerPairing::begin(false, &state, "srv", &[1, 2, 3], Ipv4::new(100, 64, 0, 2), Ipv4::new(255, 255, 255, 0));
    assert!(step.send.is_none());
    match step.outcome {
        ServerOutcome::Continue(ServerPairing::AwaitClientHello { own_share, server_name, server_cert_der, .. }) => {
            assert_eq!(own_share.len(), 33);
            assert_eq!(own_share[0], b'B');
            assert_eq!(server_name, "srv");
            assert_eq!(server_cert_der, vec![1, 2, 3]);
        }
        _ => panic!("a live PIN waits for the client"),
    }
}

#[test]
fn client_share_is_side_a_point() {
    let step = ClientPairing::start("123456", "me", &[9]);
    match step.send {
        Some(ControlMessage::ClientPairHello { msg }) => {
            assert_eq!(msg.len(), 33);
            assert_eq!(msg[0], b'A');
        }
        _ => panic!("the client starts with its share"),
    }
}

#[test]
fn pairing_request_carries_hmac_of_certificate() {
    // RFC 4231, test case 2.
    let key = b"Jefe".to_vec();
    let cert = b"what do ya want for nothing?".to_vec();
    let step = ClientPairing::request_with_key(key, "me".to_string(), cert.clone());
    match step.send {
        Some(ControlMessage::PairRequest { client_name, client_cert_der, mac }) => {
            assert_eq!(client_name, "me");
            assert_eq!(client_cert_der, cert);
            assert_eq!(mac, hex("5bdcc146bf60754e6a042426089575c75a003f089d2739839dec58b964ec3843"));
        }
        _ => panic!("the client sends its pairing request"),
    }
    assert!(matches!(step.outcome, ClientOutcome::Continue(ClientPairing::AwaitAccept { .. })));
}

fn await_request(key: &[u8]) -> ServerPairing {
    ServerPairing::AwaitRequest {
        session_key: key.to_vec(),
        server_name: "srv".to_string(),
        server_cert_der: vec![7, 7, 7],
        client_ip: Ipv4::new(100, 64, 0, 2),
        subnet_mask: Ipv4::new(255, 255, 255, 0),
    }
}

#[test]
fn server_accepts_request_under_same_key() {
    let key = [5u8; 32];
    let request = ClientPairing::request_with_key(key.to_vec(), "cli".to_string(), vec![1, 2]).send.unwrap();
    let step = await_request(&key).on_message(request);
    match step.outcome {
        ServerOutcome::Done(Some((name, cert))) => {
            assert_eq!(name, "cli");
            assert_eq!(cert, vec![1, 2]);
        }
        _ => panic!("the server pairs"),
    }
    let accept = step.send.unwrap();
    match &accept {
        ControlMessage::PairAccept { server_name, server_cert_der, assigned_ip, subnet_mask, mac } => {
            assert_eq!(server_name, "srv");
            assert_eq!(server_cert_der, &vec![7, 7, 7]);
            assert_eq!(*assigned_ip, Ipv4::new(100, 64, 0, 2));
            assert_eq!(*subnet_mask, Ipv4::new(255, 255, 255, 0));
            assert_eq!(mac.len(), 32);
            assert_ne!(mac, server_cert_der);
        }
        _ => panic!("the server accepts"),
    }
    let step = ClientPairing::AwaitAccept { session_key: key.to_vec() }.on_message(accept);
    match step.outcome {
        ClientOutcome::Paired { server_name, server_cert_der } => {
            assert_eq!(server_name, "srv");
            assert_eq!(server_cert_der, vec![7, 7, 7]);
        }
        _ => panic!("the client pairs"),
    }
}

#[test]
fn server_refuses_request_under_other_key() {
    let request = ClientPairing::request_with_key(vec![1u8; 32], "cli".to_string(), vec![1, 2]).send.unwrap();
    let step = await_request(&[2u8; 32]).on_message(request);
    match step.send {
        Some(ControlMessage::PairReject { reason }) => assert_eq!(reason, "Invalid Pin"),
        _ => panic!("the server refuses"),
    }
    assert!(matches!(step.outcome, ServerOutcome::Done(None)));
}

#[test]
fn client_refuses_accept_with_bad_mac() {
    let accept = ControlMessage::PairAccept {
        server_name: "srv".to_string(),
        server_cert_der: vec![7, 7, 7],
        assigned_ip: Ipv4::new(100, 64, 0, 2),
        subnet_mask: Ipv4::new(255, 255, 255, 0),
        mac: vec![0u8; 32],
    };
    let step = ClientPairing::AwaitAccept { session_key: vec![3u8; 32] }.on_message(accept);
    assert!(step.send.is_none());
    assert!(matches!(step.outcome, ClientOutcome::Failed(PairingError::MacMismatch)));
}

#[test]
fn client_reports_server_refusal() {
    let step = ClientPairing::AwaitAccept { session_key: vec![3u8; 32] }
        .on_message(ControlMessage::PairReject { reason: "Invalid Pin".to_string() });
    match step.outcome {
        ClientOutcome::Failed(PairingError::Rejected { reason }) => assert_eq!(reason, "Invalid Pin"),
        _ => panic!("the refusal ends the run"),
    }
    let start = ClientPairing::start("123456", "me", &[9]);
    let client = match start.outcome {
        ClientOutcome::Continue(c) => c,
        _ => unreachable!(),
    };
    let step = client.on_message(ControlMessage::PairReject { reason: "Pin Expired".to_string() });
    match step.outcome {
        ClientOutcome::Failed(PairingError::Rejected { reason }) => assert_eq!(reason, "Pin Expired"),
        _ => panic!("the refusal ends the run"),
    }
}

#[test]
fn short_share_fails_key_exchange() {
    let start = ClientPairing::start("123456", "me", &[9]);
    let client = match start.outcome {
        ClientOutcome::Continue(c) => c,
        _ => unreachable!(),
    };
    let step = client.on_message(ControlMessage::ServerPairHello { msg: vec![b'B'; 5] });
    assert!(step.send.is_none());
    assert!(matches!(step.outcome, ClientOutcome::Failed(PairingError::KeyExchange)));

    let state = PairingState::new();
    let server = match ServerPairing::begin(false, &state, "srv", &[1], Ipv4::new(1, 2, 3, 4), Ipv4::new(255, 0, 0, 0)).outcome {
        ServerOutcome::Continue(s) => s,
        _ => unreachable!(),
    };
    let step = server.on_message(ControlMessage::ClientPairHello { msg: vec![b'A'; 3] });
    match step.send {
        Some(ControlMessage::ServerPairHello { msg }) => {
            assert_eq!(msg.len(), 33);
            assert_eq!(msg[0], b'B');
        }
        _ => panic!("the server sends its share in every case"),
    }
    assert!(matches!(step.outcome, ServerOutcome::Failed(PairingError::KeyExchange)));
}

#[test]
fn unexpected_messages_end_the_run() {
    let step = ClientPairing::AwaitAccept { session_key: vec![0u8; 32] }
        .on_message(ControlMessage::ClientPublicAddr { ip: Ipv4::new(1, 1, 1, 1), port: 1 });
    assert!(step.send.is_none());
    assert!(matches!(step.outcome, ClientOutcome::Failed(PairingError::UnexpectedMessage)));

    let step = await_request(&[0u8; 32]).on_message(ControlMessage::PairReject { reason: String::new() });
    assert!(step.send.is_none());
    assert!(matches!(step.outcome, ServerOutcome::Failed(PairingError::UnexpectedMessage)));

    let state = PairingState::new();
    let server = match ServerPairing::begin(false, &state, "srv", &[1], Ipv4::new(1, 2, 3, 4), Ipv4::new(255, 0, 0, 0)).outcome {
        ServerOutcome::Continue(s) => s,
        _ => unreachable!(),
    };
    let step = server.on_message(ControlMessage::ServerPairHello { msg: vec![0; 33] });
    assert!(step.send.is_none());
    assert!(matches!(step.outcome, ServerOutcome::Failed(PairingError::UnexpectedMessage)));
}

#[test]
fn share_from_own_side_fails_key_exchange() {
    let start = ClientPairing::start("123456", "me", &[9]);
    let own_share = match &start.send {
        Some(ControlMessage::ClientPairHello { msg }) => msg.clone(),
        _ => unreachable!(),
    };
    let client = match start.outcome {
        ClientOutcome::Continue(c) => c,
        _ => unreachable!(),
    };
    // A well-formed share, but from side A: the client's own.
    let step = client.on_message(ControlMessage::ServerPairHello { msg: own_share });
    assert!(matches!(step.outcome, ClientOutcome::Failed(PairingError::KeyExchange)));
}

#[test]
fn pin_is_valid_exactly_until_expiry() {
    let state = PairingState::new();
    let pin = state.pin().to_string();
    assert!(state.valid_after(&pin, 0));
    assert!(state.valid_after(&pin, 300_000_000_000));
    assert!(!state.valid_after(&pin, 300_000_000_001));
    assert!(!state.valid_after(&pin[..5], 0));
    assert!(!state.valid_after(&format!("{}7", pin), 0));
    assert!(!state.valid_after(&format!(" {}", pin), 0));
    assert!(!state.valid_after(&format!("{} ", pin), 0));
    assert!(!state.valid_after("", 0));
}

#[test]
fn generated_key_is_pkcs8() {
    let (_cert, key) = generate_identity("node").unwrap();
    assert_eq!(key.len(), 83);
    assert_eq!(&key[..6], &[0x30, 0x51, 0x02, 0x01, 0x01, 0x30]);
}
