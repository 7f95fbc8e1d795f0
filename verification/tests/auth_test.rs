use prism::transport::auth::{
    alpn_protocols, bytes_equal, parse_private_key, InvalidPrivateKey, transport_settings, CertRejection, CongestionControl, PinningVerifier,
    TrustedClientVerifier,
};

#[test]
fn pinned_certificate_is_the_only_one_accepted() {
    let verifier = PinningVerifier::new(vec![1, 2, 3]);
    assert_eq!(verifier.verify_server_cert(&[1, 2, 3]), Ok(()));
    assert_eq!(verifier.verify_server_cert(&[1, 2]), Err(CertRejection::CertificateMismatch));
    assert_eq!(verifier.verify_server_cert(&[1, 2, 4]), Err(CertRejection::CertificateMismatch));
    assert_eq!(verifier.verify_server_cert(&[]), Err(CertRejection::CertificateMismatch));
}

#[test]
fn trusted_clients_are_the_stored_ones() {
    let verifier = TrustedClientVerifier::new(vec![vec![1], vec![2, 2], vec![]]);
    assert_eq!(verifier.verify_client_cert(&[1]), Ok(()));
    assert_eq!(verifier.verify_client_cert(&[2, 2]), Ok(()));
    assert_eq!(verifier.verify_client_cert(&[]), Ok(()));
    assert_eq!(verifier.verify_client_cert(&[2]), Err(CertRejection::InvalidClient));
    let none = TrustedClientVerifier::new(vec![]);
    assert_eq!(none.verify_client_cert(&[1]), Err(CertRejection::InvalidClient));
}

#[test]
fn byte_strings_compare_by_content() {
    assert!(bytes_equal(&[], &[]));
    assert!(bytes_equal(&[5, 6], &[5, 6]));
    assert!(!bytes_equal(&[5, 6], &[5]));
    assert!(!bytes_equal(&[5, 6], &[6, 5]));
}

#[test]
fn transport_settings_values() {
    let s = transport_settings();
    assert_eq!(s.keep_alive_interval_secs, 5);
    assert_eq!(s.max_idle_timeout_millis, 15_000);
    assert_eq!(s.receive_window, 8_388_608);
    assert_eq!(s.send_window, 8_388_608);
    assert_eq!(s.datagram_receive_buffer_size, 4_194_304);
    assert_eq!(s.datagram_send_buffer_size, 4_194_304);
    assert_eq!(s.congestion, CongestionControl::Bbr);
}

#[test]
fn alpn_is_prism() {
    assert_eq!(alpn_protocols(), vec![b"prism".to_vec()]);
}

#[test]
fn private_keys_must_be_der_sequences() {
    let (_cert, key) = prism::transport::crypto::generate_identity("node").unwrap();
    assert!(parse_private_key(key).is_ok());
    assert_eq!(parse_private_key(vec![]).err(), Some(InvalidPrivateKey));
    assert_eq!(parse_private_key(vec![0x30]).err(), Some(InvalidPrivateKey));
    assert_eq!(parse_private_key(vec![0x31, 0x00]).err(), Some(InvalidPrivateKey));
}

#[test]
fn private_key_formats_are_recognised_by_shape() {
    // PKCS#1 (version 0) and SEC1 (version 1), short-form length.
    assert!(parse_private_key(vec![0x30, 0x03, 0x02, 0x01, 0x00]).is_ok());
    assert!(parse_private_key(vec![0x30, 0x03, 0x02, 0x01, 0x01]).is_ok());
    // PKCS#8: a version followed by a SEQUENCE.
    assert!(parse_private_key(vec![0x30, 0x04, 0x02, 0x01, 0x07, 0x30]).is_ok());
    // Long-form length: one length byte after 0x81.
    assert!(parse_private_key(vec![0x30, 0x81, 0x03, 0x02, 0x01, 0x00]).is_ok());
    // Unknown version, truncated body, length bytes past the end.
    assert!(parse_private_key(vec![0x30, 0x03, 0x02, 0x01, 0x02]).is_err());
    assert!(parse_private_key(vec![0x30, 0x02, 0x02, 0x01]).is_err());
    assert!(parse_private_key(vec![0x30, 0x85, 0x00]).is_err());
}
