use prism::transport::crypto::{
    cert_file_name, generate_identity, identity_source, is_cert_extension, IdentityError, IdentitySource,
};

#[test]
fn generated_identities_are_fresh_der() {
    let (cert, key) = generate_identity("node").unwrap();
    let (cert2, key2) = generate_identity("node").unwrap();
    assert_eq!(cert[0], 0x30);
    assert_eq!(key[0], 0x30);
    assert_ne!(key, key2);
    assert_ne!(cert, cert2);
    assert!(generate_identity("10.0.0.1").is_ok());
}

#[test]
fn non_ascii_common_name_is_refused() {
    assert_eq!(generate_identity("nœud"), Err(IdentityError::InvalidCommonName));
}

#[test]
fn cert_files_are_named_after_the_peer() {
    assert_eq!(cert_file_name("laptop"), "laptop.der");
    assert_eq!(cert_file_name(""), ".der");
    assert!(is_cert_extension(Some("der")));
    assert!(!is_cert_extension(Some("pem")));
    assert!(!is_cert_extension(Some("DER")));
    assert!(!is_cert_extension(None));
}

#[test]
fn identity_is_loaded_only_when_complete() {
    assert_eq!(identity_source(true, true), IdentitySource::Load);
    assert_eq!(identity_source(true, false), IdentitySource::Generate);
    assert_eq!(identity_source(false, true), IdentitySource::Generate);
    assert_eq!(identity_source(false, false), IdentitySource::Generate);
}

#[test]
fn generated_certificate_fits_its_key() {
    let (cert, key) = generate_identity("server").unwrap();
    let key = prism::transport::auth::parse_private_key(key).unwrap();
    let config = rustls::ServerConfig::builder()
        .with_no_client_auth()
        .with_single_cert(vec![rustls::pki_types::CertificateDer::from(cert)], key);
    assert!(config.is_ok());
}

#[test]
fn certificate_names_its_common_name() {
    let (cert, _key) = generate_identity("laptop.example").unwrap();
    let needle = b"laptop.example";
    assert!(cert.windows(needle.len()).any(|w| w == needle));
}
