//! Certificate trust decisions and the QUIC transport settings shared by
//! every connection.
//!
//! Certificates are self-signed and trusted by pinning: a client trusts
//! exactly the server certificate it received while pairing, and a server
//! trusts exactly the client certificates it stored while pairing.

use vstd::prelude::*;

use rustls::pki_types::PrivateKeyDer;

verus! {

#[verifier::external_type_specification]
#[verifier::external_body]
pub struct ExPrivateKeyDer<'a>(PrivateKeyDer<'a>);

/// Where the body of the outer DER SEQUENCE of `k` starts: after the tag and
/// a short-form length byte, or after the tag, a long-form length byte and
/// the length's bytes.
pub open spec fn der_body_offset(k: Seq<u8>) -> int {
    if k[1] < 128 {
        2
    } else {
        2 + (k[1] - 128)
    }
}

/// Whether `k` is taken for a DER private key: it starts with a SEQUENCE tag
/// and a length, and the body starts with the INTEGER 1-byte version
/// followed by a SEQUENCE (PKCS#8), or is the version 0 (PKCS#1) or 1 (SEC1).
pub open spec fn is_private_key_der(k: Seq<u8>) -> bool {
    &&& k.len() >= 2
    &&& k[0] == 0x30
    &&& der_body_offset(k) <= k.len()
    &&& {
        let b = k.subrange(der_body_offset(k), k.len() as int);
        ||| b.len() >= 4 && b[0] == 0x02 && b[1] == 0x01 && b[3] == 0x30
        ||| b.len() >= 3 && b[0] == 0x02 && b[1] == 0x01 && (b[2] == 0x00 || b[2] == 0x01)
    }
}

/// Reads a DER private key, telling PKCS#1, SEC1 and PKCS#8 apart
/// (`rustls::pki_types::PrivateKeyDer::try_from`). The crate looks only at
/// the outer SEQUENCE's tag and length and at the first bytes of its body:
/// it succeeds exactly on [`is_private_key_der`] input. Which of the three
/// formats it reports is left unsaid.
#[verifier::external_body]
fn private_key_from_der(key_der: Vec<u8>) -> (r: Result<PrivateKeyDer<'static>, &'static str>)
    ensures
        r is Ok <==> is_private_key_der(key_der@),
{
    PrivateKeyDer::try_from(key_der)
}

/// A private key that could not be read.
#[derive(Debug, Clone, Copy, PartialEq, Eq, Structural)]
pub struct InvalidPrivateKey;

/// Reads the node's DER private key for its TLS configuration: it is read
/// exactly when it has the shape of a PKCS#8, PKCS#1 or SEC1 key
/// ([`is_private_key_der`]), and refused otherwise.
pub fn parse_private_key(key_der: Vec<u8>) -> (r: Result<PrivateKeyDer<'static>, InvalidPrivateKey>)
    ensures
        r is Ok <==> is_private_key_der(key_der@),
{
    match private_key_from_der(key_der) {
        Ok(key) => Ok(key),
        Err(_) => Err(InvalidPrivateKey),
    }
}

/// Whether two byte strings are equal.
pub fn bytes_equal(a: &[u8], b: &[u8]) -> (r: bool)
    ensures
        r == (a@ == b@),
{
    if a.len() != b.len() {
        return false;
    }
    let mut i: usize = 0;
    while i < a.len()
        invariant
            a@.len() == b@.len(),
            i <= a@.len(),
            forall|j: int| 0 <= j < i ==> a@[j] == b@[j],
        decreases a@.len() - i,
    {
        if a[i] != b[i] {
            return false;
        }
        i = i + 1;
    }
    assert(a@ =~= b@);
    true
}

/// Why a peer's certificate was refused.
#[derive(Debug, Clone, Copy, PartialEq, Eq, Structural)]
pub enum CertRejection {
    /// The server's certificate is not the pinned one.
    CertificateMismatch,
    /// The client's certificate is not among the trusted ones.
    InvalidClient,
}

/// A client's check of the server: the server must present the certificate
/// received while pairing.
pub struct PinningVerifier {
    expected_cert: Vec<u8>,
}

impl PinningVerifier {
    /// The pinned certificate.
    pub closed spec fn expected(&self) -> Seq<u8> {
        self.expected_cert@
    }

    /// Pins `expected_cert`.
    pub fn new(expected_cert: Vec<u8>) -> (r: PinningVerifier)
        ensures
            r.expected() == expected_cert@,
    {
        PinningVerifier { expected_cert }
    }

    /// Accepts the server's end-entity certificate exactly when it is the
    /// pinned one.
    pub fn verify_server_cert(&self, end_entity: &[u8]) -> (r: Result<(), CertRejection>)
        ensures
            r is Ok <==> end_entity@ == self.expected(),
            r is Err ==> r == Err::<(), CertRejection>(CertRejection::CertificateMismatch),
    {
        if bytes_equal(end_entity, self.expected_cert.as_slice()) {
            Ok(())
        } else {
            Err(CertRejection::CertificateMismatch)
        }
    }
}

/// Whether `cert` is one of `trusted`.
pub open spec fn is_trusted(trusted: Seq<Seq<u8>>, cert: Seq<u8>) -> bool {
    exists|i: int| 0 <= i < trusted.len() && #[trigger] trusted[i] == cert
}

/// A server's check of a client: the client must present one of the
/// certificates stored while pairing.
pub struct TrustedClientVerifier {
    trusted_certs: Vec<Vec<u8>>,
}

impl TrustedClientVerifier {
    /// The trusted certificates.
    pub closed spec fn trusted(&self) -> Seq<Seq<u8>> {
        self.trusted_certs@.map_values(|c: Vec<u8>| c@)
    }

    /// Trusts exactly `trusted_certs`.
    pub fn new(trusted_certs: Vec<Vec<u8>>) -> (r: TrustedClientVerifier)
        ensures
            r.trusted() == trusted_certs@.map_values(|c: Vec<u8>| c@),
    {
        TrustedClientVerifier { trusted_certs }
    }

    /// Accepts the client's end-entity certificate exactly when it is one of
    /// the trusted ones.
    pub fn verify_client_cert(&self, end_entity: &[u8]) -> (r: Result<(), CertRejection>)
        ensures
            r is Ok <==> is_trusted(self.trusted(), end_entity@),
            r is Err ==> r == Err::<(), CertRejection>(CertRejection::InvalidClient),
    {
        let mut i: usize = 0;
        while i < self.trusted_certs.len()
            invariant
                i <= self.trusted_certs@.len(),
                forall|j: int| 0 <= j < i ==> #[trigger] self.trusted()[j] != end_entity@,
            decreases self.trusted_certs@.len() - i,
        {
            if bytes_equal(self.trusted_certs[i].as_slice(), end_entity) {
                assert(self.trusted()[i as int] == end_entity@);
                return Ok(());
            }
            i = i + 1;
        }
        Err(CertRejection::InvalidClient)
    }
}

/// Proof that storing more certificates never stops trusting one: a trusted
/// certificate stays trusted whatever is stored before or after it.
pub proof fn lemma_trust_survives_more_certs(trusted: Seq<Seq<u8>>, more: Seq<Seq<u8>>, cert: Seq<u8>)
    requires
        is_trusted(trusted, cert),
    ensures
        is_trusted(trusted + more, cert),
        is_trusted(more + trusted, cert),
{
    let i = choose|i: int| 0 <= i < trusted.len() && #[trigger] trusted[i] == cert;
    assert((trusted + more)[i] == cert);
    assert((more + trusted)[more.len() + i] == cert);
}

/// The congestion controller of a connection.
#[derive(Debug, Clone, Copy, PartialEq, Eq, Structural)]
pub enum CongestionControl {
    Bbr,
}

/// The QUIC transport settings of every connection, client and server.
#[derive(Debug, Clone, Copy, PartialEq, Eq, Structural)]
pub struct TransportSettings {
    pub keep_alive_interval_secs: u64,
    pub max_idle_timeout_millis: u32,
    pub receive_window: u32,
    pub send_window: u64,
    pub datagram_receive_buffer_size: usize,
    pub datagram_send_buffer_size: usize,
    pub congestion: CongestionControl,
}

/// The transport settings: a keep-alive every 5 s, a 15 s idle timeout,
/// 8 MiB stream windows, 4 MiB datagram buffers and BBR.
pub fn transport_settings() -> (r: TransportSettings)
    ensures
        r.keep_alive_interval_secs == 5,
        r.max_idle_timeout_millis == 15_000,
        r.receive_window == 8 * 1024 * 1024,
        r.send_window == 8 * 1024 * 1024,
        r.datagram_receive_buffer_size == 4 * 1024 * 1024,
        r.datagram_send_buffer_size == 4 * 1024 * 1024,
        r.congestion == CongestionControl::Bbr,
{
    TransportSettings {
        keep_alive_interval_secs: 5,
        max_idle_timeout_millis: 15_000,
        receive_window: 8 * 1024 * 1024,
        send_window: 8 * 1024 * 1024,
        datagram_receive_buffer_size: 4 * 1024 * 1024,
        datagram_send_buffer_size: 4 * 1024 * 1024,
        congestion: CongestionControl::Bbr,
    }
}

/// The ALPN protocol list of every connection: the single protocol `prism`.
pub fn alpn_protocols() -> (r: Vec<Vec<u8>>)
    ensures
        r@.len() == 1,
        r@[0]@ == seq![0x70u8, 0x72, 0x69, 0x73, 0x6d],
{
    let protocol: Vec<u8> = vec![0x70u8, 0x72, 0x69, 0x73, 0x6d];
    let r = vec![protocol];
    r
}

} // verus!
