//! Node identities and the trust store.
//!
//! A node's identity is a self-signed Ed25519 certificate and its private
//! key, both DER-encoded. Trusted peer certificates are stored one per file,
//! named after the peer.

use vstd::prelude::*;

use rcgen::{CertificateParams, KeyPair};
use rustls::pki_types::PrivatePkcs8KeyDer;

use crate::transport::auth::{der_body_offset, is_private_key_der};

verus! {

#[verifier::external_type_specification]
#[verifier::external_body]
pub struct ExRcgenError(rcgen::Error);

/// Whether `ring` reads `der` as an Ed25519 key pair in PKCS#8
/// (`ring::signature::Ed25519KeyPair::from_pkcs8_maybe_unchecked` succeeds).
pub uninterp spec fn ed25519_pkcs8_accepted(der: Seq<u8>) -> bool;

/// The DER certificate that `rcgen` self-signs for `name` with the Ed25519
/// key whose PKCS#8 DER is `key_der`: default parameters (fixed validity
/// dates and subject), `name` as the only subject alternative name, a serial
/// number hashed from the public key, and a deterministic Ed25519 signature.
pub uninterp spec fn self_signed_cert_der(name: Seq<char>, key_der: Seq<u8>) -> Seq<u8>;

/// Generates a random Ed25519 key pair (`rcgen::KeyPair::generate_for` with
/// `PKCS_ED25519`) and returns its PKCS#8 DER serialization
/// (`KeyPair::serialized_der`, which only refuses key pairs held remotely,
/// never one generated here). The crate serializes with `ring`'s PKCS#8 v2
/// template: 83 bytes, a SEQUENCE of length 0x51 whose body starts with the
/// version INTEGER 1 and the algorithm SEQUENCE; it has checked that `ring`
/// reads the result back. The key itself is random.
#[verifier::external_body]
fn generate_ed25519_key_der() -> (r: Result<Vec<u8>, rcgen::Error>)
    ensures
        r matches Ok(der) ==> der@.len() == 83 && der@.subrange(0, 6) == seq![0x30u8, 0x51, 0x02, 0x01, 0x01, 0x30],
        r matches Ok(der) ==> ed25519_pkcs8_accepted(der@),
{
    let key_pair = KeyPair::generate_for(&rcgen::PKCS_ED25519)?;
    Ok(key_pair.serialized_der().to_vec())
}

/// Self-signs a certificate for `name` with the Ed25519 key whose PKCS#8
/// DER is `key_der` (`rcgen::CertificateParams::new` with `name`,
/// `KeyPair::from_pkcs8_der_and_sign_algo` with `PKCS_ED25519`, then
/// `CertificateParams::self_signed` and `Certificate::der`). The crate
/// refuses a name that is not ASCII (it is neither an IP address nor a DNS
/// name) and a key that `ring` cannot read; with Ed25519 signing nothing
/// else fails, and the certificate is [`self_signed_cert_der`].
#[verifier::external_body]
fn self_signed_der(name: &str, key_der: &[u8]) -> (r: Result<Vec<u8>, rcgen::Error>)
    ensures
        !vstd::string::is_ascii(name) ==> r is Err,
        vstd::string::is_ascii(name) && ed25519_pkcs8_accepted(key_der@) ==> r is Ok,
        r matches Ok(cert) ==> cert@ == self_signed_cert_der(name@, key_der@),
{
    let params = CertificateParams::new(vec![name.to_string()])?;
    let key_pair = KeyPair::from_pkcs8_der_and_sign_algo(&PrivatePkcs8KeyDer::from(key_der), &rcgen::PKCS_ED25519)?;
    Ok(params.self_signed(&key_pair)?.der().as_ref().to_vec())
}

/// Why an identity could not be made.
#[derive(Debug, Clone, Copy, PartialEq, Eq, Structural)]
pub enum IdentityError {
    /// The key pair could not be generated.
    KeyGeneration,
    /// The common name is not ASCII, so not a valid DNS name.
    InvalidCommonName,
}

/// Generates a fresh identity for `common_name`: a random Ed25519 key and
/// the certificate self-signed with it for the name, as
/// `(cert_der, key_der)`. A name that is not ASCII is refused; an ASCII name
/// fails only if no key could be generated.
pub fn generate_identity(common_name: &str) -> (r: Result<(Vec<u8>, Vec<u8>), IdentityError>)
    ensures
        r matches Ok((cert_der, key_der)) ==> cert_der@ == self_signed_cert_der(common_name@, key_der@)
            && is_private_key_der(key_der@) && ed25519_pkcs8_accepted(key_der@),
        vstd::string::is_ascii(common_name) ==> r is Ok || r == Err::<(Vec<u8>, Vec<u8>), IdentityError>(
            IdentityError::KeyGeneration,
        ),
        !vstd::string::is_ascii(common_name) ==> r is Err,
{
    let key_der = match generate_ed25519_key_der() {
        Ok(der) => der,
        Err(_) => return Err(IdentityError::KeyGeneration),
    };
    proof {
        let k = key_der@;
        assert(k[0] == k.subrange(0, 6)[0] && k[1] == k.subrange(0, 6)[1]);
        assert(der_body_offset(k) == 2);
        let b = k.subrange(2, k.len() as int);
        assert(b[0] == k.subrange(0, 6)[2] && b[1] == k.subrange(0, 6)[3] && b[3] == k.subrange(0, 6)[5]);
    }
    match self_signed_der(common_name, key_der.as_slice()) {
        Ok(cert_der) => Ok((cert_der, key_der)),
        Err(_) => Err(IdentityError::InvalidCommonName),
    }
}

/// The directory, under the configuration directory, that holds the node's
/// own identity.
pub const IDENTITY_DIR: &'static str = "identity";

/// The file of the identity's certificate.
pub const CERT_FILE: &'static str = "cert.der";

/// The file of the identity's private key.
pub const KEY_FILE: &'static str = "key.der";

/// The Unix permissions of the private key file: owner read and write.
pub const KEY_FILE_MODE: u32 = 0o600;

/// The directory, under the configuration directory, of the server
/// certificates a client trusts.
pub const TRUSTED_SERVERS_DIR: &'static str = "trusted_servers";

/// The directory, under the configuration directory, of the client
/// certificates a server trusts.
pub const TRUSTED_CLIENTS_DIR: &'static str = "trusted_clients";

/// Where a node's identity comes from.
#[derive(Debug, Clone, Copy, PartialEq, Eq, Structural)]
pub enum IdentitySource {
    /// Both files are there: read them.
    Load,
    /// Generate a new identity and write both files.
    Generate,
}

/// An identity is loaded when both its certificate and its key file exist,
/// and generated anew otherwise.
pub fn identity_source(cert_exists: bool, key_exists: bool) -> (r: IdentitySource)
    ensures
        r == (if cert_exists && key_exists { IdentitySource::Load } else { IdentitySource::Generate }),
{
    if cert_exists && key_exists {
        IdentitySource::Load
    } else {
        IdentitySource::Generate
    }
}

/// The name of the file that stores the trusted certificate of the peer
/// `common_name`: the name followed by `.der`.
pub fn cert_file_name(common_name: &str) -> (r: String)
    ensures
        r@ == common_name@ + ".der"@,
{
    let mut name = common_name.to_owned();
    name.append(".der");
    name
}

/// Whether a file with the extension `extension` holds a trusted
/// certificate: its extension is exactly `der`.
pub fn is_cert_extension(extension: Option<&str>) -> (r: bool)
    ensures
        r == (extension matches Some(e) && e@ == "der"@),
{
    match extension {
        Some(e) => {
            let owned = e.to_owned();
            let der = "der".to_owned();
            owned == der
        },
        None => false,
    }
}

} // verus!
