//! The cryptographic primitives of pairing: SPAKE2 over Ed25519 for the
//! PIN-authenticated key exchange, and HMAC-SHA256 under the agreed key.
//!
//! Each item here calls the `spake2`, `hmac` and `sha2` crates; its contract
//! states what those crates' sources show of the call.

use vstd::prelude::*;

use hmac::{Hmac, KeyInit, Mac};
use sha2::Sha256;
use spake2::{Ed25519Group, Identity, Password, Spake2};

verus! {

/// The side of a SPAKE2 exchange; each side's share starts with its letter.
#[derive(Debug, Clone, Copy, PartialEq, Eq, Structural)]
pub enum Side {
    A,
    B,
}

/// The first byte of the shares that `side` sends: `b'A'` or `b'B'`.
pub open spec fn side_byte(side: Side) -> u8 {
    match side {
        Side::A => 0x41,
        Side::B => 0x42,
    }
}

/// The other side.
pub open spec fn peer_of(side: Side) -> Side {
    match side {
        Side::A => Side::B,
        Side::B => Side::A,
    }
}

/// The secret of one side of a SPAKE2 exchange over Ed25519
/// (`spake2::Spake2<Ed25519Group>`): the random scalar, the password's
/// scalar, the identities and the share sent. It is opaque: only the
/// functions below handle it.
#[verifier::external_body]
pub struct Spake2Secret {
    state: Spake2<Ed25519Group>,
}

/// What a side of a SPAKE2 exchange was started with, and the share it sent.
pub struct Started {
    pub password: Seq<char>,
    pub id_a: Seq<char>,
    pub id_b: Seq<char>,
    pub share: Seq<u8>,
}

/// One side of a SPAKE2 exchange between sending its share and receiving
/// the peer's.
pub struct Spake2State {
    side: Side,
    started: Ghost<Started>,
    secret: Spake2Secret,
}

impl Spake2State {
    /// The side this state belongs to.
    pub closed spec fn side(&self) -> Side {
        self.side
    }

    /// The password the exchange was started with.
    pub closed spec fn password(&self) -> Seq<char> {
        self.started@.password
    }

    /// The identity of side A.
    pub closed spec fn id_a(&self) -> Seq<char> {
        self.started@.id_a
    }

    /// The identity of side B.
    pub closed spec fn id_b(&self) -> Seq<char> {
        self.started@.id_b
    }

    /// The share this side sent.
    pub closed spec fn share(&self) -> Seq<u8> {
        self.started@.share
    }
}

/// Whether `st` is side `side` of an exchange started with `password`
/// between the identities `id_a` and `id_b`.
pub open spec fn started_with(st: Spake2State, side: Side, password: Seq<char>, id_a: Seq<char>, id_b: Seq<char>) -> bool {
    &&& st.side() == side
    &&& st.password() == password
    &&& st.id_a() == id_a
    &&& st.id_b() == id_b
}

/// Whether 32 bytes are the compressed encoding of a point of the Ed25519
/// curve (`curve25519_dalek::edwards::CompressedEdwardsY::decompress`
/// succeeds).
pub uninterp spec fn ed25519_point_decompresses(encoded: Seq<u8>) -> bool;

#[verifier::external_type_specification]
#[verifier::external_body]
pub struct ExSpake2Error(spake2::Error);

/// Length of a SPAKE2 share over Ed25519: a side byte and a compressed point.
pub const SHARE_LEN: usize = 33;

/// Length of the session key and of an HMAC-SHA256 tag.
pub const KEY_LEN: usize = 32;

/// The HMAC-SHA256 tag of `data` under `key`.
pub uninterp spec fn hmac_sha256_tag(key: Seq<u8>, data: Seq<u8>) -> Seq<u8>;

/// Starts SPAKE2 on side A (`spake2::Spake2::<Ed25519Group>::start_a`), with
/// the password and identities taken as UTF-8 bytes. The crate draws the
/// secret scalar from the operating system's generator, so of the outgoing
/// share only the shape is stated: the side byte `b'A'` and the compressed
/// encoding of a curve point.
#[verifier::external_body]
pub(crate) fn spake2_start_a(password: &str, id_a: &str, id_b: &str) -> (r: (Spake2State, Vec<u8>))
    ensures
        started_with(r.0, Side::A, password@, id_a@, id_b@),
        r.0.share() == r.1@,
        r.1@.len() == SHARE_LEN,
        r.1@[0] == side_byte(Side::A),
        ed25519_point_decompresses(r.1@.subrange(1, SHARE_LEN as int)),
{
    let (state, share) = Spake2::<Ed25519Group>::start_a(
        &Password::new(password.as_bytes()),
        &Identity::new(id_a.as_bytes()),
        &Identity::new(id_b.as_bytes()),
    );
    let started = Ghost(Started { password: password@, id_a: id_a@, id_b: id_b@, share: share@ });
    (Spake2State { side: Side::A, started, secret: Spake2Secret { state } }, share)
}

/// Starts SPAKE2 on side B (`spake2::Spake2::<Ed25519Group>::start_b`); as
/// for side A, of the share only the shape is stated: the side byte `b'B'`
/// and the compressed encoding of a curve point.
#[verifier::external_body]
pub(crate) fn spake2_start_b(password: &str, id_a: &str, id_b: &str) -> (r: (Spake2State, Vec<u8>))
    ensures
        started_with(r.0, Side::B, password@, id_a@, id_b@),
        r.0.share() == r.1@,
        r.1@.len() == SHARE_LEN,
        r.1@[0] == side_byte(Side::B),
        ed25519_point_decompresses(r.1@.subrange(1, SHARE_LEN as int)),
{
    let (state, share) = Spake2::<Ed25519Group>::start_b(
        &Password::new(password.as_bytes()),
        &Identity::new(id_a.as_bytes()),
        &Identity::new(id_b.as_bytes()),
    );
    let started = Ghost(Started { password: password@, id_a: id_a@, id_b: id_b@, share: share@ });
    (Spake2State { side: Side::B, started, secret: Spake2Secret { state } }, share)
}

/// The key that SPAKE2 over Ed25519 gives for `password` between the
/// identities `id_a` and `id_b`, when side A's share is `share_a` and side
/// B's share is `share_b`: SHA-256 of the hashes of the password and of the
/// identities, the two points, and the shared point, which is side A's
/// secret scalar times side B's point unblinded by the password, or side
/// B's scalar times side A's unblinded point. A side's scalar is fixed by
/// its own share and the password, so the key depends on these values
/// alone, and both sides of one exchange with the same password reach the
/// same key (the `spake2` crate's documented promise).
pub uninterp spec fn spake2_key(
    password: Seq<char>,
    id_a: Seq<char>,
    id_b: Seq<char>,
    share_a: Seq<u8>,
    share_b: Seq<u8>,
) -> Seq<u8>;

/// The key that the side held in `st` reaches with the peer's share
/// `peer_share`.
pub open spec fn agreed_key(st: Spake2State, peer_share: Seq<u8>) -> Seq<u8> {
    if st.side() == Side::A {
        spake2_key(st.password(), st.id_a(), st.id_b(), st.share(), peer_share)
    } else {
        spake2_key(st.password(), st.id_a(), st.id_b(), peer_share, st.share())
    }
}

/// Proof that the two sides of one exchange agree on the key when they were
/// started with the same password and identities.
pub proof fn lemma_same_password_same_key(a: Spake2State, b: Spake2State)
    requires
        a.side() == Side::A,
        b.side() == Side::B,
        a.password() == b.password(),
        a.id_a() == b.id_a(),
        a.id_b() == b.id_b(),
    ensures
        agreed_key(a, b.share()) == agreed_key(b, a.share()),
{
}

/// Whether SPAKE2 on side `side` accepts the peer's share `share`.
pub open spec fn share_accepted(side: Side, share: Seq<u8>) -> bool {
    &&& share.len() == SHARE_LEN
    &&& share[0] == side_byte(peer_of(side))
    &&& ed25519_point_decompresses(share.subrange(1, SHARE_LEN as int))
}

/// Whether the share that `st` sent is one its peer accepts: every share
/// that the start functions produce is (a compressed point decompresses).
pub open spec fn sends_accepted_share(st: Spake2State) -> bool {
    share_accepted(peer_of(st.side()), st.share())
}

/// Finishes SPAKE2 with the peer's share (`spake2::Spake2::finish`). The
/// crate accepts exactly a 33-byte share that starts with the peer's side
/// byte and goes on with the encoding of a curve point, and returns as the
/// key the 32-byte [`spake2_key`] of the password and identities it was
/// started with and the two shares, its own in its side's place.
#[verifier::external_body]
pub(crate) fn spake2_finish(state: Spake2State, peer_share: &[u8]) -> (r: Result<Vec<u8>, spake2::Error>)
    ensures
        r is Ok <==> (peer_share@.len() == SHARE_LEN && peer_share@[0] == side_byte(peer_of(state.side())) && ed25519_point_decompresses(peer_share@.subrange(1, SHARE_LEN as int))),
        r matches Ok(key) ==> key@.len() == KEY_LEN,
        r matches Ok(key) ==> key@ == (if state.side() == Side::A { spake2_key(state.password(), state.id_a(), state.id_b(), state.share(), peer_share@) } else { spake2_key(state.password(), state.id_a(), state.id_b(), peer_share@, state.share()) }),
{
    state.secret.state.finish(peer_share)
}

/// Computes HMAC-SHA256 of `data` under `key` (`hmac::Hmac::<Sha256>`:
/// `new_from_slice`, `update`, `finalize`). HMAC takes keys of any length,
/// and the tag is 32 bytes long.
#[verifier::external_body]
pub(crate) fn hmac_sha256(key: &[u8], data: &[u8]) -> (tag: Vec<u8>)
    ensures
        tag@ == hmac_sha256_tag(key@, data@),
        tag@.len() == KEY_LEN,
{
    let mut mac = <Hmac<Sha256> as KeyInit>::new_from_slice(key).expect("HMAC accepts keys of any length");
    mac.update(data);
    mac.finalize().into_bytes().to_vec()
}

/// Checks `tag` against HMAC-SHA256 of `data` under `key`
/// (`hmac::Mac::verify_slice`, a constant-time comparison that also refuses
/// a tag of the wrong length): true exactly when `tag` is that HMAC.
#[verifier::external_body]
pub(crate) fn hmac_sha256_verify(key: &[u8], data: &[u8], tag: &[u8]) -> (r: bool)
    ensures
        r == (tag@ == hmac_sha256_tag(key@, data@)),
{
    let mut mac = <Hmac<Sha256> as KeyInit>::new_from_slice(key).expect("HMAC accepts keys of any length");
    mac.update(data);
    mac.verify_slice(tag).is_ok()
}

} // verus!
