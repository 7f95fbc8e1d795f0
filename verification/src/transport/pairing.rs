//! Pairing: the server shows a short PIN, the client types it, and both run
//! SPAKE2 keyed by the PIN. Each side then proves knowledge of the agreed key
//! by an HMAC over its certificate, and each keeps the other's certificate.
//!
//! The two sides are state machines: the caller sends what a step asks it to
//! send, reads the peer's next message and hands it to the next step.

use vstd::prelude::*;

use crate::addr::Ipv4;
use crate::protocol::wire::{ControlMessage, MessageView, opt_message_view};
use crate::transport::kex::{
    KEY_LEN, SHARE_LEN, Side, Spake2State, agreed_key, lemma_same_password_same_key, peer_of, sends_accepted_share,
    share_accepted, side_byte, started_with, hmac_sha256, hmac_sha256_tag, hmac_sha256_verify,
    spake2_finish, spake2_start_a, spake2_start_b,
};

verus! {

#[verifier::external_type_specification]
#[verifier::external_body]
pub struct ExInstant(std::time::Instant);

/// Number of digits in a PIN.
pub const PIN_LENGTH: usize = 6;

/// Seconds for which a PIN stays valid.
pub const PIN_EXPIRY_SECS: u64 = 300;

/// Nanoseconds for which a PIN stays valid.
pub const PIN_EXPIRY_NANOS: u128 = 300_000_000_000;

/// A decimal digit.
pub open spec fn is_pin_digit(c: char) -> bool {
    '0' <= c && c <= '9'
}

/// A PIN: exactly [`PIN_LENGTH`] decimal digits.
pub open spec fn is_pin(s: Seq<char>) -> bool {
    &&& s.len() == PIN_LENGTH
    &&& forall|i: int| 0 <= i < s.len() ==> #[trigger] is_pin_digit(s[i])
}

/// A PIN issued `elapsed_nanos` nanoseconds ago has expired: strictly more
/// than [`PIN_EXPIRY_SECS`] seconds have passed.
pub open spec fn spec_expired_after(elapsed_nanos: int) -> bool {
    elapsed_nanos > PIN_EXPIRY_SECS * 1_000_000_000
}

/// A uniformly drawn decimal digit (`rand::random_range('0'..='9')`, the
/// thread-local generator). Only the range is stated.
#[verifier::external_body]
fn random_pin_digit() -> (c: char)
    ensures
        is_pin_digit(c),
{
    rand::random_range('0'..='9')
}

/// Appends `c` to `s` (`String::push`).
#[verifier::external_body]
fn push_char(s: &mut String, c: char)
    ensures
        final(s)@ == old(s)@.push(c),
{
    s.push(c)
}

/// The current instant of the monotonic clock (`Instant::now`).
#[verifier::external_body]
fn instant_now() -> std::time::Instant {
    std::time::Instant::now()
}

/// Time elapsed since `t` (`Instant::elapsed`, which saturates at zero).
#[verifier::external_body]
fn instant_elapsed(t: &std::time::Instant) -> std::time::Duration {
    t.elapsed()
}

/// A duration in whole nanoseconds (`Duration::as_nanos`).
#[verifier::external_body]
fn duration_as_nanos(d: &std::time::Duration) -> u128 {
    d.as_nanos()
}

/// Whether a PIN issued `elapsed_nanos` nanoseconds ago has expired: strictly
/// more than [`PIN_EXPIRY_SECS`] seconds have passed.
pub fn expired_after(elapsed_nanos: u128) -> (r: bool)
    ensures
        r == spec_expired_after(elapsed_nanos as int),
{
    elapsed_nanos > PIN_EXPIRY_NANOS
}

/// Proof that expiry is final: a PIN that has expired stays expired.
pub proof fn lemma_expiry_is_final(earlier: int, later: int)
    requires
        earlier <= later,
        spec_expired_after(earlier),
    ensures
        spec_expired_after(later),
{
}

/// `input` is valid for a PIN issued `elapsed_nanos` nanoseconds ago: it is
/// the PIN, exactly, and the PIN has not expired.
pub open spec fn spec_valid_after(pin: Seq<char>, input: Seq<char>, elapsed_nanos: int) -> bool {
    input == pin && !spec_expired_after(elapsed_nanos)
}

/// Proof that a PIN is valid, typed exactly, until it expires: for the
/// first [`PIN_EXPIRY_SECS`] seconds, the last nanosecond included.
pub proof fn lemma_pin_valid_until_expiry(pin: Seq<char>, elapsed_nanos: int)
    requires
        elapsed_nanos <= PIN_EXPIRY_SECS * 1_000_000_000,
    ensures
        spec_valid_after(pin, pin, elapsed_nanos),
{
}

/// Proof that validity only ends: an input valid at some time was valid at
/// every earlier time, and once the PIN has expired no input is valid again.
pub proof fn lemma_validity_only_ends(pin: Seq<char>, input: Seq<char>, earlier: int, later: int)
    requires
        earlier <= later,
    ensures
        spec_valid_after(pin, input, later) ==> spec_valid_after(pin, input, earlier),
        spec_expired_after(earlier) ==> !spec_valid_after(pin, input, later),
{
}

/// A freshly issued PIN and the instant it was issued.
pub struct PairingState {
    pin: String,
    issued_at: std::time::Instant,
}

impl PairingState {
    /// The PIN as characters.
    pub closed spec fn pin_view(&self) -> Seq<char> {
        self.pin@
    }

    /// Issues a new random PIN of [`PIN_LENGTH`] decimal digits, valid for
    /// [`PIN_EXPIRY_SECS`] seconds from now.
    pub fn new() -> (r: PairingState)
        ensures
            is_pin(r.pin_view()),
    {
        let mut pin = String::new();
        let mut i: usize = 0;
        while i < PIN_LENGTH
            invariant
                i <= PIN_LENGTH,
                pin@.len() == i,
                forall|j: int| 0 <= j < pin@.len() ==> #[trigger] is_pin_digit(pin@[j]),
            decreases PIN_LENGTH - i,
        {
            let c = random_pin_digit();
            push_char(&mut pin, c);
            i = i + 1;
        }
        PairingState { pin, issued_at: instant_now() }
    }

    /// The PIN, to be shown to the user.
    pub fn pin(&self) -> (r: &str)
        ensures
            r@ == self.pin_view(),
    {
        self.pin.as_str()
    }

    /// Whether the PIN has expired, by the monotonic clock: the result depends
    /// on when it is asked, and is [`expired_after`] of the time elapsed since
    /// the PIN was issued.
    pub fn is_expired(&self) -> bool {
        let elapsed = instant_elapsed(&self.issued_at);
        expired_after(duration_as_nanos(&elapsed))
    }

    /// Whether `input` is the PIN.
    pub fn matches_pin(&self, input: &str) -> (r: bool)
        ensures
            r == (input@ == self.pin_view()),
    {
        let owned = input.to_owned();
        self.pin == owned
    }

    /// Whether `input` is the PIN and the PIN, issued `elapsed_nanos`
    /// nanoseconds ago, has not expired.
    pub fn valid_after(&self, input: &str, elapsed_nanos: u128) -> (r: bool)
        ensures
            r == spec_valid_after(self.pin_view(), input@, elapsed_nanos as int),
    {
        self.matches_pin(input) && !expired_after(elapsed_nanos)
    }

    /// Whether `input` is the PIN and the PIN has not expired, by the
    /// monotonic clock: [`PairingState::valid_after`] of the time elapsed
    /// since the PIN was issued. A wrong PIN is never valid; the clock decides
    /// only for the right one.
    pub fn is_valid(&self, input: &str) -> (r: bool)
        ensures
            r ==> input@ == self.pin_view(),
    {
        let elapsed = instant_elapsed(&self.issued_at);
        self.valid_after(input, duration_as_nanos(&elapsed))
    }
}

impl Default for PairingState {
    /// Same as [`PairingState::new`].
    fn default() -> (r: PairingState)
        ensures
            is_pin(r.pin_view()),
    {
        PairingState::new()
    }
}

/// Why a pairing run failed.
#[derive(Debug)]
pub enum PairingError {
    /// The server refused, for the reason given.
    Rejected { reason: String },
    /// The peer sent a message that does not fit the step.
    UnexpectedMessage,
    /// The SPAKE2 exchange failed on the peer's share.
    KeyExchange,
    /// The server's certificate did not carry a valid MAC under the session
    /// key: the PINs differed, or the message was altered.
    MacMismatch,
}

/// The pairing request that a client holding `key` sends: its name, its
/// certificate and the HMAC of the certificate under the key.
pub open spec fn client_request(key: Seq<u8>, client_name: Seq<char>, client_cert: Seq<u8>) -> MessageView {
    MessageView::PairRequest {
        client_name,
        client_cert_der: client_cert,
        mac: hmac_sha256_tag(key, client_cert),
    }
}

/// The name and certificate that a server holding `key` pairs with on
/// receiving `m`: those of a pairing request whose MAC is the HMAC of its
/// certificate under the key, and nothing otherwise.
pub open spec fn server_pairs_with(key: Seq<u8>, m: MessageView) -> Option<(Seq<char>, Seq<u8>)> {
    match m {
        MessageView::PairRequest { client_name, client_cert_der, mac } => if mac == hmac_sha256_tag(
            key,
            client_cert_der,
        ) {
            Some((client_name, client_cert_der))
        } else {
            None
        },
        _ => None,
    }
}

/// What a server holding `key` answers to the pairing request `m`: on
/// success its name, its certificate with the HMAC of the certificate under
/// the key, and the client's tunnel address; otherwise a refusal for an
/// invalid PIN.
pub open spec fn server_answer(
    key: Seq<u8>,
    server_name: Seq<char>,
    server_cert: Seq<u8>,
    client_ip: Ipv4,
    subnet_mask: Ipv4,
    m: MessageView,
) -> MessageView {
    match server_pairs_with(key, m) {
        Some(_) => MessageView::PairAccept {
            server_name,
            server_cert_der: server_cert,
            assigned_ip: client_ip,
            subnet_mask,
            mac: hmac_sha256_tag(key, server_cert),
        },
        None => MessageView::PairReject { reason: "Invalid Pin"@ },
    }
}

/// The server name and certificate that a client holding `key` accepts from
/// the answer `m`: those of an acceptance whose MAC is the HMAC of its
/// certificate under the key, and nothing otherwise.
pub open spec fn client_accepts(key: Seq<u8>, m: MessageView) -> Option<(Seq<char>, Seq<u8>)> {
    match m {
        MessageView::PairAccept { server_name, server_cert_der, mac, .. } => if mac == hmac_sha256_tag(
            key,
            server_cert_der,
        ) {
            Some((server_name, server_cert_der))
        } else {
            None
        },
        _ => None,
    }
}

/// The view of an optional name and certificate.
pub open spec fn opt_peer_view(p: Option<(String, Vec<u8>)>) -> Option<(Seq<char>, Seq<u8>)> {
    match p {
        Some((name, cert)) => Some((name@, cert@)),
        None => None,
    }
}

/// Proof that pairing completes once both sides hold the same key: the
/// server pairs with the client's request and learns the client's name and
/// certificate, and the client accepts the server's answer and learns the
/// server's name and certificate.
pub proof fn lemma_pairing_completes_with_shared_key(
    key: Seq<u8>,
    client_name: Seq<char>,
    client_cert: Seq<u8>,
    server_name: Seq<char>,
    server_cert: Seq<u8>,
    client_ip: Ipv4,
    subnet_mask: Ipv4,
)
    ensures
        server_pairs_with(key, client_request(key, client_name, client_cert)) == Some((client_name, client_cert)),
        client_accepts(
            key,
            server_answer(key, server_name, server_cert, client_ip, subnet_mask, client_request(key, client_name, client_cert)),
        ) == Some((server_name, server_cert)),
{
}

/// Proof that pairing with the right PIN completes: a client that started
/// SPAKE2 with a PIN and a server that began with the same PIN, each between
/// `prism-client` and `prism-server`, accept each other's share and reach
/// the same key; under it the server pairs with the client's request,
/// learning the client's name and certificate, and the client accepts the
/// server's answer, learning the server's name and certificate.
pub proof fn lemma_right_pin_pairs(
    client: Spake2State,
    server: Spake2State,
    pin: Seq<char>,
    client_name: Seq<char>,
    client_cert: Seq<u8>,
    server_name: Seq<char>,
    server_cert: Seq<u8>,
    client_ip: Ipv4,
    subnet_mask: Ipv4,
)
    requires
        started_with(client, Side::A, pin, "prism-client"@, "prism-server"@),
        sends_accepted_share(client),
        started_with(server, Side::B, pin, "prism-client"@, "prism-server"@),
        sends_accepted_share(server),
    ensures
        share_accepted(client.side(), server.share()),
        share_accepted(server.side(), client.share()),
        agreed_key(client, server.share()) == agreed_key(server, client.share()),
        server_pairs_with(
            agreed_key(server, client.share()),
            client_request(agreed_key(client, server.share()), client_name, client_cert),
        ) == Some((client_name, client_cert)),
        client_accepts(
            agreed_key(client, server.share()),
            server_answer(
                agreed_key(server, client.share()),
                server_name,
                server_cert,
                client_ip,
                subnet_mask,
                client_request(agreed_key(client, server.share()), client_name, client_cert),
            ),
        ) == Some((server_name, server_cert)),
{
    lemma_same_password_same_key(client, server);
    lemma_pairing_completes_with_shared_key(
        agreed_key(client, server.share()),
        client_name,
        client_cert,
        server_name,
        server_cert,
        client_ip,
        subnet_mask,
    );
}

/// Proof of what a server's answer carries. When the server pairs with the
/// request, the answer is an acceptance with the server's own name and
/// certificate, exactly the address and netmask the server was asked to
/// hand out, whatever they are, and the HMAC of the server's certificate
/// under the key; a client holding the same key takes from it exactly the
/// server's name and certificate. When the server does not pair, the answer
/// is a refusal that hands out no address.
pub proof fn lemma_server_answer_hands_out_requested_address(
    key: Seq<u8>,
    server_name: Seq<char>,
    server_cert: Seq<u8>,
    client_ip: Ipv4,
    subnet_mask: Ipv4,
    request: MessageView,
)
    ensures
        server_pairs_with(key, request) is Some ==> (server_answer(
            key,
            server_name,
            server_cert,
            client_ip,
            subnet_mask,
            request,
        ) matches MessageView::PairAccept { server_name: n, server_cert_der: c, assigned_ip: ip, subnet_mask: m, mac: t }
            && n == server_name && c == server_cert && ip == client_ip && m == subnet_mask && t == hmac_sha256_tag(
            key,
            server_cert,
        )),
        server_pairs_with(key, request) is Some ==> client_accepts(
            key,
            server_answer(key, server_name, server_cert, client_ip, subnet_mask, request),
        ) == Some((server_name, server_cert)),
        server_pairs_with(key, request) is None ==> server_answer(
            key,
            server_name,
            server_cert,
            client_ip,
            subnet_mask,
            request,
        ) matches MessageView::PairReject { .. },
{
}

/// Proof that a client accepts no answer but an acceptance whose MAC is the
/// HMAC of the certificate it carries under the client's key: a refusal, or
/// an acceptance under another key or for another certificate, gives it no
/// server identity.
pub proof fn lemma_client_refuses_bad_mac(key: Seq<u8>, answer: MessageView)
    ensures
        client_accepts(key, answer) is Some ==> (answer matches MessageView::PairAccept {
            server_name,
            server_cert_der,
            mac,
            ..
        } && mac == hmac_sha256_tag(key, server_cert_der) && client_accepts(key, answer) == Some(
            (server_name, server_cert_der),
        )),
{
}

/// Proof that a server refuses every pairing request whose MAC is not the
/// HMAC of its certificate under the server's key, and answers it with a
/// refusal for an invalid PIN.
pub proof fn lemma_server_refuses_bad_mac(
    key: Seq<u8>,
    client_name: Seq<char>,
    client_cert: Seq<u8>,
    mac: Seq<u8>,
    server_name: Seq<char>,
    server_cert: Seq<u8>,
    client_ip: Ipv4,
    subnet_mask: Ipv4,
)
    requires
        mac != hmac_sha256_tag(key, client_cert),
    ensures
        server_pairs_with(key, MessageView::PairRequest { client_name, client_cert_der: client_cert, mac }) is None,
        server_answer(
            key,
            server_name,
            server_cert,
            client_ip,
            subnet_mask,
            MessageView::PairRequest { client_name, client_cert_der: client_cert, mac },
        ) == (MessageView::PairReject { reason: "Invalid Pin"@ }),
{
}

/// The client side of pairing.
pub enum ClientPairing {
    /// The client's share is sent; waiting for the server's.
    AwaitServerHello { spake: Spake2State, client_name: String, client_cert_der: Vec<u8> },
    /// The key is agreed and the pairing request sent; waiting for the
    /// server's answer.
    AwaitAccept { session_key: Vec<u8> },
}

/// Where a client step leaves the run.
pub enum ClientOutcome {
    /// The run goes on in this state.
    Continue(ClientPairing),
    /// The run succeeded: the server's name and certificate.
    Paired { server_name: String, server_cert_der: Vec<u8> },
    /// The run failed.
    Failed(PairingError),
}

/// One client step: the message to send, if any, then where the run stands.
pub struct ClientStep {
    pub send: Option<ControlMessage>,
    pub outcome: ClientOutcome,
}

impl ClientPairing {
    /// Starts pairing with `pin`: SPAKE2 on side A between the identities
    /// `prism-client` and `prism-server`, keyed by the PIN; the client's
    /// share is to be sent.
    pub fn start(pin: &str, client_name: &str, client_cert_der: &[u8]) -> (r: ClientStep)
        ensures
            r.send matches Some(ControlMessage::ClientPairHello { msg }) && msg@.len() == SHARE_LEN
                && msg@[0] == side_byte(Side::A),
            r.outcome matches ClientOutcome::Continue(
                ClientPairing::AwaitServerHello { spake, client_name: name, client_cert_der: cert },
            ) && started_with(spake, Side::A, pin@, "prism-client"@, "prism-server"@) && sends_accepted_share(spake)
                && name@ == client_name@
                && cert@ == client_cert_der@ && opt_message_view(r.send) == Some(
                MessageView::ClientPairHello { msg: spake.share() },
            ),
    {
        let (spake, share) = spake2_start_a(pin, "prism-client", "prism-server");
        ClientStep {
            send: Some(ControlMessage::ClientPairHello { msg: share }),
            outcome: ClientOutcome::Continue(
                ClientPairing::AwaitServerHello {
                    spake,
                    client_name: client_name.to_owned(),
                    client_cert_der: vstd::slice::slice_to_vec(client_cert_der),
                },
            ),
        }
    }

    /// Continues once `session_key` is agreed: the pairing request, with the
    /// HMAC of the client's certificate under the key, is to be sent.
    pub fn request_with_key(session_key: Vec<u8>, client_name: String, client_cert_der: Vec<u8>) -> (r: ClientStep)
        ensures
            opt_message_view(r.send) == Some(client_request(session_key@, client_name@, client_cert_der@)),
            r.outcome matches ClientOutcome::Continue(ClientPairing::AwaitAccept { session_key: k })
                && k@ == session_key@,
    {
        let mac = hmac_sha256(session_key.as_slice(), client_cert_der.as_slice());
        ClientStep {
            send: Some(ControlMessage::PairRequest { client_name, client_cert_der, mac }),
            outcome: ClientOutcome::Continue(ClientPairing::AwaitAccept { session_key }),
        }
    }

    /// Takes the server's next message.
    ///
    /// Waiting for the server's share: a refusal ends the run with its
    /// reason; a share completes SPAKE2, and then the pairing request under
    /// the agreed key ([`agreed_key`]) is to be sent, exactly when SPAKE2
    /// accepts the share
    /// ([`share_accepted`]: 33 bytes from the other side, side B for a run
    /// begun by [`ClientPairing::start`], encoding a curve point).
    ///
    /// Waiting for the answer: a refusal ends the run with its reason; an
    /// acceptance ends it with the server's name and certificate exactly when
    /// [`client_accepts`] does, and with [`PairingError::MacMismatch`]
    /// otherwise.
    ///
    /// Any other message ends the run with [`PairingError::UnexpectedMessage`].
    pub fn on_message(self, msg: ControlMessage) -> (r: ClientStep)
        ensures
            match self {
                ClientPairing::AwaitServerHello { spake, client_name, client_cert_der } => match msg@ {
                    MessageView::ServerPairHello { msg: share } => {
                        &&& (r.send is None && r.outcome matches ClientOutcome::Failed(PairingError::KeyExchange))
                            || (r.outcome matches ClientOutcome::Continue(ClientPairing::AwaitAccept { session_key })
                            && session_key@.len() == KEY_LEN && session_key@ == agreed_key(spake, share)
                            && opt_message_view(r.send) == Some(client_request(session_key@, client_name@, client_cert_der@)))
                        &&& (r.outcome is Continue) <==> share_accepted(spake.side(), share)
                    },
                    MessageView::PairReject { reason } => {
                        &&& r.send is None
                        &&& r.outcome matches ClientOutcome::Failed(PairingError::Rejected { reason: why }) && why@ == reason
                    },
                    _ => r.send is None && r.outcome matches ClientOutcome::Failed(PairingError::UnexpectedMessage),
                },
                ClientPairing::AwaitAccept { session_key } => match msg@ {
                    MessageView::PairAccept { .. } => {
                        &&& r.send is None
                        &&& match client_accepts(session_key@, msg@) {
                            Some((name, cert)) => r.outcome matches ClientOutcome::Paired { server_name, server_cert_der }
                                && server_name@ == name && server_cert_der@ == cert,
                            None => r.outcome matches ClientOutcome::Failed(PairingError::MacMismatch),
                        }
                    },
                    MessageView::PairReject { reason } => {
                        &&& r.send is None
                        &&& r.outcome matches ClientOutcome::Failed(PairingError::Rejected { reason: why }) && why@ == reason
                    },
                    _ => r.send is None && r.outcome matches ClientOutcome::Failed(PairingError::UnexpectedMessage),
                },
            },
    {
        match self {
            ClientPairing::AwaitServerHello { spake, client_name, client_cert_der } => match msg {
                ControlMessage::ServerPairHello { msg: share } => match spake2_finish(spake, share.as_slice()) {
                    Ok(session_key) => ClientPairing::request_with_key(session_key, client_name, client_cert_der),
                    Err(_) => ClientStep { send: None, outcome: ClientOutcome::Failed(PairingError::KeyExchange) },
                },
                ControlMessage::PairReject { reason } => ClientStep {
                    send: None,
                    outcome: ClientOutcome::Failed(PairingError::Rejected { reason }),
                },
                _ => ClientStep { send: None, outcome: ClientOutcome::Failed(PairingError::UnexpectedMessage) },
            },
            ClientPairing::AwaitAccept { session_key } => match msg {
                ControlMessage::PairAccept { server_name, server_cert_der, mac, .. } => {
                    if hmac_sha256_verify(session_key.as_slice(), server_cert_der.as_slice(), mac.as_slice()) {
                        ClientStep { send: None, outcome: ClientOutcome::Paired { server_name, server_cert_der } }
                    } else {
                        ClientStep { send: None, outcome: ClientOutcome::Failed(PairingError::MacMismatch) }
                    }
                },
                ControlMessage::PairReject { reason } => ClientStep {
                    send: None,
                    outcome: ClientOutcome::Failed(PairingError::Rejected { reason }),
                },
                _ => ClientStep { send: None, outcome: ClientOutcome::Failed(PairingError::UnexpectedMessage) },
            },
        }
    }
}

/// The server side of pairing.
pub enum ServerPairing {
    /// The PIN is live and SPAKE2 started on side B with it; `own_share` is
    /// the server's share, to be sent once the client's arrives.
    AwaitClientHello {
        spake: Spake2State,
        own_share: Vec<u8>,
        server_name: String,
        server_cert_der: Vec<u8>,
        client_ip: Ipv4,
        subnet_mask: Ipv4,
    },
    /// The key is agreed; waiting for the client's pairing request.
    AwaitRequest {
        session_key: Vec<u8>,
        server_name: String,
        server_cert_der: Vec<u8>,
        client_ip: Ipv4,
        subnet_mask: Ipv4,
    },
}

/// Where a server step leaves the run.
pub enum ServerOutcome {
    /// The run goes on in this state.
    Continue(ServerPairing),
    /// The run is over: the paired client's name and certificate, or nothing
    /// when the server refused.
    Done(Option<(String, Vec<u8>)>),
    /// The run failed.
    Failed(PairingError),
}

/// One server step: the message to send, if any, then where the run stands.
pub struct ServerStep {
    pub send: Option<ControlMessage>,
    pub outcome: ServerOutcome,
}

/// The first server step, given whether the PIN has expired: an expired PIN
/// is refused at once with the reason `Pin Expired` and pairs with no one;
/// otherwise the server starts SPAKE2 on side B with the PIN between
/// `prism-client` and `prism-server` and waits for the client's share,
/// keeping its own share, its name and certificate and the address to hand
/// out.
pub open spec fn server_begins(
    expired: bool,
    pin: Seq<char>,
    server_name: Seq<char>,
    server_cert: Seq<u8>,
    client_ip: Ipv4,
    subnet_mask: Ipv4,
    r: ServerStep,
) -> bool {
    if expired {
        &&& opt_message_view(r.send) == Some(MessageView::PairReject { reason: "Pin Expired"@ })
        &&& r.outcome matches ServerOutcome::Done(None)
    } else {
        &&& r.send is None
        &&& r.outcome matches ServerOutcome::Continue(
            ServerPairing::AwaitClientHello {
                spake,
                own_share,
                server_name: n,
                server_cert_der: c,
                client_ip: ip,
                subnet_mask: m,
            },
        ) && started_with(spake, Side::B, pin, "prism-client"@, "prism-server"@) && sends_accepted_share(spake)
            && own_share@ == spake.share()
            && own_share@.len() == SHARE_LEN && own_share@[0] == side_byte(Side::B) && n@ == server_name
            && c@ == server_cert && ip == client_ip && m == subnet_mask
    }
}

impl ServerPairing {
    /// Starts pairing for the PIN in `state`, reading the clock once: see
    /// [`server_begins`] for both cases.
    pub fn start(
        state: &PairingState,
        server_name: &str,
        server_cert_der: &[u8],
        client_ip: Ipv4,
        subnet_mask: Ipv4,
    ) -> (r: ServerStep)
        ensures
            server_begins(true, state.pin_view(), server_name@, server_cert_der@, client_ip, subnet_mask, r)
                || server_begins(false, state.pin_view(), server_name@, server_cert_der@, client_ip, subnet_mask, r),
    {
        let expired = state.is_expired();
        ServerPairing::begin(expired, state, server_name, server_cert_der, client_ip, subnet_mask)
    }

    /// Starts pairing for the PIN in `state`, given whether it has expired.
    pub fn begin(
        expired: bool,
        state: &PairingState,
        server_name: &str,
        server_cert_der: &[u8],
        client_ip: Ipv4,
        subnet_mask: Ipv4,
    ) -> (r: ServerStep)
        ensures
            server_begins(expired, state.pin_view(), server_name@, server_cert_der@, client_ip, subnet_mask, r),
    {
        if expired {
            ServerStep {
                send: Some(ControlMessage::PairReject { reason: "Pin Expired".to_owned() }),
                outcome: ServerOutcome::Done(None),
            }
        } else {
            let (spake, own_share) = spake2_start_b(state.pin(), "prism-client", "prism-server");
            ServerStep {
                send: None,
                outcome: ServerOutcome::Continue(
                    ServerPairing::AwaitClientHello {
                        spake,
                        own_share,
                        server_name: server_name.to_owned(),
                        server_cert_der: vstd::slice::slice_to_vec(server_cert_der),
                        client_ip,
                        subnet_mask,
                    },
                ),
            }
        }
    }

    /// Takes the client's next message.
    ///
    /// Waiting for the client's share: the server's own share is to be sent
    /// in every case; SPAKE2 then completes on the client's share, and the
    /// server waits for the pairing request under the agreed key
    /// ([`agreed_key`]), exactly when SPAKE2 accepts the share ([`share_accepted`]: 33 bytes from the other side, side A for a
    /// run begun by [`ServerPairing::begin`], encoding a curve point).
    ///
    /// Waiting for the request: the answer is [`server_answer`] and the run
    /// ends with [`server_pairs_with`].
    ///
    /// Any other message ends the run with [`PairingError::UnexpectedMessage`],
    /// with nothing to send.
    pub fn on_message(self, msg: ControlMessage) -> (r: ServerStep)
        ensures
            match self {
                ServerPairing::AwaitClientHello { spake, own_share, server_name, server_cert_der, client_ip, subnet_mask } => match msg@ {
                    MessageView::ClientPairHello { msg: share } => {
                        &&& opt_message_view(r.send) == Some(MessageView::ServerPairHello { msg: own_share@ })
                        &&& (r.outcome matches ServerOutcome::Failed(PairingError::KeyExchange))
                            || (r.outcome matches ServerOutcome::Continue(
                            ServerPairing::AwaitRequest { session_key, server_name: n, server_cert_der: c, client_ip: ip, subnet_mask: m },
                        ) && session_key@.len() == KEY_LEN && session_key@ == agreed_key(spake, share) && n@ == server_name@ && c@ == server_cert_der@ && ip == client_ip
                            && m == subnet_mask)
                        &&& (r.outcome is Continue) <==> share_accepted(spake.side(), share)
                    },
                    _ => r.send is None && r.outcome matches ServerOutcome::Failed(PairingError::UnexpectedMessage),
                },
                ServerPairing::AwaitRequest { session_key, server_name, server_cert_der, client_ip, subnet_mask } => match msg@ {
                    MessageView::PairRequest { .. } => {
                        &&& opt_message_view(r.send) == Some(
                            server_answer(session_key@, server_name@, server_cert_der@, client_ip, subnet_mask, msg@),
                        )
                        &&& r.outcome matches ServerOutcome::Done(peer) && opt_peer_view(peer) == server_pairs_with(
                            session_key@,
                            msg@,
                        )
                    },
                    _ => r.send is None && r.outcome matches ServerOutcome::Failed(PairingError::UnexpectedMessage),
                },
            },
    {
        match self {
            ServerPairing::AwaitClientHello { spake, own_share, server_name, server_cert_der, client_ip, subnet_mask } => match msg {
                ControlMessage::ClientPairHello { msg: client_share } => {
                    let send = Some(ControlMessage::ServerPairHello { msg: own_share });
                    match spake2_finish(spake, client_share.as_slice()) {
                        Ok(session_key) => ServerStep {
                            send,
                            outcome: ServerOutcome::Continue(
                                ServerPairing::AwaitRequest { session_key, server_name, server_cert_der, client_ip, subnet_mask },
                            ),
                        },
                        Err(_) => ServerStep { send, outcome: ServerOutcome::Failed(PairingError::KeyExchange) },
                    }
                },
                _ => ServerStep { send: None, outcome: ServerOutcome::Failed(PairingError::UnexpectedMessage) },
            },
            ServerPairing::AwaitRequest { session_key, server_name, server_cert_der, client_ip, subnet_mask } => match msg {
                ControlMessage::PairRequest { client_name, client_cert_der, mac } => {
                    if !hmac_sha256_verify(session_key.as_slice(), client_cert_der.as_slice(), mac.as_slice()) {
                        ServerStep {
                            send: Some(ControlMessage::PairReject { reason: "Invalid Pin".to_owned() }),
                            outcome: ServerOutcome::Done(None),
                        }
                    } else {
                        let server_mac = hmac_sha256(session_key.as_slice(), server_cert_der.as_slice());
                        ServerStep {
                            send: Some(
                                ControlMessage::PairAccept {
                                    server_name,
                                    server_cert_der,
                                    assigned_ip: client_ip,
                                    subnet_mask,
                                    mac: server_mac,
                                },
                            ),
                            outcome: ServerOutcome::Done(Some((client_name, client_cert_der))),
                        }
                    }
                },
                _ => ServerStep { send: None, outcome: ServerOutcome::Failed(PairingError::UnexpectedMessage) },
            },
        }
    }
}

} // verus!
