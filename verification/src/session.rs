//! The decisions of a session between a client and a server.
//!
//! Both sides learn their public address from a STUN server and exchange it
//! over a first, signalling connection; then they connect directly through
//! the holes their STUN queries punched, pair or open the tunnel, and
//! forward packets between the TUN device and QUIC datagrams.

use vstd::prelude::*;

use crate::addr::{Endpoint, Ipv4};
use crate::protocol::wire::{ControlMessage, MessageView};
use crate::tunnel::device::TunConfig;

verus! {

/// The public address that a STUN server reported.
#[derive(Debug, Clone, Copy, PartialEq, Eq, Structural)]
pub enum PublicAddr {
    V4(Endpoint),
    /// An IPv6 address, which the signalling messages cannot carry.
    V6,
}

/// Why a session step failed.
#[derive(Debug, Clone, Copy, PartialEq, Eq, Structural)]
pub enum SessionError {
    /// STUN reported an IPv6 address.
    NonIpv4PublicAddr,
    /// The client's signalling message is not its public address.
    ExpectedClientPublicAddr,
    /// The server's signalling message is not its public address.
    ExpectedServerPublicAddr,
    /// The server refused to pair.
    PairingRejected,
    /// An event that the session does not wait for at this point.
    UnexpectedEvent,
}

/// The public endpoint to announce: STUN must have reported an IPv4 address.
pub fn public_ipv4(addr: PublicAddr) -> (r: Result<Endpoint, SessionError>)
    ensures
        r == match addr {
            PublicAddr::V4(e) => Ok(e),
            PublicAddr::V6 => Err::<Endpoint, SessionError>(SessionError::NonIpv4PublicAddr),
        },
{
    match addr {
        PublicAddr::V4(e) => Ok(e),
        PublicAddr::V6 => Err(SessionError::NonIpv4PublicAddr),
    }
}

/// The client's signalling message: its public endpoint.
pub fn announce_client(own: Endpoint) -> (r: ControlMessage)
    ensures
        r@ == (MessageView::ClientPublicAddr { ip: own.ip, port: own.port }),
{
    ControlMessage::ClientPublicAddr { ip: own.ip, port: own.port }
}

/// The server's signalling message: its public endpoint.
pub fn announce_server(own: Endpoint) -> (r: ControlMessage)
    ensures
        r@ == (MessageView::ServerPublicAddr { ip: own.ip, port: own.port }),
{
    ControlMessage::ServerPublicAddr { ip: own.ip, port: own.port }
}

/// The endpoint that a signalling message from the client announces.
pub open spec fn announced_client(m: MessageView) -> Option<Endpoint> {
    match m {
        MessageView::ClientPublicAddr { ip, port } => Some(Endpoint { ip, port }),
        _ => None,
    }
}

/// The endpoint that a signalling message from the server announces.
pub open spec fn announced_server(m: MessageView) -> Option<Endpoint> {
    match m {
        MessageView::ServerPublicAddr { ip, port } => Some(Endpoint { ip, port }),
        _ => None,
    }
}

/// The server reads the client's public endpoint; any other message ends
/// the session.
pub fn expect_client_public_addr(msg: &ControlMessage) -> (r: Result<Endpoint, SessionError>)
    ensures
        r == match announced_client(msg@) {
            Some(e) => Ok(e),
            None => Err::<Endpoint, SessionError>(SessionError::ExpectedClientPublicAddr),
        },
{
    match msg {
        ControlMessage::ClientPublicAddr { ip, port } => Ok(Endpoint { ip: *ip, port: *port }),
        _ => Err(SessionError::ExpectedClientPublicAddr),
    }
}

/// The client reads the server's public endpoint; any other message ends
/// the session.
pub fn expect_server_public_addr(msg: &ControlMessage) -> (r: Result<Endpoint, SessionError>)
    ensures
        r == match announced_server(msg@) {
            Some(e) => Ok(e),
            None => Err::<Endpoint, SessionError>(SessionError::ExpectedServerPublicAddr),
        },
{
    match msg {
        ControlMessage::ServerPublicAddr { ip, port } => Ok(Endpoint { ip: *ip, port: *port }),
        _ => Err(SessionError::ExpectedServerPublicAddr),
    }
}

/// Proof that the signalling exchange delivers each side's endpoint to the
/// other: each side reads back exactly what the other announced, and
/// neither takes its own announcement for the other's.
pub proof fn lemma_signalling_delivers_endpoints(client: Endpoint, server: Endpoint)
    ensures
        announced_client(MessageView::ClientPublicAddr { ip: client.ip, port: client.port }) == Some(client),
        announced_server(MessageView::ServerPublicAddr { ip: server.ip, port: server.port }) == Some(server),
        announced_server(MessageView::ClientPublicAddr { ip: client.ip, port: client.port }) is None,
        announced_client(MessageView::ServerPublicAddr { ip: server.ip, port: server.port }) is None,
{
}

/// The client's address inside the tunnel, 100.64.0.2.
pub fn client_tunnel_ip() -> (r: Ipv4)
    ensures
        r == Ipv4::new_spec(100, 64, 0, 2),
{
    Ipv4::new(100, 64, 0, 2)
}

/// The server's address inside the tunnel, 100.64.0.1.
pub fn server_tunnel_ip() -> (r: Ipv4)
    ensures
        r == Ipv4::new_spec(100, 64, 0, 1),
{
    Ipv4::new(100, 64, 0, 1)
}

/// The tunnel's netmask, 255.255.255.0.
pub fn tunnel_subnet_mask() -> (r: Ipv4)
    ensures
        r == Ipv4::new_spec(255, 255, 255, 0),
{
    Ipv4::new(255, 255, 255, 0)
}

/// Proof that the two ends of the tunnel are distinct hosts of one subnet,
/// neither of them the subnet's network or broadcast address.
pub proof fn lemma_tunnel_addresses_share_subnet()
    ensures
        Ipv4::new_spec(100, 64, 0, 2).same_subnet(Ipv4::new_spec(100, 64, 0, 1), Ipv4::new_spec(255, 255, 255, 0)),
        Ipv4::new_spec(100, 64, 0, 2) != Ipv4::new_spec(100, 64, 0, 1),
        Ipv4::new_spec(100, 64, 0, 2).fourth != 0 && Ipv4::new_spec(100, 64, 0, 2).fourth != 255,
        Ipv4::new_spec(100, 64, 0, 1).fourth != 0 && Ipv4::new_spec(100, 64, 0, 1).fourth != 255,
{
    assert(100u8 & 255u8 == 100u8) by (bit_vector);
    assert(64u8 & 255u8 == 64u8) by (bit_vector);
    assert(0u8 & 255u8 == 0u8) by (bit_vector);
    assert(2u8 & 0u8 == 0u8) by (bit_vector);
    assert(1u8 & 0u8 == 0u8) by (bit_vector);
}

/// The client's TUN device: the default device at the client's tunnel
/// address.
pub fn client_tun_config() -> (r: TunConfig)
    ensures
        r.name@ == "prism0"@,
        r.ip == Ipv4::new_spec(100, 64, 0, 2),
        r.netmask == Ipv4::new_spec(255, 255, 255, 0),
        r.mtu == 1100,
{
    TunConfig::with_ip(client_tunnel_ip())
}

/// The server's TUN device: the default device at the server's tunnel
/// address.
pub fn server_tun_config() -> (r: TunConfig)
    ensures
        r.name@ == "prism0"@,
        r.ip == Ipv4::new_spec(100, 64, 0, 1),
        r.netmask == Ipv4::new_spec(255, 255, 255, 0),
        r.mtu == 1100,
{
    TunConfig::with_ip(server_tunnel_ip())
}

/// The size of the buffer that one packet read from the TUN device fills.
pub const PACKET_BUFFER_LEN: usize = 1400;

/// The default port of the server's signalling endpoint.
pub const DEFAULT_SIGNAL_PORT: u16 = 53999;

/// The time the client leaves the server, between the end of signalling and
/// the direct connection, to open its side of the path.
pub const DIRECT_CONNECT_DELAY_MILLIS: u64 = 200;

/// What a client session is for.
#[derive(Debug, Clone, Copy, PartialEq, Eq, Structural)]
pub enum ClientTask {
    /// Pair with a server, with the PIN it shows.
    Pair,
    /// Open the tunnel to a paired server.
    Connect,
}

/// What happened, as reported to a client session.
pub enum ClientEvent {
    /// STUN reported the client's public address.
    PublicAddr(PublicAddr),
    /// The server's signalling message arrived.
    Signal(ControlMessage),
    /// The direct connection to the server is up.
    DirectConnected,
    /// The pairing run succeeded with the server's name and certificate.
    Paired { server_name: String, server_cert_der: Vec<u8> },
}

/// What a client session asks for next.
pub enum ClientAction {
    /// Connect to the server's signalling address, send this message on a new
    /// stream and read the server's answer.
    Signal(ControlMessage),
    /// End the signalling connection, wait `delay_millis`, then connect from
    /// the STUN socket to the server's public endpoint.
    ConnectDirect { server: Endpoint, delay_millis: u64 },
    /// Run the client side of pairing on a new stream.
    Pair,
    /// Store the server's certificate as trusted under the server's name; the
    /// session is over.
    TrustServer { server_name: String, server_cert_der: Vec<u8> },
    /// Open the TUN device so configured, route the host through it, and
    /// forward packets until stopped.
    OpenTunnel(TunConfig),
    /// Give up.
    Fail(SessionError),
}

/// The state of a client session.
pub enum ClientSession {
    /// Waiting for the STUN answer.
    AwaitPublicAddr(ClientTask),
    /// Waiting for the server's signalling message.
    AwaitServerAddr(ClientTask),
    /// Waiting for the direct connection.
    AwaitDirect(ClientTask),
    /// Waiting for the pairing run to succeed.
    AwaitPairing,
    /// Nothing more to do.
    Over,
}

impl ClientSession {
    /// A session for `task`, which starts by querying STUN.
    pub fn new(task: ClientTask) -> (r: ClientSession)
        ensures
            r == ClientSession::AwaitPublicAddr(task),
    {
        ClientSession::AwaitPublicAddr(task)
    }

    /// Takes the next event: the public IPv4 endpoint is announced to the
    /// server; the server's announced endpoint is connected to directly; on
    /// the direct connection a pairing session pairs and a connecting session
    /// opens the tunnel at the client's address; a successful pairing stores
    /// the server's certificate. Anything else ends the session with an
    /// error.
    pub fn on_event(self, event: ClientEvent) -> (r: (ClientSession, ClientAction))
        ensures
            match (self, event) {
                (ClientSession::AwaitPublicAddr(task), ClientEvent::PublicAddr(addr)) => match addr {
                    PublicAddr::V4(own) => {
                        &&& r.0 == ClientSession::AwaitServerAddr(task)
                        &&& r.1 matches ClientAction::Signal(m)
                            && m@ == (MessageView::ClientPublicAddr { ip: own.ip, port: own.port })
                    },
                    PublicAddr::V6 => r.0 == ClientSession::Over
                        && r.1 matches ClientAction::Fail(SessionError::NonIpv4PublicAddr),
                },
                (ClientSession::AwaitServerAddr(task), ClientEvent::Signal(msg)) => match announced_server(msg@) {
                    Some(server) => {
                        &&& r.0 == ClientSession::AwaitDirect(task)
                        &&& r.1 matches ClientAction::ConnectDirect { server: s, delay_millis }
                            && s == server && delay_millis == DIRECT_CONNECT_DELAY_MILLIS
                    },
                    None => r.0 == ClientSession::Over
                        && r.1 matches ClientAction::Fail(SessionError::ExpectedServerPublicAddr),
                },
                (ClientSession::AwaitDirect(ClientTask::Pair), ClientEvent::DirectConnected) =>
                    r.0 == ClientSession::AwaitPairing && r.1 matches ClientAction::Pair,
                (ClientSession::AwaitDirect(ClientTask::Connect), ClientEvent::DirectConnected) => {
                    &&& r.0 == ClientSession::Over
                    &&& r.1 matches ClientAction::OpenTunnel(tun) && tun.name@ == "prism0"@
                        && tun.ip == Ipv4::new_spec(100, 64, 0, 2) && tun.netmask == Ipv4::new_spec(255, 255, 255, 0)
                        && tun.mtu == 1100
                },
                (ClientSession::AwaitPairing, ClientEvent::Paired { server_name, server_cert_der }) => {
                    &&& r.0 == ClientSession::Over
                    &&& r.1 matches ClientAction::TrustServer { server_name: n, server_cert_der: c }
                        && n@ == server_name@ && c@ == server_cert_der@
                },
                _ => r.0 == ClientSession::Over && r.1 matches ClientAction::Fail(SessionError::UnexpectedEvent),
            },
    {
        match (self, event) {
            (ClientSession::AwaitPublicAddr(task), ClientEvent::PublicAddr(addr)) => match public_ipv4(addr) {
                Ok(own) => (ClientSession::AwaitServerAddr(task), ClientAction::Signal(announce_client(own))),
                Err(e) => (ClientSession::Over, ClientAction::Fail(e)),
            },
            (ClientSession::AwaitServerAddr(task), ClientEvent::Signal(msg)) => match expect_server_public_addr(&msg) {
                Ok(server) => (
                    ClientSession::AwaitDirect(task),
                    ClientAction::ConnectDirect { server, delay_millis: DIRECT_CONNECT_DELAY_MILLIS },
                ),
                Err(e) => (ClientSession::Over, ClientAction::Fail(e)),
            },
            (ClientSession::AwaitDirect(task), ClientEvent::DirectConnected) => match task {
                ClientTask::Pair => (ClientSession::AwaitPairing, ClientAction::Pair),
                ClientTask::Connect => (ClientSession::Over, ClientAction::OpenTunnel(client_tun_config())),
            },
            (ClientSession::AwaitPairing, ClientEvent::Paired { server_name, server_cert_der }) => (
                ClientSession::Over,
                ClientAction::TrustServer { server_name, server_cert_der },
            ),
            _ => (ClientSession::Over, ClientAction::Fail(SessionError::UnexpectedEvent)),
        }
    }
}

/// What a server session is for.
#[derive(Debug, Clone, Copy, PartialEq, Eq, Structural)]
pub enum ServerTask {
    /// Pair with one client, with a freshly issued PIN.
    Pair,
    /// Serve the tunnel to a paired client.
    Start,
}

/// What happened, as reported to a server session.
pub enum ServerEvent {
    /// STUN reported the server's public address.
    PublicAddr(PublicAddr),
    /// The client's signalling message arrived.
    Signal(ControlMessage),
    /// The client's direct connection was accepted.
    DirectAccepted,
    /// The pairing run ended: the paired client's name and certificate, or
    /// nothing when the server refused.
    PairingDone(Option<(String, Vec<u8>)>),
}

/// What a server session asks for next.
pub enum ServerAction {
    /// Listen for the signalling connection and read the client's message.
    AcceptSignal,
    /// Send `reply` on the signalling stream and end that connection, send
    /// one UDP datagram from the STUN socket to `poke` to open the path, and
    /// accept the direct connection on that socket.
    Answer { reply: ControlMessage, poke: Endpoint },
    /// Run the server side of pairing, handing out this tunnel address.
    Pair { client_ip: Ipv4, subnet_mask: Ipv4 },
    /// Store the client's certificate as trusted under the client's name; the
    /// session is over.
    TrustClient { client_name: String, client_cert_der: Vec<u8> },
    /// Open the TUN device so configured and forward packets until stopped.
    OpenTunnel(TunConfig),
    /// Give up.
    Fail(SessionError),
}

/// The state of a server session.
pub enum ServerSession {
    /// Waiting for the STUN answer.
    AwaitPublicAddr(ServerTask),
    /// Waiting for the client's signalling message; `own` is the server's
    /// public endpoint.
    AwaitClientAddr { task: ServerTask, own: Endpoint },
    /// Waiting for the direct connection.
    AwaitDirect(ServerTask),
    /// Waiting for the pairing run to end.
    AwaitPairing,
    /// Nothing more to do.
    Over,
}

impl ServerSession {
    /// A session for `task`, which starts by querying STUN.
    pub fn new(task: ServerTask) -> (r: ServerSession)
        ensures
            r == ServerSession::AwaitPublicAddr(task),
    {
        ServerSession::AwaitPublicAddr(task)
    }

    /// Takes the next event: with a public IPv4 endpoint the server listens
    /// for signalling; the client's announced endpoint is answered with the
    /// server's own and poked; on the direct connection a pairing session
    /// pairs, handing out the client's tunnel address, and a serving session
    /// opens the tunnel at the server's address; a pairing that ends with a
    /// client stores its certificate, one that ends with none is a refusal.
    /// Anything else ends the session with an error.
    pub fn on_event(self, event: ServerEvent) -> (r: (ServerSession, ServerAction))
        ensures
            match (self, event) {
                (ServerSession::AwaitPublicAddr(task), ServerEvent::PublicAddr(addr)) => match addr {
                    PublicAddr::V4(own) => r.0 == (ServerSession::AwaitClientAddr { task, own })
                        && r.1 matches ServerAction::AcceptSignal,
                    PublicAddr::V6 => r.0 == ServerSession::Over
                        && r.1 matches ServerAction::Fail(SessionError::NonIpv4PublicAddr),
                },
                (ServerSession::AwaitClientAddr { task, own }, ServerEvent::Signal(msg)) => match announced_client(msg@) {
                    Some(client) => {
                        &&& r.0 == ServerSession::AwaitDirect(task)
                        &&& r.1 matches ServerAction::Answer { reply, poke }
                            && reply@ == (MessageView::ServerPublicAddr { ip: own.ip, port: own.port }) && poke == client
                    },
                    None => r.0 == ServerSession::Over
                        && r.1 matches ServerAction::Fail(SessionError::ExpectedClientPublicAddr),
                },
                (ServerSession::AwaitDirect(ServerTask::Pair), ServerEvent::DirectAccepted) => {
                    &&& r.0 == ServerSession::AwaitPairing
                    &&& r.1 matches ServerAction::Pair { client_ip, subnet_mask }
                        && client_ip == Ipv4::new_spec(100, 64, 0, 2) && subnet_mask == Ipv4::new_spec(255, 255, 255, 0)
                },
                (ServerSession::AwaitDirect(ServerTask::Start), ServerEvent::DirectAccepted) => {
                    &&& r.0 == ServerSession::Over
                    &&& r.1 matches ServerAction::OpenTunnel(tun) && tun.name@ == "prism0"@
                        && tun.ip == Ipv4::new_spec(100, 64, 0, 1) && tun.netmask == Ipv4::new_spec(255, 255, 255, 0)
                        && tun.mtu == 1100
                },
                (ServerSession::AwaitPairing, ServerEvent::PairingDone(peer)) => r.0 == ServerSession::Over
                    && match peer {
                    Some((name, cert)) => r.1 matches ServerAction::TrustClient { client_name, client_cert_der }
                        && client_name@ == name@ && client_cert_der@ == cert@,
                    None => r.1 matches ServerAction::Fail(SessionError::PairingRejected),
                },
                _ => r.0 == ServerSession::Over && r.1 matches ServerAction::Fail(SessionError::UnexpectedEvent),
            },
    {
        match (self, event) {
            (ServerSession::AwaitPublicAddr(task), ServerEvent::PublicAddr(addr)) => match public_ipv4(addr) {
                Ok(own) => (ServerSession::AwaitClientAddr { task, own }, ServerAction::AcceptSignal),
                Err(e) => (ServerSession::Over, ServerAction::Fail(e)),
            },
            (ServerSession::AwaitClientAddr { task, own }, ServerEvent::Signal(msg)) => match expect_client_public_addr(&msg) {
                Ok(client) => (
                    ServerSession::AwaitDirect(task),
                    ServerAction::Answer { reply: announce_server(own), poke: client },
                ),
                Err(e) => (ServerSession::Over, ServerAction::Fail(e)),
            },
            (ServerSession::AwaitDirect(task), ServerEvent::DirectAccepted) => match task {
                ServerTask::Pair => (
                    ServerSession::AwaitPairing,
                    ServerAction::Pair { client_ip: client_tunnel_ip(), subnet_mask: tunnel_subnet_mask() },
                ),
                ServerTask::Start => (ServerSession::Over, ServerAction::OpenTunnel(server_tun_config())),
            },
            (ServerSession::AwaitPairing, ServerEvent::PairingDone(peer)) => match peer {
                Some((client_name, client_cert_der)) => (
                    ServerSession::Over,
                    ServerAction::TrustClient { client_name, client_cert_der },
                ),
                None => (ServerSession::Over, ServerAction::Fail(SessionError::PairingRejected)),
            },
            _ => (ServerSession::Over, ServerAction::Fail(SessionError::UnexpectedEvent)),
        }
    }
}

} // verus!
