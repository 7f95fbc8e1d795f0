use prism::addr::{Endpoint, Ipv4};
use prism::protocol::wire::ControlMessage;
use prism::session::{
    announce_client, announce_server, client_tunnel_ip, expect_client_public_addr, expect_server_public_addr,
    public_ipv4, server_tunnel_ip, tunnel_subnet_mask, ClientAction, ClientEvent, ClientSession, ClientTask,
    PublicAddr, ServerAction, ServerEvent, ServerSession, ServerTask, SessionError,
};
use prism::tunnel::device::TunConfig;

fn ep(a: u8, port: u16) -> Endpoint {
    Endpoint { ip: Ipv4::new(203, 0, 113, a), port }
}

#[test]
fn only_ipv4_public_addresses_are_announced() {
    assert_eq!(public_ipv4(PublicAddr::V4(ep(1, 5))), Ok(ep(1, 5)));
    assert_eq!(public_ipv4(PublicAddr::V6), Err(SessionError::NonIpv4PublicAddr));
}

#[test]
fn signalling_exchanges_endpoints() {
    let client = ep(1, 4000);
    let server = ep(2, 5000);
    assert_eq!(expect_client_public_addr(&announce_client(client)), Ok(client));
    assert_eq!(expect_server_public_addr(&announce_server(server)), Ok(server));
    assert_eq!(expect_server_public_addr(&announce_client(client)), Err(SessionError::ExpectedServerPublicAddr));
    assert_eq!(expect_client_public_addr(&announce_server(server)), Err(SessionError::ExpectedClientPublicAddr));
}

#[test]
fn tunnel_addressing() {
    assert_eq!(client_tunnel_ip(), Ipv4::new(100, 64, 0, 2));
    assert_eq!(server_tunnel_ip(), Ipv4::new(100, 64, 0, 1));
    assert_eq!(tunnel_subnet_mask(), Ipv4::new(255, 255, 255, 0));
    let d = TunConfig::default();
    assert_eq!(d.name, "prism0");
    assert_eq!(d.ip, Ipv4::new(100, 64, 0, 2));
    assert_eq!(d.netmask, Ipv4::new(255, 255, 255, 0));
    assert_eq!(d.mtu, 1100);
    assert_eq!(d.mtu_i32(), 1100);
    let s = TunConfig::with_ip(server_tunnel_ip());
    assert_eq!(s.ip, Ipv4::new(100, 64, 0, 1));
    assert_eq!(s.name, "prism0");
}

#[test]
fn client_pair_session_runs_to_trust() {
    let s = ClientSession::new(ClientTask::Pair);
    let (s, a) = s.on_event(ClientEvent::PublicAddr(PublicAddr::V4(ep(1, 4000))));
    match a {
        ClientAction::Signal(ControlMessage::ClientPublicAddr { ip, port }) => {
            assert_eq!(ip, ep(1, 4000).ip);
            assert_eq!(port, 4000);
        }
        _ => panic!("the client announces itself"),
    }
    let (s, a) = s.on_event(ClientEvent::Signal(announce_server(ep(2, 5000))));
    match a {
        ClientAction::ConnectDirect { server, delay_millis } => {
            assert_eq!(server, ep(2, 5000));
            assert_eq!(delay_millis, 200);
        }
        _ => panic!("the client connects directly"),
    }
    let (s, a) = s.on_event(ClientEvent::DirectConnected);
    assert!(matches!(a, ClientAction::Pair));
    let (s, a) = s.on_event(ClientEvent::Paired { server_name: "srv".to_string(), server_cert_der: vec![1] });
    match a {
        ClientAction::TrustServer { server_name, server_cert_der } => {
            assert_eq!(server_name, "srv");
            assert_eq!(server_cert_der, vec![1]);
        }
        _ => panic!("the client trusts the server"),
    }
    assert!(matches!(s, ClientSession::Over));
}

#[test]
fn client_connect_session_opens_tunnel() {
    let s = ClientSession::new(ClientTask::Connect);
    let (s, _) = s.on_event(ClientEvent::PublicAddr(PublicAddr::V4(ep(1, 4000))));
    let (s, _) = s.on_event(ClientEvent::Signal(announce_server(ep(2, 5000))));
    let (s, a) = s.on_event(ClientEvent::DirectConnected);
    match a {
        ClientAction::OpenTunnel(tun) => {
            assert_eq!(tun.ip, Ipv4::new(100, 64, 0, 2));
            assert_eq!(tun.name, "prism0");
        }
        _ => panic!("the client opens the tunnel"),
    }
    assert!(matches!(s, ClientSession::Over));
}

#[test]
fn client_session_failures() {
    let (s, a) = ClientSession::new(ClientTask::Pair).on_event(ClientEvent::PublicAddr(PublicAddr::V6));
    assert!(matches!(a, ClientAction::Fail(SessionError::NonIpv4PublicAddr)));
    assert!(matches!(s, ClientSession::Over));
    let (s, _) = ClientSession::new(ClientTask::Pair).on_event(ClientEvent::PublicAddr(PublicAddr::V4(ep(1, 1))));
    let (_, a) = s.on_event(ClientEvent::Signal(announce_client(ep(2, 2))));
    assert!(matches!(a, ClientAction::Fail(SessionError::ExpectedServerPublicAddr)));
    let (_, a) = ClientSession::new(ClientTask::Pair).on_event(ClientEvent::DirectConnected);
    assert!(matches!(a, ClientAction::Fail(SessionError::UnexpectedEvent)));
}

#[test]
fn server_pair_session_runs_to_trust() {
    let s = ServerSession::new(ServerTask::Pair);
    let (s, a) = s.on_event(ServerEvent::PublicAddr(PublicAddr::V4(ep(2, 5000))));
    assert!(matches!(a, ServerAction::AcceptSignal));
    let (s, a) = s.on_event(ServerEvent::Signal(announce_client(ep(1, 4000))));
    match a {
        ServerAction::Answer { reply: ControlMessage::ServerPublicAddr { ip, port }, poke } => {
            assert_eq!(ip, ep(2, 5000).ip);
            assert_eq!(port, 5000);
            assert_eq!(poke, ep(1, 4000));
        }
        _ => panic!("the server answers and pokes"),
    }
    let (s, a) = s.on_event(ServerEvent::DirectAccepted);
    match a {
        ServerAction::Pair { client_ip, subnet_mask } => {
            assert_eq!(client_ip, Ipv4::new(100, 64, 0, 2));
            assert_eq!(subnet_mask, Ipv4::new(255, 255, 255, 0));
        }
        _ => panic!("the server pairs"),
    }
    let (s, a) = s.on_event(ServerEvent::PairingDone(Some(("cli".to_string(), vec![4]))));
    match a {
        ServerAction::TrustClient { client_name, client_cert_der } => {
            assert_eq!(client_name, "cli");
            assert_eq!(client_cert_der, vec![4]);
        }
        _ => panic!("the server trusts the client"),
    }
    assert!(matches!(s, ServerSession::Over));
}

#[test]
fn server_refused_pairing_is_an_error() {
    let s = ServerSession::new(ServerTask::Pair);
    let (s, _) = s.on_event(ServerEvent::PublicAddr(PublicAddr::V4(ep(2, 5000))));
    let (s, _) = s.on_event(ServerEvent::Signal(announce_client(ep(1, 4000))));
    let (s, _) = s.on_event(ServerEvent::DirectAccepted);
    let (_, a) = s.on_event(ServerEvent::PairingDone(None));
    assert!(matches!(a, ServerAction::Fail(SessionError::PairingRejected)));
}

#[test]
fn server_start_session_opens_tunnel() {
    let s = ServerSession::new(ServerTask::Start);
    let (s, _) = s.on_event(ServerEvent::PublicAddr(PublicAddr::V4(ep(2, 5000))));
    let (s, _) = s.on_event(ServerEvent::Signal(announce_client(ep(1, 4000))));
    let (_, a) = s.on_event(ServerEvent::DirectAccepted);
    match a {
        ServerAction::OpenTunnel(tun) => assert_eq!(tun.ip, Ipv4::new(100, 64, 0, 1)),
        _ => panic!("the server opens the tunnel"),
    }
    let s = ServerSession::new(ServerTask::Start);
    let (s, _) = s.on_event(ServerEvent::PublicAddr(PublicAddr::V4(ep(2, 5000))));
    let (_, a) = s.on_event(ServerEvent::Signal(announce_server(ep(1, 4000))));
    assert!(matches!(a, ServerAction::Fail(SessionError::ExpectedClientPublicAddr)));
}
