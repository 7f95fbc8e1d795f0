//! The control messages of the protocol in use, and their mathematical
//! view.

use vstd::prelude::*;

use crate::addr::Ipv4;

verus! {

/// One tunnelled IP packet with its sequence number.
#[derive(Debug, Clone)]
pub struct TunnelPacket {
    pub seq: u64,
    pub payload: Vec<u8>,
}

/// A control message on the signalling or pairing stream.
#[derive(Debug, Clone)]
pub enum ControlMessage {
    /// The client's SPAKE2 share.
    ClientPairHello { msg: Vec<u8> },
    /// The server's SPAKE2 share.
    ServerPairHello { msg: Vec<u8> },
    /// The client's identity, authenticated by a MAC under the session key.
    PairRequest { client_name: String, client_cert_der: Vec<u8>, mac: Vec<u8> },
    /// The server's identity and the client's tunnel address, the
    /// certificate authenticated by a MAC under the session key.
    PairAccept {
        server_name: String,
        server_cert_der: Vec<u8>,
        assigned_ip: Ipv4,
        subnet_mask: Ipv4,
        mac: Vec<u8>,
    },
    /// Refusal, with the reason.
    PairReject { reason: String },
    /// The client's public address as seen by a STUN server.
    ClientPublicAddr { ip: Ipv4, port: u16 },
    /// The server's public address as seen by a STUN server.
    ServerPublicAddr { ip: Ipv4, port: u16 },
}

/// A control message with its strings and byte strings as sequences.
pub enum MessageView {
    ClientPairHello { msg: Seq<u8> },
    ServerPairHello { msg: Seq<u8> },
    PairRequest { client_name: Seq<char>, client_cert_der: Seq<u8>, mac: Seq<u8> },
    PairAccept {
        server_name: Seq<char>,
        server_cert_der: Seq<u8>,
        assigned_ip: Ipv4,
        subnet_mask: Ipv4,
        mac: Seq<u8>,
    },
    PairReject { reason: Seq<char> },
    ClientPublicAddr { ip: Ipv4, port: u16 },
    ServerPublicAddr { ip: Ipv4, port: u16 },
}

impl View for ControlMessage {
    type V = MessageView;

    open spec fn view(&self) -> MessageView {
        match self {
            ControlMessage::ClientPairHello { msg } => MessageView::ClientPairHello { msg: msg@ },
            ControlMessage::ServerPairHello { msg } => MessageView::ServerPairHello { msg: msg@ },
            ControlMessage::PairRequest { client_name, client_cert_der, mac } => MessageView::PairRequest {
                client_name: client_name@,
                client_cert_der: client_cert_der@,
                mac: mac@,
            },
            ControlMessage::PairAccept { server_name, server_cert_der, assigned_ip, subnet_mask, mac } =>
                MessageView::PairAccept {
                    server_name: server_name@,
                    server_cert_der: server_cert_der@,
                    assigned_ip: *assigned_ip,
                    subnet_mask: *subnet_mask,
                    mac: mac@,
                },
            ControlMessage::PairReject { reason } => MessageView::PairReject { reason: reason@ },
            ControlMessage::ClientPublicAddr { ip, port } => MessageView::ClientPublicAddr { ip: *ip, port: *port },
            ControlMessage::ServerPublicAddr { ip, port } => MessageView::ServerPublicAddr { ip: *ip, port: *port },
        }
    }
}

/// The view of an optional message.
pub open spec fn opt_message_view(m: Option<ControlMessage>) -> Option<MessageView> {
    match m {
        Some(m) => Some(m@),
        None => None,
    }
}

} // verus!
