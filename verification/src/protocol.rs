//! Messages exchanged between client and server.
//!
//! The types at this level are the first revision of the protocol, in which
//! the PIN travelled in the pairing request itself; [`wire`] holds the
//! revision in use, in which the PIN only feeds a password-authenticated
//! key exchange.

use vstd::prelude::*;

use crate::addr::Ipv4;

pub mod wire;

verus! {

/// One tunnelled IP packet with its sequence number.
#[derive(Debug, PartialEq)]
pub struct TunnelPacket {
    pub seq: u64,
    pub payload: Vec<u8>,
}

/// Control messages of the first protocol revision.
#[derive(Debug, PartialEq)]
pub enum ControlMessage {
    PairRequest { pin: String, client_name: String, client_cert_der: Vec<u8> },
    PairAccept { server_cert_der: Vec<u8>, assigned_ip: Ipv4, subnet_mask: Ipv4 },
    PairReject { reason: String },
    SessionReady { assigned_ip: Ipv4, subnet_mask: Ipv4 },
}

} // verus!
