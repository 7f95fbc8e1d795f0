//! Prism: a peer-to-peer tunnel between a client and a server that pair
//! once with a short PIN and afterwards authenticate each other by pinned
//! certificates.
//!
//! This crate holds the logic of the tunnel: the wire framing, the pairing
//! protocol as two state machines, the trust decisions, the addressing and
//! routing plans. The network, file and device work is done by the caller.

pub mod addr;
pub mod network;
pub mod protocol;
pub mod session;
pub mod transport;
pub mod tunnel;
