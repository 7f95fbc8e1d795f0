//! The transport layer: framing of control messages, the pairing protocol,
//! certificate trust decisions and connection settings.

pub mod auth;
pub mod crypto;
pub mod framing;
pub mod kex;
pub mod pairing;
