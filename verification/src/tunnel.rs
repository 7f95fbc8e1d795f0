//! The TUN device that carries the tunnelled packets.

pub mod device;
