//! The configuration of the TUN device.

use vstd::prelude::*;

use crate::addr::Ipv4;

verus! {

/// How the TUN device is set up: its name, its address and netmask, and its
/// MTU.
pub struct TunConfig {
    pub name: String,
    pub ip: Ipv4,
    pub netmask: Ipv4,
    pub mtu: u16,
}

impl TunConfig {
    /// The default configuration with the address `ip`.
    pub fn with_ip(ip: Ipv4) -> (r: TunConfig)
        ensures
            r.name@ == "prism0"@,
            r.ip == ip,
            r.netmask == Ipv4::new_spec(255, 255, 255, 0),
            r.mtu == 1100,
    {
        let mut config = TunConfig::default();
        config.ip = ip;
        config
    }

    /// The MTU as the device builder takes it.
    pub fn mtu_i32(&self) -> (r: i32)
        ensures
            r == self.mtu,
    {
        self.mtu as i32
    }
}

impl Default for TunConfig {
    /// The device `prism0` at 100.64.0.2/24 with an MTU of 1100, small enough
    /// for a tunnelled packet to fit in one QUIC datagram.
    fn default() -> (r: TunConfig)
        ensures
            r.name@ == "prism0"@,
            r.ip == Ipv4::new_spec(100, 64, 0, 2),
            r.netmask == Ipv4::new_spec(255, 255, 255, 0),
            r.mtu == 1100,
    {
        TunConfig {
            name: "prism0".to_owned(),
            ip: Ipv4::new(100, 64, 0, 2),
            netmask: Ipv4::new(255, 255, 255, 0),
            mtu: 1100,
        }
    }
}

} // verus!
