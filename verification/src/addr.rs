//! IPv4 addresses and endpoints as plain values.

use vstd::prelude::*;

verus! {

/// An IPv4 address, held as its four octets in network order.
#[derive(Debug, Clone, Copy, PartialEq, Eq, Structural)]
pub struct Ipv4 {
    pub first: u8,
    pub second: u8,
    pub third: u8,
    pub fourth: u8,
}

impl Ipv4 {
    /// The address `a.b.c.d`.
    pub open spec fn new_spec(a: u8, b: u8, c: u8, d: u8) -> Ipv4 {
        Ipv4 { first: a, second: b, third: c, fourth: d }
    }

    /// The address `a.b.c.d`.
    #[verifier::when_used_as_spec(new_spec)]
    pub fn new(a: u8, b: u8, c: u8, d: u8) -> (r: Ipv4)
        ensures
            r == Ipv4::new_spec(a, b, c, d),
    {
        Ipv4 { first: a, second: b, third: c, fourth: d }
    }

    /// The address masked by `mask`, octet by octet: its network part.
    pub open spec fn masked(self, mask: Ipv4) -> Ipv4 {
        Ipv4 {
            first: self.first & mask.first,
            second: self.second & mask.second,
            third: self.third & mask.third,
            fourth: self.fourth & mask.fourth,
        }
    }

    /// Whether `self` and `other` are in the same subnet under `mask`.
    pub open spec fn same_subnet(self, other: Ipv4, mask: Ipv4) -> bool {
        self.masked(mask) == other.masked(mask)
    }
}

/// An IPv4 address and a UDP port.
#[derive(Debug, Clone, Copy, PartialEq, Eq, Structural)]
pub struct Endpoint {
    pub ip: Ipv4,
    pub port: u16,
}

} // verus!
