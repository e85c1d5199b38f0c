//! Address families and public addresses as plain integers.

use vstd::prelude::*;

verus! {

/// The two address families a record can be kept up to date for.
#[derive(Clone, Copy, Debug, PartialEq, Eq, Structural)]
pub enum Family {
    V4,
    V6,
}

/// An IPv4 address as its 32 bits in network order: `a.b.c.d` is
/// `a * 2^24 + b * 2^16 + c * 2^8 + d`.
#[derive(Clone, Copy, Debug, PartialEq, Eq, Hash, Structural)]
pub struct Ipv4(pub u32);

/// An IPv6 address as its 128 bits in network order.
#[derive(Clone, Copy, Debug, PartialEq, Eq, Hash, Structural)]
pub struct Ipv6(pub u128);

/// An address of either family.
#[derive(Clone, Copy, Debug, PartialEq, Eq, Hash, Structural)]
pub enum IpAddress {
    V4(Ipv4),
    V6(Ipv6),
}

/// The 32-bit value of the dotted quad `a.b.c.d`.
pub open spec fn quad(a: u8, b: u8, c: u8, d: u8) -> int {
    a * 0x100_0000 + b * 0x1_0000 + c * 0x100 + d
}

impl Ipv4 {
    /// The address written `a.b.c.d`.
    pub fn new(a: u8, b: u8, c: u8, d: u8) -> (ip: Ipv4)
        ensures
            ip.0 == quad(a, b, c, d),
    {
        let hi: u32 = (a as u32) * 0x100_0000 + (b as u32) * 0x1_0000;
        let lo: u32 = (c as u32) * 0x100 + (d as u32);
        Ipv4(hi + lo)
    }
}

impl IpAddress {
    /// The family this address belongs to.
    pub open spec fn family_of(self) -> Family {
        match self {
            IpAddress::V4(_) => Family::V4,
            IpAddress::V6(_) => Family::V6,
        }
    }

    /// The family this address belongs to.
    pub fn family(&self) -> (f: Family)
        ensures
            f == self.family_of(),
    {
        match self {
            IpAddress::V4(_) => Family::V4,
            IpAddress::V6(_) => Family::V6,
        }
    }
}

impl Family {
    /// The DNS record type that carries addresses of this family.
    pub open spec fn record_type_of(self) -> Seq<char> {
        match self {
            Family::V4 => "A"@,
            Family::V6 => "AAAA"@,
        }
    }

    /// The DNS record type that carries addresses of this family: `A` or `AAAA`.
    pub fn record_type(&self) -> (name: &'static str)
        ensures
            name@ == self.record_type_of(),
    {
        match self {
            Family::V4 => "A",
            Family::V6 => "AAAA",
        }
    }
}

} // verus!
