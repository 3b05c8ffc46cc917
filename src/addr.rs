//! Socket addresses as plain values, and address equality across families.

use vstd::prelude::*;

verus! {

/// Two to the power 32: the width of an IPv4 address inside an IPv6 one.
pub const V4_SPAN: u128 = 0x1_0000_0000;

/// The high 96 bits of an IPv4-mapped IPv6 address (`::ffff:a.b.c.d`).
pub const MAPPED_PREFIX: u128 = 0xffff;

/// An IP address: IPv4 as its 32-bit value, IPv6 as its 128-bit value
/// (both in network order, most significant octet first).
#[derive(Clone, Copy, Debug, PartialEq, Eq, Structural)]
pub enum IpAddress {
    V4(u32),
    V6(u128),
}

/// A socket address: an IP address and a port.
#[derive(Clone, Copy, Debug, PartialEq, Eq, Structural)]
pub struct Addr {
    pub ip: IpAddress,
    pub port: u16,
}

/// The IPv4 address that `v6` maps, when `v6` has the form `::ffff:a.b.c.d`.
pub open spec fn mapped_v4(v6: u128) -> Option<u32> {
    if v6 / 0x1_0000_0000 == 0xffff {
        Some((v6 % 0x1_0000_0000) as u32)
    } else {
        None
    }
}

/// Two IP addresses are the same host: equal within one family, or one is
/// the IPv4-mapped IPv6 form of the other.
pub open spec fn same_ip(a: IpAddress, b: IpAddress) -> bool {
    match (a, b) {
        (IpAddress::V4(x), IpAddress::V4(y)) => x == y,
        (IpAddress::V6(x), IpAddress::V6(y)) => x == y,
        (IpAddress::V6(x), IpAddress::V4(y)) => mapped_v4(x) == Some(y),
        (IpAddress::V4(x), IpAddress::V6(y)) => mapped_v4(y) == Some(x),
    }
}

/// Address equality: equal ports and the same host across families.
pub open spec fn addr_eq(a: Addr, b: Addr) -> bool {
    a.port == b.port && same_ip(a.ip, b.ip)
}

/// The IPv4 address that an IPv6 address maps, if it is IPv4-mapped.
pub fn to_ipv4_mapped(v6: u128) -> (r: Option<u32>)
    ensures
        r == mapped_v4(v6),
{
    if v6 / V4_SPAN == MAPPED_PREFIX {
        Some((v6 % V4_SPAN) as u32)
    } else {
        None
    }
}

impl Addr {
    pub fn new(ip: IpAddress, port: u16) -> (r: Addr)
        ensures
            r.ip == ip,
            r.port == port,
    {
        Addr { ip, port }
    }

    /// Whether two addresses name the same socket, across address families.
    pub fn same_addr(a0: &Addr, a1: &Addr) -> (r: bool)
        ensures
            r == addr_eq(*a0, *a1),
    {
        if a0.port != a1.port {
            return false;
        }
        match (a0.ip, a1.ip) {
            (IpAddress::V6(x), IpAddress::V4(y)) => to_ipv4_mapped(x) == Some(y),
            (IpAddress::V4(x), IpAddress::V6(y)) => Some(x) == to_ipv4_mapped(y),
            (IpAddress::V4(x), IpAddress::V4(y)) => x == y,
            (IpAddress::V6(x), IpAddress::V6(y)) => x == y,
        }
    }
}

} // verus!
