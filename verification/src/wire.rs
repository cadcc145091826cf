//! Addressing fields of wire representations: IP version, protocol number,
//! addresses, and endpoint/listen-endpoint pairs.
//!
//! Packet headers are consumed only for these fields, so they are held here
//! as plain values.

use vstd::prelude::*;

use crate::assoc::KeyEq;

verus! {

/// Internet protocol version of an address or packet.
#[derive(Clone, Copy, Debug, PartialEq, Eq, Structural)]
pub enum IpVersion {
    Ipv4,
    Ipv6,
}

/// An IP protocol number, as carried in the IPv4 protocol / IPv6 next-header field.
#[derive(Clone, Copy, Debug, PartialEq, Eq, Structural)]
pub struct IpProtocol(pub u8);

/// An IP address of either version, as a big-endian integer.
#[derive(Clone, Copy, Debug, PartialEq, Eq, Structural)]
pub enum IpAddress {
    Ipv4(u32),
    Ipv6(u128),
}

/// A concrete address/port pair.
#[derive(Clone, Copy, Debug, PartialEq, Eq, Structural)]
pub struct IpEndpoint {
    pub addr: IpAddress,
    pub port: u16,
}

/// An address/port pair where the address may be wildcarded.
///
/// `addr == None` is the true any-version, any-address wildcard; it is a
/// different key than an explicit unspecified address such as `0.0.0.0`.
#[derive(Clone, Copy, Debug, PartialEq, Eq)]
pub struct IpListenEndpoint {
    pub addr: Option<IpAddress>,
    pub port: u16,
}

impl IpAddress {
    /// The version of this address.
    pub open spec fn spec_version(self) -> IpVersion {
        match self {
            IpAddress::Ipv4(_) => IpVersion::Ipv4,
            IpAddress::Ipv6(_) => IpVersion::Ipv6,
        }
    }

    pub fn version(&self) -> (v: IpVersion)
        ensures
            v == self.spec_version(),
    {
        match self {
            IpAddress::Ipv4(_) => IpVersion::Ipv4,
            IpAddress::Ipv6(_) => IpVersion::Ipv6,
        }
    }

    /// The unspecified (all-zero) address of the given version.
    pub open spec fn spec_unspecified(v: IpVersion) -> IpAddress {
        match v {
            IpVersion::Ipv4 => IpAddress::Ipv4(0),
            IpVersion::Ipv6 => IpAddress::Ipv6(0),
        }
    }

    pub fn unspecified(v: IpVersion) -> (a: IpAddress)
        ensures
            a == Self::spec_unspecified(v),
    {
        match v {
            IpVersion::Ipv4 => IpAddress::Ipv4(0),
            IpVersion::Ipv6 => IpAddress::Ipv6(0),
        }
    }

    /// An IPv4 address from its dotted-quad bytes.
    pub fn v4(a: u8, b: u8, c: u8, d: u8) -> (r: IpAddress)
        ensures
            r == IpAddress::Ipv4(
                ((a as u32) * 0x1000000 + (b as u32) * 0x10000 + (c as u32) * 0x100 + (
                d as u32)) as u32,
            ),
    {
        IpAddress::Ipv4(
            (a as u32) * 0x1000000 + (b as u32) * 0x10000 + (c as u32) * 0x100 + (d as u32),
        )
    }
}

impl IpEndpoint {
    pub fn new(addr: IpAddress, port: u16) -> (e: IpEndpoint)
        ensures
            e == (IpEndpoint { addr, port }),
    {
        IpEndpoint { addr, port }
    }
}

impl IpListenEndpoint {
    /// A listen endpoint occupies an index key exactly when it is specified:
    /// when it binds an address, a port, or both.
    pub open spec fn spec_is_specified(self) -> bool {
        self.addr is Some || self.port != 0
    }

    pub fn is_specified(&self) -> (b: bool)
        ensures
            b == self.spec_is_specified(),
    {
        self.addr.is_some() || self.port != 0
    }

    /// The listen endpoint that matches exactly one concrete endpoint.
    pub open spec fn spec_from_endpoint(e: IpEndpoint) -> IpListenEndpoint {
        IpListenEndpoint { addr: Some(e.addr), port: e.port }
    }

    pub fn from_endpoint(e: IpEndpoint) -> (r: IpListenEndpoint)
        ensures
            r == Self::spec_from_endpoint(e),
    {
        IpListenEndpoint { addr: Some(e.addr), port: e.port }
    }

    /// The any-address wildcard on a port.
    pub fn from_port(port: u16) -> (r: IpListenEndpoint)
        ensures
            r == (IpListenEndpoint { addr: None, port }),
    {
        IpListenEndpoint { addr: None, port }
    }

    /// An unbound endpoint: any address, port zero.
    pub fn unbound() -> (r: IpListenEndpoint)
        ensures
            r == (IpListenEndpoint { addr: None, port: 0u16 }),
    {
        IpListenEndpoint { addr: None, port: 0 }
    }
}

impl KeyEq for IpVersion {
    fn key_eq(&self, other: &Self) -> (r: bool)
        ensures
            r <==> (*self == *other),
    {
        match (self, other) {
            (IpVersion::Ipv4, IpVersion::Ipv4) => true,
            (IpVersion::Ipv6, IpVersion::Ipv6) => true,
            _ => false,
        }
    }
}

impl KeyEq for IpProtocol {
    fn key_eq(&self, other: &Self) -> (r: bool)
        ensures
            r <==> (*self == *other),
    {
        self.0 == other.0
    }
}

impl KeyEq for IpAddress {
    fn key_eq(&self, other: &Self) -> (r: bool)
        ensures
            r <==> (*self == *other),
    {
        match (self, other) {
            (IpAddress::Ipv4(a), IpAddress::Ipv4(b)) => a == b,
            (IpAddress::Ipv6(a), IpAddress::Ipv6(b)) => a == b,
            _ => false,
        }
    }
}

impl KeyEq for IpEndpoint {
    fn key_eq(&self, other: &Self) -> (r: bool)
        ensures
            r <==> (*self == *other),
    {
        self.addr.key_eq(&other.addr) && self.port == other.port
    }
}

impl KeyEq for IpListenEndpoint {
    fn key_eq(&self, other: &Self) -> (r: bool)
        ensures
            r <==> (*self == *other),
    {
        let addr_eq = match (&self.addr, &other.addr) {
            (Some(a), Some(b)) => a.key_eq(b),
            (None, None) => true,
            _ => false,
        };
        addr_eq && self.port == other.port
    }
}

/// The addressing fields of an IP packet header.
#[derive(Clone, Copy, Debug, PartialEq, Eq, Structural)]
pub struct IpRepr {
    pub src_addr: IpAddress,
    pub dst_addr: IpAddress,
}

/// The addressing fields of a TCP segment header.
#[derive(Clone, Copy, Debug, PartialEq, Eq, Structural)]
pub struct TcpRepr {
    pub src_port: u16,
    pub dst_port: u16,
}

/// The addressing fields of a UDP datagram header.
#[derive(Clone, Copy, Debug, PartialEq, Eq, Structural)]
pub struct UdpRepr {
    pub src_port: u16,
    pub dst_port: u16,
}

} // verus!
