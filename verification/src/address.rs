//! Socket-layer addresses and the validation rules that run before an
//! address is handed to the network pool.

use vstd::prelude::*;

verus! {

/// An IPv4 address with a port.
#[derive(Clone, Copy, Debug, PartialEq, Eq)]
pub struct Ipv4SocketAddress {
    pub port: u16,
    /// The four octets, most significant first.
    pub address: (u8, u8, u8, u8),
}

/// An IPv6 address with a port, flow information and scope.
#[derive(Clone, Copy, Debug, PartialEq, Eq)]
pub struct Ipv6SocketAddress {
    pub port: u16,
    pub flow_info: u32,
    /// The eight 16-bit segments, most significant first.
    pub address: (u16, u16, u16, u16, u16, u16, u16, u16),
    pub scope_id: u32,
}

/// A socket-layer address of either family.
#[derive(Clone, Copy, Debug, PartialEq, Eq)]
pub enum IpSocketAddress {
    Ipv4(Ipv4SocketAddress),
    Ipv6(Ipv6SocketAddress),
}

/// The family of a socket. An IPv6 socket carries its own record of the
/// dual-stack switch, because not every platform reports it for sockets
/// that came out of `accept`.
#[derive(Clone, Copy, Debug, PartialEq, Eq, Structural)]
pub enum SocketAddressFamily {
    Ipv4,
    Ipv6 { v6only: bool },
}

/// The family of an address, as reported to callers.
#[derive(Clone, Copy, Debug, PartialEq, Eq, Structural)]
pub enum IpAddressFamily {
    Ipv4,
    Ipv6,
}

/// Whether the eight segments spell an IPv4 address mapped into IPv6
/// (`::ffff:a.b.c.d`).
pub open spec fn is_ipv4_mapped(s: (u16, u16, u16, u16, u16, u16, u16, u16)) -> bool {
    s.0 == 0 && s.1 == 0 && s.2 == 0 && s.3 == 0 && s.4 == 0 && s.5 == 0xffff
}

/// The four octets that an IPv4-mapped address carries in its last two
/// segments.
pub open spec fn mapped_octets(s: (u16, u16, u16, u16, u16, u16, u16, u16)) -> (u8, u8, u8, u8) {
    ((s.6 / 256) as u8, (s.6 % 256) as u8, (s.7 / 256) as u8, (s.7 % 256) as u8)
}

/// IPv4 multicast (224.0.0.0/4) or the limited broadcast address.
pub open spec fn ipv4_is_non_unicast(a: (u8, u8, u8, u8)) -> bool {
    (224 <= a.0 <= 239) || (a.0 == 255 && a.1 == 255 && a.2 == 255 && a.3 == 255)
}

pub open spec fn ipv4_is_unspecified(a: (u8, u8, u8, u8)) -> bool {
    a.0 == 0 && a.1 == 0 && a.2 == 0 && a.3 == 0
}

impl IpSocketAddress {
    pub open spec fn spec_port(self) -> u16 {
        match self {
            IpSocketAddress::Ipv4(a) => a.port,
            IpSocketAddress::Ipv6(a) => a.port,
        }
    }

    pub open spec fn spec_family(self) -> IpAddressFamily {
        match self {
            IpSocketAddress::Ipv4(_) => IpAddressFamily::Ipv4,
            IpSocketAddress::Ipv6(_) => IpAddressFamily::Ipv6,
        }
    }

    /// The address is unicast: neither multicast nor broadcast, in its own
    /// family or as an IPv4 address mapped into IPv6.
    pub open spec fn spec_is_unicast(self) -> bool {
        match self {
            IpSocketAddress::Ipv4(a) => !ipv4_is_non_unicast(a.address),
            IpSocketAddress::Ipv6(a) => if is_ipv4_mapped(a.address) {
                !ipv4_is_non_unicast(mapped_octets(a.address))
            } else {
                a.address.0 / 256 != 0xff
            },
        }
    }

    /// The all-zero address of either family, also when mapped.
    pub open spec fn spec_is_unspecified(self) -> bool {
        match self {
            IpSocketAddress::Ipv4(a) => ipv4_is_unspecified(a.address),
            IpSocketAddress::Ipv6(a) => if is_ipv4_mapped(a.address) {
                ipv4_is_unspecified(mapped_octets(a.address))
            } else {
                a.address.0 == 0 && a.address.1 == 0 && a.address.2 == 0 && a.address.3 == 0
                    && a.address.4 == 0 && a.address.5 == 0 && a.address.6 == 0
                    && a.address.7 == 0
            },
        }
    }

    /// The address can be the target of a connect: it names a host and a
    /// port.
    pub open spec fn spec_is_valid_remote(self) -> bool {
        !self.spec_is_unspecified() && self.spec_port() != 0
    }

    /// The address belongs to the family of a socket.
    pub open spec fn spec_matches_family(self, family: SocketAddressFamily) -> bool {
        match (family, self) {
            (SocketAddressFamily::Ipv4, IpSocketAddress::Ipv4(_)) => true,
            (SocketAddressFamily::Ipv6 { .. }, IpSocketAddress::Ipv6(_)) => true,
            _ => false,
        }
    }

    pub fn port(&self) -> (p: u16)
        ensures
            p == self.spec_port(),
    {
        match self {
            IpSocketAddress::Ipv4(a) => a.port,
            IpSocketAddress::Ipv6(a) => a.port,
        }
    }

    pub fn family(&self) -> (f: IpAddressFamily)
        ensures
            f == self.spec_family(),
    {
        match self {
            IpSocketAddress::Ipv4(_) => IpAddressFamily::Ipv4,
            IpSocketAddress::Ipv6(_) => IpAddressFamily::Ipv6,
        }
    }

    pub fn is_unicast(&self) -> (b: bool)
        ensures
            b == self.spec_is_unicast(),
    {
        match self {
            IpSocketAddress::Ipv4(a) => !ipv4_non_unicast(a.address),
            IpSocketAddress::Ipv6(a) => {
                let s = a.address;
                if ipv4_mapped(s) {
                    !ipv4_non_unicast(octets_of_mapped(s))
                } else {
                    s.0 / 256 != 0xff
                }
            },
        }
    }

    pub fn is_unspecified(&self) -> (b: bool)
        ensures
            b == self.spec_is_unspecified(),
    {
        match self {
            IpSocketAddress::Ipv4(a) => ipv4_unspecified(a.address),
            IpSocketAddress::Ipv6(a) => {
                let s = a.address;
                if ipv4_mapped(s) {
                    ipv4_unspecified(octets_of_mapped(s))
                } else {
                    s.0 == 0 && s.1 == 0 && s.2 == 0 && s.3 == 0 && s.4 == 0 && s.5 == 0
                        && s.6 == 0 && s.7 == 0
                }
            },
        }
    }

    pub fn is_valid_remote(&self) -> (b: bool)
        ensures
            b == self.spec_is_valid_remote(),
    {
        !self.is_unspecified() && self.port() != 0
    }

    pub fn matches_family(&self, family: &SocketAddressFamily) -> (b: bool)
        ensures
            b == self.spec_matches_family(*family),
    {
        match (family, self) {
            (SocketAddressFamily::Ipv4, IpSocketAddress::Ipv4(_)) => true,
            (SocketAddressFamily::Ipv6 { .. }, IpSocketAddress::Ipv6(_)) => true,
            _ => false,
        }
    }
}

fn ipv4_mapped(s: (u16, u16, u16, u16, u16, u16, u16, u16)) -> (b: bool)
    ensures
        b == is_ipv4_mapped(s),
{
    s.0 == 0 && s.1 == 0 && s.2 == 0 && s.3 == 0 && s.4 == 0 && s.5 == 0xffff
}

fn octets_of_mapped(s: (u16, u16, u16, u16, u16, u16, u16, u16)) -> (o: (u8, u8, u8, u8))
    ensures
        o == mapped_octets(s),
{
    ((s.6 / 256) as u8, (s.6 % 256) as u8, (s.7 / 256) as u8, (s.7 % 256) as u8)
}

fn ipv4_non_unicast(a: (u8, u8, u8, u8)) -> (b: bool)
    ensures
        b == ipv4_is_non_unicast(a),
{
    (224 <= a.0 && a.0 <= 239) || (a.0 == 255 && a.1 == 255 && a.2 == 255 && a.3 == 255)
}

fn ipv4_unspecified(a: (u8, u8, u8, u8)) -> (b: bool)
    ensures
        b == ipv4_is_unspecified(a),
{
    a.0 == 0 && a.1 == 0 && a.2 == 0 && a.3 == 0
}

} // verus!
