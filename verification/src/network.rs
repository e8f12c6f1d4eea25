//! The network capability: the pool of addresses that a holder may bind or
//! connect to, and the checks that run before any system call.

use crate::address::{IpSocketAddress, SocketAddressFamily};
use crate::error::ErrorCode;
use cap_net_ext::PoolExt;
use cap_std::net::{Ipv4Addr, Ipv6Addr, Pool, SocketAddr, SocketAddrV4, SocketAddrV6};
use vstd::prelude::*;

verus! {

/// The pool type of `cap_std`, carried as an opaque value.
#[verifier::external_type_specification]
#[verifier::external_body]
pub struct ExPool(cap_std::net::Pool);

/// The endpoints that a pool grants, each as the octets of its IP address
/// (four or sixteen, most significant first) and its port.
pub uninterp spec fn pool_grants(pool: Pool) -> Set<(Seq<u8>, u16)>;

/// The octets of an address, most significant first.
pub open spec fn address_octets(addr: IpSocketAddress) -> Seq<u8> {
    match addr {
        IpSocketAddress::Ipv4(a) => seq![a.address.0, a.address.1, a.address.2, a.address.3],
        IpSocketAddress::Ipv6(a) => {
            let s = a.address;
            seq![
                (s.0 / 256) as u8, (s.0 % 256) as u8, (s.1 / 256) as u8, (s.1 % 256) as u8,
                (s.2 / 256) as u8, (s.2 % 256) as u8, (s.3 / 256) as u8, (s.3 % 256) as u8,
                (s.4 / 256) as u8, (s.4 % 256) as u8, (s.5 / 256) as u8, (s.5 % 256) as u8,
                (s.6 / 256) as u8, (s.6 % 256) as u8, (s.7 / 256) as u8, (s.7 % 256) as u8,
            ]
        },
    }
}

/// The pool grants the address: its IP and port lie in one of the pool's
/// grants. Flow information and scope play no part.
pub open spec fn pool_permits(pool: Pool, addr: IpSocketAddress) -> bool {
    pool_grants(pool).contains((address_octets(addr), addr.spec_port()))
}

/// Calls `cap_net_ext::PoolExt::tcp_binder` on one address. The call does no
/// I/O: it succeeds exactly when the pool's `check_addr` accepts the IP and
/// port, and the result says whether it did.
#[verifier::external_body]
fn pool_permits_bind(pool: &Pool, addr: &IpSocketAddress) -> (ok: bool)
    ensures
        ok == pool_grants(*pool).contains((address_octets(*addr), addr.spec_port())),
{
    let sa = match *addr {
        IpSocketAddress::Ipv4(a) => {
            let o = a.address;
            SocketAddr::V4(SocketAddrV4::new(Ipv4Addr::new(o.0, o.1, o.2, o.3), a.port))
        },
        IpSocketAddress::Ipv6(a) => {
            let s = a.address;
            let ip = Ipv6Addr::new(s.0, s.1, s.2, s.3, s.4, s.5, s.6, s.7);
            SocketAddr::V6(SocketAddrV6::new(ip, a.port, a.flow_info, a.scope_id))
        },
    };
    pool.tcp_binder(sa).is_ok()
}

/// Calls `cap_net_ext::PoolExt::tcp_connecter` on one address. The call does
/// no I/O: it succeeds exactly when the pool's `check_addr` accepts the IP
/// and port, and the result says whether it did.
#[verifier::external_body]
fn pool_permits_connect(pool: &Pool, addr: &IpSocketAddress) -> (ok: bool)
    ensures
        ok == pool_grants(*pool).contains((address_octets(*addr), addr.spec_port())),
{
    let sa = match *addr {
        IpSocketAddress::Ipv4(a) => {
            let o = a.address;
            SocketAddr::V4(SocketAddrV4::new(Ipv4Addr::new(o.0, o.1, o.2, o.3), a.port))
        },
        IpSocketAddress::Ipv6(a) => {
            let s = a.address;
            let ip = Ipv6Addr::new(s.0, s.1, s.2, s.3, s.4, s.5, s.6, s.7);
            SocketAddr::V6(SocketAddrV6::new(ip, a.port, a.flow_info, a.scope_id))
        },
    };
    pool.tcp_connecter(sa).is_ok()
}

/// A network capability: the addresses that its holder may use. It is shared
/// by every socket created under it and never changes after construction.
pub struct Network {
    pub pool: Pool,
    pub allow_ip_name_lookup: bool,
}

/// The capability to bind one local address: the address passed the checks
/// and the pool grants it.
#[derive(Debug)]
pub struct TcpBinder {
    address: IpSocketAddress,
}

/// The capability to connect to one remote address: the address passed the
/// checks and the pool grants it.
#[derive(Debug)]
pub struct TcpConnecter {
    address: IpSocketAddress,
}

impl TcpBinder {
    pub closed spec fn spec_address(&self) -> IpSocketAddress {
        self.address
    }

    /// The address that may be bound.
    pub fn address(&self) -> (a: IpSocketAddress)
        ensures
            a == self.spec_address(),
    {
        self.address
    }
}

impl TcpConnecter {
    pub closed spec fn spec_address(&self) -> IpSocketAddress {
        self.address
    }

    /// The address that may be connected to.
    pub fn address(&self) -> (a: IpSocketAddress)
        ensures
            a == self.spec_address(),
    {
        self.address
    }
}

/// What the checks before a bind return for a local address.
pub open spec fn bind_check(
    pool: Pool,
    family: SocketAddressFamily,
    addr: IpSocketAddress,
) -> Result<(), ErrorCode> {
    if !addr.spec_is_unicast() || !addr.spec_matches_family(family) {
        Err(ErrorCode::InvalidArgument)
    } else if !pool_permits(pool, addr) {
        Err(ErrorCode::AccessDenied)
    } else {
        Ok(())
    }
}

/// What the checks before a connect return for a remote address.
pub open spec fn connect_check(
    pool: Pool,
    family: SocketAddressFamily,
    addr: IpSocketAddress,
) -> Result<(), ErrorCode> {
    if !addr.spec_is_unicast() || !addr.spec_is_valid_remote() || !addr.spec_matches_family(
        family,
    ) {
        Err(ErrorCode::InvalidArgument)
    } else if !pool_permits(pool, addr) {
        Err(ErrorCode::AccessDenied)
    } else {
        Ok(())
    }
}

impl Network {
    pub fn new(pool: Pool, allow_ip_name_lookup: bool) -> (n: Network)
        ensures
            n.pool == pool,
            n.allow_ip_name_lookup == allow_ip_name_lookup,
    {
        Network { pool, allow_ip_name_lookup }
    }

    /// Authorizes a local address for a socket of the given family, before
    /// any system call is made. The address must be unicast and of the socket's family, else the call
    /// fails with `InvalidArgument`; the pool must grant it, else the call
    /// fails with `AccessDenied`.
    pub fn authorize_bind(&self, family: &SocketAddressFamily, addr: &IpSocketAddress) -> (r:
        Result<TcpBinder, ErrorCode>)
        ensures
            match r {
                Ok(binder) => bind_check(self.pool, *family, *addr) is Ok && binder.spec_address()
                    == *addr,
                Err(e) => bind_check(self.pool, *family, *addr) == Err::<(), ErrorCode>(e),
            },
    {
        if !addr.is_unicast() {
            return Err(ErrorCode::InvalidArgument);
        }
        if !addr.matches_family(family) {
            return Err(ErrorCode::InvalidArgument);
        }
        if !pool_permits_bind(&self.pool, addr) {
            return Err(ErrorCode::AccessDenied);
        }
        Ok(TcpBinder { address: *addr })
    }

    /// Authorizes a remote address for a socket of the given family, before
    /// any system call is made. The address must be unicast, name a host and a port, and be of the
    /// socket's family, else the call fails with `InvalidArgument`; the pool
    /// must grant it, else the call fails with `AccessDenied`.
    pub fn authorize_connect(&self, family: &SocketAddressFamily, addr: &IpSocketAddress) -> (r:
        Result<TcpConnecter, ErrorCode>)
        ensures
            match r {
                Ok(connecter) => connect_check(self.pool, *family, *addr) is Ok
                    && connecter.spec_address() == *addr,
                Err(e) => connect_check(self.pool, *family, *addr) == Err::<(), ErrorCode>(e),
            },
    {
        if !addr.is_unicast() {
            return Err(ErrorCode::InvalidArgument);
        }
        if !addr.is_valid_remote() {
            return Err(ErrorCode::InvalidArgument);
        }
        if !addr.matches_family(family) {
            return Err(ErrorCode::InvalidArgument);
        }
        if !pool_permits_connect(&self.pool, addr) {
            return Err(ErrorCode::AccessDenied);
        }
        Ok(TcpConnecter { address: *addr })
    }
}

} // verus!
