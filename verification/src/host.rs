//! The call surface: every socket operation, addressed by handles into the
//! resource table.
//!
//! A call first resolves its handles; a stale, unknown or wrongly typed
//! handle ends the call with a trap and changes nothing. The operation
//! itself is the one of the phase machine, applied to the socket in its
//! entry. Streams and accepted sockets become new entries.

use crate::address::{IpAddressFamily, IpSocketAddress, SocketAddressFamily};
use crate::error::{ErrorCode, OsError};
use crate::network::{Network, TcpBinder, TcpConnecter};
use crate::socket::{
    accept_completed_result, accept_result, bind_completed_step, connect_completed_step,
    connect_polled_step, finish_bind_step, finish_connect_step, finish_listen_step,
    ipv6_only_completed_step, ipv6_only_result, listen_backlog_updated_step,
    listen_completed_step, local_address_result, option_set_step, remote_address_result,
    saturate_size, set_ipv6_only_result, set_listen_backlog_size_step, shutdown_result,
    fresh_socket, start_bind_result, start_connect_result, start_listen_result, BacklogUpdate,
    ConnectPoll,
    ConnectStep, HopLimitOption, OsShutdown, ShadowOptions, ShutdownType, SocketOption,
    TcpSocket, TcpState,
};
use crate::table::{child_entry, root_entry, EntryView, Handle, ResourceTable, ResourceTableError};
use vstd::prelude::*;

verus! {

/// What an entry of the table holds.
pub enum Resource {
    Network(Network),
    TcpSocket(TcpSocket),
    /// The read half of a connection. The stream itself lives outside.
    InputStream,
    /// The write half of a connection. The stream itself lives outside.
    OutputStream,
    /// A registration with the readiness subsystem, which lives outside.
    Pollable,
}

/// How a call fails: with a code of the taxonomy, or with a trap when a
/// handle does not resolve or the table cannot take an entry.
#[derive(Clone, Copy, Debug, PartialEq, Eq, Structural)]
pub enum SocketError {
    Code(ErrorCode),
    Trap(ResourceTableError),
}

/// What `finish_connect` returns.
#[derive(Clone, Copy, Debug, PartialEq, Eq, Structural)]
pub enum FinishConnect {
    /// The socket is connected; these are its streams.
    Established { input: Handle, output: Handle },
    /// The connect is still under way: poll the socket and report with
    /// `connect_polled`.
    Poll,
}

/// What a completed accept returns.
pub struct Accepted {
    pub socket: Handle,
    pub input: Handle,
    pub output: Handle,
    /// The options to set on the new socket; a failure to set one is
    /// ignored.
    pub options: Vec<SocketOption>,
}

pub type Entries = Map<Handle, EntryView<Resource>>;

/// The socket behind a handle.
pub open spec fn socket_at(t: Entries, h: Handle) -> Result<TcpSocket, ResourceTableError> {
    if !t.contains_key(h) {
        Err(ResourceTableError::NotPresent)
    } else {
        match t[h].value {
            Resource::TcpSocket(s) => Ok(s),
            _ => Err(ResourceTableError::WrongType),
        }
    }
}

/// The network behind a handle.
pub open spec fn network_at(t: Entries, h: Handle) -> Result<Network, ResourceTableError> {
    if !t.contains_key(h) {
        Err(ResourceTableError::NotPresent)
    } else {
        match t[h].value {
            Resource::Network(n) => Ok(n),
            _ => Err(ResourceTableError::WrongType),
        }
    }
}

pub open spec fn lift<R>(r: Result<R, ErrorCode>) -> Result<R, SocketError> {
    match r {
        Ok(v) => Ok(v),
        Err(c) => Err(SocketError::Code(c)),
    }
}

/// The table with another socket value in the entry `h`.
pub open spec fn with_socket(t: Entries, h: Handle, s: TcpSocket) -> Entries {
    t.insert(h, EntryView { value: Resource::TcpSocket(s), ..t[h] })
}

/// The table with a new childless entry `child` under `parent`.
pub open spec fn with_child(t: Entries, parent: Handle, child: Handle, value: Resource) -> Entries {
    t.insert(child, child_entry(value, parent)).insert(
        parent,
        EntryView { children: t[parent].children.insert(child), ..t[parent] },
    )
}

/// The table without the childless entry `h`.
pub open spec fn without(t: Entries, h: Handle) -> Entries {
    match t[h].parent {
        None => t.remove(h),
        Some(p) => t.remove(h).insert(
            p,
            EntryView { children: t[p].children.remove(h), ..t[p] },
        ),
    }
}

/// `start_bind`: the socket is resolved, then the network, then the socket
/// decides.
pub open spec fn start_bind_outcome(
    t: Entries,
    this: Handle,
    network: Handle,
    local_address: IpSocketAddress,
) -> Result<(), SocketError> {
    match socket_at(t, this) {
        Err(e) => Err(SocketError::Trap(e)),
        Ok(s) => match network_at(t, network) {
            Err(e) => Err(SocketError::Trap(e)),
            Ok(n) => lift(start_bind_result(s, n.pool, local_address)),
        },
    }
}

/// `start_connect`: the socket is resolved, then the network, then the
/// socket decides.
pub open spec fn start_connect_outcome(
    t: Entries,
    this: Handle,
    network: Handle,
    remote_address: IpSocketAddress,
) -> Result<(), SocketError> {
    match socket_at(t, this) {
        Err(e) => Err(SocketError::Trap(e)),
        Ok(s) => match network_at(t, network) {
            Err(e) => Err(SocketError::Trap(e)),
            Ok(n) => lift(start_connect_result(s, n.pool, remote_address)),
        },
    }
}

/// An operation that reads the socket behind `h`.
pub open spec fn query<R>(t: Entries, h: Handle, f: spec_fn(TcpSocket) -> Result<R, ErrorCode>)
    -> Result<R, SocketError> {
    match socket_at(t, h) {
        Err(e) => Err(SocketError::Trap(e)),
        Ok(s) => lift(f(s)),
    }
}

/// An operation that changes the socket behind `h`: the table afterwards,
/// and the result.
pub open spec fn apply<R>(
    t: Entries,
    h: Handle,
    f: spec_fn(TcpSocket) -> (TcpSocket, Result<R, ErrorCode>),
) -> (Entries, Result<R, SocketError>) {
    match socket_at(t, h) {
        Err(e) => (t, Err(SocketError::Trap(e))),
        Ok(s) => (with_socket(t, h, f(s).0), lift(f(s).1)),
    }
}

/// How registering the two streams of the socket `this` ends, from a table
/// `t0` with room for `room` entries: with both streams as children of the
/// socket; or, where there is room for one entry only, with the input
/// stream registered and a trap; or, where there is none, with a trap and
/// no change.
pub open spec fn streams_registered(
    t0: Entries,
    room: nat,
    t1: Entries,
    this: Handle,
    r: Result<(Handle, Handle), SocketError>,
) -> bool {
    match r {
        Ok((input, output)) => {
            &&& room >= 2
            &&& !t0.contains_key(input)
            &&& !t0.contains_key(output)
            &&& input != output
            &&& t1 == with_child(
                with_child(t0, this, input, Resource::InputStream),
                this,
                output,
                Resource::OutputStream,
            )
        },
        Err(e) => {
            &&& e == SocketError::Trap(ResourceTableError::Full)
            &&& room < 2
            &&& if room == 0 {
                t1 == t0
            } else {
                exists|input: Handle|
                    !t0.contains_key(input) && t1 == #[trigger] with_child(
                        t0,
                        this,
                        input,
                        Resource::InputStream,
                    )
            }
        },
    }
}

/// The room in the table after the two streams of a socket were to be
/// registered: two entries less where both were; none where the table ran
/// full; else as before.
pub open spec fn room_after_streams(room: nat, registered: bool, ran_full: bool) -> nat {
    if registered {
        (room - 2) as nat
    } else if ran_full {
        0
    } else {
        room
    }
}

/// The room in the table after the entry `h` was to be removed: one entry
/// more where it was, unless the slot has no generation left to be used
/// again under.
pub open spec fn room_after_removal(room: nat, removed: bool, h: Handle) -> nat {
    if removed && h.generation < u32::MAX {
        room + 1
    } else {
        room
    }
}

/// How a completed accept on the listener `this` ends, from a table `t0`
/// with room for `room` entries.
pub open spec fn accept_outcome(
    t0: Entries,
    room: nat,
    t1: Entries,
    this: Handle,
    os: Result<(), OsError>,
    r: Result<Accepted, SocketError>,
) -> bool {
    match socket_at(t0, this) {
        Err(e) => r matches Err(x) && x == SocketError::Trap(e) && t1 == t0,
        Ok(listener) => match accept_completed_result(listener, os) {
            Err(c) => r matches Err(x) && x == SocketError::Code(c) && t1 == t0,
            Ok((socket, options)) => if room == 0 {
                r matches Err(x) && x == SocketError::Trap(ResourceTableError::Full) && t1 == t0
            } else {
                match r {
                    Ok(a) => {
                        &&& !t0.contains_key(a.socket)
                        &&& a.options@ == options
                        &&& streams_registered(
                            t0.insert(a.socket, root_entry(Resource::TcpSocket(socket))),
                            (room - 1) as nat,
                            t1,
                            a.socket,
                            Ok((a.input, a.output)),
                        )
                    },
                    Err(x) => exists|h: Handle|
                        !t0.contains_key(h) && #[trigger] streams_registered(
                            t0.insert(h, root_entry(Resource::TcpSocket(socket))),
                            (room - 1) as nat,
                            t1,
                            h,
                            Err(x),
                        ),
                }
            },
        },
    }
}

/// A change of the socket behind a handle leaves every network as it is.
pub proof fn law_socket_change_keeps_networks<R>(
    t: Entries,
    h: Handle,
    f: spec_fn(TcpSocket) -> (TcpSocket, Result<R, ErrorCode>),
    network: Handle,
)
    ensures
        network_at(apply(t, h, f).0, network) == network_at(t, network),
{
}

/// A new child entry leaves every registered network as it is, and so does
/// the removal of an entry that is no network.
pub proof fn law_entries_keep_networks(
    t: Entries,
    parent: Handle,
    child: Handle,
    value: Resource,
    network: Handle,
)
    requires
        network_at(t, network) is Ok,
    ensures
        !t.contains_key(child) ==> network_at(with_child(t, parent, child, value), network)
            == network_at(t, network),
        child != network ==> network_at(without(t, child), network) == network_at(t, network),
{
}

/// While a socket has a registered child, it cannot be dropped: the entry
/// of a socket under which `child` was registered has children, until the
/// child is removed again.
pub proof fn law_registered_child_blocks_drop(
    t: Entries,
    this: Handle,
    child: Handle,
    value: Resource,
)
    requires
        t.contains_key(this),
        !t.contains_key(child),
        t[this].children == Set::<Handle>::empty(),
    ensures
        with_child(t, this, child, value)[this].children != Set::<Handle>::empty(),
        socket_at(with_child(t, this, child, value), this) == socket_at(t, this),
        without(with_child(t, this, child, value), child)[this].children == Set::<
            Handle,
        >::empty(),
{
    let t1 = with_child(t, this, child, value);
    assert(t1[this].children.contains(child));
    assert(without(t1, child)[this].children =~= Set::<Handle>::empty());
}

/// The host side of the call surface: the table of resources.
pub struct Host {
    pub table: ResourceTable<Resource>,
}

fn lift_result<R>(r: Result<R, ErrorCode>) -> (l: Result<R, SocketError>)
    ensures
        l == lift(r),
{
    match r {
        Ok(v) => Ok(v),
        Err(c) => Err(SocketError::Code(c)),
    }
}

impl Host {
    pub open spec fn wf(&self) -> bool {
        self.table.wf()
    }

    /// A host with an empty table.
    pub fn new() -> (h: Host)
        ensures
            h.wf(),
            h.table@ == Map::<Handle, EntryView<Resource>>::empty(),
            h.table.retired() == Set::<Handle>::empty(),
            h.table.vacancies() == u32::MAX,
    {
        Host { table: ResourceTable::new() }
    }

    /// A host with an empty table that has room for `limit` entries at a
    /// time.
    pub fn with_limit(limit: u32) -> (h: Host)
        ensures
            h.wf(),
            h.table@ == Map::<Handle, EntryView<Resource>>::empty(),
            h.table.retired() == Set::<Handle>::empty(),
            h.table.vacancies() == limit,
    {
        Host { table: ResourceTable::with_limit(limit) }
    }

    /// Registers a network capability.
    pub fn push_network(&mut self, network: Network) -> (r: Result<Handle, SocketError>)
        requires
            old(self).wf(),
        ensures
            final(self).wf(),
            final(self).table.retired() == old(self).table.retired(),
            match r {
                Ok(h) => {
                    &&& !old(self).table.is_full()
                    &&& !old(self).table@.contains_key(h)
                    &&& !old(self).table.retired().contains(h)
                    &&& final(self).table@ == old(self).table@.insert(
                        h,
                        root_entry(Resource::Network(network)),
                    )
                    &&& final(self).table.vacancies() == old(self).table.vacancies() - 1
                },
                Err(e) => {
                    &&& old(self).table.is_full()
                    &&& e == SocketError::Trap(ResourceTableError::Full)
                    &&& final(self).table@ == old(self).table@
                    &&& final(self).table.vacancies() == old(self).table.vacancies()
                },
            },
    {
        match self.table.push(Resource::Network(network)) {
            Ok(h) => Ok(h),
            Err(e) => Err(SocketError::Trap(e)),
        }
    }

    /// Registers a fresh socket of the given family, in phase `Default`.
    pub fn push_socket(&mut self, family: SocketAddressFamily, shadow_options: bool) -> (r:
        Result<Handle, SocketError>)
        requires
            old(self).wf(),
        ensures
            final(self).wf(),
            final(self).table.retired() == old(self).table.retired(),
            match r {
                Ok(h) => {
                    &&& !old(self).table.is_full()
                    &&& !old(self).table@.contains_key(h)
                    &&& !old(self).table.retired().contains(h)
                    &&& final(self).table@ == old(self).table@.insert(
                        h,
                        root_entry(Resource::TcpSocket(fresh_socket(family, shadow_options))),
                    )
                    &&& final(self).table.vacancies() == old(self).table.vacancies() - 1
                },
                Err(e) => {
                    &&& old(self).table.is_full()
                    &&& e == SocketError::Trap(ResourceTableError::Full)
                    &&& final(self).table@ == old(self).table@
                    &&& final(self).table.vacancies() == old(self).table.vacancies()
                },
            },
    {
        let socket = TcpSocket::new(family, shadow_options);
        match self.table.push(Resource::TcpSocket(socket)) {
            Ok(h) => Ok(h),
            Err(e) => Err(SocketError::Trap(e)),
        }
    }

    /// The socket behind a handle, as it stands.
    pub fn socket(&self, this: Handle) -> (r: Result<TcpSocket, SocketError>)
        ensures
            r == match socket_at(self.table@, this) {
                Ok(s) => Ok::<TcpSocket, SocketError>(s),
                Err(e) => Err(SocketError::Trap(e)),
            },
    {
        match self.table.get(this) {
            Ok(Resource::TcpSocket(s)) => Ok(*s),
            Ok(_) => Err(SocketError::Trap(ResourceTableError::WrongType)),
            Err(e) => Err(SocketError::Trap(e)),
        }
    }

    fn network(&self, network: Handle) -> (r: Result<&Network, SocketError>)
        ensures
            match r {
                Ok(n) => network_at(self.table@, network) == Ok::<Network, ResourceTableError>(*n),
                Err(x) => network_at(self.table@, network) matches Err(e) && x
                    == SocketError::Trap(e),
            },
    {
        match self.table.get(network) {
            Ok(Resource::Network(n)) => Ok(n),
            Ok(_) => Err(SocketError::Trap(ResourceTableError::WrongType)),
            Err(e) => Err(SocketError::Trap(e)),
        }
    }

    fn socket_mut(&mut self, this: Handle) -> (r: Result<&mut TcpSocket, SocketError>)
        requires
            old(self).wf(),
        ensures
            match r {
                Ok(s) => {
                    &&& socket_at(old(self).table@, this) == Ok::<TcpSocket, ResourceTableError>(
                        *s,
                    )
                    &&& final(self).table@ == with_socket(old(self).table@, this, *final(s))
                    &&& final(self).wf()
                    &&& final(self).table.retired() == old(self).table.retired()
                    &&& final(self).table.vacancies() == old(self).table.vacancies()
                },
                Err(x) => {
                    &&& socket_at(old(self).table@, this) matches Err(e) && x
                        == SocketError::Trap(e)
                    &&& *final(self) == *old(self)
                },
            },
    {
        match self.table.get(this) {
            Ok(Resource::TcpSocket(_)) => {},
            Ok(_) => return Err(SocketError::Trap(ResourceTableError::WrongType)),
            Err(e) => return Err(SocketError::Trap(e)),
        }
        match self.table.get_mut(this) {
            Ok(Resource::TcpSocket(s)) => Ok(s),
            _ => Err(SocketError::Trap(ResourceTableError::WrongType)),
        }
    }

    /// Registers the two streams of a connected socket as its children.
    fn split(&mut self, this: Handle) -> (r: Result<(Handle, Handle), SocketError>)
        requires
            old(self).wf(),
            old(self).table@.contains_key(this),
        ensures
            final(self).wf(),
            final(self).table.retired() == old(self).table.retired(),
            streams_registered(
                old(self).table@,
                old(self).table.vacancies(),
                final(self).table@,
                this,
                r,
            ),
            r matches Ok((input, output)) ==> !old(self).table.retired().contains(input)
                && !old(self).table.retired().contains(output),
            final(self).table.vacancies() == if r is Ok {
                (old(self).table.vacancies() - 2) as nat
            } else {
                0
            },
    {
        let input = match self.table.push_child(Resource::InputStream, this) {
            Ok(h) => h,
            Err(e) => return Err(SocketError::Trap(e)),
        };
        let ghost mid = self.table@;
        assert(mid == with_child(old(self).table@, this, input, Resource::InputStream));
        let output = match self.table.push_child(Resource::OutputStream, this) {
            Ok(h) => h,
            Err(e) => return Err(SocketError::Trap(e)),
        };
        Ok((input, output))
    }

    /// First half of a bind. See `TcpSocket::start_bind`.
    pub fn start_bind(&self, this: Handle, network: Handle, local_address: IpSocketAddress) -> (r:
        Result<TcpBinder, SocketError>)
        ensures
            match r {
                Ok(binder) => start_bind_outcome(self.table@, this, network, local_address)
                    is Ok && binder.spec_address() == local_address,
                Err(e) => start_bind_outcome(self.table@, this, network, local_address) == Err::<
                    (),
                    SocketError,
                >(e),
            },
    {
        let socket = self.socket(this)?;
        let network = self.network(network)?;
        lift_result(socket.start_bind(network, &local_address))
    }

    /// Second half of a bind. See `TcpSocket::bind_completed`.
    pub fn bind_completed(&mut self, this: Handle, os: Result<(), OsError>) -> (r: Result<
        (),
        SocketError,
    >)
        requires
            old(self).wf(),
        ensures
            final(self).wf(),
            final(self).table.retired() == old(self).table.retired(),
            final(self).table.vacancies() == old(self).table.vacancies(),
            (final(self).table@, r) == apply(
                old(self).table@,
                this,
                |s: TcpSocket| bind_completed_step(s, os),
            ),
    {
        let socket = match self.socket_mut(this) {
            Ok(s) => s,
            Err(e) => return Err(e),
        };
        lift_result(socket.bind_completed(os))
    }

    /// Completes a bind. See `TcpSocket::finish_bind`.
    pub fn finish_bind(&mut self, this: Handle) -> (r: Result<(), SocketError>)
        requires
            old(self).wf(),
        ensures
            final(self).wf(),
            final(self).table.retired() == old(self).table.retired(),
            final(self).table.vacancies() == old(self).table.vacancies(),
            (final(self).table@, r) == apply(
                old(self).table@,
                this,
                |s: TcpSocket| finish_bind_step(s),
            ),
    {
        let socket = match self.socket_mut(this) {
            Ok(s) => s,
            Err(e) => return Err(e),
        };
        lift_result(socket.finish_bind())
    }

    /// First half of a connect. See `TcpSocket::start_connect`.
    pub fn start_connect(&self, this: Handle, network: Handle, remote_address: IpSocketAddress)
        -> (r: Result<TcpConnecter, SocketError>)
        ensures
            match r {
                Ok(connecter) => start_connect_outcome(self.table@, this, network, remote_address)
                    is Ok && connecter.spec_address() == remote_address,
                Err(e) => start_connect_outcome(self.table@, this, network, remote_address)
                    == Err::<(), SocketError>(e),
            },
    {
        let socket = self.socket(this)?;
        let network = self.network(network)?;
        lift_result(socket.start_connect(network, &remote_address))
    }

    /// Second half of a connect. See `TcpSocket::connect_completed`.
    pub fn connect_completed(&mut self, this: Handle, os: Result<(), OsError>) -> (r: Result<
        (),
        SocketError,
    >)
        requires
            old(self).wf(),
        ensures
            final(self).wf(),
            final(self).table.retired() == old(self).table.retired(),
            final(self).table.vacancies() == old(self).table.vacancies(),
            (final(self).table@, r) == apply(
                old(self).table@,
                this,
                |s: TcpSocket| connect_completed_step(s, os),
            ),
    {
        let socket = match self.socket_mut(this) {
            Ok(s) => s,
            Err(e) => return Err(e),
        };
        lift_result(socket.connect_completed(os))
    }

    /// Completes a connect as far as it can without the OS. A socket whose
    /// connect the OS completed at once becomes `Connected` and its two
    /// streams are registered as its children. A socket that is still
    /// connecting stays as it is, and the host is asked to poll it.
    pub fn finish_connect(&mut self, this: Handle) -> (r: Result<FinishConnect, SocketError>)
        requires
            old(self).wf(),
        ensures
            final(self).wf(),
            final(self).table.retired() == old(self).table.retired(),
            final(self).table.vacancies() == room_after_streams(
                old(self).table.vacancies(),
                r is Ok && r.unwrap() is Established,
                r == Err::<FinishConnect, SocketError>(
                    SocketError::Trap(ResourceTableError::Full),
                ),
            ),
            match socket_at(old(self).table@, this) {
                Err(e) => r == Err::<FinishConnect, SocketError>(SocketError::Trap(e)) && final(self).table@ == old(self).table@,
                Ok(s) => match finish_connect_step(s).1 {
                    Err(c) => r == Err::<FinishConnect, SocketError>(SocketError::Code(c))
                        && final(self).table@ == with_socket(old(self).table@, this, s),
                    Ok(ConnectStep::Poll) => r == Ok::<FinishConnect, SocketError>(
                        FinishConnect::Poll,
                    ) && final(self).table@ == with_socket(old(self).table@, this, s),
                    Ok(ConnectStep::Established) => match r {
                        Ok(FinishConnect::Established { input, output }) => streams_registered(
                            with_socket(old(self).table@, this, finish_connect_step(s).0),
                            old(self).table.vacancies(),
                            final(self).table@,
                            this,
                            Ok((input, output)),
                        ),
                        Ok(FinishConnect::Poll) => false,
                        Err(e) => streams_registered(
                            with_socket(old(self).table@, this, finish_connect_step(s).0),
                            old(self).table.vacancies(),
                            final(self).table@,
                            this,
                            Err(e),
                        ),
                    },
                },
            },
    {
        let socket = match self.socket_mut(this) {
            Ok(s) => s,
            Err(e) => return Err(e),
        };
        let step = socket.finish_connect();
        match step {
            Err(c) => Err(SocketError::Code(c)),
            Ok(ConnectStep::Poll) => Ok(FinishConnect::Poll),
            Ok(ConnectStep::Established) => match self.split(this) {
                Ok((input, output)) => Ok(FinishConnect::Established { input, output }),
                Err(e) => Err(e),
            },
        }
    }

    /// Takes the readiness check of a connecting socket. Not ready: the
    /// call fails with `WouldBlock` and nothing changes. Ready without a
    /// pending error: the socket is `Connected` and its two streams are
    /// registered as its children. Ready with a pending error: the socket
    /// is `ConnectFailed` and the error is reported. Where the check
    /// itself failed, its error is reported, the socket is still
    /// `Connecting` and nothing is registered.
    pub fn connect_polled(&mut self, this: Handle, poll: ConnectPoll) -> (r: Result<
        (Handle, Handle),
        SocketError,
    >)
        requires
            old(self).wf(),
        ensures
            final(self).wf(),
            final(self).table.retired() == old(self).table.retired(),
            final(self).table.vacancies() == room_after_streams(
                old(self).table.vacancies(),
                r is Ok,
                r == Err::<(Handle, Handle), SocketError>(
                    SocketError::Trap(ResourceTableError::Full),
                ),
            ),
            match socket_at(old(self).table@, this) {
                Err(e) => r == Err::<(Handle, Handle), SocketError>(SocketError::Trap(e))
                    && final(self).table@ == old(self).table@,
                Ok(s) => match connect_polled_step(s, poll).1 {
                    Err(c) => r == Err::<(Handle, Handle), SocketError>(SocketError::Code(c))
                        && final(self).table@ == with_socket(
                        old(self).table@,
                        this,
                        connect_polled_step(s, poll).0,
                    ),
                    Ok(()) => streams_registered(
                        with_socket(old(self).table@, this, connect_polled_step(s, poll).0),
                        old(self).table.vacancies(),
                        final(self).table@,
                        this,
                        r,
                    ),
                },
            },
    {
        let socket = match self.socket_mut(this) {
            Ok(s) => s,
            Err(e) => return Err(e),
        };
        let step = socket.connect_polled(poll);
        match step {
            Err(c) => Err(SocketError::Code(c)),
            Ok(()) => self.split(this),
        }
    }

    /// First half of a listen. See `TcpSocket::start_listen`.
    pub fn start_listen(&self, this: Handle) -> (r: Result<Option<i32>, SocketError>)
        ensures
            r == query(self.table@, this, |s: TcpSocket| start_listen_result(s)),
    {
        let socket = self.socket(this)?;
        lift_result(socket.start_listen())
    }

    /// Second half of a listen. See `TcpSocket::listen_completed`.
    pub fn listen_completed(&mut self, this: Handle, os: Result<(), OsError>) -> (r: Result<
        (),
        SocketError,
    >)
        requires
            old(self).wf(),
        ensures
            final(self).wf(),
            final(self).table.retired() == old(self).table.retired(),
            final(self).table.vacancies() == old(self).table.vacancies(),
            (final(self).table@, r) == apply(
                old(self).table@,
                this,
                |s: TcpSocket| listen_completed_step(s, os),
            ),
    {
        let socket = match self.socket_mut(this) {
            Ok(s) => s,
            Err(e) => return Err(e),
        };
        lift_result(socket.listen_completed(os))
    }

    /// Completes a listen. See `TcpSocket::finish_listen`.
    pub fn finish_listen(&mut self, this: Handle) -> (r: Result<(), SocketError>)
        requires
            old(self).wf(),
        ensures
            final(self).wf(),
            final(self).table.retired() == old(self).table.retired(),
            final(self).table.vacancies() == old(self).table.vacancies(),
            (final(self).table@, r) == apply(
                old(self).table@,
                this,
                |s: TcpSocket| finish_listen_step(s),
            ),
    {
        let socket = match self.socket_mut(this) {
            Ok(s) => s,
            Err(e) => return Err(e),
        };
        lift_result(socket.finish_listen())
    }

    /// First half of an accept. See `TcpSocket::accept`.
    pub fn accept(&self, this: Handle) -> (r: Result<(), SocketError>)
        ensures
            r == query(self.table@, this, |s: TcpSocket| accept_result(s)),
    {
        let socket = self.socket(this)?;
        lift_result(socket.accept())
    }

    /// Second half of an accept: takes the result of the non-blocking OS
    /// accept. On success the new socket becomes a root entry, `Connected`
    /// from the start, with its two streams as children. The listener does
    /// not change.
    pub fn accept_completed(&mut self, this: Handle, os: Result<(), OsError>) -> (r: Result<
        Accepted,
        SocketError,
    >)
        requires
            old(self).wf(),
        ensures
            final(self).wf(),
            final(self).table.retired() == old(self).table.retired(),
            final(self).table.vacancies() == if r is Ok {
                (old(self).table.vacancies() - 3) as nat
            } else if r matches Err(SocketError::Trap(ResourceTableError::Full)) {
                0
            } else {
                old(self).table.vacancies()
            },
            accept_outcome(
                old(self).table@,
                old(self).table.vacancies(),
                final(self).table@,
                this,
                os,
                r,
            ),
    {
        let listener = self.socket(this)?;
        let (socket, options) = match listener.accept_completed(os) {
            Ok(p) => p,
            Err(c) => return Err(SocketError::Code(c)),
        };
        let accepted = match self.table.push(Resource::TcpSocket(socket)) {
            Ok(h) => h,
            Err(e) => return Err(SocketError::Trap(e)),
        };
        let ghost t1 = self.table@;
        assert(t1 == old(self).table@.insert(accepted, root_entry(Resource::TcpSocket(socket))));
        match self.split(accepted) {
            Ok((input, output)) => Ok(Accepted { socket: accepted, input, output, options }),
            Err(e) => {
                assert(streams_registered(
                    old(self).table@.insert(accepted, root_entry(Resource::TcpSocket(socket))),
                    (old(self).table.vacancies() - 1) as nat,
                    self.table@,
                    accepted,
                    Err(e),
                ));
                Err(e)
            },
        }
    }

    /// Whether the local address may be read. See
    /// `TcpSocket::local_address`.
    pub fn local_address(&self, this: Handle) -> (r: Result<(), SocketError>)
        ensures
            r == query(self.table@, this, |s: TcpSocket| local_address_result(s)),
    {
        let socket = self.socket(this)?;
        lift_result(socket.local_address())
    }

    /// Whether the remote address may be read. See
    /// `TcpSocket::remote_address`.
    pub fn remote_address(&self, this: Handle) -> (r: Result<(), SocketError>)
        ensures
            r == query(self.table@, this, |s: TcpSocket| remote_address_result(s)),
    {
        let socket = self.socket(this)?;
        lift_result(socket.remote_address())
    }

    pub fn is_listening(&self, this: Handle) -> (r: Result<bool, SocketError>)
        ensures
            r == query(
                self.table@,
                this,
                |s: TcpSocket| Ok::<bool, ErrorCode>(s.tcp_state == TcpState::Listening),
            ),
    {
        let socket = self.socket(this)?;
        Ok(socket.is_listening())
    }

    pub fn address_family(&self, this: Handle) -> (r: Result<IpAddressFamily, SocketError>)
        ensures
            r == query(
                self.table@,
                this,
                |s: TcpSocket|
                    Ok::<IpAddressFamily, ErrorCode>(
                        match s.family {
                            SocketAddressFamily::Ipv4 => IpAddressFamily::Ipv4,
                            SocketAddressFamily::Ipv6 { .. } => IpAddressFamily::Ipv6,
                        },
                    ),
            ),
    {
        let socket = self.socket(this)?;
        Ok(socket.address_family())
    }

    /// The dual-stack switch as the socket records it.
    pub fn ipv6_only(&self, this: Handle) -> (r: Result<bool, SocketError>)
        ensures
            r == query(self.table@, this, |s: TcpSocket| ipv6_only_result(s)),
    {
        let socket = self.socket(this)?;
        lift_result(socket.ipv6_only())
    }

    /// First half of setting the dual-stack switch. See
    /// `TcpSocket::set_ipv6_only`.
    pub fn set_ipv6_only(&self, this: Handle) -> (r: Result<(), SocketError>)
        ensures
            r == query(self.table@, this, |s: TcpSocket| set_ipv6_only_result(s)),
    {
        let socket = self.socket(this)?;
        lift_result(socket.set_ipv6_only())
    }

    /// Second half of setting the dual-stack switch. See
    /// `TcpSocket::ipv6_only_completed`.
    pub fn ipv6_only_completed(&mut self, this: Handle, value: bool, os: Result<(), OsError>) -> (r:
        Result<(), SocketError>)
        requires
            old(self).wf(),
        ensures
            final(self).wf(),
            final(self).table.retired() == old(self).table.retired(),
            final(self).table.vacancies() == old(self).table.vacancies(),
            (final(self).table@, r) == apply(
                old(self).table@,
                this,
                |s: TcpSocket| ipv6_only_completed_step(s, value, os),
            ),
    {
        let socket = match self.socket_mut(this) {
            Ok(s) => s,
            Err(e) => return Err(e),
        };
        lift_result(socket.ipv6_only_completed(value, os))
    }

    /// Sets the backlog. See `TcpSocket::set_listen_backlog_size`.
    pub fn set_listen_backlog_size(&mut self, this: Handle, value: u64) -> (r: Result<
        BacklogUpdate,
        SocketError,
    >)
        requires
            old(self).wf(),
        ensures
            final(self).wf(),
            final(self).table.retired() == old(self).table.retired(),
            final(self).table.vacancies() == old(self).table.vacancies(),
            (final(self).table@, r) == apply(
                old(self).table@,
                this,
                |s: TcpSocket| set_listen_backlog_size_step(s, value),
            ),
    {
        let socket = match self.socket_mut(this) {
            Ok(s) => s,
            Err(e) => return Err(e),
        };
        lift_result(socket.set_listen_backlog_size(value))
    }

    /// Takes the result of the OS listen that updates the backlog. See
    /// `TcpSocket::listen_backlog_updated`.
    pub fn listen_backlog_updated(&mut self, this: Handle, value: u64, os: Result<(), OsError>)
        -> (r: Result<(), SocketError>)
        requires
            old(self).wf(),
        ensures
            final(self).wf(),
            final(self).table.retired() == old(self).table.retired(),
            final(self).table.vacancies() == old(self).table.vacancies(),
            (final(self).table@, r) == apply(
                old(self).table@,
                this,
                |s: TcpSocket| listen_backlog_updated_step(s, value, os),
            ),
    {
        let socket = match self.socket_mut(this) {
            Ok(s) => s,
            Err(e) => return Err(e),
        };
        lift_result(socket.listen_backlog_updated(value, os))
    }

    /// The OS option that holds the socket's hop limit.
    pub fn hop_limit_option(&self, this: Handle) -> (r: Result<HopLimitOption, SocketError>)
        ensures
            r == query(
                self.table@,
                this,
                |s: TcpSocket|
                    Ok::<HopLimitOption, ErrorCode>(
                        match s.family {
                            SocketAddressFamily::Ipv4 => HopLimitOption::Ipv4Ttl,
                            SocketAddressFamily::Ipv6 { .. } => HopLimitOption::Ipv6UnicastHops,
                        },
                    ),
            ),
    {
        let socket = self.socket(this)?;
        Ok(socket.hop_limit_option())
    }

    /// Takes the result of setting the hop limit in the OS. See
    /// `TcpSocket::hop_limit_set`.
    pub fn hop_limit_set(&mut self, this: Handle, value: u8, os: Result<(), OsError>) -> (r:
        Result<(), SocketError>)
        requires
            old(self).wf(),
        ensures
            final(self).wf(),
            final(self).table.retired() == old(self).table.retired(),
            final(self).table.vacancies() == old(self).table.vacancies(),
            (final(self).table@, r) == apply(
                old(self).table@,
                this,
                |s: TcpSocket|
                    option_set_step(
                        s,
                        os,
                        |o: ShadowOptions| ShadowOptions { hop_limit: Some(value), ..o },
                    ),
            ),
    {
        let socket = match self.socket_mut(this) {
            Ok(s) => s,
            Err(e) => return Err(e),
        };
        lift_result(socket.hop_limit_set(value, os))
    }

    /// Takes the result of setting the keep-alive idle time, in
    /// nanoseconds, in the OS. See `TcpSocket::keep_alive_idle_time_set`.
    pub fn keep_alive_idle_time_set(&mut self, this: Handle, value: u64, os: Result<(), OsError>)
        -> (r: Result<(), SocketError>)
        requires
            old(self).wf(),
        ensures
            final(self).wf(),
            final(self).table.retired() == old(self).table.retired(),
            final(self).table.vacancies() == old(self).table.vacancies(),
            (final(self).table@, r) == apply(
                old(self).table@,
                this,
                |s: TcpSocket|
                    option_set_step(
                        s,
                        os,
                        |o: ShadowOptions| ShadowOptions { keep_alive_idle_time: Some(value), ..o },
                    ),
            ),
    {
        let socket = match self.socket_mut(this) {
            Ok(s) => s,
            Err(e) => return Err(e),
        };
        lift_result(socket.keep_alive_idle_time_set(value, os))
    }

    /// Takes the result of setting the receive buffer size in the OS. See
    /// `TcpSocket::receive_buffer_size_set`.
    pub fn receive_buffer_size_set(&mut self, this: Handle, value: u64, os: Result<(), OsError>)
        -> (r: Result<(), SocketError>)
        requires
            old(self).wf(),
        ensures
            final(self).wf(),
            final(self).table.retired() == old(self).table.retired(),
            final(self).table.vacancies() == old(self).table.vacancies(),
            (final(self).table@, r) == apply(
                old(self).table@,
                this,
                |s: TcpSocket|
                    option_set_step(
                        s,
                        os,
                        |o: ShadowOptions|
                            ShadowOptions {
                                receive_buffer_size: Some(saturate_size(value)),
                                ..o
                            },
                    ),
            ),
    {
        let socket = match self.socket_mut(this) {
            Ok(s) => s,
            Err(e) => return Err(e),
        };
        lift_result(socket.receive_buffer_size_set(value, os))
    }

    /// Takes the result of setting the send buffer size in the OS. See
    /// `TcpSocket::send_buffer_size_set`.
    pub fn send_buffer_size_set(&mut self, this: Handle, value: u64, os: Result<(), OsError>) -> (r:
        Result<(), SocketError>)
        requires
            old(self).wf(),
        ensures
            final(self).wf(),
            final(self).table.retired() == old(self).table.retired(),
            final(self).table.vacancies() == old(self).table.vacancies(),
            (final(self).table@, r) == apply(
                old(self).table@,
                this,
                |s: TcpSocket|
                    option_set_step(
                        s,
                        os,
                        |o: ShadowOptions|
                            ShadowOptions { send_buffer_size: Some(saturate_size(value)), ..o },
                    ),
            ),
    {
        let socket = match self.socket_mut(this) {
            Ok(s) => s,
            Err(e) => return Err(e),
        };
        lift_result(socket.send_buffer_size_set(value, os))
    }

    /// Registers the socket with the readiness subsystem: a new entry
    /// under the socket, which keeps the socket from being dropped while
    /// the registration is live.
    pub fn subscribe(&mut self, this: Handle) -> (r: Result<Handle, SocketError>)
        requires
            old(self).wf(),
        ensures
            final(self).wf(),
            final(self).table.retired() == old(self).table.retired(),
            final(self).table.vacancies() == if r is Ok {
                (old(self).table.vacancies() - 1) as nat
            } else {
                old(self).table.vacancies()
            },
            match r {
                Ok(p) => {
                    &&& socket_at(old(self).table@, this) is Ok
                    &&& !old(self).table.is_full()
                    &&& !old(self).table@.contains_key(p)
                    &&& !old(self).table.retired().contains(p)
                    &&& final(self).table@ == with_child(
                        old(self).table@,
                        this,
                        p,
                        Resource::Pollable,
                    )
                },
                Err(x) => {
                    &&& final(self).table@ == old(self).table@
                    &&& x == match socket_at(old(self).table@, this) {
                        Err(e) => SocketError::Trap(e),
                        Ok(_) => SocketError::Trap(ResourceTableError::Full),
                    }
                    &&& socket_at(old(self).table@, this) is Err || old(self).table.is_full()
                },
            },
    {
        if let Err(e) = self.socket(this) {
            return Err(e);
        }
        match self.table.push_child(Resource::Pollable, this) {
            Ok(p) => Ok(p),
            Err(e) => Err(SocketError::Trap(e)),
        }
    }

    /// Whether the connection may be shut down, and in which OS direction.
    /// See `TcpSocket::shutdown`.
    pub fn shutdown(&self, this: Handle, shutdown_type: ShutdownType) -> (r: Result<
        OsShutdown,
        SocketError,
    >)
        ensures
            r == query(self.table@, this, |s: TcpSocket| shutdown_result(s, shutdown_type)),
    {
        let socket = self.socket(this)?;
        lift_result(socket.shutdown(shutdown_type))
    }

    /// Removes a socket from the table and hands it back; the host then
    /// closes its descriptor. Refused with `HasChildren`, changing
    /// nothing, while a stream or another child of the socket is still
    /// registered. The handle is retired.
    pub fn drop(&mut self, this: Handle) -> (r: Result<TcpSocket, SocketError>)
        requires
            old(self).wf(),
        ensures
            final(self).wf(),
            final(self).table.vacancies() == room_after_removal(
                old(self).table.vacancies(),
                r is Ok,
                this,
            ),
            match socket_at(old(self).table@, this) {
                Err(e) => r == Err::<TcpSocket, SocketError>(SocketError::Trap(e)) && final(self).table@ == old(self).table@ && final(self).table.retired() == old(self).table.retired(),
                Ok(s) => if old(self).table@[this].children != Set::<Handle>::empty() {
                    r == Err::<TcpSocket, SocketError>(
                        SocketError::Trap(ResourceTableError::HasChildren),
                    ) && final(self).table@ == old(self).table@ && final(self).table.retired()
                        == old(self).table.retired()
                } else {
                    r == Ok::<TcpSocket, SocketError>(s) && final(self).table@ == without(
                        old(self).table@,
                        this,
                    ) && final(self).table.retired() == old(self).table.retired().insert(this)
                },
            },
    {
        if let Err(e) = self.socket(this) {
            return Err(e);
        }
        match self.table.delete(this) {
            Ok(Resource::TcpSocket(s)) => Ok(s),
            Ok(_) => Err(SocketError::Trap(ResourceTableError::WrongType)),
            Err(e) => Err(SocketError::Trap(e)),
        }
    }

    /// Removes a stream or a readiness registration from the table.
    /// Refused with `WrongType` for a socket or a network, and with
    /// `HasChildren` while the entry has children; a refusal changes
    /// nothing. The handle is retired.
    pub fn drop_child(&mut self, this: Handle) -> (r: Result<(), SocketError>)
        requires
            old(self).wf(),
        ensures
            final(self).wf(),
            final(self).table.vacancies() == room_after_removal(
                old(self).table.vacancies(),
                r is Ok,
                this,
            ),
            r == if !old(self).table@.contains_key(this) {
                Err::<(), SocketError>(SocketError::Trap(ResourceTableError::NotPresent))
            } else if old(self).table@[this].value is TcpSocket || old(self).table@[this].value
                is Network {
                Err(SocketError::Trap(ResourceTableError::WrongType))
            } else if old(self).table@[this].children != Set::<Handle>::empty() {
                Err(SocketError::Trap(ResourceTableError::HasChildren))
            } else {
                Ok(())
            },
            final(self).table@ == if r is Ok {
                without(old(self).table@, this)
            } else {
                old(self).table@
            },
            final(self).table.retired() == if r is Ok {
                old(self).table.retired().insert(this)
            } else {
                old(self).table.retired()
            },
    {
        match self.table.get(this) {
            Ok(Resource::TcpSocket(_)) | Ok(Resource::Network(_)) => {
                return Err(SocketError::Trap(ResourceTableError::WrongType))
            },
            Ok(_) => {},
            Err(e) => return Err(SocketError::Trap(e)),
        }
        match self.table.delete(this) {
            Ok(_) => Ok(()),
            Err(e) => Err(SocketError::Trap(e)),
        }
    }
}

} // verus!
