//! The TCP socket resource and its phase machine.
//!
//! Every operation that needs the operating system is split in two. The
//! first half looks at the socket's phase and at its arguments and says
//! whether the system call may be made. The second half takes what the
//! system call returned and moves the phase. Neither half blocks, and
//! neither makes the call itself.

use crate::address::{IpAddressFamily, IpSocketAddress, SocketAddressFamily};
use crate::error::{os_error_code, ErrorCode, OsError};
use crate::network::{bind_check, connect_check, Network, TcpBinder, TcpConnecter};
use cap_std::net::Pool;
use vstd::prelude::*;

verus! {

/// The position of a socket in its lifecycle.
#[derive(Clone, Copy, Debug, PartialEq, Eq, Structural)]
pub enum TcpState {
    /// The initial state of a freshly created socket.
    Default,
    /// The OS bind has been made; `finish_bind` is owed.
    BindStarted,
    /// Bound to a local address.
    Bound,
    /// The OS listen has been made; `finish_listen` is owed.
    ListenStarted,
    /// Accepting connections.
    Listening,
    /// A non-blocking connect is under way in the OS.
    Connecting,
    /// The OS completed the connect at once; `finish_connect` is owed.
    ConnectReady,
    /// Connected to a peer.
    Connected,
    /// A connect failed. The socket can only be dropped.
    ConnectFailed,
}

/// Copies of option values kept beside a socket, for platforms that do not
/// hand a listener's options on to the sockets it accepts.
#[derive(Clone, Copy, Debug, PartialEq, Eq)]
pub struct ShadowOptions {
    pub receive_buffer_size: Option<usize>,
    pub send_buffer_size: Option<usize>,
    pub hop_limit: Option<u8>,
    /// In nanoseconds.
    pub keep_alive_idle_time: Option<u64>,
}

/// A TCP socket as the runtime tracks it. The OS descriptor itself stays
/// with the host that makes the system calls.
#[derive(Clone, Copy, Debug, PartialEq, Eq)]
pub struct TcpSocket {
    pub tcp_state: TcpState,
    pub family: SocketAddressFamily,
    /// The backlog asked for, pending or active.
    pub listen_backlog_size: Option<i32>,
    /// Present only on platforms where accepted sockets do not inherit the
    /// listener's options.
    pub shadow: Option<ShadowOptions>,
}

/// What a zero-timeout readiness check of a connecting socket found.
#[derive(Clone, Copy, Debug, PartialEq, Eq)]
pub enum ConnectPoll {
    /// The socket is not writable yet.
    NotReady,
    /// The socket is writable; the value is its pending error state.
    Ready(Result<(), OsError>),
    /// The check itself failed, so nothing is known of the connect.
    Failed(OsError),
}

/// What `finish_connect` asks of the host.
#[derive(Clone, Copy, Debug, PartialEq, Eq, Structural)]
pub enum ConnectStep {
    /// The connection stands; the streams can be split off.
    Established,
    /// The connect is still under way: poll the socket and report.
    Poll,
}

/// A logical direction of a connection to shut down.
#[derive(Clone, Copy, Debug, PartialEq, Eq, Structural)]
pub enum ShutdownType {
    Receive,
    Send,
    Both,
}

/// The OS option that holds a socket's hop limit.
#[derive(Clone, Copy, Debug, PartialEq, Eq, Structural)]
pub enum HopLimitOption {
    /// `IP_TTL`
    Ipv4Ttl,
    /// `IPV6_UNICAST_HOPS`
    Ipv6UnicastHops,
}

/// The direction that the OS shutdown call takes.
#[derive(Clone, Copy, Debug, PartialEq, Eq, Structural)]
pub enum OsShutdown {
    Read,
    Write,
    Both,
}

/// An option value to set on a freshly accepted socket.
#[derive(Clone, Copy, Debug, PartialEq, Eq)]
pub enum SocketOption {
    ReceiveBufferSize(usize),
    SendBufferSize(usize),
    /// `IPV6_UNICAST_HOPS`
    Ipv6UnicastHops(u8),
    /// In nanoseconds.
    KeepAliveIdleTime(u64),
}

/// What `set_listen_backlog_size` did or asks of the host.
#[derive(Clone, Copy, Debug, PartialEq, Eq, Structural)]
pub enum BacklogUpdate {
    /// The value was stored for the next listen.
    Stored,
    /// The socket is listening: call the OS listen again with this backlog
    /// and report.
    Relisten(i32),
}

pub const MIN_BACKLOG: i32 = 1;

pub const MAX_BACKLOG: i32 = 0x7fff_ffff;

impl TcpState {
    /// A start operation is in flight: its finish is owed.
    pub open spec fn in_flight(self) -> bool {
        self == TcpState::BindStarted || self == TcpState::ListenStarted || self
            == TcpState::Connecting || self == TcpState::ConnectReady
    }

    /// One of the states that a socket never leaves by a start operation.
    pub open spec fn settled(self) -> bool {
        self == TcpState::Connected || self == TcpState::ConnectFailed || self
            == TcpState::Listening
    }
}

/// The error that `start_bind` reports for a phase, if any: a socket that
/// is bound, connected, failed or listening is in the wrong state; while
/// any start operation is in flight, the call is a conflict.
pub open spec fn bind_phase_error(s: TcpState) -> Option<ErrorCode> {
    match s {
        TcpState::Default => None,
        TcpState::Bound | TcpState::Connected | TcpState::ConnectFailed | TcpState::Listening => {
            Some(ErrorCode::InvalidState)
        },
        _ => Some(ErrorCode::ConcurrencyConflict),
    }
}

/// The error that `start_connect` reports for a phase, if any.
pub open spec fn connect_phase_error(s: TcpState) -> Option<ErrorCode> {
    match s {
        TcpState::Default => None,
        TcpState::Bound | TcpState::Connected | TcpState::ConnectFailed | TcpState::Listening => {
            Some(ErrorCode::InvalidState)
        },
        _ => Some(ErrorCode::ConcurrencyConflict),
    }
}

/// The error that `start_listen` reports for a phase, if any.
pub open spec fn listen_phase_error(s: TcpState) -> Option<ErrorCode> {
    match s {
        TcpState::Bound => None,
        TcpState::Default | TcpState::Connected | TcpState::ConnectFailed
        | TcpState::Listening => Some(ErrorCode::InvalidState),
        _ => Some(ErrorCode::ConcurrencyConflict),
    }
}

/// The error that a failed OS bind or connect is reported as.
pub open spec fn bind_connect_error(e: OsError) -> ErrorCode {
    if e == OsError::AddressFamilyNotSupported {
        ErrorCode::InvalidArgument
    } else {
        os_error_code(e)
    }
}

/// The error that a failed OS listen is reported as: running out of
/// descriptors is reported as a lack of resources, since no socket is being
/// created.
pub open spec fn listen_error(e: OsError) -> ErrorCode {
    if e == OsError::TooManyOpenFiles {
        ErrorCode::OutOfResources
    } else {
        os_error_code(e)
    }
}

/// The error that `shutdown` and `remote_address` report for a phase, if
/// any.
pub open spec fn connected_phase_error(s: TcpState) -> Option<ErrorCode> {
    match s {
        TcpState::Connected => None,
        TcpState::Connecting | TcpState::ConnectReady => Some(ErrorCode::ConcurrencyConflict),
        _ => Some(ErrorCode::InvalidState),
    }
}

/// The error that `local_address` reports for a phase, if any.
pub open spec fn local_address_phase_error(s: TcpState) -> Option<ErrorCode> {
    match s {
        TcpState::Default => Some(ErrorCode::InvalidState),
        TcpState::BindStarted => Some(ErrorCode::ConcurrencyConflict),
        _ => None,
    }
}

/// The error that `set_ipv6_only` reports for a family and phase, if any.
pub open spec fn ipv6_only_error(family: SocketAddressFamily, s: TcpState) -> Option<ErrorCode> {
    match family {
        SocketAddressFamily::Ipv4 => Some(ErrorCode::InvalidArgument),
        SocketAddressFamily::Ipv6 { .. } => match s {
            TcpState::Default => None,
            TcpState::BindStarted => Some(ErrorCode::ConcurrencyConflict),
            _ => Some(ErrorCode::InvalidState),
        },
    }
}

/// A requested backlog brought into the range that the OS call takes.
pub open spec fn clamp_backlog(value: u64) -> i32 {
    if value < MIN_BACKLOG as u64 {
        MIN_BACKLOG
    } else if value > MAX_BACKLOG as u64 {
        MAX_BACKLOG
    } else {
        value as i32
    }
}

/// A requested buffer size as the platform's size type holds it, the
/// largest size standing for everything above it.
pub open spec fn saturate_size(value: u64) -> usize {
    if value > usize::MAX as u64 {
        usize::MAX
    } else {
        value as usize
    }
}

/// The OS direction for a logical one.
pub open spec fn os_shutdown(how: ShutdownType) -> OsShutdown {
    match how {
        ShutdownType::Receive => OsShutdown::Read,
        ShutdownType::Send => OsShutdown::Write,
        ShutdownType::Both => OsShutdown::Both,
    }
}

pub open spec fn option_seq<T>(o: Option<T>) -> Seq<T> {
    match o {
        Some(v) => seq![v],
        None => Seq::empty(),
    }
}

/// The options that a listener hands on to a socket it accepts, in the
/// order in which they are set: what was recorded of receive buffer size,
/// send buffer size, hop limit (IPv6 only) and keep-alive idle time.
pub open spec fn inherited_options(listener: TcpSocket) -> Seq<SocketOption> {
    match listener.shadow {
        None => Seq::empty(),
        Some(o) => {
            let hop = if listener.family is Ipv6 {
                o.hop_limit
            } else {
                None
            };
            option_seq(o.receive_buffer_size).map_values(|v| SocketOption::ReceiveBufferSize(v))
                + option_seq(o.send_buffer_size).map_values(|v| SocketOption::SendBufferSize(v))
                + option_seq(hop).map_values(|v| SocketOption::Ipv6UnicastHops(v)) + option_seq(
                o.keep_alive_idle_time,
            ).map_values(|v| SocketOption::KeepAliveIdleTime(v))
        },
    }
}

/// The socket that an accept on `listener` produces: connected at once, of
/// the listener's family, with nothing recorded yet.
pub open spec fn accepted_socket(listener: TcpSocket) -> TcpSocket {
    TcpSocket {
        tcp_state: TcpState::Connected,
        family: listener.family,
        listen_backlog_size: None,
        shadow: match listener.shadow {
            Some(_) => Some(
                ShadowOptions {
                    receive_buffer_size: None,
                    send_buffer_size: None,
                    hop_limit: None,
                    keep_alive_idle_time: None,
                },
            ),
            None => None,
        },
    }
}

/// Reports the result of a system call that changes no phase: a failure is
/// translated, success is handed through.
pub fn map_os_result<T>(os: Result<T, OsError>) -> (r: Result<T, ErrorCode>)
    ensures
        r == match os {
            Ok(v) => Ok::<T, ErrorCode>(v),
            Err(e) => Err(os_error_code(e)),
        },
{
    match os {
        Ok(v) => Ok(v),
        Err(e) => Err(ErrorCode::from_os_error(e)),
    }
}

/// A socket as it is created: in the initial phase, with nothing set. It
/// has shadow options where `shadow_options` says that the platform needs
/// them.
pub open spec fn fresh_socket(family: SocketAddressFamily, shadow_options: bool) -> TcpSocket {
    TcpSocket {
        tcp_state: TcpState::Default,
        family,
        listen_backlog_size: None,
        shadow: if shadow_options {
            Some(
                ShadowOptions {
                    receive_buffer_size: None,
                    send_buffer_size: None,
                    hop_limit: None,
                    keep_alive_idle_time: None,
                },
            )
        } else {
            None
        },
    }
}

/// `start_bind`: whether the OS bind may be made.
pub open spec fn start_bind_result(
    s: TcpSocket,
    pool: Pool,
    local_address: IpSocketAddress,
) -> Result<(), ErrorCode> {
    match bind_phase_error(s.tcp_state) {
        Some(e) => Err(e),
        None => bind_check(pool, s.family, local_address),
    }
}

/// `bind_completed`: the socket afterwards, and the result.
pub open spec fn bind_completed_step(s: TcpSocket, os: Result<(), OsError>) -> (
    TcpSocket,
    Result<(), ErrorCode>,
) {
    match bind_phase_error(s.tcp_state) {
        Some(e) => (s, Err(e)),
        None => match os {
            Ok(()) => (s.with_state(TcpState::BindStarted), Ok(())),
            Err(e) => (s, Err(bind_connect_error(e))),
        },
    }
}

/// `finish_bind`: the socket afterwards, and the result.
pub open spec fn finish_bind_step(s: TcpSocket) -> (TcpSocket, Result<(), ErrorCode>) {
    if s.tcp_state == TcpState::BindStarted {
        (s.with_state(TcpState::Bound), Ok(()))
    } else {
        (s, Err(ErrorCode::NotInProgress))
    }
}

/// `start_connect`: whether the OS connect may be made.
pub open spec fn start_connect_result(
    s: TcpSocket,
    pool: Pool,
    remote_address: IpSocketAddress,
) -> Result<(), ErrorCode> {
    match connect_phase_error(s.tcp_state) {
        Some(e) => Err(e),
        None => connect_check(pool, s.family, remote_address),
    }
}

/// `connect_completed`: the socket afterwards, and the result.
pub open spec fn connect_completed_step(s: TcpSocket, os: Result<(), OsError>) -> (
    TcpSocket,
    Result<(), ErrorCode>,
) {
    match connect_phase_error(s.tcp_state) {
        Some(e) => (s, Err(e)),
        None => match os {
            Ok(()) => (s.with_state(TcpState::ConnectReady), Ok(())),
            Err(OsError::InProgress) => (s.with_state(TcpState::Connecting), Ok(())),
            Err(e) => (s, Err(bind_connect_error(e))),
        },
    }
}

/// `finish_connect`: the socket afterwards, and the result.
pub open spec fn finish_connect_step(s: TcpSocket) -> (TcpSocket, Result<ConnectStep, ErrorCode>) {
    match s.tcp_state {
        TcpState::ConnectReady => (s.with_state(TcpState::Connected), Ok(ConnectStep::Established)),
        TcpState::Connecting => (s, Ok(ConnectStep::Poll)),
        _ => (s, Err(ErrorCode::NotInProgress)),
    }
}

/// `connect_polled`: the socket afterwards, and the result.
pub open spec fn connect_polled_step(s: TcpSocket, poll: ConnectPoll) -> (
    TcpSocket,
    Result<(), ErrorCode>,
) {
    if s.tcp_state != TcpState::Connecting {
        (s, Err(ErrorCode::NotInProgress))
    } else {
        match poll {
            ConnectPoll::NotReady => (s, Err(ErrorCode::WouldBlock)),
            ConnectPoll::Ready(Ok(())) => (s.with_state(TcpState::Connected), Ok(())),
            ConnectPoll::Ready(Err(e)) => (
                s.with_state(TcpState::ConnectFailed),
                Err(os_error_code(e)),
            ),
            ConnectPoll::Failed(e) => (s, Err(os_error_code(e))),
        }
    }
}

/// `start_listen`: whether the OS listen may be made, and its backlog.
pub open spec fn start_listen_result(s: TcpSocket) -> Result<Option<i32>, ErrorCode> {
    match listen_phase_error(s.tcp_state) {
        Some(e) => Err(e),
        None => Ok(s.listen_backlog_size),
    }
}

/// `listen_completed`: the socket afterwards, and the result.
pub open spec fn listen_completed_step(s: TcpSocket, os: Result<(), OsError>) -> (
    TcpSocket,
    Result<(), ErrorCode>,
) {
    match listen_phase_error(s.tcp_state) {
        Some(e) => (s, Err(e)),
        None => match os {
            Ok(()) => (s.with_state(TcpState::ListenStarted), Ok(())),
            Err(e) => (s, Err(listen_error(e))),
        },
    }
}

/// `finish_listen`: the socket afterwards, and the result.
pub open spec fn finish_listen_step(s: TcpSocket) -> (TcpSocket, Result<(), ErrorCode>) {
    if s.tcp_state == TcpState::ListenStarted {
        (s.with_state(TcpState::Listening), Ok(()))
    } else {
        (s, Err(ErrorCode::NotInProgress))
    }
}

/// `accept`: whether the OS accept may be made.
pub open spec fn accept_result(s: TcpSocket) -> Result<(), ErrorCode> {
    if s.tcp_state == TcpState::Listening {
        Ok(())
    } else {
        Err(ErrorCode::InvalidState)
    }
}

/// `accept_completed`: the new socket and the options to set on it.
pub open spec fn accept_completed_result(s: TcpSocket, os: Result<(), OsError>) -> Result<
    (TcpSocket, Seq<SocketOption>),
    ErrorCode,
> {
    if s.tcp_state != TcpState::Listening {
        Err(ErrorCode::InvalidState)
    } else {
        match os {
            Ok(()) => Ok((accepted_socket(s), inherited_options(s))),
            Err(e) => Err(os_error_code(e)),
        }
    }
}

/// `local_address`: whether the address may be read.
pub open spec fn local_address_result(s: TcpSocket) -> Result<(), ErrorCode> {
    match local_address_phase_error(s.tcp_state) {
        Some(e) => Err(e),
        None => Ok(()),
    }
}

/// `remote_address`: whether the address may be read.
pub open spec fn remote_address_result(s: TcpSocket) -> Result<(), ErrorCode> {
    match connected_phase_error(s.tcp_state) {
        Some(e) => Err(e),
        None => Ok(()),
    }
}

/// `ipv6_only`: the recorded switch.
pub open spec fn ipv6_only_result(s: TcpSocket) -> Result<bool, ErrorCode> {
    match s.family {
        SocketAddressFamily::Ipv4 => Err(ErrorCode::InvalidArgument),
        SocketAddressFamily::Ipv6 { v6only } => Ok(v6only),
    }
}

/// `set_ipv6_only`: whether the OS option may be set.
pub open spec fn set_ipv6_only_result(s: TcpSocket) -> Result<(), ErrorCode> {
    match ipv6_only_error(s.family, s.tcp_state) {
        Some(e) => Err(e),
        None => Ok(()),
    }
}

/// `ipv6_only_completed`: the socket afterwards, and the result.
pub open spec fn ipv6_only_completed_step(s: TcpSocket, value: bool, os: Result<(), OsError>) -> (
    TcpSocket,
    Result<(), ErrorCode>,
) {
    match ipv6_only_error(s.family, s.tcp_state) {
        Some(e) => (s, Err(e)),
        None => match os {
            Ok(()) => (
                TcpSocket { family: SocketAddressFamily::Ipv6 { v6only: value }, ..s },
                Ok(()),
            ),
            Err(e) => (s, Err(os_error_code(e))),
        },
    }
}

/// `set_listen_backlog_size`: the socket afterwards, and the result.
pub open spec fn set_listen_backlog_size_step(s: TcpSocket, value: u64) -> (
    TcpSocket,
    Result<BacklogUpdate, ErrorCode>,
) {
    if value == 0 {
        (s, Err(ErrorCode::InvalidArgument))
    } else {
        match s.tcp_state {
            TcpState::Default | TcpState::BindStarted | TcpState::Bound => (
                TcpSocket { listen_backlog_size: Some(clamp_backlog(value)), ..s },
                Ok(BacklogUpdate::Stored),
            ),
            TcpState::Listening => (s, Ok(BacklogUpdate::Relisten(clamp_backlog(value)))),
            TcpState::Connected | TcpState::ConnectFailed => (s, Err(ErrorCode::InvalidState)),
            _ => (s, Err(ErrorCode::ConcurrencyConflict)),
        }
    }
}

/// `listen_backlog_updated`: the socket afterwards, and the result.
pub open spec fn listen_backlog_updated_step(s: TcpSocket, value: u64, os: Result<(), OsError>) -> (
    TcpSocket,
    Result<(), ErrorCode>,
) {
    if value == 0 {
        (s, Err(ErrorCode::InvalidArgument))
    } else {
        match s.tcp_state {
            TcpState::Listening => match os {
                Ok(()) => (
                    TcpSocket { listen_backlog_size: Some(clamp_backlog(value)), ..s },
                    Ok(()),
                ),
                Err(_) => (s, Err(ErrorCode::NotSupported)),
            },
            TcpState::Connecting | TcpState::ConnectReady | TcpState::ListenStarted => (
                s,
                Err(ErrorCode::ConcurrencyConflict),
            ),
            _ => (s, Err(ErrorCode::InvalidState)),
        }
    }
}

/// The socket after an option was set in the OS with result `os`: on
/// success `record` is applied to the shadow options, where the socket has
/// them.
pub open spec fn option_set_step(
    s: TcpSocket,
    os: Result<(), OsError>,
    record: spec_fn(ShadowOptions) -> ShadowOptions,
) -> (TcpSocket, Result<(), ErrorCode>) {
    match os {
        Err(e) => (s, Err(os_error_code(e))),
        Ok(()) => match s.shadow {
            Some(o) => (TcpSocket { shadow: Some(record(o)), ..s }, Ok(())),
            None => (s, Ok(())),
        },
    }
}

/// `shutdown`: whether the OS shutdown may be made, and its direction.
pub open spec fn shutdown_result(s: TcpSocket, how: ShutdownType) -> Result<OsShutdown, ErrorCode> {
    match connected_phase_error(s.tcp_state) {
        Some(e) => Err(e),
        None => Ok(os_shutdown(how)),
    }
}

/// The moves between phases that the operations make: each start moves a
/// socket into its in-flight phase, each finish out of it. No move leads
/// back to `Default`, and none leaves `Connected`, `ConnectFailed` or
/// `Listening`.
pub open spec fn phase_move(a: TcpState, b: TcpState) -> bool {
    ||| a == TcpState::Default && b == TcpState::BindStarted
    ||| a == TcpState::BindStarted && b == TcpState::Bound
    ||| a == TcpState::Default && b == TcpState::Connecting
    ||| a == TcpState::Default && b == TcpState::ConnectReady
    ||| a == TcpState::ConnectReady && b == TcpState::Connected
    ||| a == TcpState::Connecting && b == TcpState::Connected
    ||| a == TcpState::Connecting && b == TcpState::ConnectFailed
    ||| a == TcpState::Bound && b == TcpState::ListenStarted
    ||| a == TcpState::ListenStarted && b == TcpState::Listening
}

/// A finish operation on a socket whose matching start is not in flight
/// fails with `NotInProgress` and changes nothing.
pub proof fn law_finish_without_start(s: TcpSocket, poll: ConnectPoll)
    ensures
        s.tcp_state != TcpState::BindStarted ==> finish_bind_step(s) == (
            s,
            Err::<(), ErrorCode>(ErrorCode::NotInProgress),
        ),
        s.tcp_state != TcpState::ListenStarted ==> finish_listen_step(s) == (
            s,
            Err::<(), ErrorCode>(ErrorCode::NotInProgress),
        ),
        s.tcp_state != TcpState::Connecting && s.tcp_state != TcpState::ConnectReady
            ==> finish_connect_step(s) == (
            s,
            Err::<ConnectStep, ErrorCode>(ErrorCode::NotInProgress),
        ),
        s.tcp_state != TcpState::Connecting ==> connect_polled_step(s, poll) == (
            s,
            Err::<(), ErrorCode>(ErrorCode::NotInProgress),
        ),
{
}

/// On a socket that is `Connected`, `ConnectFailed` or `Listening`, every
/// start operation fails with `InvalidState`, whatever the address, the
/// pool or the OS say, and the socket stays as it is.
pub proof fn law_settled_rejects_start(
    s: TcpSocket,
    pool: Pool,
    address: IpSocketAddress,
    os: Result<(), OsError>,
)
    requires
        s.tcp_state.settled(),
    ensures
        start_bind_result(s, pool, address) == Err::<(), ErrorCode>(ErrorCode::InvalidState),
        start_connect_result(s, pool, address) == Err::<(), ErrorCode>(ErrorCode::InvalidState),
        start_listen_result(s) == Err::<Option<i32>, ErrorCode>(ErrorCode::InvalidState),
        bind_completed_step(s, os) == (s, Err::<(), ErrorCode>(ErrorCode::InvalidState)),
        connect_completed_step(s, os) == (s, Err::<(), ErrorCode>(ErrorCode::InvalidState)),
        listen_completed_step(s, os) == (s, Err::<(), ErrorCode>(ErrorCode::InvalidState)),
{
}

/// While a start operation is in flight on a socket, every start operation
/// fails with `ConcurrencyConflict`, whatever the address, the pool or the
/// OS say, and the socket stays as it is.
pub proof fn law_in_flight_rejects_start(
    s: TcpSocket,
    pool: Pool,
    address: IpSocketAddress,
    os: Result<(), OsError>,
)
    requires
        s.tcp_state.in_flight(),
    ensures
        start_bind_result(s, pool, address) == Err::<(), ErrorCode>(
            ErrorCode::ConcurrencyConflict,
        ),
        start_connect_result(s, pool, address) == Err::<(), ErrorCode>(
            ErrorCode::ConcurrencyConflict,
        ),
        start_listen_result(s) == Err::<Option<i32>, ErrorCode>(ErrorCode::ConcurrencyConflict),
        bind_completed_step(s, os) == (s, Err::<(), ErrorCode>(ErrorCode::ConcurrencyConflict)),
        connect_completed_step(s, os) == (
            s,
            Err::<(), ErrorCode>(ErrorCode::ConcurrencyConflict),
        ),
        listen_completed_step(s, os) == (s, Err::<(), ErrorCode>(ErrorCode::ConcurrencyConflict)),
{
}

/// An accept on a socket that is not `Listening` fails with
/// `InvalidState`; a socket that an accept produces is `Connected`.
pub proof fn law_accept(s: TcpSocket, os: Result<(), OsError>)
    ensures
        s.tcp_state != TcpState::Listening ==> accept_result(s) == Err::<(), ErrorCode>(
            ErrorCode::InvalidState,
        ) && accept_completed_result(s, os) == Err::<(TcpSocket, Seq<SocketOption>), ErrorCode>(
            ErrorCode::InvalidState,
        ),
        accept_completed_result(s, os) matches Ok((socket, _)) ==> socket.tcp_state
            == TcpState::Connected && s.tcp_state == TcpState::Listening,
{
}

/// A backlog of zero is refused with `InvalidArgument` in every phase, and
/// nothing changes.
pub proof fn law_zero_backlog(s: TcpSocket, os: Result<(), OsError>)
    ensures
        set_listen_backlog_size_step(s, 0) == (
            s,
            Err::<BacklogUpdate, ErrorCode>(ErrorCode::InvalidArgument),
        ),
        listen_backlog_updated_step(s, 0, os) == (
            s,
            Err::<(), ErrorCode>(ErrorCode::InvalidArgument),
        ),
{
}

/// While the OS reports a connect as not ready, finishing it fails with
/// `WouldBlock` and the socket is still `Connecting`.
pub proof fn law_connect_not_ready(s: TcpSocket)
    requires
        s.tcp_state == TcpState::Connecting,
    ensures
        finish_connect_step(s) == (s, Ok::<ConnectStep, ErrorCode>(ConnectStep::Poll)),
        connect_polled_step(s, ConnectPoll::NotReady) == (
            s,
            Err::<(), ErrorCode>(ErrorCode::WouldBlock),
        ),
        connect_polled_step(s, ConnectPoll::NotReady).0.tcp_state == TcpState::Connecting,
{
}

/// Where the readiness check of a connecting socket itself fails, its error
/// is reported and the socket is still `Connecting`: the connect can be
/// finished later.
pub proof fn law_failed_poll(s: TcpSocket, e: OsError)
    requires
        s.tcp_state == TcpState::Connecting,
    ensures
        connect_polled_step(s, ConnectPoll::Failed(e)) == (
            s,
            Err::<(), ErrorCode>(os_error_code(e)),
        ),
{
}

/// Every operation leaves the phase where it is or makes one of the moves
/// of `phase_move`; an operation that fails moves the phase only into
/// `ConnectFailed`.
pub proof fn law_phase_moves(
    s: TcpSocket,
    os: Result<(), OsError>,
    poll: ConnectPoll,
    value: u64,
    flag: bool,
    record: spec_fn(ShadowOptions) -> ShadowOptions,
)
    ensures
        ({
            let a = s.tcp_state;
            let stays_or_moves = |b: TcpState| b == a || phase_move(a, b);
            &&& stays_or_moves(bind_completed_step(s, os).0.tcp_state)
            &&& stays_or_moves(finish_bind_step(s).0.tcp_state)
            &&& stays_or_moves(connect_completed_step(s, os).0.tcp_state)
            &&& stays_or_moves(finish_connect_step(s).0.tcp_state)
            &&& stays_or_moves(connect_polled_step(s, poll).0.tcp_state)
            &&& stays_or_moves(listen_completed_step(s, os).0.tcp_state)
            &&& stays_or_moves(finish_listen_step(s).0.tcp_state)
            &&& ipv6_only_completed_step(s, flag, os).0.tcp_state == a
            &&& set_listen_backlog_size_step(s, value).0.tcp_state == a
            &&& listen_backlog_updated_step(s, value, os).0.tcp_state == a
            &&& option_set_step(s, os, record).0.tcp_state == a
        }),
        bind_completed_step(s, os).1 is Err ==> bind_completed_step(s, os).0 == s,
        finish_bind_step(s).1 is Err ==> finish_bind_step(s).0 == s,
        connect_completed_step(s, os).1 is Err ==> connect_completed_step(s, os).0 == s,
        finish_connect_step(s).1 is Err ==> finish_connect_step(s).0 == s,
        connect_polled_step(s, poll).1 is Err ==> connect_polled_step(s, poll).0 == s
            || connect_polled_step(s, poll).0 == s.with_state(TcpState::ConnectFailed),
        listen_completed_step(s, os).1 is Err ==> listen_completed_step(s, os).0 == s,
        finish_listen_step(s).1 is Err ==> finish_listen_step(s).0 == s,
        forall|a: TcpState, b: TcpState| #[trigger]
            phase_move(a, b) ==> b != TcpState::Default && !a.settled(),
{
}

fn map_bind_connect_error(e: OsError) -> (c: ErrorCode)
    ensures
        c == bind_connect_error(e),
{
    match e {
        OsError::AddressFamilyNotSupported => ErrorCode::InvalidArgument,
        _ => ErrorCode::from_os_error(e),
    }
}

fn map_listen_error(e: OsError) -> (c: ErrorCode)
    ensures
        c == listen_error(e),
{
    match e {
        OsError::TooManyOpenFiles => ErrorCode::OutOfResources,
        _ => ErrorCode::from_os_error(e),
    }
}

impl TcpSocket {
    /// The socket but for its phase.
    pub open spec fn with_state(self, s: TcpState) -> TcpSocket {
        TcpSocket { tcp_state: s, ..self }
    }

    /// A fresh socket in the initial phase. `shadow_options` says whether
    /// the platform needs option values replayed onto accepted sockets.
    pub fn new(family: SocketAddressFamily, shadow_options: bool) -> (s: TcpSocket)
        ensures
            s == fresh_socket(family, shadow_options),
    {
        TcpSocket {
            tcp_state: TcpState::Default,
            family,
            listen_backlog_size: None,
            shadow: if shadow_options {
                Some(
                    ShadowOptions {
                        receive_buffer_size: None,
                        send_buffer_size: None,
                        hop_limit: None,
                        keep_alive_idle_time: None,
                    },
                )
            } else {
                None
            },
        }
    }

    /// First half of a bind: decides whether the OS bind may be made. The
    /// socket must be in `Default`; the address must pass the network's
    /// checks. On success the result is the capability to bind the
    /// address. Nothing changes.
    pub fn start_bind(&self, network: &Network, local_address: &IpSocketAddress) -> (r: Result<
        TcpBinder,
        ErrorCode,
    >)
        ensures
            match r {
                Ok(binder) => start_bind_result(*self, network.pool, *local_address) is Ok
                    && binder.spec_address() == *local_address,
                Err(e) => start_bind_result(*self, network.pool, *local_address) == Err::<
                    (),
                    ErrorCode,
                >(e),
            },
    {
        match self.tcp_state {
            TcpState::Default => {},
            TcpState::Bound
            | TcpState::Connected
            | TcpState::ConnectFailed
            | TcpState::Listening => return Err(ErrorCode::InvalidState),
            TcpState::BindStarted
            | TcpState::Connecting
            | TcpState::ConnectReady
            | TcpState::ListenStarted => return Err(ErrorCode::ConcurrencyConflict),
        }
        network.authorize_bind(&self.family, local_address)
    }

    /// Second half of a bind: takes the result of the OS bind. Success moves
    /// a `Default` socket to `BindStarted`; a failure leaves the phase alone
    /// and is reported, "address family not supported" as `InvalidArgument`.
    pub fn bind_completed(&mut self, os: Result<(), OsError>) -> (r: Result<(), ErrorCode>)
        ensures
            (*final(self), r) == bind_completed_step(*old(self), os),
    {
        match self.tcp_state {
            TcpState::Default => {},
            TcpState::Bound
            | TcpState::Connected
            | TcpState::ConnectFailed
            | TcpState::Listening => return Err(ErrorCode::InvalidState),
            TcpState::BindStarted
            | TcpState::Connecting
            | TcpState::ConnectReady
            | TcpState::ListenStarted => return Err(ErrorCode::ConcurrencyConflict),
        }
        match os {
            Ok(()) => {
                self.tcp_state = TcpState::BindStarted;
                Ok(())
            },
            Err(e) => Err(map_bind_connect_error(e)),
        }
    }

    /// Completes a bind: `BindStarted` becomes `Bound`. In any other phase
    /// nothing is in progress.
    pub fn finish_bind(&mut self) -> (r: Result<(), ErrorCode>)
        ensures
            (*final(self), r) == finish_bind_step(*old(self)),
    {
        match self.tcp_state {
            TcpState::BindStarted => {},
            _ => return Err(ErrorCode::NotInProgress),
        }
        self.tcp_state = TcpState::Bound;
        Ok(())
    }

    /// First half of a connect: decides whether the OS connect may be made.
    /// The socket must be in `Default`; the address must pass the network's
    /// checks. On success the result is the capability to connect to the
    /// address. Nothing changes.
    pub fn start_connect(&self, network: &Network, remote_address: &IpSocketAddress) -> (r:
        Result<TcpConnecter, ErrorCode>)
        ensures
            match r {
                Ok(connecter) => start_connect_result(*self, network.pool, *remote_address) is Ok
                    && connecter.spec_address() == *remote_address,
                Err(e) => start_connect_result(*self, network.pool, *remote_address) == Err::<
                    (),
                    ErrorCode,
                >(e),
            },
    {
        match self.tcp_state {
            TcpState::Default => {},
            TcpState::Bound
            | TcpState::Connected
            | TcpState::ConnectFailed
            | TcpState::Listening => return Err(ErrorCode::InvalidState),
            TcpState::Connecting
            | TcpState::ConnectReady
            | TcpState::ListenStarted
            | TcpState::BindStarted => return Err(ErrorCode::ConcurrencyConflict),
        }
        network.authorize_connect(&self.family, remote_address)
    }

    /// Second half of a connect: takes the result of the non-blocking OS
    /// connect. Immediate success moves a `Default` socket to
    /// `ConnectReady`, "in progress" moves it to `Connecting`; both are
    /// success. Any other failure leaves the phase at `Default` and is
    /// reported, "address family not supported" as `InvalidArgument`.
    pub fn connect_completed(&mut self, os: Result<(), OsError>) -> (r: Result<(), ErrorCode>)
        ensures
            (*final(self), r) == connect_completed_step(*old(self), os),
    {
        match self.tcp_state {
            TcpState::Default => {},
            TcpState::Bound
            | TcpState::Connected
            | TcpState::ConnectFailed
            | TcpState::Listening => return Err(ErrorCode::InvalidState),
            TcpState::Connecting
            | TcpState::ConnectReady
            | TcpState::ListenStarted
            | TcpState::BindStarted => return Err(ErrorCode::ConcurrencyConflict),
        }
        match os {
            Ok(()) => {
                self.tcp_state = TcpState::ConnectReady;
                Ok(())
            },
            Err(OsError::InProgress) => {
                self.tcp_state = TcpState::Connecting;
                Ok(())
            },
            Err(e) => Err(map_bind_connect_error(e)),
        }
    }

    /// Completes a connect as far as it can without the OS. `ConnectReady`
    /// becomes `Connected`. A `Connecting` socket stays as it is and the
    /// host is asked to poll it. In any other phase nothing is in progress.
    pub fn finish_connect(&mut self) -> (r: Result<ConnectStep, ErrorCode>)
        ensures
            (*final(self), r) == finish_connect_step(*old(self)),
    {
        match self.tcp_state {
            TcpState::ConnectReady => {
                self.tcp_state = TcpState::Connected;
                Ok(ConnectStep::Established)
            },
            TcpState::Connecting => Ok(ConnectStep::Poll),
            _ => Err(ErrorCode::NotInProgress),
        }
    }

    /// Takes the readiness check of a `Connecting` socket. Not ready: the
    /// call fails with `WouldBlock` and nothing changes. Ready without a
    /// pending error: the socket is `Connected`. Ready with a pending error:
    /// the socket is `ConnectFailed` for good and the error is reported.
    /// Where the check itself failed, its error is reported and the socket
    /// is still `Connecting`. In any other phase nothing is in progress.
    pub fn connect_polled(&mut self, poll: ConnectPoll) -> (r: Result<(), ErrorCode>)
        ensures
            (*final(self), r) == connect_polled_step(*old(self), poll),
    {
        match self.tcp_state {
            TcpState::Connecting => {},
            _ => return Err(ErrorCode::NotInProgress),
        }
        match poll {
            ConnectPoll::NotReady => Err(ErrorCode::WouldBlock),
            ConnectPoll::Ready(Ok(())) => {
                self.tcp_state = TcpState::Connected;
                Ok(())
            },
            ConnectPoll::Ready(Err(e)) => {
                self.tcp_state = TcpState::ConnectFailed;
                Err(ErrorCode::from_os_error(e))
            },
            ConnectPoll::Failed(e) => Err(ErrorCode::from_os_error(e)),
        }
    }

    /// First half of a listen: decides whether the OS listen may be made,
    /// and with which backlog (`None` for the platform's default). The
    /// socket must be `Bound`. Nothing changes.
    pub fn start_listen(&self) -> (r: Result<Option<i32>, ErrorCode>)
        ensures
            r == start_listen_result(*self),
    {
        match self.tcp_state {
            TcpState::Bound => {},
            TcpState::Default
            | TcpState::Connected
            | TcpState::ConnectFailed
            | TcpState::Listening => return Err(ErrorCode::InvalidState),
            TcpState::ListenStarted
            | TcpState::Connecting
            | TcpState::ConnectReady
            | TcpState::BindStarted => return Err(ErrorCode::ConcurrencyConflict),
        }
        Ok(self.listen_backlog_size)
    }

    /// Second half of a listen: takes the result of the OS listen. Success
    /// moves a `Bound` socket to `ListenStarted`; a failure leaves the phase
    /// alone and is reported, "too many open files" as `OutOfResources`.
    pub fn listen_completed(&mut self, os: Result<(), OsError>) -> (r: Result<(), ErrorCode>)
        ensures
            (*final(self), r) == listen_completed_step(*old(self), os),
    {
        match self.tcp_state {
            TcpState::Bound => {},
            TcpState::Default
            | TcpState::Connected
            | TcpState::ConnectFailed
            | TcpState::Listening => return Err(ErrorCode::InvalidState),
            TcpState::ListenStarted
            | TcpState::Connecting
            | TcpState::ConnectReady
            | TcpState::BindStarted => return Err(ErrorCode::ConcurrencyConflict),
        }
        match os {
            Ok(()) => {
                self.tcp_state = TcpState::ListenStarted;
                Ok(())
            },
            Err(e) => Err(map_listen_error(e)),
        }
    }

    /// Completes a listen: `ListenStarted` becomes `Listening`. In any other
    /// phase nothing is in progress.
    pub fn finish_listen(&mut self) -> (r: Result<(), ErrorCode>)
        ensures
            (*final(self), r) == finish_listen_step(*old(self)),
    {
        match self.tcp_state {
            TcpState::ListenStarted => {},
            _ => return Err(ErrorCode::NotInProgress),
        }
        self.tcp_state = TcpState::Listening;
        Ok(())
    }

    /// First half of an accept: the socket must be `Listening`, else the
    /// call fails with `InvalidState`. Nothing changes.
    pub fn accept(&self) -> (r: Result<(), ErrorCode>)
        ensures
            r == accept_result(*self),
    {
        match self.tcp_state {
            TcpState::Listening => Ok(()),
            _ => Err(ErrorCode::InvalidState),
        }
    }

    /// Second half of an accept: takes the result of the non-blocking OS
    /// accept. A failure is reported, "would block" as `WouldBlock`. On
    /// success the result is the new socket, `Connected` from the start,
    /// and the options to set on it, whose failure to set is ignored. The
    /// listener does not change.
    pub fn accept_completed(&self, os: Result<(), OsError>) -> (r: Result<
        (TcpSocket, Vec<SocketOption>),
        ErrorCode,
    >)
        ensures
            match accept_completed_result(*self, os) {
                Ok((socket, options)) => r.is_ok() && r.unwrap().0 == socket && r.unwrap().1@
                    == options,
                Err(e) => r == Err::<(TcpSocket, Vec<SocketOption>), ErrorCode>(e),
            },
    {
        match self.tcp_state {
            TcpState::Listening => {},
            _ => return Err(ErrorCode::InvalidState),
        }
        if let Err(e) = os {
            return Err(ErrorCode::from_os_error(e));
        }
        let mut options: Vec<SocketOption> = Vec::new();
        let shadow = match self.shadow {
            Some(o) => {
                if let Some(size) = o.receive_buffer_size {
                    options.push(SocketOption::ReceiveBufferSize(size));
                }
                if let Some(size) = o.send_buffer_size {
                    options.push(SocketOption::SendBufferSize(size));
                }
                if let (SocketAddressFamily::Ipv6 { .. }, Some(ttl)) = (self.family, o.hop_limit) {
                    options.push(SocketOption::Ipv6UnicastHops(ttl));
                }
                if let Some(value) = o.keep_alive_idle_time {
                    options.push(SocketOption::KeepAliveIdleTime(value));
                }
                Some(
                    ShadowOptions {
                        receive_buffer_size: None,
                        send_buffer_size: None,
                        hop_limit: None,
                        keep_alive_idle_time: None,
                    },
                )
            },
            None => None,
        };
        assert(options@ =~= inherited_options(*self));
        let socket = TcpSocket {
            tcp_state: TcpState::Connected,
            family: self.family,
            listen_backlog_size: None,
            shadow,
        };
        Ok((socket, options))
    }

    /// Whether the local address can be read: not in `Default`, and not
    /// while a bind is in flight. On success the host reads it from the OS.
    pub fn local_address(&self) -> (r: Result<(), ErrorCode>)
        ensures
            r == local_address_result(*self),
    {
        match self.tcp_state {
            TcpState::Default => Err(ErrorCode::InvalidState),
            TcpState::BindStarted => Err(ErrorCode::ConcurrencyConflict),
            _ => Ok(()),
        }
    }

    /// Whether the remote address can be read: only once `Connected`. On
    /// success the host reads it from the OS.
    pub fn remote_address(&self) -> (r: Result<(), ErrorCode>)
        ensures
            r == remote_address_result(*self),
    {
        match self.tcp_state {
            TcpState::Connected => Ok(()),
            TcpState::Connecting | TcpState::ConnectReady => Err(ErrorCode::ConcurrencyConflict),
            _ => Err(ErrorCode::InvalidState),
        }
    }

    pub fn is_listening(&self) -> (b: bool)
        ensures
            b == (self.tcp_state == TcpState::Listening),
    {
        match self.tcp_state {
            TcpState::Listening => true,
            _ => false,
        }
    }

    pub fn address_family(&self) -> (f: IpAddressFamily)
        ensures
            f == match self.family {
                SocketAddressFamily::Ipv4 => IpAddressFamily::Ipv4,
                SocketAddressFamily::Ipv6 { .. } => IpAddressFamily::Ipv6,
            },
    {
        match self.family {
            SocketAddressFamily::Ipv4 => IpAddressFamily::Ipv4,
            SocketAddressFamily::Ipv6 { .. } => IpAddressFamily::Ipv6,
        }
    }

    /// The dual-stack switch as the socket records it. An IPv4 socket has
    /// no such option.
    pub fn ipv6_only(&self) -> (r: Result<bool, ErrorCode>)
        ensures
            r == ipv6_only_result(*self),
    {
        match self.family {
            SocketAddressFamily::Ipv4 => Err(ErrorCode::InvalidArgument),
            SocketAddressFamily::Ipv6 { v6only } => Ok(v6only),
        }
    }

    /// First half of setting the dual-stack switch: an IPv6 socket in
    /// `Default` may have it set. Nothing changes.
    pub fn set_ipv6_only(&self) -> (r: Result<(), ErrorCode>)
        ensures
            r == set_ipv6_only_result(*self),
    {
        match self.family {
            SocketAddressFamily::Ipv4 => Err(ErrorCode::InvalidArgument),
            SocketAddressFamily::Ipv6 { .. } => match self.tcp_state {
                TcpState::Default => Ok(()),
                TcpState::BindStarted => Err(ErrorCode::ConcurrencyConflict),
                _ => Err(ErrorCode::InvalidState),
            },
        }
    }

    /// Second half of setting the dual-stack switch: takes the result of
    /// the OS call. On success the socket records the value; a failure is
    /// reported and nothing changes.
    pub fn ipv6_only_completed(&mut self, value: bool, os: Result<(), OsError>) -> (r: Result<
        (),
        ErrorCode,
    >)
        ensures
            (*final(self), r) == ipv6_only_completed_step(*old(self), value, os),
    {
        match self.family {
            SocketAddressFamily::Ipv4 => Err(ErrorCode::InvalidArgument),
            SocketAddressFamily::Ipv6 { .. } => match self.tcp_state {
                TcpState::Default => match os {
                    Ok(()) => {
                        self.family = SocketAddressFamily::Ipv6 { v6only: value };
                        Ok(())
                    },
                    Err(e) => Err(ErrorCode::from_os_error(e)),
                },
                TcpState::BindStarted => Err(ErrorCode::ConcurrencyConflict),
                _ => Err(ErrorCode::InvalidState),
            },
        }
    }

    /// Sets the backlog. Zero is refused in every phase. The value is
    /// brought into `[MIN_BACKLOG, MAX_BACKLOG]`. Before listening it is
    /// stored for the next listen. While `Listening` nothing is stored yet:
    /// the host is asked to call the OS listen again. A connected or failed
    /// socket is in the wrong state; any other phase is a conflict.
    pub fn set_listen_backlog_size(&mut self, value: u64) -> (r: Result<BacklogUpdate, ErrorCode>)
        ensures
            (*final(self), r) == set_listen_backlog_size_step(*old(self), value),
    {
        if value == 0 {
            return Err(ErrorCode::InvalidArgument);
        }
        let value = clamped_backlog(value);
        match self.tcp_state {
            TcpState::Default | TcpState::BindStarted | TcpState::Bound => {
                self.listen_backlog_size = Some(value);
                Ok(BacklogUpdate::Stored)
            },
            TcpState::Listening => Ok(BacklogUpdate::Relisten(value)),
            TcpState::Connected | TcpState::ConnectFailed => Err(ErrorCode::InvalidState),
            TcpState::Connecting | TcpState::ConnectReady | TcpState::ListenStarted => Err(
                ErrorCode::ConcurrencyConflict,
            ),
        }
    }

    /// Takes the result of the OS listen that updates the backlog of a
    /// `Listening` socket. On success the value is stored. If the OS
    /// refuses, the platform cannot change the backlog at run time: the call
    /// fails with `NotSupported` and the stored value stays. Zero is refused
    /// as always. On a socket that is not listening nothing changes: while
    /// a connect or a listen is in flight the call is a conflict, in any
    /// other phase the state is wrong.
    pub fn listen_backlog_updated(&mut self, value: u64, os: Result<(), OsError>) -> (r: Result<
        (),
        ErrorCode,
    >)
        ensures
            (*final(self), r) == listen_backlog_updated_step(*old(self), value, os),
    {
        if value == 0 {
            return Err(ErrorCode::InvalidArgument);
        }
        match self.tcp_state {
            TcpState::Listening => {},
            TcpState::Connecting | TcpState::ConnectReady | TcpState::ListenStarted => {
                return Err(ErrorCode::ConcurrencyConflict)
            },
            _ => return Err(ErrorCode::InvalidState),
        }
        match os {
            Ok(()) => {
                self.listen_backlog_size = Some(clamped_backlog(value));
                Ok(())
            },
            Err(_) => Err(ErrorCode::NotSupported),
        }
    }

    /// The OS option that holds this socket's hop limit.
    pub fn hop_limit_option(&self) -> (o: HopLimitOption)
        ensures
            o == match self.family {
                SocketAddressFamily::Ipv4 => HopLimitOption::Ipv4Ttl,
                SocketAddressFamily::Ipv6 { .. } => HopLimitOption::Ipv6UnicastHops,
            },
    {
        match self.family {
            SocketAddressFamily::Ipv4 => HopLimitOption::Ipv4Ttl,
            SocketAddressFamily::Ipv6 { .. } => HopLimitOption::Ipv6UnicastHops,
        }
    }

    /// Takes the result of setting the hop limit in the OS. On success the
    /// value is recorded where the platform needs it; a failure is reported
    /// and nothing changes.
    pub fn hop_limit_set(&mut self, value: u8, os: Result<(), OsError>) -> (r: Result<
        (),
        ErrorCode,
    >)
        ensures
            (*final(self), r) == option_set_step(
                *old(self),
                os,
                |o: ShadowOptions| ShadowOptions { hop_limit: Some(value), ..o },
            ),
    {
        if let Err(e) = os {
            return Err(ErrorCode::from_os_error(e));
        }
        if let Some(o) = self.shadow {
            self.shadow = Some(ShadowOptions { hop_limit: Some(value), ..o });
        }
        Ok(())
    }

    /// Takes the result of setting the keep-alive idle time, given in
    /// nanoseconds, in the OS. On success the value is recorded where the
    /// platform needs it; a failure is reported and nothing changes.
    pub fn keep_alive_idle_time_set(&mut self, value: u64, os: Result<(), OsError>) -> (r: Result<
        (),
        ErrorCode,
    >)
        ensures
            (*final(self), r) == option_set_step(
                *old(self),
                os,
                |o: ShadowOptions| ShadowOptions { keep_alive_idle_time: Some(value), ..o },
            ),
    {
        if let Err(e) = os {
            return Err(ErrorCode::from_os_error(e));
        }
        if let Some(o) = self.shadow {
            self.shadow = Some(ShadowOptions { keep_alive_idle_time: Some(value), ..o });
        }
        Ok(())
    }

    /// Takes the result of setting the receive buffer size in the OS. On
    /// success the size, as the platform holds it, is recorded where the
    /// platform needs it; a failure is reported and nothing changes.
    pub fn receive_buffer_size_set(&mut self, value: u64, os: Result<(), OsError>) -> (r: Result<
        (),
        ErrorCode,
    >)
        ensures
            (*final(self), r) == option_set_step(
                *old(self),
                os,
                |o: ShadowOptions| ShadowOptions { receive_buffer_size: Some(saturate_size(value)), ..o },
            ),
    {
        if let Err(e) = os {
            return Err(ErrorCode::from_os_error(e));
        }
        if let Some(o) = self.shadow {
            self.shadow = Some(
                ShadowOptions { receive_buffer_size: Some(buffer_size(value)), ..o },
            );
        }
        Ok(())
    }

    /// Takes the result of setting the send buffer size in the OS. On
    /// success the size, as the platform holds it, is recorded where the
    /// platform needs it; a failure is reported and nothing changes.
    pub fn send_buffer_size_set(&mut self, value: u64, os: Result<(), OsError>) -> (r: Result<
        (),
        ErrorCode,
    >)
        ensures
            (*final(self), r) == option_set_step(
                *old(self),
                os,
                |o: ShadowOptions| ShadowOptions { send_buffer_size: Some(saturate_size(value)), ..o },
            ),
    {
        if let Err(e) = os {
            return Err(ErrorCode::from_os_error(e));
        }
        if let Some(o) = self.shadow {
            self.shadow = Some(ShadowOptions { send_buffer_size: Some(buffer_size(value)), ..o });
        }
        Ok(())
    }

    /// Whether the connection can be shut down, and in which OS direction:
    /// only a `Connected` socket can. While a connect is in flight the call
    /// is a conflict; in any other phase the state is wrong.
    pub fn shutdown(&self, shutdown_type: ShutdownType) -> (r: Result<OsShutdown, ErrorCode>)
        ensures
            r == shutdown_result(*self, shutdown_type),
    {
        match self.tcp_state {
            TcpState::Connected => {},
            TcpState::Connecting | TcpState::ConnectReady => {
                return Err(ErrorCode::ConcurrencyConflict)
            },
            _ => return Err(ErrorCode::InvalidState),
        }
        let how = match shutdown_type {
            ShutdownType::Receive => OsShutdown::Read,
            ShutdownType::Send => OsShutdown::Write,
            ShutdownType::Both => OsShutdown::Both,
        };
        Ok(how)
    }
}

/// Brings a requested backlog into the range that the OS call takes.
pub fn clamped_backlog(value: u64) -> (b: i32)
    ensures
        b == clamp_backlog(value),
        MIN_BACKLOG <= b <= MAX_BACKLOG,
{
    if value < 1 {
        MIN_BACKLOG
    } else if value > 0x7fff_ffff {
        MAX_BACKLOG
    } else {
        value as i32
    }
}

/// A requested buffer size as the platform's size type holds it.
pub fn buffer_size(value: u64) -> (n: usize)
    ensures
        n == saturate_size(value),
{
    if value > usize::MAX as u64 {
        usize::MAX
    } else {
        value as usize
    }
}

} // verus!
