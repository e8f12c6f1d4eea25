use cap_std::ambient_authority;
use cap_std::ipnet::IpNet;
use cap_std::net::Pool;
use wasi_tcp::address::{
    IpAddressFamily, IpSocketAddress, Ipv4SocketAddress, Ipv6SocketAddress, SocketAddressFamily,
};
use wasi_tcp::error::{ErrorCode, OsError};
use wasi_tcp::network::Network;
use wasi_tcp::socket::{
    buffer_size, clamped_backlog, map_os_result, BacklogUpdate, ConnectPoll, ConnectStep,
    HopLimitOption, OsShutdown, ShadowOptions, ShutdownType, SocketOption, TcpSocket, TcpState,
    MAX_BACKLOG, MIN_BACKLOG,
};

const ALL_STATES: [TcpState; 9] = [
    TcpState::Default,
    TcpState::BindStarted,
    TcpState::Bound,
    TcpState::ListenStarted,
    TcpState::Listening,
    TcpState::Connecting,
    TcpState::ConnectReady,
    TcpState::Connected,
    TcpState::ConnectFailed,
];

fn socket_in(state: TcpState, family: SocketAddressFamily) -> TcpSocket {
    let mut s = TcpSocket::new(family, false);
    s.tcp_state = state;
    s
}

fn v4(a: u8, b: u8, c: u8, d: u8, port: u16) -> IpSocketAddress {
    IpSocketAddress::Ipv4(Ipv4SocketAddress { port, address: (a, b, c, d) })
}

fn v6(address: (u16, u16, u16, u16, u16, u16, u16, u16), port: u16) -> IpSocketAddress {
    IpSocketAddress::Ipv6(Ipv6SocketAddress { port, flow_info: 0, address, scope_id: 0 })
}

fn start_bind(s: &TcpSocket, network: &Network, addr: &IpSocketAddress) -> Result<(), ErrorCode> {
    s.start_bind(network, addr).map(|binder| assert_eq!(binder.address(), *addr))
}

fn start_connect(
    s: &TcpSocket,
    network: &Network,
    addr: &IpSocketAddress,
) -> Result<(), ErrorCode> {
    s.start_connect(network, addr).map(|connecter| assert_eq!(connecter.address(), *addr))
}

fn authorize_bind(
    network: &Network,
    family: &SocketAddressFamily,
    addr: &IpSocketAddress,
) -> Result<(), ErrorCode> {
    network.authorize_bind(family, addr).map(|binder| assert_eq!(binder.address(), *addr))
}

fn authorize_connect(
    network: &Network,
    family: &SocketAddressFamily,
    addr: &IpSocketAddress,
) -> Result<(), ErrorCode> {
    network.authorize_connect(family, addr).map(|connecter| assert_eq!(connecter.address(), *addr))
}

fn open_network() -> Network {
    let mut pool = Pool::new();
    pool.insert_ip_net_port_any("0.0.0.0/0".parse::<IpNet>().unwrap(), ambient_authority());
    pool.insert_ip_net_port_any("::/0".parse::<IpNet>().unwrap(), ambient_authority());
    Network::new(pool, false)
}

#[test]
fn new_socket_starts_in_default() {
    let s = TcpSocket::new(SocketAddressFamily::Ipv4, false);
    assert_eq!(s.tcp_state, TcpState::Default);
    assert_eq!(s.family, SocketAddressFamily::Ipv4);
    assert_eq!(s.listen_backlog_size, None);
    assert_eq!(s.shadow, None);
    let s = TcpSocket::new(SocketAddressFamily::Ipv6 { v6only: true }, true);
    assert_eq!(
        s.shadow,
        Some(ShadowOptions {
            receive_buffer_size: None,
            send_buffer_size: None,
            hop_limit: None,
            keep_alive_idle_time: None,
        })
    );
}

#[test]
fn finish_without_start_is_not_in_progress() {
    for state in ALL_STATES {
        let mut s = socket_in(state, SocketAddressFamily::Ipv4);
        if state != TcpState::BindStarted {
            assert_eq!(s.finish_bind(), Err(ErrorCode::NotInProgress));
            assert_eq!(s.tcp_state, state);
        }
        if state != TcpState::ListenStarted {
            assert_eq!(s.finish_listen(), Err(ErrorCode::NotInProgress));
            assert_eq!(s.tcp_state, state);
        }
        if state != TcpState::Connecting && state != TcpState::ConnectReady {
            assert_eq!(s.finish_connect(), Err(ErrorCode::NotInProgress));
            assert_eq!(s.tcp_state, state);
        }
        if state != TcpState::Connecting {
            assert_eq!(
                s.connect_polled(ConnectPoll::Ready(Ok(()))),
                Err(ErrorCode::NotInProgress)
            );
            assert_eq!(s.tcp_state, state);
        }
    }
}

#[test]
fn settled_socket_rejects_every_start() {
    let network = open_network();
    let addr = v4(127, 0, 0, 1, 8080);
    for state in [TcpState::Connected, TcpState::ConnectFailed, TcpState::Listening] {
        let mut s = socket_in(state, SocketAddressFamily::Ipv4);
        assert_eq!(start_bind(&s, &network, &addr), Err(ErrorCode::InvalidState));
        assert_eq!(start_connect(&s, &network, &addr), Err(ErrorCode::InvalidState));
        assert_eq!(s.start_listen(), Err(ErrorCode::InvalidState));
        assert_eq!(s.bind_completed(Ok(())), Err(ErrorCode::InvalidState));
        assert_eq!(s.connect_completed(Ok(())), Err(ErrorCode::InvalidState));
        assert_eq!(s.listen_completed(Ok(())), Err(ErrorCode::InvalidState));
        assert_eq!(s.tcp_state, state);
    }
}

#[test]
fn start_bind_phase_errors() {
    let network = open_network();
    let addr = v4(0, 0, 0, 0, 0);
    for state in ALL_STATES {
        let s = socket_in(state, SocketAddressFamily::Ipv4);
        let expected = match state {
            TcpState::Default => Ok(()),
            TcpState::Bound
            | TcpState::Connected
            | TcpState::ConnectFailed
            | TcpState::Listening => Err(ErrorCode::InvalidState),
            TcpState::BindStarted
            | TcpState::Connecting
            | TcpState::ConnectReady
            | TcpState::ListenStarted => Err(ErrorCode::ConcurrencyConflict),
        };
        assert_eq!(start_bind(&s, &network, &addr), expected);
        let mut s = s;
        assert_eq!(s.bind_completed(Ok(())), expected);
        if state != TcpState::Default {
            assert_eq!(s.tcp_state, state);
        }
    }
}

#[test]
fn start_while_another_start_is_in_flight_is_a_conflict() {
    let network = open_network();
    let addr = v4(127, 0, 0, 1, 8080);
    let in_flight = [
        TcpState::BindStarted,
        TcpState::Connecting,
        TcpState::ConnectReady,
        TcpState::ListenStarted,
    ];
    for state in in_flight {
        let mut s = socket_in(state, SocketAddressFamily::Ipv4);
        assert_eq!(start_bind(&s, &network, &addr), Err(ErrorCode::ConcurrencyConflict));
        assert_eq!(start_connect(&s, &network, &addr), Err(ErrorCode::ConcurrencyConflict));
        assert_eq!(s.start_listen(), Err(ErrorCode::ConcurrencyConflict));
        assert_eq!(s.bind_completed(Ok(())), Err(ErrorCode::ConcurrencyConflict));
        assert_eq!(s.connect_completed(Ok(())), Err(ErrorCode::ConcurrencyConflict));
        assert_eq!(s.listen_completed(Ok(())), Err(ErrorCode::ConcurrencyConflict));
        assert_eq!(s.tcp_state, state);
    }
}

#[test]
fn failed_poll_is_reported_and_leaves_connecting() {
    let mut s = socket_in(TcpState::Connecting, SocketAddressFamily::Ipv4);
    assert_eq!(
        s.connect_polled(ConnectPoll::Failed(OsError::OutOfMemory)),
        Err(ErrorCode::OutOfResources)
    );
    assert_eq!(s.tcp_state, TcpState::Connecting);
    assert_eq!(
        s.connect_polled(ConnectPoll::Failed(OsError::InvalidInput)),
        Err(ErrorCode::InvalidArgument)
    );
    assert_eq!(s.tcp_state, TcpState::Connecting);
    assert_eq!(s.connect_polled(ConnectPoll::Ready(Ok(()))), Ok(()));
    assert_eq!(s.tcp_state, TcpState::Connected);
    let mut other = socket_in(TcpState::Bound, SocketAddressFamily::Ipv4);
    assert_eq!(
        other.connect_polled(ConnectPoll::Failed(OsError::OutOfMemory)),
        Err(ErrorCode::NotInProgress)
    );
    assert_eq!(other.tcp_state, TcpState::Bound);
}

#[test]
fn start_connect_phase_errors() {
    let network = open_network();
    let addr = v4(10, 0, 0, 1, 80);
    for state in ALL_STATES {
        let s = socket_in(state, SocketAddressFamily::Ipv4);
        let expected = match state {
            TcpState::Default => Ok(()),
            TcpState::Bound
            | TcpState::Connected
            | TcpState::ConnectFailed
            | TcpState::Listening => Err(ErrorCode::InvalidState),
            _ => Err(ErrorCode::ConcurrencyConflict),
        };
        assert_eq!(start_connect(&s, &network, &addr), expected);
    }
}

#[test]
fn start_listen_phase_errors() {
    for state in ALL_STATES {
        let s = socket_in(state, SocketAddressFamily::Ipv4);
        let expected = match state {
            TcpState::Bound => Ok(None),
            TcpState::Default
            | TcpState::Connected
            | TcpState::ConnectFailed
            | TcpState::Listening => Err(ErrorCode::InvalidState),
            _ => Err(ErrorCode::ConcurrencyConflict),
        };
        assert_eq!(s.start_listen(), expected);
    }
}

#[test]
fn bind_then_listen_walks_the_phases() {
    let network = open_network();
    let mut s = TcpSocket::new(SocketAddressFamily::Ipv4, false);
    assert_eq!(s.local_address(), Err(ErrorCode::InvalidState));
    assert_eq!(start_bind(&s, &network, &v4(0, 0, 0, 0, 0)), Ok(()));
    assert_eq!(s.tcp_state, TcpState::Default);
    assert_eq!(s.bind_completed(Ok(())), Ok(()));
    assert_eq!(s.tcp_state, TcpState::BindStarted);
    assert_eq!(s.local_address(), Err(ErrorCode::ConcurrencyConflict));
    assert_eq!(s.finish_bind(), Ok(()));
    assert_eq!(s.tcp_state, TcpState::Bound);
    assert_eq!(s.start_listen(), Ok(None));
    assert_eq!(s.listen_completed(Ok(())), Ok(()));
    assert_eq!(s.tcp_state, TcpState::ListenStarted);
    assert!(!s.is_listening());
    assert_eq!(s.finish_listen(), Ok(()));
    assert_eq!(s.tcp_state, TcpState::Listening);
    assert!(s.is_listening());
    assert_eq!(s.local_address(), Ok(()));
}

#[test]
fn failed_os_bind_leaves_default() {
    let mut s = TcpSocket::new(SocketAddressFamily::Ipv4, false);
    assert_eq!(s.bind_completed(Err(OsError::AddressInUse)), Err(ErrorCode::AddressInUse));
    assert_eq!(s.tcp_state, TcpState::Default);
    assert_eq!(
        s.bind_completed(Err(OsError::AddressFamilyNotSupported)),
        Err(ErrorCode::InvalidArgument)
    );
    assert_eq!(s.tcp_state, TcpState::Default);
}

#[test]
fn connect_completes_at_once() {
    let mut s = TcpSocket::new(SocketAddressFamily::Ipv4, false);
    assert_eq!(s.connect_completed(Ok(())), Ok(()));
    assert_eq!(s.tcp_state, TcpState::ConnectReady);
    assert_eq!(s.remote_address(), Err(ErrorCode::ConcurrencyConflict));
    assert_eq!(s.finish_connect(), Ok(ConnectStep::Established));
    assert_eq!(s.tcp_state, TcpState::Connected);
    assert_eq!(s.remote_address(), Ok(()));
}

#[test]
fn connect_in_progress_then_ready() {
    let mut s = TcpSocket::new(SocketAddressFamily::Ipv4, false);
    assert_eq!(s.connect_completed(Err(OsError::InProgress)), Ok(()));
    assert_eq!(s.tcp_state, TcpState::Connecting);
    assert_eq!(s.finish_connect(), Ok(ConnectStep::Poll));
    assert_eq!(s.tcp_state, TcpState::Connecting);
    assert_eq!(s.connect_polled(ConnectPoll::Ready(Ok(()))), Ok(()));
    assert_eq!(s.tcp_state, TcpState::Connected);
}

#[test]
fn connect_not_ready_would_block() {
    let mut s = socket_in(TcpState::Connecting, SocketAddressFamily::Ipv4);
    assert_eq!(s.connect_polled(ConnectPoll::NotReady), Err(ErrorCode::WouldBlock));
    assert_eq!(s.tcp_state, TcpState::Connecting);
    assert_eq!(s.connect_polled(ConnectPoll::NotReady), Err(ErrorCode::WouldBlock));
    assert_eq!(s.tcp_state, TcpState::Connecting);
}

#[test]
fn connect_failure_is_terminal() {
    let network = open_network();
    let mut s = socket_in(TcpState::Connecting, SocketAddressFamily::Ipv4);
    assert_eq!(
        s.connect_polled(ConnectPoll::Ready(Err(OsError::ConnectionRefused))),
        Err(ErrorCode::ConnectionRefused)
    );
    assert_eq!(s.tcp_state, TcpState::ConnectFailed);
    assert_eq!(start_connect(&s, &network, &v4(10, 0, 0, 1, 80)), Err(ErrorCode::InvalidState));
    assert_eq!(s.finish_connect(), Err(ErrorCode::NotInProgress));
    assert_eq!(s.tcp_state, TcpState::ConnectFailed);
}

#[test]
fn failed_os_connect_leaves_default() {
    let mut s = TcpSocket::new(SocketAddressFamily::Ipv4, false);
    assert_eq!(
        s.connect_completed(Err(OsError::NetworkUnreachable)),
        Err(ErrorCode::RemoteUnreachable)
    );
    assert_eq!(s.tcp_state, TcpState::Default);
    assert_eq!(
        s.connect_completed(Err(OsError::AddressFamilyNotSupported)),
        Err(ErrorCode::InvalidArgument)
    );
    assert_eq!(s.tcp_state, TcpState::Default);
}

#[test]
fn second_start_connect_is_a_conflict() {
    let network = open_network();
    let remote = v4(192, 0, 2, 1, 443);
    let mut s = TcpSocket::new(SocketAddressFamily::Ipv4, false);
    assert_eq!(start_connect(&s, &network, &remote), Ok(()));
    assert_eq!(s.connect_completed(Err(OsError::InProgress)), Ok(()));
    assert_eq!(start_connect(&s, &network, &remote), Err(ErrorCode::ConcurrencyConflict));
    assert_eq!(s.connect_completed(Ok(())), Err(ErrorCode::ConcurrencyConflict));
    assert_eq!(s.tcp_state, TcpState::Connecting);
}

#[test]
fn listen_out_of_descriptors_is_out_of_resources() {
    let mut s = socket_in(TcpState::Bound, SocketAddressFamily::Ipv4);
    assert_eq!(
        s.listen_completed(Err(OsError::TooManyOpenFiles)),
        Err(ErrorCode::OutOfResources)
    );
    assert_eq!(s.tcp_state, TcpState::Bound);
    assert_eq!(s.listen_completed(Err(OsError::AddressInUse)), Err(ErrorCode::AddressInUse));
    assert_eq!(s.tcp_state, TcpState::Bound);
}

#[test]
fn listen_uses_the_stored_backlog() {
    let mut s = TcpSocket::new(SocketAddressFamily::Ipv4, false);
    assert_eq!(s.set_listen_backlog_size(77), Ok(BacklogUpdate::Stored));
    s.tcp_state = TcpState::Bound;
    assert_eq!(s.start_listen(), Ok(Some(77)));
}

#[test]
fn accept_requires_listening() {
    for state in ALL_STATES {
        let s = socket_in(state, SocketAddressFamily::Ipv4);
        if state == TcpState::Listening {
            assert_eq!(s.accept(), Ok(()));
        } else {
            assert_eq!(s.accept(), Err(ErrorCode::InvalidState));
            assert_eq!(s.accept_completed(Ok(())).err(), Some(ErrorCode::InvalidState));
        }
    }
}

#[test]
fn accepted_socket_is_connected_at_once() {
    let listener = socket_in(TcpState::Listening, SocketAddressFamily::Ipv6 { v6only: true });
    let (socket, options) = listener.accept_completed(Ok(())).unwrap();
    assert_eq!(socket.tcp_state, TcpState::Connected);
    assert_eq!(socket.family, SocketAddressFamily::Ipv6 { v6only: true });
    assert_eq!(socket.listen_backlog_size, None);
    assert!(options.is_empty());
    assert_eq!(listener.tcp_state, TcpState::Listening);
}

#[test]
fn accept_would_block() {
    let listener = socket_in(TcpState::Listening, SocketAddressFamily::Ipv4);
    assert_eq!(
        listener.accept_completed(Err(OsError::WouldBlock)).err(),
        Some(ErrorCode::WouldBlock)
    );
    assert_eq!(
        listener.accept_completed(Err(OsError::ConnectionAborted)).err(),
        Some(ErrorCode::ConnectionAborted)
    );
}

#[test]
fn accept_replays_recorded_options() {
    let mut listener = TcpSocket::new(SocketAddressFamily::Ipv6 { v6only: false }, true);
    assert_eq!(listener.receive_buffer_size_set(4096, Ok(())), Ok(()));
    assert_eq!(listener.send_buffer_size_set(8192, Ok(())), Ok(()));
    assert_eq!(listener.hop_limit_set(64, Ok(())), Ok(()));
    assert_eq!(listener.keep_alive_idle_time_set(5_000_000_000, Ok(())), Ok(()));
    listener.tcp_state = TcpState::Listening;
    let (socket, options) = listener.accept_completed(Ok(())).unwrap();
    assert_eq!(
        options,
        vec![
            SocketOption::ReceiveBufferSize(4096),
            SocketOption::SendBufferSize(8192),
            SocketOption::Ipv6UnicastHops(64),
            SocketOption::KeepAliveIdleTime(5_000_000_000),
        ]
    );
    assert_eq!(
        socket.shadow,
        Some(ShadowOptions {
            receive_buffer_size: None,
            send_buffer_size: None,
            hop_limit: None,
            keep_alive_idle_time: None,
        })
    );
}

#[test]
fn accept_replays_no_hop_limit_on_ipv4() {
    let mut listener = TcpSocket::new(SocketAddressFamily::Ipv4, true);
    assert_eq!(listener.hop_limit_set(64, Ok(())), Ok(()));
    assert_eq!(listener.send_buffer_size_set(1, Ok(())), Ok(()));
    listener.tcp_state = TcpState::Listening;
    let (_, options) = listener.accept_completed(Ok(())).unwrap();
    assert_eq!(options, vec![SocketOption::SendBufferSize(1)]);
}

#[test]
fn options_are_not_recorded_without_a_side_table() {
    let mut s = TcpSocket::new(SocketAddressFamily::Ipv4, false);
    assert_eq!(s.hop_limit_set(64, Ok(())), Ok(()));
    assert_eq!(s.shadow, None);
}

#[test]
fn failed_option_set_records_nothing() {
    let mut s = TcpSocket::new(SocketAddressFamily::Ipv4, true);
    let before = s;
    assert_eq!(s.hop_limit_set(0, Err(OsError::InvalidInput)), Err(ErrorCode::InvalidArgument));
    assert_eq!(
        s.keep_alive_idle_time_set(1, Err(OsError::NoProtocolOption)),
        Err(ErrorCode::NotSupported)
    );
    assert_eq!(
        s.receive_buffer_size_set(1, Err(OsError::NoBufferSpace)),
        Err(ErrorCode::OutOfResources)
    );
    assert_eq!(s.send_buffer_size_set(1, Err(OsError::Other)), Err(ErrorCode::Unknown));
    assert_eq!(s, before);
}

#[test]
fn zero_backlog_is_invalid_in_every_phase() {
    for state in ALL_STATES {
        let mut s = socket_in(state, SocketAddressFamily::Ipv4);
        assert_eq!(s.set_listen_backlog_size(0), Err(ErrorCode::InvalidArgument));
        assert_eq!(s.listen_backlog_updated(0, Ok(())), Err(ErrorCode::InvalidArgument));
        assert_eq!(s, socket_in(state, SocketAddressFamily::Ipv4));
    }
}

#[test]
fn backlog_by_phase() {
    for state in ALL_STATES {
        let mut s = socket_in(state, SocketAddressFamily::Ipv4);
        let r = s.set_listen_backlog_size(128);
        match state {
            TcpState::Default | TcpState::BindStarted | TcpState::Bound => {
                assert_eq!(r, Ok(BacklogUpdate::Stored));
                assert_eq!(s.listen_backlog_size, Some(128));
            }
            TcpState::Listening => {
                assert_eq!(r, Ok(BacklogUpdate::Relisten(128)));
                assert_eq!(s.listen_backlog_size, None);
            }
            TcpState::Connected | TcpState::ConnectFailed => {
                assert_eq!(r, Err(ErrorCode::InvalidState));
                assert_eq!(s.listen_backlog_size, None);
            }
            _ => {
                assert_eq!(r, Err(ErrorCode::ConcurrencyConflict));
                assert_eq!(s.listen_backlog_size, None);
            }
        }
    }
}

#[test]
fn backlog_is_clamped() {
    assert_eq!(MIN_BACKLOG, 1);
    assert_eq!(MAX_BACKLOG, i32::MAX);
    assert_eq!(clamped_backlog(1), 1);
    assert_eq!(clamped_backlog(5), 5);
    assert_eq!(clamped_backlog(2_147_483_647), 2_147_483_647);
    assert_eq!(clamped_backlog(2_147_483_648), 2_147_483_647);
    assert_eq!(clamped_backlog(u64::MAX), 2_147_483_647);
    let mut s = TcpSocket::new(SocketAddressFamily::Ipv4, false);
    assert_eq!(s.set_listen_backlog_size(u64::MAX), Ok(BacklogUpdate::Stored));
    assert_eq!(s.listen_backlog_size, Some(i32::MAX));
}

#[test]
fn live_backlog_update() {
    let mut s = socket_in(TcpState::Listening, SocketAddressFamily::Ipv4);
    s.listen_backlog_size = Some(10);
    assert_eq!(s.set_listen_backlog_size(20), Ok(BacklogUpdate::Relisten(20)));
    assert_eq!(s.listen_backlog_size, Some(10));
    assert_eq!(
        s.listen_backlog_updated(20, Err(OsError::OperationNotSupported)),
        Err(ErrorCode::NotSupported)
    );
    assert_eq!(s.listen_backlog_size, Some(10));
    assert_eq!(s.listen_backlog_updated(20, Err(OsError::InvalidInput)), Err(ErrorCode::NotSupported));
    assert_eq!(s.listen_backlog_size, Some(10));
    assert_eq!(s.listen_backlog_updated(20, Ok(())), Ok(()));
    assert_eq!(s.listen_backlog_size, Some(20));
    let mut bound = socket_in(TcpState::Bound, SocketAddressFamily::Ipv4);
    assert_eq!(bound.listen_backlog_updated(20, Ok(())), Err(ErrorCode::InvalidState));
    assert_eq!(bound.listen_backlog_size, None);
    for state in ALL_STATES {
        let mut s = socket_in(state, SocketAddressFamily::Ipv4);
        let expected = match state {
            TcpState::Listening => Ok(()),
            TcpState::Connecting | TcpState::ConnectReady | TcpState::ListenStarted => {
                Err(ErrorCode::ConcurrencyConflict)
            }
            _ => Err(ErrorCode::InvalidState),
        };
        assert_eq!(s.listen_backlog_updated(20, Ok(())), expected);
        assert_eq!(s.tcp_state, state);
    }
}

#[test]
fn ipv6_only_scenario() {
    let mut s = TcpSocket::new(SocketAddressFamily::Ipv6 { v6only: false }, false);
    assert_eq!(s.ipv6_only(), Ok(false));
    assert_eq!(s.set_ipv6_only(), Ok(()));
    assert_eq!(s.ipv6_only_completed(true, Ok(())), Ok(()));
    assert_eq!(s.ipv6_only(), Ok(true));
    assert_eq!(s.bind_completed(Ok(())), Ok(()));
    assert_eq!(s.set_ipv6_only(), Err(ErrorCode::ConcurrencyConflict));
    assert_eq!(s.finish_bind(), Ok(()));
    assert_eq!(s.set_ipv6_only(), Err(ErrorCode::InvalidState));
    assert_eq!(s.ipv6_only_completed(false, Ok(())), Err(ErrorCode::InvalidState));
    assert_eq!(s.ipv6_only(), Ok(true));
}

#[test]
fn ipv6_only_on_ipv4_socket() {
    let mut s = TcpSocket::new(SocketAddressFamily::Ipv4, false);
    assert_eq!(s.ipv6_only(), Err(ErrorCode::InvalidArgument));
    assert_eq!(s.set_ipv6_only(), Err(ErrorCode::InvalidArgument));
    assert_eq!(s.ipv6_only_completed(true, Ok(())), Err(ErrorCode::InvalidArgument));
    assert_eq!(s.family, SocketAddressFamily::Ipv4);
}

#[test]
fn failed_os_ipv6_only_changes_nothing() {
    let mut s = TcpSocket::new(SocketAddressFamily::Ipv6 { v6only: true }, false);
    assert_eq!(
        s.ipv6_only_completed(false, Err(OsError::InvalidInput)),
        Err(ErrorCode::InvalidArgument)
    );
    assert_eq!(s.ipv6_only(), Ok(true));
}

#[test]
fn shutdown_by_phase() {
    for state in ALL_STATES {
        let s = socket_in(state, SocketAddressFamily::Ipv4);
        let expected = match state {
            TcpState::Connected => Ok(OsShutdown::Both),
            TcpState::Connecting | TcpState::ConnectReady => Err(ErrorCode::ConcurrencyConflict),
            _ => Err(ErrorCode::InvalidState),
        };
        assert_eq!(s.shutdown(ShutdownType::Both), expected);
    }
    let s = socket_in(TcpState::Connected, SocketAddressFamily::Ipv4);
    assert_eq!(s.shutdown(ShutdownType::Receive), Ok(OsShutdown::Read));
    assert_eq!(s.shutdown(ShutdownType::Send), Ok(OsShutdown::Write));
}

#[test]
fn addresses_by_phase() {
    for state in ALL_STATES {
        let s = socket_in(state, SocketAddressFamily::Ipv4);
        let local = match state {
            TcpState::Default => Err(ErrorCode::InvalidState),
            TcpState::BindStarted => Err(ErrorCode::ConcurrencyConflict),
            _ => Ok(()),
        };
        assert_eq!(s.local_address(), local);
        let remote = match state {
            TcpState::Connected => Ok(()),
            TcpState::Connecting | TcpState::ConnectReady => Err(ErrorCode::ConcurrencyConflict),
            _ => Err(ErrorCode::InvalidState),
        };
        assert_eq!(s.remote_address(), remote);
    }
}

#[test]
fn family_and_hop_limit_option() {
    let s4 = TcpSocket::new(SocketAddressFamily::Ipv4, false);
    let s6 = TcpSocket::new(SocketAddressFamily::Ipv6 { v6only: false }, false);
    assert_eq!(s4.address_family(), IpAddressFamily::Ipv4);
    assert_eq!(s6.address_family(), IpAddressFamily::Ipv6);
    assert_eq!(s4.hop_limit_option(), HopLimitOption::Ipv4Ttl);
    assert_eq!(s6.hop_limit_option(), HopLimitOption::Ipv6UnicastHops);
}

#[test]
fn buffer_size_saturates() {
    assert_eq!(buffer_size(0), 0);
    assert_eq!(buffer_size(65536), 65536);
    assert_eq!(buffer_size(u64::MAX), usize::try_from(u64::MAX).unwrap_or(usize::MAX));
}

#[test]
fn os_results_are_translated() {
    assert_eq!(map_os_result(Ok::<u32, OsError>(7)), Ok(7));
    assert_eq!(map_os_result(Err::<u32, OsError>(OsError::TimedOut)), Err(ErrorCode::Timeout));
}

#[test]
fn os_error_translation() {
    let table = [
        (OsError::WouldBlock, ErrorCode::WouldBlock),
        (OsError::Interrupted, ErrorCode::WouldBlock),
        (OsError::InProgress, ErrorCode::Unknown),
        (OsError::NotPermitted, ErrorCode::AccessDenied),
        (OsError::AccessDenied, ErrorCode::AccessDenied),
        (OsError::AddressInUse, ErrorCode::AddressInUse),
        (OsError::AddressNotAvailable, ErrorCode::AddressNotBindable),
        (OsError::Already, ErrorCode::ConcurrencyConflict),
        (OsError::TimedOut, ErrorCode::Timeout),
        (OsError::ConnectionRefused, ErrorCode::ConnectionRefused),
        (OsError::ConnectionReset, ErrorCode::ConnectionReset),
        (OsError::ConnectionAborted, ErrorCode::ConnectionAborted),
        (OsError::InvalidInput, ErrorCode::InvalidArgument),
        (OsError::HostUnreachable, ErrorCode::RemoteUnreachable),
        (OsError::HostDown, ErrorCode::RemoteUnreachable),
        (OsError::NetworkDown, ErrorCode::RemoteUnreachable),
        (OsError::NetworkUnreachable, ErrorCode::RemoteUnreachable),
        (OsError::NoNetwork, ErrorCode::RemoteUnreachable),
        (OsError::IsConnected, ErrorCode::InvalidState),
        (OsError::NotConnected, ErrorCode::InvalidState),
        (OsError::DestinationAddressRequired, ErrorCode::InvalidState),
        (OsError::TooManyOpenFilesInSystem, ErrorCode::NewSocketLimit),
        (OsError::TooManyOpenFiles, ErrorCode::NewSocketLimit),
        (OsError::MessageTooLong, ErrorCode::DatagramTooLarge),
        (OsError::OutOfMemory, ErrorCode::OutOfResources),
        (OsError::NoBufferSpace, ErrorCode::OutOfResources),
        (OsError::OperationNotSupported, ErrorCode::NotSupported),
        (OsError::NoProtocolOption, ErrorCode::NotSupported),
        (OsError::ProtocolFamilyNotSupported, ErrorCode::NotSupported),
        (OsError::ProtocolNotSupported, ErrorCode::NotSupported),
        (OsError::WrongProtocolType, ErrorCode::NotSupported),
        (OsError::SocketTypeNotSupported, ErrorCode::NotSupported),
        (OsError::AddressFamilyNotSupported, ErrorCode::NotSupported),
        (OsError::Other, ErrorCode::Unknown),
    ];
    for (os, code) in table {
        assert_eq!(ErrorCode::from_os_error(os), code);
    }
}

#[test]
fn unicast_addresses() {
    assert!(v4(127, 0, 0, 1, 80).is_unicast());
    assert!(v4(0, 0, 0, 0, 0).is_unicast());
    assert!(v4(223, 255, 255, 255, 1).is_unicast());
    assert!(!v4(224, 0, 0, 1, 80).is_unicast());
    assert!(!v4(239, 255, 255, 255, 80).is_unicast());
    assert!(v4(240, 0, 0, 1, 80).is_unicast());
    assert!(!v4(255, 255, 255, 255, 80).is_unicast());
    assert!(v4(255, 255, 255, 254, 80).is_unicast());
    assert!(v6((0, 0, 0, 0, 0, 0, 0, 1), 80).is_unicast());
    assert!(!v6((0xff02, 0, 0, 0, 0, 0, 0, 1), 80).is_unicast());
    assert!(v6((0xfe80, 0, 0, 0, 0, 0, 0, 1), 80).is_unicast());
    assert!(!v6((0, 0, 0, 0, 0, 0xffff, 0xe000, 0x0001), 80).is_unicast());
    assert!(!v6((0, 0, 0, 0, 0, 0xffff, 0xffff, 0xffff), 80).is_unicast());
    assert!(v6((0, 0, 0, 0, 0, 0xffff, 0x7f00, 0x0001), 80).is_unicast());
}

#[test]
fn remote_addresses() {
    assert!(v4(10, 0, 0, 1, 80).is_valid_remote());
    assert!(!v4(0, 0, 0, 0, 80).is_valid_remote());
    assert!(!v4(10, 0, 0, 1, 0).is_valid_remote());
    assert!(!v6((0, 0, 0, 0, 0, 0, 0, 0), 80).is_valid_remote());
    assert!(!v6((0, 0, 0, 0, 0, 0xffff, 0, 0), 80).is_valid_remote());
    assert!(v6((0, 0, 0, 0, 0, 0, 0, 1), 80).is_valid_remote());
    assert!(v4(0, 0, 0, 0, 80).is_unspecified());
    assert!(!v4(0, 0, 0, 1, 80).is_unspecified());
    assert_eq!(v4(1, 2, 3, 4, 99).port(), 99);
    assert_eq!(v6((0, 0, 0, 0, 0, 0, 0, 1), 7).port(), 7);
}

#[test]
fn address_families() {
    let a4 = v4(10, 0, 0, 1, 80);
    let a6 = v6((0, 0, 0, 0, 0, 0, 0, 1), 80);
    assert_eq!(a4.family(), IpAddressFamily::Ipv4);
    assert_eq!(a6.family(), IpAddressFamily::Ipv6);
    assert!(a4.matches_family(&SocketAddressFamily::Ipv4));
    assert!(!a4.matches_family(&SocketAddressFamily::Ipv6 { v6only: false }));
    assert!(a6.matches_family(&SocketAddressFamily::Ipv6 { v6only: true }));
    assert!(!a6.matches_family(&SocketAddressFamily::Ipv4));
}

#[test]
fn bind_address_is_validated_before_the_pool() {
    let network = Network::new(Pool::new(), false);
    let s = TcpSocket::new(SocketAddressFamily::Ipv4, false);
    assert_eq!(start_bind(&s, &network, &v4(224, 0, 0, 1, 80)), Err(ErrorCode::InvalidArgument));
    assert_eq!(
        start_bind(&s, &network, &v6((0, 0, 0, 0, 0, 0, 0, 1), 80)),
        Err(ErrorCode::InvalidArgument)
    );
    assert_eq!(start_bind(&s, &network, &v4(127, 0, 0, 1, 80)), Err(ErrorCode::AccessDenied));
}

#[test]
fn connect_address_is_validated_before_the_pool() {
    let network = Network::new(Pool::new(), false);
    let s = TcpSocket::new(SocketAddressFamily::Ipv6 { v6only: true }, false);
    assert_eq!(
        start_connect(&s, &network, &v6((0xff02, 0, 0, 0, 0, 0, 0, 1), 80)),
        Err(ErrorCode::InvalidArgument)
    );
    assert_eq!(
        start_connect(&s, &network, &v6((0, 0, 0, 0, 0, 0, 0, 0), 80)),
        Err(ErrorCode::InvalidArgument)
    );
    assert_eq!(
        start_connect(&s, &network, &v6((0, 0, 0, 0, 0, 0, 0, 1), 0)),
        Err(ErrorCode::InvalidArgument)
    );
    assert_eq!(start_connect(&s, &network, &v4(10, 0, 0, 1, 80)), Err(ErrorCode::InvalidArgument));
    assert_eq!(
        start_connect(&s, &network, &v6((0, 0, 0, 0, 0, 0, 0, 1), 80)),
        Err(ErrorCode::AccessDenied)
    );
}

#[test]
fn pool_grants_decide_authorization() {
    let mut pool = Pool::new();
    pool.insert_ip_net_port_range(
        "127.0.0.0/8".parse::<IpNet>().unwrap(),
        1024,
        Some(9000),
        ambient_authority(),
    );
    pool.insert_ip_net("::1/128".parse::<IpNet>().unwrap(), 8080, ambient_authority());
    let network = Network::new(pool, false);
    let f4 = SocketAddressFamily::Ipv4;
    let f6 = SocketAddressFamily::Ipv6 { v6only: true };
    assert_eq!(authorize_bind(&network, &f4, &v4(127, 0, 0, 1, 1024)), Ok(()));
    assert_eq!(authorize_bind(&network, &f4, &v4(127, 9, 9, 9, 8999)), Ok(()));
    assert_eq!(authorize_bind(&network, &f4, &v4(127, 0, 0, 1, 1023)), Err(ErrorCode::AccessDenied));
    assert_eq!(authorize_bind(&network, &f4, &v4(127, 0, 0, 1, 9000)), Err(ErrorCode::AccessDenied));
    assert_eq!(authorize_bind(&network, &f4, &v4(128, 0, 0, 1, 2000)), Err(ErrorCode::AccessDenied));
    assert_eq!(authorize_connect(&network, &f4, &v4(127, 0, 0, 1, 2000)), Ok(()));
    assert_eq!(
        authorize_connect(&network, &f4, &v4(10, 0, 0, 1, 2000)),
        Err(ErrorCode::AccessDenied)
    );
    let loopback6 = (0, 0, 0, 0, 0, 0, 0, 1);
    assert_eq!(authorize_connect(&network, &f6, &v6(loopback6, 8080)), Ok(()));
    assert_eq!(authorize_bind(&network, &f6, &v6(loopback6, 8080)), Ok(()));
    assert_eq!(authorize_connect(&network, &f6, &v6(loopback6, 8081)), Err(ErrorCode::AccessDenied));
    assert_eq!(
        authorize_bind(&network, &f6, &v6((0, 0, 0, 0, 0, 0, 0, 2), 8080)),
        Err(ErrorCode::AccessDenied)
    );
}

#[test]
fn pool_ignores_flow_and_scope() {
    let mut pool = Pool::new();
    pool.insert_ip_net("fe80::1/128".parse::<IpNet>().unwrap(), 53, ambient_authority());
    let network = Network::new(pool, true);
    assert!(network.allow_ip_name_lookup);
    let addr = IpSocketAddress::Ipv6(Ipv6SocketAddress {
        port: 53,
        flow_info: 0xabcde,
        address: (0xfe80, 0, 0, 0, 0, 0, 0, 1),
        scope_id: 3,
    });
    assert_eq!(
        authorize_connect(&network, &SocketAddressFamily::Ipv6 { v6only: false }, &addr),
        Ok(())
    );
}
