use cap_net_ext::{AddressFamily, Blocking, PoolExt, TcpListenerExt};
use cap_std::ambient_authority;
use cap_std::ipnet::IpNet;
use cap_std::net::{Pool, TcpListener};
use wasi_tcp::address::{IpSocketAddress, Ipv4SocketAddress, SocketAddressFamily};
use wasi_tcp::error::OsError;
use wasi_tcp::host::{Host, Resource};
use wasi_tcp::network::Network;
use wasi_tcp::socket::TcpState;

fn os_result<T>(r: std::io::Result<T>) -> Result<(), OsError> {
    match r {
        Ok(_) => Ok(()),
        Err(_) => Err(OsError::Other),
    }
}

#[test]
fn bound_listener_has_an_assigned_port() {
    let mut pool = Pool::new();
    pool.insert_ip_net_port_any("0.0.0.0/0".parse::<IpNet>().unwrap(), ambient_authority());
    let mut host = Host::new();
    let network = host.push_network(Network::new(pool, false)).unwrap();
    let this = host.push_socket(SocketAddressFamily::Ipv4, false).unwrap();
    let listener = TcpListener::new(AddressFamily::Ipv4, Blocking::No).unwrap();

    let any = IpSocketAddress::Ipv4(Ipv4SocketAddress { port: 0, address: (0, 0, 0, 0) });
    let binder = host.start_bind(this, network, any).unwrap();
    assert_eq!(binder.address(), any);
    let bound = match host.table.get(network) {
        Ok(Resource::Network(n)) => n
            .pool
            .tcp_binder("0.0.0.0:0")
            .and_then(|binder| binder.bind_existing_tcp_listener(&listener)),
        _ => panic!("the network is registered"),
    };
    assert_eq!(host.bind_completed(this, os_result(bound)), Ok(()));
    assert_eq!(host.finish_bind(this), Ok(()));

    let backlog = host.start_listen(this).unwrap();
    assert_eq!(host.listen_completed(this, os_result(listener.listen(backlog))), Ok(()));
    assert_eq!(host.finish_listen(this), Ok(()));
    assert_eq!(host.socket(this).unwrap().tcp_state, TcpState::Listening);

    assert_eq!(host.local_address(this), Ok(()));
    let addr = listener.local_addr().unwrap();
    assert_ne!(addr.port(), 0);
}
