use socket_dispatch::dispatch::AddError;
use socket_dispatch::dispatch::DispatchTable;
use socket_dispatch::dispatch::RemoveError;
use socket_dispatch::socket::RawSocket;
use socket_dispatch::socket::SocketHandle;
use socket_dispatch::socket::TcpSocket;
use socket_dispatch::socket::TcpState;
use socket_dispatch::socket::UdpSocket;
use socket_dispatch::wire::IpAddress;
use socket_dispatch::wire::IpEndpoint;
use socket_dispatch::wire::IpListenEndpoint;
use socket_dispatch::wire::IpProtocol;
use socket_dispatch::wire::IpRepr;
use socket_dispatch::wire::IpVersion;
use socket_dispatch::wire::TcpRepr;
use socket_dispatch::wire::UdpRepr;

fn ip_repr(src: IpAddress, dst: IpAddress) -> IpRepr {
    IpRepr {
        src_addr: src,
        dst_addr: dst,
    }
}

fn udp_socket_at(addr: Option<IpAddress>, port: u16) -> UdpSocket {
    let mut s = UdpSocket::new();
    s.set_endpoint(IpListenEndpoint { addr, port });
    s
}

#[test]
fn raw_add_get_remove() {
    let mut table = DispatchTable::new();
    let h = SocketHandle(7);
    let s = RawSocket::new(IpVersion::Ipv4, IpProtocol(17));
    assert!(table.add_raw_socket(&s, h).is_ok());
    assert_eq!(table.get_raw_socket(IpVersion::Ipv4, IpProtocol(17)), Some(h));
    assert_eq!(table.get_raw_socket(IpVersion::Ipv6, IpProtocol(17)), None);
    assert_eq!(table.get_raw_socket(IpVersion::Ipv4, IpProtocol(6)), None);
    assert!(table.remove_raw_socket(h).is_ok());
    assert_eq!(table.get_raw_socket(IpVersion::Ipv4, IpProtocol(17)), None);
    assert!(matches!(
        table.remove_raw_socket(h),
        Err(RemoveError::SocketNotFound)
    ));
}

#[test]
fn raw_no_overwrite_leaves_table_unchanged() {
    let mut table = DispatchTable::new();
    let s = RawSocket::new(IpVersion::Ipv4, IpProtocol(17));
    assert!(table.add_raw_socket(&s, SocketHandle(1)).is_ok());
    let before = table.clone();
    let r = table.add_raw_socket(&s, SocketHandle(2));
    assert!(matches!(r, Err(AddError::AlreadyInUse)));
    assert_eq!(table, before);
    assert_eq!(
        table.get_raw_socket(IpVersion::Ipv4, IpProtocol(17)),
        Some(SocketHandle(1))
    );
    // reusing the handle under another key is refused too
    let s2 = RawSocket::new(IpVersion::Ipv6, IpProtocol(6));
    assert!(matches!(
        table.add_raw_socket(&s2, SocketHandle(1)),
        Err(AddError::AlreadyInUse)
    ));
    assert_eq!(table, before);
}

#[test]
fn udp_lookup_precedence() {
    let mut table = DispatchTable::new();
    let h_exact = SocketHandle(1);
    let h_any = SocketHandle(2);
    let addr = IpAddress::v4(1, 2, 3, 4);
    assert!(table
        .add_udp_socket(&udp_socket_at(Some(addr), 80), h_exact)
        .is_ok());
    assert!(table
        .add_udp_socket(&udp_socket_at(None, 80), h_any)
        .is_ok());
    let to_exact = ip_repr(IpAddress::v4(9, 9, 9, 9), addr);
    let to_other = ip_repr(IpAddress::v4(9, 9, 9, 9), IpAddress::v4(5, 6, 7, 8));
    let dg = UdpRepr {
        src_port: 5555,
        dst_port: 80,
    };
    assert_eq!(table.get_udp_socket(&to_exact, &dg), Some(h_exact));
    assert_eq!(table.get_udp_socket(&to_other, &dg), Some(h_any));
    let wrong_port = UdpRepr {
        src_port: 5555,
        dst_port: 81,
    };
    assert_eq!(table.get_udp_socket(&to_exact, &wrong_port), None);
}

#[test]
fn udp_unspecified_address_is_a_distinct_key() {
    let mut table = DispatchTable::new();
    let h = SocketHandle(3);
    // an explicit 0.0.0.0 bind, not the any-address wildcard
    let unspec_v4 = IpAddress::v4(0, 0, 0, 0);
    assert!(table
        .add_udp_socket(&udp_socket_at(Some(unspec_v4), 80), h)
        .is_ok());
    let v4_pkt = ip_repr(IpAddress::v4(9, 9, 9, 9), IpAddress::v4(1, 2, 3, 4));
    let dg = UdpRepr {
        src_port: 5555,
        dst_port: 80,
    };
    // reached through the third fallback step for a v4 packet
    assert_eq!(table.get_udp_socket(&v4_pkt, &dg), Some(h));
    // a v6 packet's unspecified address is a different key
    let v6_pkt = ip_repr(IpAddress::Ipv6(9), IpAddress::Ipv6(42));
    assert_eq!(table.get_udp_socket(&v6_pkt, &dg), None);
}

#[test]
fn udp_unbound_socket_is_skipped() {
    let mut table = DispatchTable::new();
    let h = SocketHandle(4);
    let unbound = UdpSocket::new();
    assert!(table.add_udp_socket(&unbound, h).is_ok());
    // nothing was indexed, so the handle is unknown to the remove path
    assert!(matches!(
        table.remove_udp_socket(h),
        Err(RemoveError::SocketNotFound)
    ));
}

#[test]
fn udp_bound_to_port_zero_with_address_is_indexed() {
    let mut table = DispatchTable::new();
    let h = SocketHandle(5);
    let addr = IpAddress::v4(10, 0, 0, 1);
    assert!(table
        .add_udp_socket(&udp_socket_at(Some(addr), 0), h)
        .is_ok());
    let pkt = ip_repr(IpAddress::v4(9, 9, 9, 9), addr);
    let dg = UdpRepr {
        src_port: 5555,
        dst_port: 0,
    };
    assert_eq!(table.get_udp_socket(&pkt, &dg), Some(h));
    assert!(table.remove_udp_socket(h).is_ok());
}

#[test]
fn udp_no_overwrite() {
    let mut table = DispatchTable::new();
    let ep_sock = udp_socket_at(Some(IpAddress::v4(1, 2, 3, 4)), 80);
    assert!(table.add_udp_socket(&ep_sock, SocketHandle(1)).is_ok());
    let before = table.clone();
    assert!(matches!(
        table.add_udp_socket(&ep_sock, SocketHandle(2)),
        Err(AddError::AlreadyInUse)
    ));
    assert_eq!(table, before);
    let other = udp_socket_at(Some(IpAddress::v4(4, 3, 2, 1)), 81);
    assert!(matches!(
        table.add_udp_socket(&other, SocketHandle(1)),
        Err(AddError::AlreadyInUse)
    ));
    assert_eq!(table, before);
}

fn listener_at(le: IpListenEndpoint) -> TcpSocket {
    let mut s = TcpSocket::new();
    s.set_state(TcpState::Listen);
    s.set_listen_endpoint(Some(le));
    s
}

fn established_at(le: IpListenEndpoint, remote: IpEndpoint) -> TcpSocket {
    let mut s = TcpSocket::new();
    s.set_state(TcpState::Established);
    s.set_listen_endpoint(Some(le));
    s.set_remote_endpoint(Some(remote));
    s
}

#[test]
fn tcp_established_over_listen() {
    let mut table = DispatchTable::new();
    let h_listen = SocketHandle(1);
    let h_est = SocketHandle(2);
    let any_80 = IpListenEndpoint {
        addr: None,
        port: 80,
    };
    let remote = IpEndpoint {
        addr: IpAddress::v4(9, 9, 9, 9),
        port: 1234,
    };
    assert!(table.add_tcp_socket(&listener_at(any_80), h_listen).is_ok());
    assert!(table
        .add_tcp_socket(&established_at(any_80, remote), h_est)
        .is_ok());
    let from_remote = ip_repr(IpAddress::v4(9, 9, 9, 9), IpAddress::v4(1, 1, 1, 1));
    let seg = TcpRepr {
        src_port: 1234,
        dst_port: 80,
    };
    assert_eq!(table.get_tcp_socket(&from_remote, &seg), Some(h_est));
    let from_elsewhere = ip_repr(IpAddress::v4(8, 8, 8, 8), IpAddress::v4(1, 1, 1, 1));
    assert_eq!(table.get_tcp_socket(&from_elsewhere, &seg), Some(h_listen));
    let other_port = TcpRepr {
        src_port: 4321,
        dst_port: 80,
    };
    assert_eq!(table.get_tcp_socket(&from_remote, &other_port), Some(h_listen));
}

#[test]
fn tcp_empty_entry_is_garbage_collected() {
    let mut table = DispatchTable::new();
    let h = SocketHandle(1);
    let any_80 = IpListenEndpoint {
        addr: None,
        port: 80,
    };
    assert!(table.add_tcp_socket(&listener_at(any_80), h).is_ok());
    assert!(table.remove_tcp_socket(h).is_ok());
    let pkt = ip_repr(IpAddress::v4(9, 9, 9, 9), IpAddress::v4(1, 1, 1, 1));
    let seg = TcpRepr {
        src_port: 1234,
        dst_port: 80,
    };
    assert_eq!(table.get_tcp_socket(&pkt, &seg), None);
    // the same after the last established socket leaves
    let remote = IpEndpoint {
        addr: IpAddress::v4(9, 9, 9, 9),
        port: 1234,
    };
    assert!(table
        .add_tcp_socket(&established_at(any_80, remote), h)
        .is_ok());
    assert_eq!(table.get_tcp_socket(&pkt, &seg), Some(h));
    assert!(table.remove_tcp_socket(h).is_ok());
    assert_eq!(table.get_tcp_socket(&pkt, &seg), None);
    assert!(matches!(
        table.remove_tcp_socket(h),
        Err(RemoveError::SocketNotFound)
    ));
}

#[test]
fn tcp_unbound_socket_is_skipped() {
    let mut table = DispatchTable::new();
    let h = SocketHandle(1);
    assert!(table.add_tcp_socket(&TcpSocket::new(), h).is_ok());
    assert!(matches!(
        table.remove_tcp_socket(h),
        Err(RemoveError::SocketNotFound)
    ));
}

#[test]
fn tcp_no_overwrite() {
    let mut table = DispatchTable::new();
    let any_80 = IpListenEndpoint {
        addr: None,
        port: 80,
    };
    let remote = IpEndpoint {
        addr: IpAddress::v4(9, 9, 9, 9),
        port: 1234,
    };
    let est = established_at(any_80, remote);
    assert!(table.add_tcp_socket(&est, SocketHandle(1)).is_ok());
    let before = table.clone();
    // same (local, remote) pair under a different handle
    assert!(matches!(
        table.add_tcp_socket(&est, SocketHandle(2)),
        Err(AddError::AlreadyInUse)
    ));
    assert_eq!(table, before);
    // a handle that is already registered anywhere is refused
    assert!(matches!(
        table.add_tcp_socket(&listener_at(any_80), SocketHandle(1)),
        Err(AddError::AlreadyInUse)
    ));
    assert_eq!(table, before);
    // two listeners at one local endpoint are fine
    assert!(table
        .add_tcp_socket(&listener_at(any_80), SocketHandle(2))
        .is_ok());
}

#[test]
fn tcp_local_endpoint_derives_the_bind_key() {
    let mut table = DispatchTable::new();
    let h = SocketHandle(1);
    let local = IpEndpoint {
        addr: IpAddress::v4(1, 2, 3, 4),
        port: 80,
    };
    let remote = IpEndpoint {
        addr: IpAddress::v4(9, 9, 9, 9),
        port: 1234,
    };
    let mut s = TcpSocket::new();
    s.set_state(TcpState::Established);
    s.set_local_endpoint(Some(local));
    s.set_remote_endpoint(Some(remote));
    assert!(table.add_tcp_socket(&s, h).is_ok());
    let pkt = ip_repr(IpAddress::v4(9, 9, 9, 9), IpAddress::v4(1, 2, 3, 4));
    let seg = TcpRepr {
        src_port: 1234,
        dst_port: 80,
    };
    assert_eq!(table.get_tcp_socket(&pkt, &seg), Some(h));
}

#[test]
fn tcp_smallest_listener_wins() {
    let mut table = DispatchTable::new();
    let any_80 = IpListenEndpoint {
        addr: None,
        port: 80,
    };
    assert!(table
        .add_tcp_socket(&listener_at(any_80), SocketHandle(5))
        .is_ok());
    assert!(table
        .add_tcp_socket(&listener_at(any_80), SocketHandle(2))
        .is_ok());
    assert!(table
        .add_tcp_socket(&listener_at(any_80), SocketHandle(9))
        .is_ok());
    let pkt = ip_repr(IpAddress::v4(9, 9, 9, 9), IpAddress::v4(1, 1, 1, 1));
    let seg = TcpRepr {
        src_port: 1234,
        dst_port: 80,
    };
    assert_eq!(table.get_tcp_socket(&pkt, &seg), Some(SocketHandle(2)));
}

#[test]
fn tcp_lookup_fallback_steps() {
    let mut table = DispatchTable::new();
    let exact = IpListenEndpoint {
        addr: Some(IpAddress::v4(1, 2, 3, 4)),
        port: 80,
    };
    let any = IpListenEndpoint {
        addr: None,
        port: 80,
    };
    let h_exact = SocketHandle(1);
    let h_any = SocketHandle(2);
    assert!(table.add_tcp_socket(&listener_at(exact), h_exact).is_ok());
    assert!(table.add_tcp_socket(&listener_at(any), h_any).is_ok());
    let seg = TcpRepr {
        src_port: 1234,
        dst_port: 80,
    };
    let to_exact = ip_repr(IpAddress::v4(9, 9, 9, 9), IpAddress::v4(1, 2, 3, 4));
    assert_eq!(table.get_tcp_socket(&to_exact, &seg), Some(h_exact));
    let to_other = ip_repr(IpAddress::v4(9, 9, 9, 9), IpAddress::v4(5, 6, 7, 8));
    assert_eq!(table.get_tcp_socket(&to_other, &seg), Some(h_any));
}
