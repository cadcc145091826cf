use socket_dispatch::dispatch::DispatchTable;
use socket_dispatch::socket::Dhcpv4Socket;
use socket_dispatch::socket::DirtySet;
use socket_dispatch::socket::DnsSocket;
use socket_dispatch::socket::IcmpSocket;
use socket_dispatch::socket::RawSocket;
use socket_dispatch::socket::Socket;
use socket_dispatch::socket::SocketHandle;
use socket_dispatch::socket::TcpSocket;
use socket_dispatch::socket::TcpState;
use socket_dispatch::socket::UdpSocket;
use socket_dispatch::tracker::SocketTracker;
use socket_dispatch::wire::IpAddress;
use socket_dispatch::wire::IpEndpoint;
use socket_dispatch::wire::IpListenEndpoint;
use socket_dispatch::wire::IpProtocol;
use socket_dispatch::wire::IpRepr;
use socket_dispatch::wire::IpVersion;
use socket_dispatch::wire::TcpRepr;
use socket_dispatch::wire::UdpRepr;

fn ip_repr(src: IpAddress, dst: IpAddress) -> IpRepr {
    IpRepr {
        src_addr: src,
        dst_addr: dst,
    }
}

#[test]
fn tracker_noop_release_leaves_table_unchanged() {
    let mut table = DispatchTable::new();
    let mut dirty = DirtySet::new();
    let h = SocketHandle(1);
    let mut socket = UdpSocket::new();
    socket.set_endpoint(IpListenEndpoint {
        addr: Some(IpAddress::v4(1, 2, 3, 4)),
        port: 80,
    });
    assert!(table.add_udp_socket(&socket, h).is_ok());
    let before = table.clone();
    let tracker = SocketTracker::new(h, &socket);
    tracker.release(&mut socket, &mut table, &mut dirty);
    assert_eq!(table, before);
    assert_eq!(dirty.len(), 0);
}

#[test]
fn tracker_udp_rebind_moves_the_entry() {
    let mut table = DispatchTable::new();
    let mut dirty = DirtySet::new();
    let h = SocketHandle(1);
    let old_ep = IpListenEndpoint {
        addr: Some(IpAddress::v4(1, 2, 3, 4)),
        port: 80,
    };
    let new_ep = IpListenEndpoint {
        addr: Some(IpAddress::v4(1, 2, 3, 4)),
        port: 81,
    };
    let mut socket = UdpSocket::new();
    socket.set_endpoint(old_ep);
    assert!(table.add_udp_socket(&socket, h).is_ok());
    let tracker = SocketTracker::new(h, &socket);
    socket.set_endpoint(new_ep);
    tracker.release(&mut socket, &mut table, &mut dirty);
    let pkt = ip_repr(IpAddress::v4(9, 9, 9, 9), IpAddress::v4(1, 2, 3, 4));
    let to_old = UdpRepr {
        src_port: 5,
        dst_port: 80,
    };
    let to_new = UdpRepr {
        src_port: 5,
        dst_port: 81,
    };
    assert_eq!(table.get_udp_socket(&pkt, &to_old), None);
    assert_eq!(table.get_udp_socket(&pkt, &to_new), Some(h));
}

#[test]
fn tracker_udp_first_bind_adds_without_remove() {
    let mut table = DispatchTable::new();
    let mut dirty = DirtySet::new();
    let h = SocketHandle(1);
    let mut socket = UdpSocket::new();
    // not indexed yet: wholly unspecified endpoint
    assert!(table.add_udp_socket(&socket, h).is_ok());
    let tracker = SocketTracker::new(h, &socket);
    socket.set_endpoint(IpListenEndpoint {
        addr: None,
        port: 80,
    });
    tracker.release(&mut socket, &mut table, &mut dirty);
    let pkt = ip_repr(IpAddress::v4(9, 9, 9, 9), IpAddress::v4(1, 2, 3, 4));
    let dg = UdpRepr {
        src_port: 5,
        dst_port: 80,
    };
    assert_eq!(table.get_udp_socket(&pkt, &dg), Some(h));
}

#[test]
fn tracker_tcp_listen_to_established() {
    let mut table = DispatchTable::new();
    let mut dirty = DirtySet::new();
    let h = SocketHandle(1);
    let any_80 = IpListenEndpoint {
        addr: None,
        port: 80,
    };
    let remote = IpEndpoint {
        addr: IpAddress::v4(9, 9, 9, 9),
        port: 1234,
    };
    let mut socket = TcpSocket::new();
    socket.set_state(TcpState::Listen);
    socket.set_listen_endpoint(Some(any_80));
    assert!(table.add_tcp_socket(&socket, h).is_ok());
    let tracker = SocketTracker::new(h, &socket);
    socket.set_state(TcpState::Established);
    socket.set_remote_endpoint(Some(remote));
    tracker.release(&mut socket, &mut table, &mut dirty);
    let seg = TcpRepr {
        src_port: 1234,
        dst_port: 80,
    };
    let from_remote = ip_repr(IpAddress::v4(9, 9, 9, 9), IpAddress::v4(1, 1, 1, 1));
    assert_eq!(table.get_tcp_socket(&from_remote, &seg), Some(h));
    // the old listening registration is gone: another source finds nothing
    let other = TcpRepr {
        src_port: 7777,
        dst_port: 80,
    };
    assert_eq!(table.get_tcp_socket(&from_remote, &other), None);
}

#[test]
fn tracker_tcp_close_removes_the_entry() {
    let mut table = DispatchTable::new();
    let mut dirty = DirtySet::new();
    let h = SocketHandle(1);
    let any_80 = IpListenEndpoint {
        addr: None,
        port: 80,
    };
    let mut socket = TcpSocket::new();
    socket.set_state(TcpState::Listen);
    socket.set_listen_endpoint(Some(any_80));
    assert!(table.add_tcp_socket(&socket, h).is_ok());
    let tracker = SocketTracker::new(h, &socket);
    socket.set_state(TcpState::Closed);
    tracker.release(&mut socket, &mut table, &mut dirty);
    let seg = TcpRepr {
        src_port: 1234,
        dst_port: 80,
    };
    let pkt = ip_repr(IpAddress::v4(9, 9, 9, 9), IpAddress::v4(1, 1, 1, 1));
    assert_eq!(table.get_tcp_socket(&pkt, &seg), None);
}

#[test]
fn tracker_tcp_open_adds_the_entry() {
    let mut table = DispatchTable::new();
    let mut dirty = DirtySet::new();
    let h = SocketHandle(1);
    let any_80 = IpListenEndpoint {
        addr: None,
        port: 80,
    };
    let mut socket = TcpSocket::new();
    // snapshot taken while Closed and unbound: nothing is indexed
    let tracker = SocketTracker::new(h, &socket);
    socket.set_state(TcpState::Listen);
    socket.set_listen_endpoint(Some(any_80));
    tracker.release(&mut socket, &mut table, &mut dirty);
    let seg = TcpRepr {
        src_port: 1234,
        dst_port: 80,
    };
    let pkt = ip_repr(IpAddress::v4(9, 9, 9, 9), IpAddress::v4(1, 1, 1, 1));
    assert_eq!(table.get_tcp_socket(&pkt, &seg), Some(h));
}

#[test]
fn tracker_other_tcp_changes_leave_the_index_alone() {
    let mut table = DispatchTable::new();
    let mut dirty = DirtySet::new();
    let h = SocketHandle(1);
    let any_80 = IpListenEndpoint {
        addr: None,
        port: 80,
    };
    let remote = IpEndpoint {
        addr: IpAddress::v4(9, 9, 9, 9),
        port: 1234,
    };
    let mut socket = TcpSocket::new();
    socket.set_state(TcpState::Established);
    socket.set_listen_endpoint(Some(any_80));
    socket.set_remote_endpoint(Some(remote));
    assert!(table.add_tcp_socket(&socket, h).is_ok());
    let before = table.clone();
    let tracker = SocketTracker::new(h, &socket);
    socket.set_state(TcpState::FinWait1);
    tracker.release(&mut socket, &mut table, &mut dirty);
    assert_eq!(table, before);
}

#[test]
fn dirty_socket_is_enqueued_once() {
    let mut table = DispatchTable::new();
    let mut dirty = DirtySet::new();
    let h = SocketHandle(1);
    let mut socket = UdpSocket::new();
    socket.set_dirty(true);
    let tracker = SocketTracker::new(h, &socket);
    tracker.release(&mut socket, &mut table, &mut dirty);
    assert_eq!(dirty.len(), 1);
    assert!(dirty.contains(h));
    // the socket now reports on-dirty-list: a second release enqueues nothing
    let tracker = SocketTracker::new(h, &socket);
    tracker.release(&mut socket, &mut table, &mut dirty);
    assert_eq!(dirty.len(), 1);
}

#[test]
fn already_listed_socket_is_not_reenqueued() {
    let mut table = DispatchTable::new();
    let mut dirty = DirtySet::new();
    let h = SocketHandle(1);
    let mut socket = Socket::Udp(UdpSocket::new());
    if let Socket::Udp(inner) = &mut socket {
        inner.set_dirty(true);
        inner.on_dirty_list = true;
    }
    let tracker = SocketTracker::new(h, &socket);
    tracker.release(&mut socket, &mut table, &mut dirty);
    assert_eq!(dirty.len(), 0);
    assert!(!dirty.contains(h));
}

#[test]
fn tracker_over_the_socket_union_dispatches_by_kind() {
    let mut table = DispatchTable::new();
    let mut dirty = DirtySet::new();
    let h = SocketHandle(1);
    let mut socket = Socket::Tcp(TcpSocket::new());
    let tracker = SocketTracker::new(h, &socket);
    let any_80 = IpListenEndpoint {
        addr: None,
        port: 80,
    };
    if let Socket::Tcp(inner) = &mut socket {
        inner.set_state(TcpState::Listen);
        inner.set_listen_endpoint(Some(any_80));
        inner.set_dirty(true);
    }
    tracker.release(&mut socket, &mut table, &mut dirty);
    let seg = TcpRepr {
        src_port: 1234,
        dst_port: 80,
    };
    let pkt = ip_repr(IpAddress::v4(9, 9, 9, 9), IpAddress::v4(1, 1, 1, 1));
    assert_eq!(table.get_tcp_socket(&pkt, &seg), Some(h));
    assert_eq!(dirty.len(), 1);
    if let Socket::Tcp(inner) = &socket {
        assert!(inner.on_dirty_list);
    } else {
        panic!("the socket's kind never changes");
    }
}

#[test]
fn noop_kinds_are_never_indexed_nor_enqueued() {
    let mut table = DispatchTable::new();
    let mut dirty = DirtySet::new();
    let before = table.clone();
    let mut icmp = IcmpSocket::new();
    let tracker = SocketTracker::new(SocketHandle(1), &icmp);
    tracker.release(&mut icmp, &mut table, &mut dirty);
    let mut dhcp = Dhcpv4Socket::new();
    let tracker = SocketTracker::new(SocketHandle(2), &dhcp);
    tracker.release(&mut dhcp, &mut table, &mut dirty);
    let mut dns = DnsSocket::new();
    let tracker = SocketTracker::new(SocketHandle(3), &dns);
    tracker.release(&mut dns, &mut table, &mut dirty);
    assert_eq!(table, before);
    assert_eq!(dirty.len(), 0);
}

#[test]
fn raw_tracker_never_touches_the_index() {
    let mut table = DispatchTable::new();
    let mut dirty = DirtySet::new();
    let h = SocketHandle(1);
    let mut socket = RawSocket::new(IpVersion::Ipv4, IpProtocol(17));
    assert!(table.add_raw_socket(&socket, h).is_ok());
    let before = table.clone();
    let tracker = SocketTracker::new(h, &socket);
    socket.set_dirty(true);
    tracker.release(&mut socket, &mut table, &mut dirty);
    assert_eq!(table, before);
    assert_eq!(dirty.len(), 1);
}
