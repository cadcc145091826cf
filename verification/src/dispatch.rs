//! The address-dispatch index: three sub-tables (raw, UDP, TCP), each a
//! forward map from addressing key to handle(s) plus a reverse map from
//! handle to key, kept mutually consistent by every operation.
//!
//! The TCP sub-table is held flat: a map from handle to local endpoint for
//! listening sockets, and a map from (local, remote) endpoint pair to handle
//! for established ones.  A local endpoint "has an entry" exactly when some
//! socket is registered at it, so no empty entry can ever be retained.

use vstd::prelude::*;

use crate::assoc::map_of;
use crate::assoc::unique_keys;
use crate::assoc::vec_map_get;
use crate::assoc::vec_map_insert;
use crate::assoc::vec_map_remove;
use crate::assoc::KeyEq;
use crate::socket::RawSocket;
use crate::socket::SocketHandle;
use crate::socket::TcpSocket;
use crate::socket::UdpSocket;
use crate::wire::IpAddress;
use crate::wire::IpEndpoint;
use crate::wire::IpListenEndpoint;
use crate::wire::IpProtocol;
use crate::wire::IpRepr;
use crate::wire::IpVersion;
use crate::wire::TcpRepr;
use crate::wire::UdpRepr;

verus! {

/// Failure of an add operation: the key or the handle is already registered.
#[derive(Clone, Copy, Debug, PartialEq, Eq, Structural)]
pub enum AddError {
    AlreadyInUse,
}

/// Failure of a remove operation: the handle is not currently tracked.
#[derive(Clone, Copy, Debug, PartialEq, Eq, Structural)]
pub enum RemoveError {
    SocketNotFound,
}

/// The mathematical content of a [`DispatchTable`].
#[verifier::ext_equal]
pub struct TableView {
    /// Raw forward map: (version, protocol) to handle.
    pub raw: Map<(IpVersion, IpProtocol), SocketHandle>,
    /// Raw reverse map: handle to its key.
    pub raw_rev: Map<SocketHandle, (IpVersion, IpProtocol)>,
    /// UDP forward map: listen endpoint to handle.
    pub udp: Map<IpListenEndpoint, SocketHandle>,
    /// UDP reverse map: handle to its listen endpoint.
    pub udp_rev: Map<SocketHandle, IpListenEndpoint>,
    /// TCP listening registrations: handle to the local endpoint it listens at.
    pub tcp_listen: Map<SocketHandle, IpListenEndpoint>,
    /// TCP established registrations: (local, remote) endpoint pair to handle.
    pub tcp_est: Map<(IpListenEndpoint, IpEndpoint), SocketHandle>,
    /// TCP reverse map: handle to (local endpoint, optional remote endpoint);
    /// the optional remote distinguishes established from listening membership.
    pub tcp_rev: Map<SocketHandle, (IpListenEndpoint, Option<IpEndpoint>)>,
}

/// Forward and reverse raw maps are inverse to each other.
pub open spec fn raw_wf(t: TableView) -> bool {
    &&& forall|k: (IpVersion, IpProtocol)| #[trigger]
        t.raw.dom().contains(k) ==> t.raw_rev.dom().contains(t.raw[k]) && t.raw_rev[t.raw[k]] == k
    &&& forall|h: SocketHandle| #[trigger]
        t.raw_rev.dom().contains(h) ==> t.raw.dom().contains(t.raw_rev[h]) && t.raw[t.raw_rev[h]]
            == h
}

/// Forward and reverse UDP maps are inverse to each other.
pub open spec fn udp_wf(t: TableView) -> bool {
    &&& forall|k: IpListenEndpoint| #[trigger]
        t.udp.dom().contains(k) ==> t.udp_rev.dom().contains(t.udp[k]) && t.udp_rev[t.udp[k]] == k
    &&& forall|h: SocketHandle| #[trigger]
        t.udp_rev.dom().contains(h) ==> t.udp.dom().contains(t.udp_rev[h]) && t.udp[t.udp_rev[h]]
            == h
}

/// Every TCP registration is recorded in the reverse map, and every reverse
/// entry points at exactly the registration it was recorded for: a handle is
/// listed under exactly one of {listening, established}, never both.
pub open spec fn tcp_wf(t: TableView) -> bool {
    &&& forall|h: SocketHandle| #[trigger]
        t.tcp_listen.dom().contains(h) ==> t.tcp_rev.dom().contains(h) && t.tcp_rev[h] == (
        t.tcp_listen[h],
        None::<IpEndpoint>,
        )
    &&& forall|k: (IpListenEndpoint, IpEndpoint)| #[trigger]
        t.tcp_est.dom().contains(k) ==> t.tcp_rev.dom().contains(t.tcp_est[k]) && t.tcp_rev[
            t.tcp_est[k]
        ] == (k.0, Some(k.1))
    &&& forall|h: SocketHandle| #[trigger] t.tcp_rev.dom().contains(h) ==> {
            match t.tcp_rev[h] {
                (le, Some(re)) => t.tcp_est.dom().contains((le, re)) && t.tcp_est[(le, re)] == h
                    && !t.tcp_listen.dom().contains(h),
                (le, None) => t.tcp_listen.dom().contains(h) && t.tcp_listen[h] == le,
            }
        }
}

/// The bijection invariant over the whole table.
pub open spec fn wf_view(t: TableView) -> bool {
    raw_wf(t) && udp_wf(t) && tcp_wf(t)
}

/// The table with no socket registered.
pub open spec fn empty_view() -> TableView {
    TableView {
        raw: Map::empty(),
        raw_rev: Map::empty(),
        udp: Map::empty(),
        udp_rev: Map::empty(),
        tcp_listen: Map::empty(),
        tcp_est: Map::empty(),
        tcp_rev: Map::empty(),
    }
}

/// Whether an add at this raw key for this handle is accepted.
pub open spec fn raw_add_ok(t: TableView, key: (IpVersion, IpProtocol), h: SocketHandle) -> bool {
    !t.raw.dom().contains(key) && !t.raw_rev.dom().contains(h)
}

/// The table after adding a raw socket; unchanged when the add is refused.
pub open spec fn spec_add_raw(t: TableView, key: (IpVersion, IpProtocol), h: SocketHandle) -> TableView {
    if raw_add_ok(t, key, h) {
        TableView { raw: t.raw.insert(key, h), raw_rev: t.raw_rev.insert(h, key), ..t }
    } else {
        t
    }
}

/// The table after removing a raw socket; unchanged when the handle is unknown.
pub open spec fn spec_remove_raw(t: TableView, h: SocketHandle) -> TableView {
    if t.raw_rev.dom().contains(h) {
        TableView { raw: t.raw.remove(t.raw_rev[h]), raw_rev: t.raw_rev.remove(h), ..t }
    } else {
        t
    }
}

/// A UDP socket occupies an index key exactly when its endpoint is specified.
pub open spec fn udp_indexed(ep: IpListenEndpoint) -> bool {
    ep.spec_is_specified()
}

/// Whether an add at this UDP endpoint for this handle is accepted (an
/// unspecified endpoint is not an error: the add is skipped).
pub open spec fn udp_add_ok(t: TableView, ep: IpListenEndpoint, h: SocketHandle) -> bool {
    !udp_indexed(ep) || (!t.udp.dom().contains(ep) && !t.udp_rev.dom().contains(h))
}

/// The table after adding a UDP socket; unchanged when the add is skipped or
/// refused.
pub open spec fn spec_add_udp(t: TableView, ep: IpListenEndpoint, h: SocketHandle) -> TableView {
    if udp_indexed(ep) && !t.udp.dom().contains(ep) && !t.udp_rev.dom().contains(h) {
        TableView { udp: t.udp.insert(ep, h), udp_rev: t.udp_rev.insert(h, ep), ..t }
    } else {
        t
    }
}

/// The table after removing a UDP socket; unchanged when the handle is unknown.
pub open spec fn spec_remove_udp(t: TableView, h: SocketHandle) -> TableView {
    if t.udp_rev.dom().contains(h) {
        TableView { udp: t.udp.remove(t.udp_rev[h]), udp_rev: t.udp_rev.remove(h), ..t }
    } else {
        t
    }
}

/// The local endpoint a TCP socket is indexed at: its explicit listen
/// endpoint when it has one, else one derived from its local endpoint, else
/// none (the socket is not yet addressable).
pub open spec fn tcp_bind_key(s: TcpSocket) -> Option<IpListenEndpoint> {
    match s.listen_endpoint {
        Some(le) => Some(le),
        None => match s.local_endpoint {
            Some(ep) => Some(IpListenEndpoint::spec_from_endpoint(ep)),
            None => None,
        },
    }
}

/// Whether an add of this TCP socket is accepted (an unbound socket is not an
/// error: the add is skipped).
pub open spec fn tcp_add_ok(t: TableView, s: TcpSocket, h: SocketHandle) -> bool {
    match tcp_bind_key(s) {
        None => true,
        Some(le) => !t.tcp_rev.dom().contains(h) && (match s.remote_endpoint {
            Some(re) => !t.tcp_est.dom().contains((le, re)),
            None => true,
        }),
    }
}

/// The table after adding a TCP socket; unchanged when the add is skipped or
/// refused.
pub open spec fn spec_add_tcp(t: TableView, s: TcpSocket, h: SocketHandle) -> TableView {
    match tcp_bind_key(s) {
        None => t,
        Some(le) => {
            if t.tcp_rev.dom().contains(h) {
                t
            } else {
                match s.remote_endpoint {
                    Some(re) => {
                        if t.tcp_est.dom().contains((le, re)) {
                            t
                        } else {
                            TableView {
                                tcp_est: t.tcp_est.insert((le, re), h),
                                tcp_rev: t.tcp_rev.insert(h, (le, Some(re))),
                                ..t
                            }
                        }
                    },
                    None => TableView {
                        tcp_listen: t.tcp_listen.insert(h, le),
                        tcp_rev: t.tcp_rev.insert(h, (le, None)),
                        ..t
                    },
                }
            }
        },
    }
}

/// The table after removing a TCP socket; unchanged when the handle is
/// unknown.  The stored reverse entry, not the socket's current state, names
/// the registration to delete.
pub open spec fn spec_remove_tcp(t: TableView, h: SocketHandle) -> TableView {
    if t.tcp_rev.dom().contains(h) {
        match t.tcp_rev[h] {
            (le, Some(re)) => TableView {
                tcp_est: t.tcp_est.remove((le, re)),
                tcp_rev: t.tcp_rev.remove(h),
                ..t
            },
            (_le, None) => TableView {
                tcp_listen: t.tcp_listen.remove(h),
                tcp_rev: t.tcp_rev.remove(h),
                ..t
            },
        }
    } else {
        t
    }
}

/// Whether any socket, listening or established, is registered at this local
/// endpoint: the flat form of "the local endpoint has an entry".
pub open spec fn tcp_has_entry(t: TableView, le: IpListenEndpoint) -> bool {
    (exists|h: SocketHandle| #[trigger] t.tcp_listen.dom().contains(h) && t.tcp_listen[h] == le)
        || (exists|re: IpEndpoint| #[trigger] t.tcp_est.dom().contains((le, re)))
}

/// The three-step wildcard fallback on a packet's destination: exact
/// (address, port), then the any-address wildcard on the port, then the
/// explicit unspecified address of the packet's IP version on the port.
pub open spec fn spec_udp_lookup(t: TableView, dst_addr: IpAddress, dst_port: u16) -> Option<
    SocketHandle,
> {
    let k1 = IpListenEndpoint { addr: Some(dst_addr), port: dst_port };
    let k2 = IpListenEndpoint { addr: None, port: dst_port };
    let k3 = IpListenEndpoint {
        addr: Some(IpAddress::spec_unspecified(dst_addr.spec_version())),
        port: dst_port,
    };
    if t.udp.dom().contains(k1) {
        Some(t.udp[k1])
    } else if t.udp.dom().contains(k2) {
        Some(t.udp[k2])
    } else if t.udp.dom().contains(k3) {
        Some(t.udp[k3])
    } else {
        None
    }
}

/// The local-endpoint entry a TCP packet resolves to, by the same three-step
/// fallback as UDP on its destination.
pub open spec fn spec_tcp_resolve(t: TableView, dst_addr: IpAddress, dst_port: u16) -> Option<
    IpListenEndpoint,
> {
    let k1 = IpListenEndpoint { addr: Some(dst_addr), port: dst_port };
    let k2 = IpListenEndpoint { addr: None, port: dst_port };
    let k3 = IpListenEndpoint {
        addr: Some(IpAddress::spec_unspecified(dst_addr.spec_version())),
        port: dst_port,
    };
    if tcp_has_entry(t, k1) {
        Some(k1)
    } else if tcp_has_entry(t, k2) {
        Some(k2)
    } else if tcp_has_entry(t, k3) {
        Some(k3)
    } else {
        None
    }
}

/// The address-dispatch index over all socket kinds.
#[derive(Clone, Debug, PartialEq, Eq)]
pub struct DispatchTable {
    raw: Vec<((IpVersion, IpProtocol), SocketHandle)>,
    udp: Vec<(IpListenEndpoint, SocketHandle)>,
    tcp_listen: Vec<(SocketHandle, IpListenEndpoint)>,
    tcp_est: Vec<((IpListenEndpoint, IpEndpoint), SocketHandle)>,
    rev_raw: Vec<(SocketHandle, (IpVersion, IpProtocol))>,
    rev_udp: Vec<(SocketHandle, IpListenEndpoint)>,
    rev_tcp: Vec<(SocketHandle, (IpListenEndpoint, Option<IpEndpoint>))>,
}

impl View for DispatchTable {
    type V = TableView;

    closed spec fn view(&self) -> TableView {
        TableView {
            raw: map_of(self.raw@),
            raw_rev: map_of(self.rev_raw@),
            udp: map_of(self.udp@),
            udp_rev: map_of(self.rev_udp@),
            tcp_listen: map_of(self.tcp_listen@),
            tcp_est: map_of(self.tcp_est@),
            tcp_rev: map_of(self.rev_tcp@),
        }
    }
}

impl DispatchTable {
    /// Each sub-table's vector holds each key at most once.
    pub closed spec fn wf_rep(&self) -> bool {
        unique_keys(self.raw@) && unique_keys(self.udp@) && unique_keys(self.tcp_listen@)
            && unique_keys(self.tcp_est@) && unique_keys(self.rev_raw@) && unique_keys(
            self.rev_udp@,
        ) && unique_keys(self.rev_tcp@)
    }

    /// The table invariant: a well-formed representation whose maps satisfy
    /// the bijection invariant.
    pub open spec fn wf(&self) -> bool {
        self.wf_rep() && wf_view(self@)
    }

    /// An empty dispatch table.
    pub fn new() -> (t: DispatchTable)
        ensures
            t.wf(),
            t@ == empty_view(),
    {
        let t = DispatchTable {
            raw: Vec::new(),
            udp: Vec::new(),
            tcp_listen: Vec::new(),
            tcp_est: Vec::new(),
            rev_raw: Vec::new(),
            rev_udp: Vec::new(),
            rev_tcp: Vec::new(),
        };
        proof {
            crate::assoc::lemma_empty::<(IpVersion, IpProtocol), SocketHandle>();
            crate::assoc::lemma_empty::<SocketHandle, (IpVersion, IpProtocol)>();
            crate::assoc::lemma_empty::<IpListenEndpoint, SocketHandle>();
            crate::assoc::lemma_empty::<SocketHandle, IpListenEndpoint>();
            crate::assoc::lemma_empty::<(IpListenEndpoint, IpEndpoint), SocketHandle>();
            crate::assoc::lemma_empty::<SocketHandle, (IpListenEndpoint, Option<IpEndpoint>)>();
            assert(t@ =~= empty_view());
        }
        t
    }

    /// Index a raw socket at its (version, protocol) key.
    pub fn add_raw_socket(&mut self, socket: &RawSocket, handle: SocketHandle) -> (r: Result<
        (),
        AddError,
    >)
        requires
            old(self).wf(),
        ensures
            final(self).wf(),
            final(self)@ == spec_add_raw(
                old(self)@,
                (socket.ip_version, socket.ip_protocol),
                handle,
            ),
            r is Ok <==> raw_add_ok(old(self)@, (socket.ip_version, socket.ip_protocol), handle),
    {
        let key = (socket.ip_version(), socket.ip_protocol());
        if vec_map_get(&self.raw, &key).is_some() || vec_map_get(&self.rev_raw, &handle).is_some() {
            return Err(AddError::AlreadyInUse);
        }
        vec_map_insert(&mut self.raw, key, handle);
        vec_map_insert(&mut self.rev_raw, handle, key);
        proof {
            assert(self@ =~= spec_add_raw(old(self)@, key, handle));
        }
        Ok(())
    }

    /// Delete a raw socket's forward and reverse entries.
    pub fn remove_raw_socket(&mut self, handle: SocketHandle) -> (r: Result<(), RemoveError>)
        requires
            old(self).wf(),
        ensures
            final(self).wf(),
            final(self)@ == spec_remove_raw(old(self)@, handle),
            r is Ok <==> old(self)@.raw_rev.dom().contains(handle),
    {
        let key = match vec_map_get(&self.rev_raw, &handle) {
            None => {
                return Err(RemoveError::SocketNotFound);
            },
            Some(key) => key,
        };
        vec_map_remove(&mut self.raw, &key);
        vec_map_remove(&mut self.rev_raw, &handle);
        proof {
            assert(self@ =~= spec_remove_raw(old(self)@, handle));
        }
        Ok(())
    }

    /// Index a UDP socket at its current endpoint.  A socket whose endpoint
    /// is wholly unspecified is not yet addressable: the add is skipped and
    /// succeeds without indexing.
    pub fn add_udp_socket(&mut self, socket: &UdpSocket, handle: SocketHandle) -> (r: Result<
        (),
        AddError,
    >)
        requires
            old(self).wf(),
        ensures
            final(self).wf(),
            final(self)@ == spec_add_udp(old(self)@, socket.endpoint, handle),
            r is Ok <==> udp_add_ok(old(self)@, socket.endpoint, handle),
    {
        let ep = socket.endpoint();
        if !ep.is_specified() {
            return Ok(());
        }
        if vec_map_get(&self.udp, &ep).is_some() || vec_map_get(&self.rev_udp, &handle).is_some() {
            return Err(AddError::AlreadyInUse);
        }
        vec_map_insert(&mut self.udp, ep, handle);
        vec_map_insert(&mut self.rev_udp, handle, ep);
        proof {
            assert(self@ =~= spec_add_udp(old(self)@, ep, handle));
        }
        Ok(())
    }

    /// Delete a UDP socket's forward and reverse entries.
    pub fn remove_udp_socket(&mut self, handle: SocketHandle) -> (r: Result<(), RemoveError>)
        requires
            old(self).wf(),
        ensures
            final(self).wf(),
            final(self)@ == spec_remove_udp(old(self)@, handle),
            r is Ok <==> old(self)@.udp_rev.dom().contains(handle),
    {
        let ep = match vec_map_get(&self.rev_udp, &handle) {
            None => {
                return Err(RemoveError::SocketNotFound);
            },
            Some(ep) => ep,
        };
        vec_map_remove(&mut self.udp, &ep);
        vec_map_remove(&mut self.rev_udp, &handle);
        proof {
            assert(self@ =~= spec_remove_udp(old(self)@, handle));
        }
        Ok(())
    }

    /// Index a TCP socket at its effective local endpoint, as an established
    /// socket when it has a remote endpoint, else as a listening one.  An
    /// unbound socket is not yet addressable: the add is skipped and succeeds
    /// without indexing.
    pub fn add_tcp_socket(&mut self, socket: &TcpSocket, handle: SocketHandle) -> (r: Result<
        (),
        AddError,
    >)
        requires
            old(self).wf(),
        ensures
            final(self).wf(),
            final(self)@ == spec_add_tcp(old(self)@, *socket, handle),
            r is Ok <==> tcp_add_ok(old(self)@, *socket, handle),
    {
        let le = match socket.listen_endpoint() {
            Some(le) => le,
            None => match socket.local_endpoint() {
                Some(ep) => IpListenEndpoint::from_endpoint(ep),
                None => {
                    return Ok(());
                },
            },
        };
        if vec_map_get(&self.rev_tcp, &handle).is_some() {
            return Err(AddError::AlreadyInUse);
        }
        match socket.remote_endpoint() {
            Some(re) => {
                let key = (le, re);
                if vec_map_get(&self.tcp_est, &key).is_some() {
                    return Err(AddError::AlreadyInUse);
                }
                vec_map_insert(&mut self.tcp_est, key, handle);
                vec_map_insert(&mut self.rev_tcp, handle, (le, Some(re)));
                proof {
                    assert(self@ =~= spec_add_tcp(old(self)@, *socket, handle));
                }
            },
            None => {
                proof {
                    if self@.tcp_listen.dom().contains(handle) {
                        assert(self@.tcp_rev.dom().contains(handle));
                    }
                }
                vec_map_insert(&mut self.tcp_listen, handle, le);
                vec_map_insert(&mut self.rev_tcp, handle, (le, None));
                proof {
                    assert(self@ =~= spec_add_tcp(old(self)@, *socket, handle));
                }
            },
        }
        Ok(())
    }

    /// Remove a TCP socket from whichever of {established map, listening set}
    /// its reverse entry records, then delete the reverse entry.  With the
    /// flat representation, a local endpoint whose last socket is removed is
    /// at once without any entry.
    pub fn remove_tcp_socket(&mut self, handle: SocketHandle) -> (r: Result<(), RemoveError>)
        requires
            old(self).wf(),
        ensures
            final(self).wf(),
            final(self)@ == spec_remove_tcp(old(self)@, handle),
            r is Ok <==> old(self)@.tcp_rev.dom().contains(handle),
    {
        let (le, remote) = match vec_map_get(&self.rev_tcp, &handle) {
            None => {
                return Err(RemoveError::SocketNotFound);
            },
            Some(entry) => entry,
        };
        match remote {
            Some(re) => {
                let key = (le, re);
                vec_map_remove(&mut self.tcp_est, &key);
                vec_map_remove(&mut self.rev_tcp, &handle);
            },
            None => {
                vec_map_remove(&mut self.tcp_listen, &handle);
                vec_map_remove(&mut self.rev_tcp, &handle);
            },
        }
        proof {
            assert(self@ =~= spec_remove_tcp(old(self)@, handle));
        }
        Ok(())
    }

    /// Direct key lookup for a raw socket, no fallback.
    pub fn get_raw_socket(&self, ip_version: IpVersion, ip_protocol: IpProtocol) -> (r: Option<
        SocketHandle,
    >)
        requires
            self.wf(),
        ensures
            r == (if self@.raw.dom().contains((ip_version, ip_protocol)) {
                Some(self@.raw[(ip_version, ip_protocol)])
            } else {
                None::<SocketHandle>
            }),
    {
        let key = (ip_version, ip_protocol);
        vec_map_get(&self.raw, &key)
    }

    /// Resolve a UDP datagram to a socket by the three-step wildcard
    /// fallback on its destination address and port.
    pub fn get_udp_socket(&self, ip_repr: &IpRepr, udp_repr: &UdpRepr) -> (r: Option<SocketHandle>)
        requires
            self.wf(),
        ensures
            r == spec_udp_lookup(self@, ip_repr.dst_addr, udp_repr.dst_port),
    {
        let k1 = IpListenEndpoint { addr: Some(ip_repr.dst_addr), port: udp_repr.dst_port };
        if let Some(h) = vec_map_get(&self.udp, &k1) {
            return Some(h);
        }
        let k2 = IpListenEndpoint { addr: None, port: udp_repr.dst_port };
        if let Some(h) = vec_map_get(&self.udp, &k2) {
            return Some(h);
        }
        let k3 = IpListenEndpoint {
            addr: Some(IpAddress::unspecified(ip_repr.dst_addr.version())),
            port: udp_repr.dst_port,
        };
        vec_map_get(&self.udp, &k3)
    }

    /// Whether any TCP socket is registered at this local endpoint.
    fn tcp_entry_exists(&self, le: &IpListenEndpoint) -> (b: bool)
        requires
            self.wf(),
        ensures
            b == tcp_has_entry(self@, *le),
    {
        if let Some(h) = listen_scan(&self.tcp_listen, le) {
            proof {
                assert(self@.tcp_listen.dom().contains(h) && self@.tcp_listen[h] == *le);
            }
            return true;
        }
        let e = est_has_le(&self.tcp_est, le);
        proof {
            if e {
                let re = choose|re: IpEndpoint| #[trigger]
                    map_of(self.tcp_est@).dom().contains((*le, re));
                assert(self@.tcp_est.dom().contains((*le, re)));
            } else if tcp_has_entry(self@, *le) {
                if exists|h: SocketHandle| #[trigger]
                    self@.tcp_listen.dom().contains(h) && self@.tcp_listen[h] == *le {
                    let h = choose|h: SocketHandle| #[trigger]
                        self@.tcp_listen.dom().contains(h) && self@.tcp_listen[h] == *le;
                    assert(map_of(self.tcp_listen@).dom().contains(h) && map_of(self.tcp_listen@)[h]
                        == *le);
                } else {
                    let re = choose|re: IpEndpoint| #[trigger] self@.tcp_est.dom().contains(
                        (*le, re),
                    );
                    assert(map_of(self.tcp_est@).dom().contains((*le, re)));
                }
            }
        }
        e
    }

    /// Resolve a TCP segment to a socket: resolve a local-endpoint entry by
    /// the three-step fallback on the destination, then prefer the
    /// established socket whose remote is exactly the packet's source, else
    /// any listening socket there (the smallest handle by total order), else
    /// none.
    pub fn get_tcp_socket(&self, ip_repr: &IpRepr, tcp_repr: &TcpRepr) -> (r: Option<SocketHandle>)
        requires
            self.wf(),
        ensures
            ({
                let src = IpEndpoint { addr: ip_repr.src_addr, port: tcp_repr.src_port };
                match spec_tcp_resolve(self@, ip_repr.dst_addr, tcp_repr.dst_port) {
                    None => r is None,
                    Some(le) => if self@.tcp_est.dom().contains((le, src)) {
                        r == Some(self@.tcp_est[(le, src)])
                    } else {
                        match r {
                            Some(h) => self@.tcp_listen.dom().contains(h) && self@.tcp_listen[h]
                                == le && forall|h2: SocketHandle| #[trigger]
                                self@.tcp_listen.dom().contains(h2) && self@.tcp_listen[h2] == le
                                ==> h.0 <= h2.0,
                            None => !(exists|h2: SocketHandle| #[trigger]
                            self@.tcp_listen.dom().contains(h2) && self@.tcp_listen[h2] == le),
                        }
                    },
                }
            }),
    {
        let k1 = IpListenEndpoint { addr: Some(ip_repr.dst_addr), port: tcp_repr.dst_port };
        let k2 = IpListenEndpoint { addr: None, port: tcp_repr.dst_port };
        let k3 = IpListenEndpoint {
            addr: Some(IpAddress::unspecified(ip_repr.dst_addr.version())),
            port: tcp_repr.dst_port,
        };
        let le = if self.tcp_entry_exists(&k1) {
            k1
        } else if self.tcp_entry_exists(&k2) {
            k2
        } else if self.tcp_entry_exists(&k3) {
            k3
        } else {
            return None;
        };
        let est_key = (le, IpEndpoint { addr: ip_repr.src_addr, port: tcp_repr.src_port });
        if let Some(h) = vec_map_get(&self.tcp_est, &est_key) {
            return Some(h);
        }
        listen_scan(&self.tcp_listen, &le)
    }
}

/// Scan the listening registrations for the smallest handle listening at
/// `le`; `None` exactly when no socket listens there.
fn listen_scan(v: &Vec<(SocketHandle, IpListenEndpoint)>, le: &IpListenEndpoint) -> (r: Option<
    SocketHandle,
>)
    requires
        unique_keys(v@),
    ensures
        match r {
            Some(h) => map_of(v@).dom().contains(h) && map_of(v@)[h] == *le && forall|
                h2: SocketHandle,
            | #[trigger]
                map_of(v@).dom().contains(h2) && map_of(v@)[h2] == *le ==> h.0 <= h2.0,
            None => !(exists|h2: SocketHandle| #[trigger] map_of(v@).dom().contains(h2) && map_of(
                v@,
            )[h2] == *le),
        },
{
    let n = v.len();
    let mut i: usize = 0;
    let mut best: Option<SocketHandle> = None;
    while i < n
        invariant
            n == v@.len(),
            i <= n,
            unique_keys(v@),
            match best {
                Some(h) => map_of(v@).dom().contains(h) && map_of(v@)[h] == *le && forall|j: int|
                    0 <= j < i && (#[trigger] v@[j]).1 == *le ==> h.0 <= v@[j].0.0,
                None => forall|j: int| 0 <= j < i ==> (#[trigger] v@[j]).1 != *le,
            },
        decreases n - i,
    {
        let (hj, lej) = v[i];
        if lej.key_eq(le) {
            proof {
                crate::assoc::lemma_entry(v@, i as int);
            }
            match best {
                None => {
                    best = Some(hj);
                },
                Some(hb) => {
                    if hj.0 < hb.0 {
                        best = Some(hj);
                    }
                },
            }
        }
        i = i + 1;
    }
    proof {
        match best {
            Some(h) => {
                assert forall|h2: SocketHandle| #[trigger]
                    map_of(v@).dom().contains(h2) && map_of(v@)[h2] == *le implies h.0 <= h2.0 by {
                    let j = crate::assoc::index_of_key(v@, h2);
                    assert(v@[j].1 == *le);
                };
            },
            None => {
                if exists|h2: SocketHandle| #[trigger] map_of(v@).dom().contains(h2)
                    && map_of(v@)[h2] == *le {
                    let h2 = choose|h2: SocketHandle| #[trigger]
                        map_of(v@).dom().contains(h2) && map_of(v@)[h2] == *le;
                    let j = crate::assoc::index_of_key(v@, h2);
                    assert(v@[j].1 != *le);
                }
            },
        }
    }
    best
}

/// Whether any established registration's local endpoint is `le`.
fn est_has_le(v: &Vec<((IpListenEndpoint, IpEndpoint), SocketHandle)>, le: &IpListenEndpoint) -> (b:
    bool)
    requires
        unique_keys(v@),
    ensures
        b == exists|re: IpEndpoint| #[trigger] map_of(v@).dom().contains((*le, re)),
{
    let n = v.len();
    let mut i: usize = 0;
    while i < n
        invariant
            n == v@.len(),
            i <= n,
            unique_keys(v@),
            forall|j: int| 0 <= j < i ==> (#[trigger] v@[j]).0.0 != *le,
        decreases n - i,
    {
        let (kj, _hj) = v[i];
        if kj.0.key_eq(le) {
            proof {
                crate::assoc::lemma_entry(v@, i as int);
                assert(v@[i as int].0 == (*le, v@[i as int].0.1));
                assert(map_of(v@).dom().contains((*le, v@[i as int].0.1)));
            }
            return true;
        }
        i = i + 1;
    }
    proof {
        if exists|re: IpEndpoint| #[trigger] map_of(v@).dom().contains((*le, re)) {
            let re = choose|re: IpEndpoint| #[trigger] map_of(v@).dom().contains((*le, re));
            let j = crate::assoc::index_of_key(v@, (*le, re));
            assert(v@[j].0.0 != *le);
        }
    }
    false
}

} // verus!
