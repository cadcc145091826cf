//! Socket-side collaborators of the dispatch index: the handle a socket pool
//! hands out, the dispatch-relevant view of each socket kind, the tagged
//! union over the kinds, and the pending-work ("dirty") handle set.
//!
//! Only what the index reads is held here: addressing state and the two
//! dirty-tracking flags.  Buffers and the TCP machine itself live elsewhere.

use vstd::prelude::*;

use crate::assoc::KeyEq;
use crate::wire::IpEndpoint;
use crate::wire::IpListenEndpoint;
use crate::wire::IpProtocol;
use crate::wire::IpVersion;

verus! {

/// Opaque, totally-ordered identifier for a socket slot, stable for the
/// socket's lifetime and owned by an external socket pool.
#[derive(Clone, Copy, Debug, PartialEq, Eq, Structural)]
pub struct SocketHandle(pub usize);

impl KeyEq for SocketHandle {
    fn key_eq(&self, other: &Self) -> (r: bool)
        ensures
            r <==> (*self == *other),
    {
        self.0 == other.0
    }
}

/// The externally observable state of a TCP socket's connection machine.
#[derive(Clone, Copy, Debug, PartialEq, Eq, Structural)]
pub enum TcpState {
    Closed,
    Listen,
    SynSent,
    SynReceived,
    Established,
    FinWait1,
    FinWait2,
    CloseWait,
    Closing,
    LastAck,
    TimeWait,
}

/// A raw socket: protocol-bound at construction, indexed once, never rebound.
#[derive(Clone, Copy, Debug, PartialEq, Eq, Structural)]
pub struct RawSocket {
    pub ip_version: IpVersion,
    pub ip_protocol: IpProtocol,
    pub dirty: bool,
    pub on_dirty_list: bool,
}

impl RawSocket {
    pub fn new(ip_version: IpVersion, ip_protocol: IpProtocol) -> (s: RawSocket)
        ensures
            s == (RawSocket { ip_version, ip_protocol, dirty: false, on_dirty_list: false }),
    {
        RawSocket { ip_version, ip_protocol, dirty: false, on_dirty_list: false }
    }

    pub fn ip_version(&self) -> (v: IpVersion)
        ensures
            v == self.ip_version,
    {
        self.ip_version
    }

    pub fn ip_protocol(&self) -> (p: IpProtocol)
        ensures
            p == self.ip_protocol,
    {
        self.ip_protocol
    }

    pub fn set_dirty(&mut self, dirty: bool)
        ensures
            *final(self) == (RawSocket { dirty, ..*old(self) }),
    {
        self.dirty = dirty;
    }
}

/// A UDP socket: indexed at its bound listen endpoint once that endpoint is
/// specified.
#[derive(Clone, Copy, Debug, PartialEq, Eq)]
pub struct UdpSocket {
    pub endpoint: IpListenEndpoint,
    pub dirty: bool,
    pub on_dirty_list: bool,
}

impl UdpSocket {
    pub fn new() -> (s: UdpSocket)
        ensures
            s == (UdpSocket {
                endpoint: IpListenEndpoint { addr: None, port: 0u16 },
                dirty: false,
                on_dirty_list: false,
            }),
    {
        UdpSocket { endpoint: IpListenEndpoint { addr: None, port: 0 }, dirty: false, on_dirty_list: false }
    }

    pub fn endpoint(&self) -> (e: IpListenEndpoint)
        ensures
            e == self.endpoint,
    {
        self.endpoint
    }

    /// Rebind the socket; the index is reconciled at the next guard release.
    pub fn set_endpoint(&mut self, endpoint: IpListenEndpoint)
        ensures
            *final(self) == (UdpSocket { endpoint, ..*old(self) }),
    {
        self.endpoint = endpoint;
    }

    pub fn set_dirty(&mut self, dirty: bool)
        ensures
            *final(self) == (UdpSocket { dirty, ..*old(self) }),
    {
        self.dirty = dirty;
    }
}

/// A TCP socket's dispatch-relevant state: where it listens or is bound, the
/// remote it is connected to, and its connection-state tag.
#[derive(Clone, Copy, Debug, PartialEq, Eq)]
pub struct TcpSocket {
    pub state: TcpState,
    pub listen_endpoint: Option<IpListenEndpoint>,
    pub local_endpoint: Option<IpEndpoint>,
    pub remote_endpoint: Option<IpEndpoint>,
    pub dirty: bool,
    pub on_dirty_list: bool,
}

impl TcpSocket {
    pub fn new() -> (s: TcpSocket)
        ensures
            s == (TcpSocket {
                state: TcpState::Closed,
                listen_endpoint: None::<IpListenEndpoint>,
                local_endpoint: None::<IpEndpoint>,
                remote_endpoint: None::<IpEndpoint>,
                dirty: false,
                on_dirty_list: false,
            }),
    {
        TcpSocket {
            state: TcpState::Closed,
            listen_endpoint: None,
            local_endpoint: None,
            remote_endpoint: None,
            dirty: false,
            on_dirty_list: false,
        }
    }

    pub fn state(&self) -> (s: TcpState)
        ensures
            s == self.state,
    {
        self.state
    }

    pub fn listen_endpoint(&self) -> (e: Option<IpListenEndpoint>)
        ensures
            e == self.listen_endpoint,
    {
        self.listen_endpoint
    }

    pub fn local_endpoint(&self) -> (e: Option<IpEndpoint>)
        ensures
            e == self.local_endpoint,
    {
        self.local_endpoint
    }

    pub fn remote_endpoint(&self) -> (e: Option<IpEndpoint>)
        ensures
            e == self.remote_endpoint,
    {
        self.remote_endpoint
    }

    pub fn set_state(&mut self, state: TcpState)
        ensures
            *final(self) == (TcpSocket { state, ..*old(self) }),
    {
        self.state = state;
    }

    pub fn set_listen_endpoint(&mut self, listen_endpoint: Option<IpListenEndpoint>)
        ensures
            *final(self) == (TcpSocket { listen_endpoint, ..*old(self) }),
    {
        self.listen_endpoint = listen_endpoint;
    }

    pub fn set_local_endpoint(&mut self, local_endpoint: Option<IpEndpoint>)
        ensures
            *final(self) == (TcpSocket { local_endpoint, ..*old(self) }),
    {
        self.local_endpoint = local_endpoint;
    }

    pub fn set_remote_endpoint(&mut self, remote_endpoint: Option<IpEndpoint>)
        ensures
            *final(self) == (TcpSocket { remote_endpoint, ..*old(self) }),
    {
        self.remote_endpoint = remote_endpoint;
    }

    pub fn set_dirty(&mut self, dirty: bool)
        ensures
            *final(self) == (TcpSocket { dirty, ..*old(self) }),
    {
        self.dirty = dirty;
    }
}

/// An ICMP socket.  Its demultiplexing is fixed and self-managed elsewhere:
/// it is deliberately outside the addressing index, never dirty.
#[derive(Clone, Copy, Debug, PartialEq, Eq, Structural)]
pub struct IcmpSocket {}

impl IcmpSocket {
    pub fn new() -> (s: IcmpSocket)
        ensures
            s == (IcmpSocket {  }),
    {
        IcmpSocket {  }
    }
}

/// A DHCPv4 client socket; outside the addressing index, never dirty.
#[derive(Clone, Copy, Debug, PartialEq, Eq, Structural)]
pub struct Dhcpv4Socket {}

impl Dhcpv4Socket {
    pub fn new() -> (s: Dhcpv4Socket)
        ensures
            s == (Dhcpv4Socket {  }),
    {
        Dhcpv4Socket {  }
    }
}

/// A DNS client socket; outside the addressing index, never dirty.
#[derive(Clone, Copy, Debug, PartialEq, Eq, Structural)]
pub struct DnsSocket {}

impl DnsSocket {
    pub fn new() -> (s: DnsSocket)
        ensures
            s == (DnsSocket {  }),
    {
        DnsSocket {  }
    }
}

/// The closed union over the socket kinds this index dispatches.
///
/// Kinds with fixed, self-managed demultiplexing (ICMP, DHCP, DNS) are
/// deliberately outside the addressing index and do not appear here.
#[derive(Clone, Copy, Debug, PartialEq, Eq)]
pub enum Socket {
    Raw(RawSocket),
    Udp(UdpSocket),
    Tcp(TcpSocket),
}

/// The pending-work handle set owned by the poll loop; this index only
/// inserts into it.
#[derive(Clone, Debug, PartialEq, Eq)]
pub struct DirtySet {
    handles: Vec<SocketHandle>,
}

impl DirtySet {
    /// The handles held, as a mathematical set.
    pub closed spec fn view(&self) -> Set<SocketHandle> {
        Set::new(|h: SocketHandle| self.handles@.contains(h))
    }

    /// No handle is held twice.
    pub closed spec fn wf(&self) -> bool {
        forall|i: int, j: int|
            0 <= i < j < self.handles@.len() ==> #[trigger] self.handles@[i] != #[trigger] self.handles@[j]
    }

    /// The number of handles held.
    pub closed spec fn spec_len(&self) -> nat {
        self.handles@.len()
    }

    pub fn new() -> (s: DirtySet)
        ensures
            s.wf(),
            s@ == Set::<SocketHandle>::empty(),
            s.spec_len() == 0,
    {
        let s = DirtySet { handles: Vec::new() };
        proof {
            assert(s@ =~= Set::<SocketHandle>::empty());
        }
        s
    }

    pub fn contains(&self, handle: SocketHandle) -> (b: bool)
        ensures
            b == self@.contains(handle),
    {
        let n = self.handles.len();
        let mut i: usize = 0;
        while i < n
            invariant
                n == self.handles@.len(),
                i <= n,
                forall|j: int| 0 <= j < i ==> self.handles@[j] != handle,
            decreases n - i,
        {
            if self.handles[i].key_eq(&handle) {
                return true;
            }
            i = i + 1;
        }
        proof {
            if self.handles@.contains(handle) {
                let j = choose|j: int| 0 <= j < self.handles@.len() && self.handles@[j] == handle;
                assert(self.handles@[j] != handle);
            }
        }
        false
    }

    /// Insert a handle; a handle already held is left alone.
    pub fn insert(&mut self, handle: SocketHandle)
        requires
            old(self).wf(),
        ensures
            final(self).wf(),
            final(self)@ == old(self)@.insert(handle),
            final(self).spec_len() == old(self).spec_len() + (
            if old(self)@.contains(handle) {
                0int
            } else {
                1int
            }),
    {
        if !self.contains(handle) {
            let ghost s0 = self.handles@;
            self.handles.push(handle);
            proof {
                assert forall|i: int, j: int|
                    0 <= i < j < self.handles@.len() implies #[trigger] self.handles@[i] != #[trigger] self.handles@[j] by {
                    if j < s0.len() {
                        assert(self.handles@[i] == s0[i] && self.handles@[j] == s0[j]);
                    } else {
                        assert(self.handles@[j] == handle);
                        assert(self.handles@[i] == s0[i]);
                        assert(s0.contains(s0[i]));
                    }
                }
                assert forall|h: SocketHandle| #[trigger] self.handles@.contains(h) implies s0.contains(h) || h
                    == handle by {
                    let j = choose|j: int| 0 <= j < self.handles@.len() && self.handles@[j] == h;
                    if j < s0.len() {
                        assert(s0[j] == h);
                    }
                }
                assert forall|h: SocketHandle| s0.contains(h) implies #[trigger] self.handles@.contains(
                    h,
                ) by {
                    let j = choose|j: int| 0 <= j < s0.len() && s0[j] == h;
                    assert(self.handles@[j] == h);
                }
                assert(self.handles@[s0.len() as int] == handle);
                assert(self.handles@.contains(handle));
                assert(self@ =~= old(self)@.insert(handle));
            }
        } else {
            proof {
                assert(self@ =~= old(self)@.insert(handle));
            }
        }
    }

    pub fn len(&self) -> (n: usize)
        ensures
            n == self.spec_len(),
    {
        self.handles.len()
    }
}

} // verus!
