//! The global laws of the dispatch index, stated and proved over the table's
//! mathematical view.
//!
//! Every table operation requires and preserves [`DispatchTable::wf`], and a
//! fresh table satisfies it, so these laws hold at every point of every
//! sequence of add/remove calls.

use vstd::prelude::*;

use crate::dispatch::raw_add_ok;
use crate::dispatch::spec_add_raw;
use crate::dispatch::spec_add_tcp;
use crate::dispatch::spec_add_udp;
use crate::dispatch::spec_remove_tcp;
use crate::dispatch::tcp_add_ok;
use crate::dispatch::tcp_bind_key;
use crate::dispatch::tcp_has_entry;
use crate::dispatch::udp_add_ok;
use crate::dispatch::udp_indexed;
use crate::dispatch::wf_view;
use crate::dispatch::TableView;
use crate::socket::Socket;
use crate::socket::SocketHandle;
use crate::socket::TcpSocket;
use crate::socket::TcpState;
use crate::tracker::TrackedSocket;
use crate::wire::IpEndpoint;
use crate::wire::IpListenEndpoint;
use crate::wire::IpProtocol;
use crate::wire::IpVersion;

verus! {

/// Bijection: under the table invariant, every handle present in a reverse
/// map is stored in the forward map exactly at its recorded key, and no other
/// forward entry references it.
pub proof fn lemma_bijection(t: TableView)
    requires
        wf_view(t),
    ensures
        forall|h: SocketHandle| #[trigger] t.raw_rev.dom().contains(h) ==> t.raw.dom().contains(
            t.raw_rev[h],
        ) && t.raw[t.raw_rev[h]] == h,
        forall|h: SocketHandle, k: (IpVersion, IpProtocol)|
            #![trigger t.raw_rev.dom().contains(h), t.raw.dom().contains(k)]
            t.raw_rev.dom().contains(h) && t.raw.dom().contains(k) && t.raw[k] == h ==> k
                == t.raw_rev[h],
        forall|h: SocketHandle| #[trigger] t.udp_rev.dom().contains(h) ==> t.udp.dom().contains(
            t.udp_rev[h],
        ) && t.udp[t.udp_rev[h]] == h,
        forall|h: SocketHandle, k: IpListenEndpoint|
            #![trigger t.udp_rev.dom().contains(h), t.udp.dom().contains(k)]
            t.udp_rev.dom().contains(h) && t.udp.dom().contains(k) && t.udp[k] == h ==> k
                == t.udp_rev[h],
        forall|h: SocketHandle, k: (IpListenEndpoint, IpEndpoint)|
            #![trigger t.tcp_rev.dom().contains(h), t.tcp_est.dom().contains(k)]
            t.tcp_rev.dom().contains(h) && t.tcp_est.dom().contains(k) && t.tcp_est[k] == h
                ==> t.tcp_rev[h] == (k.0, Some(k.1)),
        forall|h: SocketHandle|
            t.tcp_rev.dom().contains(h) && #[trigger] t.tcp_listen.dom().contains(h)
                ==> t.tcp_rev[h] == (t.tcp_listen[h], None::<IpEndpoint>),
{
}

/// A registered TCP handle is listed under exactly one of {listening set,
/// established map}, at exactly the registration its reverse entry records:
/// never both, never more than one established key.
pub proof fn lemma_tcp_exactly_one(t: TableView, h: SocketHandle)
    requires
        wf_view(t),
        t.tcp_rev.dom().contains(h),
    ensures
        match t.tcp_rev[h] {
            (le, Some(re)) => t.tcp_est.dom().contains((le, re)) && t.tcp_est[(le, re)] == h
                && !t.tcp_listen.dom().contains(h) && forall|k: (IpListenEndpoint, IpEndpoint)|
                #[trigger] t.tcp_est.dom().contains(k) && t.tcp_est[k] == h ==> k == (le, re),
            (le, None) => t.tcp_listen.dom().contains(h) && t.tcp_listen[h] == le && forall|
                k: (IpListenEndpoint, IpEndpoint),
            | #[trigger] t.tcp_est.dom().contains(k) ==> t.tcp_est[k] != h,
        },
{
    match t.tcp_rev[h] {
        (le, Some(re)) => {
            assert forall|k: (IpListenEndpoint, IpEndpoint)| #[trigger]
                t.tcp_est.dom().contains(k) && t.tcp_est[k] == h implies k == (le, re) by {
                assert(t.tcp_rev[h] == (k.0, Some(k.1)));
            }
        },
        (le, None) => {
            assert forall|k: (IpListenEndpoint, IpEndpoint)| #[trigger]
                t.tcp_est.dom().contains(k) implies t.tcp_est[k] != h by {
                if t.tcp_est[k] == h {
                    assert(t.tcp_rev[h] == (k.0, Some(k.1)));
                }
            }
        },
    }
}

/// No overwrite: adding a raw socket at an occupied key, or reusing a
/// registered handle, is refused and leaves the table unchanged.
pub proof fn lemma_no_overwrite_raw(
    t: TableView,
    key: (IpVersion, IpProtocol),
    h: SocketHandle,
)
    requires
        t.raw.dom().contains(key) || t.raw_rev.dom().contains(h),
    ensures
        !raw_add_ok(t, key, h),
        spec_add_raw(t, key, h) == t,
{
}

/// No overwrite: adding a UDP socket at an occupied endpoint, or reusing a
/// registered handle, is refused and leaves the table unchanged.
pub proof fn lemma_no_overwrite_udp(t: TableView, ep: IpListenEndpoint, h: SocketHandle)
    requires
        udp_indexed(ep),
        t.udp.dom().contains(ep) || t.udp_rev.dom().contains(h),
    ensures
        !udp_add_ok(t, ep, h),
        spec_add_udp(t, ep, h) == t,
{
}

/// No overwrite: adding a TCP socket whose (local, remote) pair is occupied,
/// or whose handle is already registered anywhere, is refused and leaves the
/// table unchanged.
pub proof fn lemma_no_overwrite_tcp(
    t: TableView,
    s: TcpSocket,
    h: SocketHandle,
    le: IpListenEndpoint,
    re: IpEndpoint,
)
    requires
        tcp_bind_key(s) == Some(le),
        s.remote_endpoint == Some(re),
        t.tcp_est.dom().contains((le, re)) || t.tcp_rev.dom().contains(h),
    ensures
        !tcp_add_ok(t, s, h),
        spec_add_tcp(t, s, h) == t,
{
}

/// Empty-entry garbage collection: removing the last socket registered at a
/// TCP local endpoint leaves that endpoint without any entry, so a lookup
/// resolving to it finds nothing.
pub proof fn lemma_gc_empty_entry(t: TableView, h: SocketHandle, le: IpListenEndpoint)
    requires
        wf_view(t),
        t.tcp_rev.dom().contains(h),
        t.tcp_rev[h].0 == le,
        forall|h2: SocketHandle| #[trigger] t.tcp_rev.dom().contains(h2) && t.tcp_rev[h2].0 == le
            ==> h2 == h,
    ensures
        !tcp_has_entry(spec_remove_tcp(t, h), le),
{
    let t1 = spec_remove_tcp(t, h);
    if exists|h2: SocketHandle| #[trigger] t1.tcp_listen.dom().contains(h2) && t1.tcp_listen[h2]
        == le {
        let h2 = choose|h2: SocketHandle| #[trigger]
            t1.tcp_listen.dom().contains(h2) && t1.tcp_listen[h2] == le;
        assert(t.tcp_listen.dom().contains(h2));
        assert(t.tcp_rev.dom().contains(h2) && t.tcp_rev[h2] == (le, None::<IpEndpoint>));
        assert(h2 == h);
        assert(false);
    }
    if exists|re: IpEndpoint| #[trigger] t1.tcp_est.dom().contains((le, re)) {
        let re = choose|re: IpEndpoint| #[trigger] t1.tcp_est.dom().contains((le, re));
        assert(t.tcp_est.dom().contains((le, re)));
        let h2 = t.tcp_est[(le, re)];
        assert(t.tcp_rev.dom().contains(h2) && t.tcp_rev[h2] == (le, Some(re)));
        assert(h2 == h);
        assert(false);
    }
}

/// Tracker idempotence under no-op: when the snapshot equals the socket's
/// current dispatch-relevant state, the release-time diff leaves the table
/// unchanged.
pub proof fn lemma_release_noop(socket: Socket, t: TableView, handle: SocketHandle)
    ensures
        socket.spec_on_drop(t, socket.spec_state(), handle) == t,
{
}

/// The Listen-to-Established transition: a socket whose snapshot is `Listen`
/// and that now reports `Established` with a concrete remote endpoint is,
/// after release, registered exactly once, as established under its (local,
/// remote) pair, and no longer listed as listening.
pub proof fn lemma_listen_to_established(
    t: TableView,
    s: TcpSocket,
    h: SocketHandle,
    le: IpListenEndpoint,
    re: IpEndpoint,
)
    requires
        wf_view(t),
        t.tcp_rev.dom().contains(h),
        t.tcp_rev[h].1 == None::<IpEndpoint>,
        s.state == TcpState::Established,
        tcp_bind_key(s) == Some(le),
        s.remote_endpoint == Some(re),
        !t.tcp_est.dom().contains((le, re)),
    ensures
        ({
            let t1 = s.spec_on_drop(t, TcpState::Listen, h);
            &&& t1.tcp_est.dom().contains((le, re)) && t1.tcp_est[(le, re)] == h
            &&& t1.tcp_rev.dom().contains(h) && t1.tcp_rev[h] == (le, Some(re))
            &&& !t1.tcp_listen.dom().contains(h)
        }),
{
}

} // verus!
