//! Scoped tracking of socket mutations.
//!
//! A [`SocketTracker`] captures a socket's dispatch-relevant state when a
//! mutation begins; on release it diffs that baseline against the socket's
//! current state, issues the minimal add/remove calls against the
//! [`DispatchTable`], and then enqueues the socket on the dirty set when it
//! reports pending work and is not already enqueued.

use vstd::prelude::*;

use crate::assoc::KeyEq;
use crate::dispatch::spec_add_tcp;
use crate::dispatch::spec_add_udp;
use crate::dispatch::spec_remove_tcp;
use crate::dispatch::spec_remove_udp;
use crate::dispatch::DispatchTable;
use crate::dispatch::TableView;
use crate::socket::Dhcpv4Socket;
use crate::socket::DirtySet;
use crate::socket::DnsSocket;
use crate::socket::IcmpSocket;
use crate::socket::RawSocket;
use crate::socket::Socket;
use crate::socket::SocketHandle;
use crate::socket::TcpSocket;
use crate::socket::TcpState;
use crate::socket::UdpSocket;
use crate::wire::IpListenEndpoint;

verus! {

/// The socket-kind-dependent tracking capability: just enough of a socket for
/// the tracker to snapshot its dispatch-relevant state, reconcile the table
/// on release, and maintain dirty-set membership.
pub trait TrackedSocket: Sized {
    /// The snapshot of dispatch-relevant state; its type varies per kind.
    type State;

    /// The snapshot this socket yields now.
    spec fn spec_state(&self) -> Self::State;

    /// Whether the socket reports pending work.
    spec fn spec_dirty(&self) -> bool;

    /// Whether the socket is already enqueued for that work.
    spec fn spec_on_list(&self) -> bool;

    /// Whether a snapshot belongs to this socket's kind.  A snapshot is always
    /// paired with the socket it was taken from, and a socket's kind never
    /// changes, so a mismatch is a programming error and is required away.
    spec fn matches_state(&self, state: Self::State) -> bool;

    /// This socket with its on-dirty-list flag replaced.
    spec fn with_on_list(self, on_list: bool) -> Self;

    /// The table after the per-kind diff policy reconciles a mutation from
    /// `state` to this socket's current state.
    spec fn spec_on_drop(&self, t: TableView, state: Self::State, handle: SocketHandle) -> TableView;

    fn new_state(&self) -> (s: Self::State)
        ensures
            s == self.spec_state(),
            self.matches_state(s),
    ;

    fn on_drop(&self, state: &Self::State, dispatch_table: &mut DispatchTable, handle: SocketHandle)
        requires
            self.matches_state(*state),
            old(dispatch_table).wf(),
        ensures
            final(dispatch_table).wf(),
            final(dispatch_table)@ == self.spec_on_drop(old(dispatch_table)@, *state, handle),
    ;

    fn is_dirty(&self) -> (b: bool)
        ensures
            b == self.spec_dirty(),
    ;

    fn is_on_dirty_list(&self) -> (b: bool)
        ensures
            b == self.spec_on_list(),
    ;

    fn set_on_dirty_list(&mut self, on_list: bool)
        ensures
            *final(self) == old(self).with_on_list(on_list),
    ;
}

impl TrackedSocket for RawSocket {
    /// A raw socket is indexed once at creation and never rebound, so its
    /// snapshot carries nothing.
    type State = ();

    open spec fn spec_state(&self) -> () {
        ()
    }

    open spec fn spec_dirty(&self) -> bool {
        self.dirty
    }

    open spec fn spec_on_list(&self) -> bool {
        self.on_dirty_list
    }

    open spec fn matches_state(&self, state: ()) -> bool {
        true
    }

    open spec fn with_on_list(self, on_list: bool) -> RawSocket {
        RawSocket { on_dirty_list: on_list, ..self }
    }

    open spec fn spec_on_drop(&self, t: TableView, state: (), handle: SocketHandle) -> TableView {
        t
    }

    fn new_state(&self) -> (s: ()) {
        ()
    }

    fn on_drop(&self, _state: &(), _dispatch_table: &mut DispatchTable, _handle: SocketHandle) {
    }

    fn is_dirty(&self) -> (b: bool) {
        self.dirty
    }

    fn is_on_dirty_list(&self) -> (b: bool) {
        self.on_dirty_list
    }

    fn set_on_dirty_list(&mut self, on_list: bool) {
        self.on_dirty_list = on_list;
    }
}

impl TrackedSocket for UdpSocket {
    /// A UDP socket's dispatch-relevant state is its bound endpoint.
    type State = IpListenEndpoint;

    open spec fn spec_state(&self) -> IpListenEndpoint {
        self.endpoint
    }

    open spec fn spec_dirty(&self) -> bool {
        self.dirty
    }

    open spec fn spec_on_list(&self) -> bool {
        self.on_dirty_list
    }

    open spec fn matches_state(&self, state: IpListenEndpoint) -> bool {
        true
    }

    open spec fn with_on_list(self, on_list: bool) -> UdpSocket {
        UdpSocket { on_dirty_list: on_list, ..self }
    }

    /// On a rebind: drop the old registration when the old endpoint was
    /// indexed, then register the current endpoint.
    open spec fn spec_on_drop(
        &self,
        t: TableView,
        state: IpListenEndpoint,
        handle: SocketHandle,
    ) -> TableView {
        if state == self.endpoint {
            t
        } else {
            let t1 = if state.spec_is_specified() {
                spec_remove_udp(t, handle)
            } else {
                t
            };
            spec_add_udp(t1, self.endpoint, handle)
        }
    }

    fn new_state(&self) -> (s: IpListenEndpoint) {
        self.endpoint
    }

    fn on_drop(
        &self,
        state: &IpListenEndpoint,
        dispatch_table: &mut DispatchTable,
        handle: SocketHandle,
    ) {
        let current = self.endpoint();
        if !state.key_eq(&current) {
            if state.is_specified() {
                let _ = dispatch_table.remove_udp_socket(handle);
            }
            let _ = dispatch_table.add_udp_socket(self, handle);
        }
    }

    fn is_dirty(&self) -> (b: bool) {
        self.dirty
    }

    fn is_on_dirty_list(&self) -> (b: bool) {
        self.on_dirty_list
    }

    fn set_on_dirty_list(&mut self, on_list: bool) {
        self.on_dirty_list = on_list;
    }
}

impl TrackedSocket for TcpSocket {
    /// A TCP socket's dispatch-relevant state is its connection-state tag.
    type State = TcpState;

    open spec fn spec_state(&self) -> TcpState {
        self.state
    }

    open spec fn spec_dirty(&self) -> bool {
        self.dirty
    }

    open spec fn spec_on_list(&self) -> bool {
        self.on_dirty_list
    }

    open spec fn matches_state(&self, state: TcpState) -> bool {
        true
    }

    open spec fn with_on_list(self, on_list: bool) -> TcpSocket {
        TcpSocket { on_dirty_list: on_list, ..self }
    }

    /// Into `Closed`: deregister.  Out of `Closed`: register.  Out of
    /// `Listen` or `TimeWait`: re-register, since the addressing key may have
    /// narrowed or widened.  Any other change leaves the index alone.
    open spec fn spec_on_drop(&self, t: TableView, state: TcpState, handle: SocketHandle) -> TableView {
        if state == self.state {
            t
        } else {
            match (state, self.state) {
                (_, TcpState::Closed) => spec_remove_tcp(t, handle),
                (TcpState::Closed, _) => spec_add_tcp(t, *self, handle),
                (TcpState::TimeWait, _) => spec_add_tcp(spec_remove_tcp(t, handle), *self, handle),
                (TcpState::Listen, _) => spec_add_tcp(spec_remove_tcp(t, handle), *self, handle),
                (_, _) => t,
            }
        }
    }

    fn new_state(&self) -> (s: TcpState) {
        self.state
    }

    fn on_drop(&self, state: &TcpState, dispatch_table: &mut DispatchTable, handle: SocketHandle) {
        let current = self.state();
        if *state == current {
            return ;
        }
        match (*state, current) {
            (_, TcpState::Closed) => {
                let _ = dispatch_table.remove_tcp_socket(handle);
            },
            (TcpState::Closed, _) => {
                let _ = dispatch_table.add_tcp_socket(self, handle);
            },
            (TcpState::TimeWait, _) | (TcpState::Listen, _) => {
                let _ = dispatch_table.remove_tcp_socket(handle);
                let _ = dispatch_table.add_tcp_socket(self, handle);
            },
            (_, _) => {},
        }
    }

    fn is_dirty(&self) -> (b: bool) {
        self.dirty
    }

    fn is_on_dirty_list(&self) -> (b: bool) {
        self.on_dirty_list
    }

    fn set_on_dirty_list(&mut self, on_list: bool) {
        self.on_dirty_list = on_list;
    }
}

/// The no-op capability of the kinds that stay outside the addressing index:
/// nothing to snapshot, nothing to reconcile, never dirty.
impl TrackedSocket for IcmpSocket {
    type State = ();

    open spec fn spec_state(&self) -> () {
        ()
    }

    open spec fn spec_dirty(&self) -> bool {
        false
    }

    open spec fn spec_on_list(&self) -> bool {
        false
    }

    open spec fn matches_state(&self, state: ()) -> bool {
        true
    }

    open spec fn with_on_list(self, on_list: bool) -> IcmpSocket {
        self
    }

    open spec fn spec_on_drop(&self, t: TableView, state: (), handle: SocketHandle) -> TableView {
        t
    }

    fn new_state(&self) -> (s: ()) {
        ()
    }

    fn on_drop(&self, _state: &(), _dispatch_table: &mut DispatchTable, _handle: SocketHandle) {
    }

    fn is_dirty(&self) -> (b: bool) {
        false
    }

    fn is_on_dirty_list(&self) -> (b: bool) {
        false
    }

    fn set_on_dirty_list(&mut self, _on_list: bool) {
    }
}

impl TrackedSocket for Dhcpv4Socket {
    type State = ();

    open spec fn spec_state(&self) -> () {
        ()
    }

    open spec fn spec_dirty(&self) -> bool {
        false
    }

    open spec fn spec_on_list(&self) -> bool {
        false
    }

    open spec fn matches_state(&self, state: ()) -> bool {
        true
    }

    open spec fn with_on_list(self, on_list: bool) -> Dhcpv4Socket {
        self
    }

    open spec fn spec_on_drop(&self, t: TableView, state: (), handle: SocketHandle) -> TableView {
        t
    }

    fn new_state(&self) -> (s: ()) {
        ()
    }

    fn on_drop(&self, _state: &(), _dispatch_table: &mut DispatchTable, _handle: SocketHandle) {
    }

    fn is_dirty(&self) -> (b: bool) {
        false
    }

    fn is_on_dirty_list(&self) -> (b: bool) {
        false
    }

    fn set_on_dirty_list(&mut self, _on_list: bool) {
    }
}

impl TrackedSocket for DnsSocket {
    type State = ();

    open spec fn spec_state(&self) -> () {
        ()
    }

    open spec fn spec_dirty(&self) -> bool {
        false
    }

    open spec fn spec_on_list(&self) -> bool {
        false
    }

    open spec fn matches_state(&self, state: ()) -> bool {
        true
    }

    open spec fn with_on_list(self, on_list: bool) -> DnsSocket {
        self
    }

    open spec fn spec_on_drop(&self, t: TableView, state: (), handle: SocketHandle) -> TableView {
        t
    }

    fn new_state(&self) -> (s: ()) {
        ()
    }

    fn on_drop(&self, _state: &(), _dispatch_table: &mut DispatchTable, _handle: SocketHandle) {
    }

    fn is_dirty(&self) -> (b: bool) {
        false
    }

    fn is_on_dirty_list(&self) -> (b: bool) {
        false
    }

    fn set_on_dirty_list(&mut self, _on_list: bool) {
    }
}

/// The snapshot union matching the socket union: each variant carries the
/// snapshot type of its kind.
#[derive(Clone, Copy, Debug, PartialEq, Eq)]
pub enum SocketState {
    Raw(<RawSocket as TrackedSocket>::State),
    Udp(<UdpSocket as TrackedSocket>::State),
    Tcp(<TcpSocket as TrackedSocket>::State),
}

impl TrackedSocket for Socket {
    type State = SocketState;

    open spec fn spec_state(&self) -> SocketState {
        match self {
            Socket::Raw(s) => SocketState::Raw(s.spec_state()),
            Socket::Udp(s) => SocketState::Udp(s.spec_state()),
            Socket::Tcp(s) => SocketState::Tcp(s.spec_state()),
        }
    }

    open spec fn spec_dirty(&self) -> bool {
        match self {
            Socket::Raw(s) => s.spec_dirty(),
            Socket::Udp(s) => s.spec_dirty(),
            Socket::Tcp(s) => s.spec_dirty(),
        }
    }

    open spec fn spec_on_list(&self) -> bool {
        match self {
            Socket::Raw(s) => s.spec_on_list(),
            Socket::Udp(s) => s.spec_on_list(),
            Socket::Tcp(s) => s.spec_on_list(),
        }
    }

    open spec fn matches_state(&self, state: SocketState) -> bool {
        match (state, *self) {
            (SocketState::Raw(_), Socket::Raw(_)) => true,
            (SocketState::Udp(_), Socket::Udp(_)) => true,
            (SocketState::Tcp(_), Socket::Tcp(_)) => true,
            _ => false,
        }
    }

    open spec fn with_on_list(self, on_list: bool) -> Socket {
        match self {
            Socket::Raw(s) => Socket::Raw(s.with_on_list(on_list)),
            Socket::Udp(s) => Socket::Udp(s.with_on_list(on_list)),
            Socket::Tcp(s) => Socket::Tcp(s.with_on_list(on_list)),
        }
    }

    open spec fn spec_on_drop(&self, t: TableView, state: SocketState, handle: SocketHandle) -> TableView {
        match (state, *self) {
            (SocketState::Raw(st), Socket::Raw(s)) => s.spec_on_drop(t, st, handle),
            (SocketState::Udp(st), Socket::Udp(s)) => s.spec_on_drop(t, st, handle),
            (SocketState::Tcp(st), Socket::Tcp(s)) => s.spec_on_drop(t, st, handle),
            _ => t,
        }
    }

    fn new_state(&self) -> (s: SocketState) {
        match self {
            Socket::Raw(s) => SocketState::Raw(s.new_state()),
            Socket::Udp(s) => SocketState::Udp(s.new_state()),
            Socket::Tcp(s) => SocketState::Tcp(s.new_state()),
        }
    }

    fn on_drop(
        &self,
        state: &SocketState,
        dispatch_table: &mut DispatchTable,
        handle: SocketHandle,
    ) {
        match (state, self) {
            (SocketState::Raw(st), Socket::Raw(s)) => s.on_drop(st, dispatch_table, handle),
            (SocketState::Udp(st), Socket::Udp(s)) => s.on_drop(st, dispatch_table, handle),
            (SocketState::Tcp(st), Socket::Tcp(s)) => s.on_drop(st, dispatch_table, handle),
            _ => {},
        }
    }

    fn is_dirty(&self) -> (b: bool) {
        match self {
            Socket::Raw(s) => s.is_dirty(),
            Socket::Udp(s) => s.is_dirty(),
            Socket::Tcp(s) => s.is_dirty(),
        }
    }

    fn is_on_dirty_list(&self) -> (b: bool) {
        match self {
            Socket::Raw(s) => s.is_on_dirty_list(),
            Socket::Udp(s) => s.is_on_dirty_list(),
            Socket::Tcp(s) => s.is_on_dirty_list(),
        }
    }

    fn set_on_dirty_list(&mut self, on_list: bool) {
        let mut inner = *self;
        match &mut inner {
            Socket::Raw(s) => s.set_on_dirty_list(on_list),
            Socket::Udp(s) => s.set_on_dirty_list(on_list),
            Socket::Tcp(s) => s.set_on_dirty_list(on_list),
        }
        *self = inner;
    }
}

/// A tracking guard over one socket.
///
/// It captures the socket's baseline snapshot at construction; `release`
/// reconciles the dispatch table against the socket's current state and
/// maintains dirty-set membership.  Release it exactly once, on every exit
/// path of the mutation it guards.
pub struct SocketTracker<T: TrackedSocket> {
    handle: SocketHandle,
    state: T::State,
}

impl<T: TrackedSocket> SocketTracker<T> {
    /// The handle the guard was taken for.
    pub closed spec fn spec_handle(&self) -> SocketHandle {
        self.handle
    }

    /// The baseline snapshot captured at construction.
    pub closed spec fn spec_snapshot(&self) -> T::State {
        self.state
    }

    /// Wrap a socket about to be mutated, capturing its baseline snapshot.
    pub fn new(handle: SocketHandle, socket: &T) -> (tracker: SocketTracker<T>)
        ensures
            tracker.spec_handle() == handle,
            tracker.spec_snapshot() == socket.spec_state(),
            socket.matches_state(tracker.spec_snapshot()),
    {
        let state = socket.new_state();
        SocketTracker { handle, state }
    }

    /// End the guarded mutation: run the per-kind diff policy against the
    /// table, then enqueue the socket on the dirty set when it reports dirty
    /// and is not already enqueued, marking it enqueued.
    pub fn release(
        self,
        socket: &mut T,
        dispatch_table: &mut DispatchTable,
        dirty_sockets: &mut DirtySet,
    )
        requires
            old(socket).matches_state(self.spec_snapshot()),
            old(dispatch_table).wf(),
            old(dirty_sockets).wf(),
        ensures
            final(dispatch_table).wf(),
            final(dirty_sockets).wf(),
            final(dispatch_table)@ == old(socket).spec_on_drop(
                old(dispatch_table)@,
                self.spec_snapshot(),
                self.spec_handle(),
            ),
            ({
                let enqueue = old(socket).spec_dirty() && !old(socket).spec_on_list();
                &&& final(dirty_sockets)@ == (if enqueue {
                    old(dirty_sockets)@.insert(self.spec_handle())
                } else {
                    old(dirty_sockets)@
                })
                &&& final(dirty_sockets).spec_len() == old(dirty_sockets).spec_len() + (
                if enqueue && !old(dirty_sockets)@.contains(self.spec_handle()) {
                    1int
                } else {
                    0int
                })
                &&& *final(socket) == (if enqueue {
                    old(socket).with_on_list(true)
                } else {
                    *old(socket)
                })
            }),
    {
        socket.on_drop(&self.state, dispatch_table, self.handle);
        if !socket.is_on_dirty_list() && socket.is_dirty() {
            dirty_sockets.insert(self.handle);
            socket.set_on_dirty_list(true);
        }
    }
}

} // verus!
