//! The connection dispatcher: builds each connection's `Source`, decides
//! whether to sniff its protocol, and picks the one driver that serves it.
//! The I/O itself is done by the caller, which performs each action and
//! reports what came of it as the next event.

use vstd::prelude::*;

use indexmap::IndexSet;

use crate::addr::Addr;
use crate::ports::{contains_port, port_set};
use crate::protocol::{detect_spec, Protocol};
use crate::source::{Source, TlsStatus};

verus! {

/// The driver that a connection is handed to.
#[derive(Clone, Copy, Debug, PartialEq, Eq, Structural)]
pub enum Adapter {
    /// Raw bidirectional relay to the outbound connection.
    Opaque,
    Http1,
    Http2,
}

/// Where a connection stands in its dispatch.
#[derive(Clone, Copy, Debug, PartialEq, Eq, Structural)]
pub enum ConnState {
    /// Waiting for the first bytes of the connection.
    Peeking,
    /// HTTP/1 was detected; waiting for the route to be built.
    Routing,
    /// Handed to a driver, until the driver finishes.
    Serving(Adapter),
    Closed,
}

/// What the caller reports back after performing an action.
#[derive(Clone, Debug, PartialEq, Eq)]
pub enum ConnEvent {
    /// The peek succeeded with this read-ahead window.
    Peeked(Vec<u8>),
    /// The peek failed with a transport error.
    PeekFailed,
    /// The route factory built a router for the connection's `Source`.
    RouteMade,
    /// The route factory failed for the connection's `Source`.
    RouteFailed,
    /// The driver that served the connection has finished.
    Finished,
}

/// What the caller does next for the connection.
#[derive(Clone, Copy, Debug, PartialEq, Eq, Structural)]
pub enum ConnAction {
    /// Peek the connection's first bytes without consuming them.
    Peek,
    /// Connect outbound for the `Source` and relay bytes opaquely.
    Forward,
    /// Ask the route factory for a router for the `Source`.
    MakeRoute,
    /// Serve the connection as HTTP/1 with the router that was made.
    ServeHttp1,
    /// Serve the connection as HTTP/2, one router per stream.
    ServeHttp2,
    /// Drop the connection.
    Close,
    /// The event does not apply in this state: nothing to do.
    Wait,
}

/// Whether detection is skipped for a connection: its original destination
/// carries one of the disabled ports.
pub open spec fn detection_disabled(ports: Set<u16>, orig_dst: Option<Addr>) -> bool {
    match orig_dst {
        Some(d) => ports.contains(d.port),
        None => false,
    }
}

/// The first step of a connection.
pub open spec fn start(disabled: bool) -> (ConnState, ConnAction) {
    if disabled {
        (ConnState::Serving(Adapter::Opaque), ConnAction::Forward)
    } else {
        (ConnState::Peeking, ConnAction::Peek)
    }
}

/// One step of a connection's dispatch.
pub open spec fn next(st: ConnState, ev: ConnEvent) -> (ConnState, ConnAction) {
    match st {
        ConnState::Peeking => match ev {
            ConnEvent::Peeked(w) => match detect_spec(w@) {
                None => (ConnState::Serving(Adapter::Opaque), ConnAction::Forward),
                Some(Protocol::Http1) => (ConnState::Routing, ConnAction::MakeRoute),
                Some(Protocol::Http2) => (ConnState::Serving(Adapter::Http2), ConnAction::ServeHttp2),
            },
            ConnEvent::PeekFailed => (ConnState::Closed, ConnAction::Close),
            _ => (st, ConnAction::Wait),
        },
        ConnState::Routing => match ev {
            ConnEvent::RouteMade => (ConnState::Serving(Adapter::Http1), ConnAction::ServeHttp1),
            ConnEvent::RouteFailed => (ConnState::Closed, ConnAction::Close),
            _ => (st, ConnAction::Wait),
        },
        ConnState::Serving(_) => match ev {
            ConnEvent::Finished => (ConnState::Closed, ConnAction::Close),
            _ => (st, ConnAction::Wait),
        },
        ConnState::Closed => (st, ConnAction::Wait),
    }
}

/// The actions taken for a sequence of events, from state `st`.
pub open spec fn actions(st: ConnState, evs: Seq<ConnEvent>) -> Seq<ConnAction>
    decreases evs.len(),
{
    if evs.len() == 0 {
        Seq::empty()
    } else {
        let (st2, a) = next(st, evs[0]);
        seq![a] + actions(st2, evs.drop_first())
    }
}

impl ConnState {
    /// Handles an event reported for a connection in this state.
    pub fn on_event(self, event: &ConnEvent) -> (r: (ConnState, ConnAction))
        ensures
            r == next(self, *event),
    {
        match self {
            ConnState::Peeking => match event {
                ConnEvent::Peeked(w) => match Protocol::detect(w.as_slice()) {
                    None => (ConnState::Serving(Adapter::Opaque), ConnAction::Forward),
                    Some(Protocol::Http1) => (ConnState::Routing, ConnAction::MakeRoute),
                    Some(Protocol::Http2) => (ConnState::Serving(Adapter::Http2), ConnAction::ServeHttp2),
                },
                ConnEvent::PeekFailed => (ConnState::Closed, ConnAction::Close),
                _ => (self, ConnAction::Wait),
            },
            ConnState::Routing => match event {
                ConnEvent::RouteMade => (ConnState::Serving(Adapter::Http1), ConnAction::ServeHttp1),
                ConnEvent::RouteFailed => (ConnState::Closed, ConnAction::Close),
                _ => (self, ConnAction::Wait),
            },
            ConnState::Serving(_) => match event {
                ConnEvent::Finished => (ConnState::Closed, ConnAction::Close),
                _ => (self, ConnAction::Wait),
            },
            ConnState::Closed => (self, ConnAction::Wait),
        }
    }
}

/// A protocol-transparent server: for each accepted connection it decides
/// whether to detect the protocol and which driver serves it.
pub struct Server {
    /// Ports of original destinations for which detection is skipped.
    disable_protocol_detection_ports: IndexSet<u16>,
    /// The configured listen address, used when the connection's local
    /// address is unknown.
    listen_addr: Addr,
}

impl Server {
    /// The ports for which detection is skipped.
    pub closed spec fn disabled_ports(&self) -> Set<u16> {
        port_set(self.disable_protocol_detection_ports)
    }

    /// The configured listen address.
    pub closed spec fn listen(&self) -> Addr {
        self.listen_addr
    }

    pub fn new(listen_addr: Addr, disable_protocol_detection_ports: IndexSet<u16>) -> (r: Server)
        ensures
            r.listen() == listen_addr,
            r.disabled_ports() == port_set(disable_protocol_detection_ports),
    {
        Server { disable_protocol_detection_ports, listen_addr }
    }

    /// The `Source` of a connection accepted from `remote`. `local` is the
    /// socket's local address, when it could be read; `orig_dst` is what the
    /// platform's lookup returned.
    pub fn source(
        &self,
        remote: Addr,
        local: Option<Addr>,
        orig_dst: Option<Addr>,
        tls_status: TlsStatus,
    ) -> (r: Source)
        ensures
            r.remote == remote,
            r.local == (match local {
                Some(l) => l,
                None => self.listen(),
            }),
            r.orig_dst == orig_dst,
            r.tls_status == tls_status,
    {
        let local = match local {
            Some(l) => l,
            None => self.listen_addr,
        };
        Source { remote, local, orig_dst, tls_status }
    }

    /// Whether protocol detection is skipped for the connection. This looks
    /// at the port of the recorded original destination, not at any
    /// destination found later by discovery.
    pub fn detection_disabled(&self, source: &Source) -> (r: bool)
        ensures
            r == detection_disabled(self.disabled_ports(), source.orig_dst),
    {
        match source.orig_dst {
            Some(d) => contains_port(&self.disable_protocol_detection_ports, d.port),
            None => false,
        }
    }

    /// Handles a new connection: forward it opaquely when detection is
    /// disabled for it, else peek at its first bytes.
    pub fn serve(&self, source: &Source) -> (r: (ConnState, ConnAction))
        ensures
            r == start(detection_disabled(self.disabled_ports(), source.orig_dst)),
    {
        if self.detection_disabled(source) {
            (ConnState::Serving(Adapter::Opaque), ConnAction::Forward)
        } else {
            (ConnState::Peeking, ConnAction::Peek)
        }
    }
}

/// From a closed connection nothing more is done.
proof fn lemma_closed_waits(evs: Seq<ConnEvent>)
    ensures
        actions(ConnState::Closed, evs).len() == evs.len(),
        forall|k: int|
            0 <= k < evs.len() ==> #[trigger] actions(ConnState::Closed, evs)[k] == ConnAction::Wait,
    decreases evs.len(),
{
    if evs.len() > 0 {
        lemma_closed_waits(evs.drop_first());
        let rest = actions(ConnState::Closed, evs.drop_first());
        assert forall|k: int| 0 <= k < evs.len() implies #[trigger] actions(ConnState::Closed, evs)[k]
            == ConnAction::Wait by {
            if k > 0 {
                assert(actions(ConnState::Closed, evs)[k] == rest[k - 1]);
            }
        }
    }
}

/// From an opaque relay, or a closed connection, the only action that can
/// come is closing.
proof fn lemma_opaque_stays_opaque(st: ConnState, evs: Seq<ConnEvent>)
    requires
        st == ConnState::Serving(Adapter::Opaque) || st == ConnState::Closed,
    ensures
        actions(st, evs).len() == evs.len(),
        forall|k: int|
            0 <= k < evs.len() ==> #[trigger] actions(st, evs)[k] == ConnAction::Close
                || actions(st, evs)[k] == ConnAction::Wait,
    decreases evs.len(),
{
    if evs.len() > 0 {
        let (st2, a) = next(st, evs[0]);
        lemma_opaque_stays_opaque(st2, evs.drop_first());
        let rest = actions(st2, evs.drop_first());
        assert forall|k: int| 0 <= k < evs.len() implies #[trigger] actions(st, evs)[k]
            == ConnAction::Close || actions(st, evs)[k] == ConnAction::Wait by {
            if k > 0 {
                assert(actions(st, evs)[k] == rest[k - 1]);
            }
        }
    }
}

/// A connection whose original destination carries a disabled port is
/// forwarded opaquely at once and its bytes are never peeked at: whatever
/// events follow, no peek, route or HTTP driver is ever asked for.
pub proof fn lemma_disabled_port_skips_detection(
    ports: Set<u16>,
    orig_dst: Addr,
    evs: Seq<ConnEvent>,
)
    requires
        ports.contains(orig_dst.port),
    ensures
        start(detection_disabled(ports, Some(orig_dst))) == (
        ConnState::Serving(Adapter::Opaque),
        ConnAction::Forward,
        ),
        forall|k: int|
            0 <= k < evs.len() ==> #[trigger] actions(ConnState::Serving(Adapter::Opaque), evs)[k]
                == ConnAction::Close || actions(ConnState::Serving(Adapter::Opaque), evs)[k]
                == ConnAction::Wait,
{
    lemma_opaque_stays_opaque(ConnState::Serving(Adapter::Opaque), evs);
}

/// A failed peek closes the connection, and nothing more is done for it:
/// no connector, route or driver is asked for, whatever events follow.
pub proof fn lemma_peek_failure_closes(evs: Seq<ConnEvent>)
    ensures
        actions(ConnState::Peeking, seq![ConnEvent::PeekFailed] + evs)[0] == ConnAction::Close,
        actions(ConnState::Peeking, seq![ConnEvent::PeekFailed] + evs).len() == evs.len() + 1,
        forall|k: int|
            1 <= k <= evs.len() ==> #[trigger] actions(
                ConnState::Peeking,
                seq![ConnEvent::PeekFailed] + evs,
            )[k] == ConnAction::Wait,
{
    let all = seq![ConnEvent::PeekFailed] + evs;
    assert(all[0] == ConnEvent::PeekFailed);
    assert(all.drop_first() =~= evs);
    lemma_closed_waits(evs);
    let rest = actions(ConnState::Closed, evs);
    assert forall|k: int| 1 <= k <= evs.len() implies #[trigger] actions(ConnState::Peeking, all)[k]
        == ConnAction::Wait by {
        assert(actions(ConnState::Peeking, all)[k] == rest[k - 1]);
    }
}

} // verus!
