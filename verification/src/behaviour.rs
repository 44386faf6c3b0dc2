//! The behaviour: the state machine above all connections. It knows which
//! peers are connected, hands out outbound stream IDs, and queues what it has
//! to tell the swarm (open a substream on some connection, or report an event
//! to the user), to be handed out one at a time when polled.

use std::collections::VecDeque;
use std::sync::atomic::AtomicU64;
use std::sync::Arc;
use vstd::prelude::*;

use crate::handler::{StreamingProtocolsHandler, StreamingProtocolsHandlerEvent, initial_handler_state};
use crate::ids::{InboundStreamId, OutboundStreamId};
use crate::peer::{PeerKey, PeerSet};
use crate::queue::release_spare_capacity;

verus! {

/// What the behaviour reports to its user.
#[derive(Debug)]
pub enum StreamingEvent<S> {
    /// A remote peer opened a stream to us.
    NewIncoming { peer_id: PeerKey, id: InboundStreamId, stream: S },
    /// A stream we asked for with `open_stream` has been opened.
    StreamOpened { peer_id: PeerKey, id: OutboundStreamId, stream: S },
    /// A stream we asked for could not be opened.
    OutboundFailure { peer_id: PeerKey, id: OutboundStreamId, error: OutboundFailure },
}

/// Possible failures in opening an outbound stream.
#[derive(Debug, Clone, Copy, PartialEq, Eq, Structural)]
pub enum OutboundFailure {
    /// The request timed out before the stream was opened.
    ///
    /// It is not known whether the remote received the request.
    Timeout,
    /// The connection closed before the stream was opened.
    ///
    /// It is not known whether the remote received the request.
    ConnectionClosed,
    /// The remote supports none of the requested protocols.
    UnsupportedProtocols,
}

/// Why a stream could not be opened.
#[derive(Debug)]
pub enum StreamingError {
    /// The peer is not connected.
    NotConnected(PeerKey),
}

/// What the behaviour asks of the swarm when it is polled.
#[derive(Debug)]
pub enum NetworkAction<S> {
    /// Tell a handler of some connection to `peer_id` to open the outbound
    /// substream `event`.
    NotifyHandler { peer_id: PeerKey, event: OutboundStreamId },
    /// Report `StreamingEvent` to the user.
    GenerateEvent(StreamingEvent<S>),
}

/// The abstract state of the behaviour.
pub struct StreamingState<S> {
    /// Actions for the swarm, oldest first.
    pub pending_events: Seq<NetworkAction<S>>,
    /// The number carried by the next outbound stream ID.
    pub next_stream_id: nat,
    /// The identities of the connected peers.
    pub connected: Set<Seq<u8>>,
}

/// The state of a fresh behaviour.
pub open spec fn initial_streaming_state<S>() -> StreamingState<S> {
    StreamingState { pending_events: Seq::empty(), next_stream_id: 0, connected: Set::empty() }
}

/// Whether the behaviour accepts `event` from a handler: it reports new and
/// opened streams, and does not handle outbound failures.
pub open spec fn accepts_handler_event<S>(event: StreamingProtocolsHandlerEvent<S>) -> bool {
    event is NewIncoming || event is StreamOpened
}

/// The user event that reports the handler event `event` from `peer_id`,
/// for the events the behaviour accepts.
pub open spec fn reported_event<S>(peer_id: PeerKey, event: StreamingProtocolsHandlerEvent<S>) -> StreamingEvent<S>
    recommends
        accepts_handler_event(event),
{
    match event {
        StreamingProtocolsHandlerEvent::NewIncoming { id, stream } => StreamingEvent::NewIncoming {
            peer_id,
            id,
            stream,
        },
        StreamingProtocolsHandlerEvent::StreamOpened { id, stream } => StreamingEvent::StreamOpened {
            peer_id,
            id,
            stream,
        },
        // Outbound failures are not accepted, so nothing is said of them.
        _ => arbitrary(),
    }
}

/// Whether `post` is a state the behaviour can be in after one of its
/// operations, started in `pre`. Every operation of `Streaming` states
/// this of the states before and after it, so a run of calls is a run of steps.
pub open spec fn is_streaming_step<S>(pre: StreamingState<S>, post: StreamingState<S>) -> bool {
    ||| exists|p: PeerKey, r: Result<OutboundStreamId, StreamingError>|
        #[trigger] pre.open_stream_outcome(p, post, r)
    ||| exists|p: Seq<u8>| post == #[trigger] pre.with_connected(p)
    ||| exists|p: Seq<u8>| post == #[trigger] pre.with_disconnected(p)
    ||| exists|p: PeerKey, e: StreamingProtocolsHandlerEvent<S>|
        accepts_handler_event(e) && post == #[trigger] pre.after_handler_event(p, e)
    ||| post == pre.poll_result().0
    ||| post == pre
}

impl<S> StreamingState<S> {
    /// `action` queued behind the pending actions.
    pub open spec fn with_action(self, action: NetworkAction<S>) -> Self {
        StreamingState { pending_events: self.pending_events.push(action), ..self }
    }

    /// How `open_stream(peer_id)` relates the state before (`self`), the
    /// state after (`post`) and the result (`r`): a connected peer gets the
    /// next outbound ID, which is queued for one of its handlers and then
    /// used up; any other peer is refused and nothing changes.
    pub open spec fn open_stream_outcome(
        self,
        peer_id: PeerKey,
        post: Self,
        r: Result<OutboundStreamId, StreamingError>,
    ) -> bool {
        if self.connected.contains(peer_id@) {
            &&& r matches Ok(id)
            &&& id@ == self.next_stream_id
            &&& post == StreamingState {
                next_stream_id: self.next_stream_id + 1,
                ..self.with_action(NetworkAction::NotifyHandler { peer_id, event: id })
            }
        } else {
            &&& r == Err::<OutboundStreamId, StreamingError>(StreamingError::NotConnected(peer_id))
            &&& post == self
        }
    }

    /// The state after `peer` connected.
    pub open spec fn with_connected(self, peer: Seq<u8>) -> Self {
        StreamingState { connected: self.connected.insert(peer), ..self }
    }

    /// The state after `peer` disconnected.
    pub open spec fn with_disconnected(self, peer: Seq<u8>) -> Self {
        StreamingState { connected: self.connected.remove(peer), ..self }
    }

    /// The state after the handler event `event` arrived from `peer_id`.
    pub open spec fn after_handler_event(self, peer_id: PeerKey, event: StreamingProtocolsHandlerEvent<S>) -> Self {
        self.with_action(NetworkAction::GenerateEvent(reported_event(peer_id, event)))
    }

    /// The state after one poll, and what the poll hands out: the oldest
    /// pending action, or nothing when there is none.
    pub open spec fn poll_result(self) -> (Self, Option<NetworkAction<S>>) {
        if self.pending_events.len() > 0 {
            (
                StreamingState { pending_events: self.pending_events.drop_first(), ..self },
                Some(self.pending_events[0]),
            )
        } else {
            (self, None)
        }
    }
}

/// The streaming behaviour.
pub struct Streaming<S> {
    /// Pending actions to return from `poll`.
    pending_events: VecDeque<NetworkAction<S>>,
    /// The next inbound stream ID, shared with every handler.
    next_inbound_id: Arc<AtomicU64>,
    /// The next outbound stream ID.
    next_stream_id: OutboundStreamId,
    /// The connected peers.
    connected: PeerSet,
}

impl<S> View for Streaming<S> {
    type V = StreamingState<S>;

    closed spec fn view(&self) -> StreamingState<S> {
        StreamingState {
            pending_events: self.pending_events@,
            next_stream_id: self.next_stream_id@ as nat,
            connected: self.connected@,
        }
    }
}

impl<S> Default for Streaming<S> {
    fn default() -> (streaming: Self)
        ensures
            streaming@ == initial_streaming_state::<S>(),
            streaming@.pending_events.len() == 0,
            streaming@.next_stream_id == 0,
            forall|q: Seq<u8>| !streaming@.connected.contains(q),
    {
        let streaming = Streaming {
            pending_events: VecDeque::new(),
            next_inbound_id: Arc::new(AtomicU64::new(0)),
            next_stream_id: OutboundStreamId::default(),
            connected: PeerSet::new(),
        };
        assert(streaming@.pending_events =~= Seq::empty());
        streaming
    }
}

impl<S> Streaming<S> {
    /// Opens a stream to `peer_id`: when the peer is connected, hands out the
    /// next outbound stream ID and queues the request for one of the peer's
    /// handlers; otherwise fails with `NotConnected` and changes nothing.
    pub fn open_stream(&mut self, peer_id: PeerKey) -> (r: Result<OutboundStreamId, StreamingError>)
        requires
            old(self)@.connected.contains(peer_id@) ==> old(self)@.next_stream_id < u64::MAX,
        ensures
            old(self)@.open_stream_outcome(peer_id, final(self)@, r),
            final(self)@.connected == old(self)@.connected,
            r is Ok == old(self)@.connected.contains(peer_id@),
            r matches Ok(id) ==> {
                &&& id@ == old(self)@.next_stream_id
                &&& final(self)@.next_stream_id == old(self)@.next_stream_id + 1
                &&& final(self)@.pending_events == old(self)@.pending_events.push(
                    NetworkAction::NotifyHandler { peer_id, event: id },
                )
            },
            r is Err ==> final(self)@ == old(self)@,
            is_streaming_step(old(self)@, final(self)@),
    {
        let ghost pre = self@;
        let ghost peer = peer_id;
        if !self.connected.contains(&peer_id) {
            let r = Err(StreamingError::NotConnected(peer_id));
            assert(pre.open_stream_outcome(peer, self@, r));
            return r;
        }
        let stream_id = self.next_stream_id();
        let action = NetworkAction::NotifyHandler { peer_id, event: stream_id };
        self.pending_events.push_back(action);
        let r = Ok(stream_id);
        assert(pre.open_stream_outcome(peer, self@, r));
        r
    }

    /// Hands out the next outbound stream ID and moves the counter past it.
    fn next_stream_id(&mut self) -> (id: OutboundStreamId)
        requires
            old(self)@.next_stream_id < u64::MAX,
        ensures
            id@ == old(self)@.next_stream_id,
            final(self)@ == (StreamingState { next_stream_id: old(self)@.next_stream_id + 1, ..old(self)@ }),
    {
        let stream_id = self.next_stream_id;
        self.next_stream_id = stream_id.successor();
        stream_id
    }

    /// Whether `peer_id` is connected.
    pub fn is_connected(&self, peer_id: &PeerKey) -> (connected: bool)
        ensures
            connected == self@.connected.contains(peer_id@),
    {
        self.connected.contains(peer_id)
    }

    /// Whether every outbound stream ID has been handed out, so that opening
    /// another stream would overflow the counter.
    pub fn stream_ids_exhausted(&self) -> (exhausted: bool)
        ensures
            exhausted == (self@.next_stream_id >= u64::MAX),
    {
        self.next_stream_id.is_last()
    }

    /// A handler for a new connection, drawing inbound stream IDs from the
    /// counter this behaviour shares with all its handlers.
    pub fn new_handler<E>(&mut self) -> (handler: StreamingProtocolsHandler<S, E>)
        ensures
            handler@ == initial_handler_state::<S, E>(),
            final(self)@ == old(self)@,
            is_streaming_step(old(self)@, final(self)@),
    {
        StreamingProtocolsHandler::new(self.next_inbound_id.clone())
    }

    /// `peer_id` connected.
    pub fn inject_connected(&mut self, peer_id: &PeerKey)
        ensures
            final(self)@ == old(self)@.with_connected(peer_id@),
            final(self)@.connected == old(self)@.connected.insert(peer_id@),
            final(self)@.pending_events == old(self)@.pending_events,
            final(self)@.next_stream_id == old(self)@.next_stream_id,
            is_streaming_step(old(self)@, final(self)@),
    {
        let peer = peer_id.clone();
        self.connected.insert(peer);
        assert(self@ == old(self)@.with_connected(peer_id@));
    }

    /// `peer_id` disconnected.
    pub fn inject_disconnected(&mut self, peer_id: &PeerKey)
        ensures
            final(self)@ == old(self)@.with_disconnected(peer_id@),
            final(self)@.connected == old(self)@.connected.remove(peer_id@),
            final(self)@.pending_events == old(self)@.pending_events,
            final(self)@.next_stream_id == old(self)@.next_stream_id,
            is_streaming_step(old(self)@, final(self)@),
    {
        self.connected.remove(peer_id);
        assert(self@ == old(self)@.with_disconnected(peer_id@));
    }

    /// A handler of a connection to `peer_id` reported `event`: queue it for
    /// the user, with the peer attached.
    pub fn inject_event(&mut self, peer_id: PeerKey, event: StreamingProtocolsHandlerEvent<S>)
        requires
            accepts_handler_event(event),
        ensures
            final(self)@ == old(self)@.after_handler_event(peer_id, event),
            is_streaming_step(old(self)@, final(self)@),
    {
        match event {
            StreamingProtocolsHandlerEvent::NewIncoming { id, stream } => {
                let ev = StreamingEvent::NewIncoming { peer_id, id, stream };
                self.pending_events.push_back(NetworkAction::GenerateEvent(ev));
            },
            StreamingProtocolsHandlerEvent::StreamOpened { id, stream } => {
                let ev = StreamingEvent::StreamOpened { id, peer_id, stream };
                self.pending_events.push_back(NetworkAction::GenerateEvent(ev));
            },
            // Outbound failures are ruled out by the precondition.
            StreamingProtocolsHandlerEvent::OutboundTimeout(_) => {},
            StreamingProtocolsHandlerEvent::OutboundUnsupportedProtocols(_) => {},
        }
    }

    /// Hands out the oldest pending action, or `None` when there is none.
    pub fn poll(&mut self) -> (action: Option<NetworkAction<S>>)
        ensures
            (final(self)@, action) == old(self)@.poll_result(),
            is_streaming_step(old(self)@, final(self)@),
    {
        if let Some(ev) = self.pending_events.pop_front() {
            return Some(ev);
        } else {
            release_spare_capacity(&mut self.pending_events);
        }
        None
    }
}

} // verus!
