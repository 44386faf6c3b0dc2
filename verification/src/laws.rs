//! Laws of the library: properties that span several operations of the
//! behaviour, of the handler, or of both together.

use vstd::prelude::*;

use crate::behaviour::{
    NetworkAction, StreamingError, StreamingEvent, StreamingState, accepts_handler_event,
    is_streaming_step,
};
use crate::handler::{
    HandlerOutput, HandlerState, SUBSTREAM_TIMEOUT_MS, StreamingProtocolsHandlerEvent, UpgradeError,
    initial_handler_state,
};
use crate::ids::{InboundStreamId, OutboundStreamId};
use crate::peer::PeerKey;

verus! {

// ---------------------------------------------------------------------------
// Behaviour
// ---------------------------------------------------------------------------

/// Connecting `p` adds exactly `p` to the connected peers: every peer that
/// was connected stays connected, `p` becomes connected, no other peer does,
/// and nothing else about the behaviour changes.
pub proof fn lemma_connect_adds_exactly_the_peer<S>(s: StreamingState<S>, p: Seq<u8>, q: Seq<u8>)
    ensures
        s.with_connected(p).connected.contains(q) == (s.connected.contains(q) || q == p),
        s.with_connected(p).pending_events == s.pending_events,
        s.with_connected(p).next_stream_id == s.next_stream_id,
{
}

/// Disconnecting `p` removes exactly `p` from the connected peers: `p` is no
/// longer connected, every other peer keeps its state, and nothing else about
/// the behaviour changes.
pub proof fn lemma_disconnect_removes_exactly_the_peer<S>(s: StreamingState<S>, p: Seq<u8>, q: Seq<u8>)
    ensures
        s.with_disconnected(p).connected.contains(q) == (s.connected.contains(q) && q != p),
        s.with_disconnected(p).pending_events == s.pending_events,
        s.with_disconnected(p).next_stream_id == s.next_stream_id,
{
}

/// What `open_stream(p)` does, in full: it succeeds exactly when `p` is
/// connected; it never changes which peers are connected, so any other
/// connected peer can still have a stream opened to it; on success it hands
/// out the counter's value as the ID, moves the counter on by one and queues
/// exactly one action, a `NotifyHandler` for `p` with that ID, behind those
/// already pending; on failure it answers `NotConnected(p)` and changes
/// nothing.
pub proof fn lemma_open_stream_effect<S>(
    pre: StreamingState<S>,
    p: PeerKey,
    post: StreamingState<S>,
    r: Result<OutboundStreamId, StreamingError>,
    q: Seq<u8>,
)
    requires
        pre.open_stream_outcome(p, post, r),
    ensures
        post.connected.contains(q) == pre.connected.contains(q),
        r is Ok == pre.connected.contains(p@),
        r matches Ok(id) ==> {
            &&& id@ == pre.next_stream_id
            &&& post.next_stream_id == pre.next_stream_id + 1
            &&& post.pending_events.len() == pre.pending_events.len() + 1
            &&& post.pending_events.take(pre.pending_events.len() as int) == pre.pending_events
            &&& post.pending_events.last() == NetworkAction::<S>::NotifyHandler { peer_id: p, event: id }
        },
        r is Err ==> {
            &&& r == Err::<OutboundStreamId, StreamingError>(StreamingError::NotConnected(p))
            &&& post.connected == pre.connected
            &&& post.pending_events == pre.pending_events
            &&& post.next_stream_id == pre.next_stream_id
        },
{
    if pre.connected.contains(p@) {
        assert(post.pending_events.take(pre.pending_events.len() as int) =~= pre.pending_events);
    }
}

/// Two peers connected one after the other can both have streams opened
/// to them, in either order, and get consecutive IDs: connecting one peer
/// forgets no other, and opening a stream to one forgets no other.
pub proof fn lemma_two_connected_peers_both_open<S>(
    s0: StreamingState<S>,
    a: PeerKey,
    b: PeerKey,
    s1: StreamingState<S>,
    ra: Result<OutboundStreamId, StreamingError>,
    s2: StreamingState<S>,
    rb: Result<OutboundStreamId, StreamingError>,
)
    requires
        s0.with_connected(a@).with_connected(b@).open_stream_outcome(a, s1, ra),
        s1.open_stream_outcome(b, s2, rb),
    ensures
        ra matches Ok(ia) && ia@ == s0.next_stream_id,
        rb matches Ok(ib) && ib@ == s0.next_stream_id + 1,
{
    let c = s0.with_connected(a@).with_connected(b@);
    lemma_connect_adds_exactly_the_peer(s0, a@, a@);
    lemma_connect_adds_exactly_the_peer(s0.with_connected(a@), b@, a@);
    lemma_connect_adds_exactly_the_peer(s0.with_connected(a@), b@, b@);
    lemma_open_stream_effect(c, a, s1, ra, b@);
}

/// A handler event from `p` is queued for the user as exactly one action
/// behind those already pending: a new incoming stream is reported as
/// incoming, and an opened stream as opened, each with `p` attached and with
/// the ID and stream the handler gave; nothing else changes.
pub proof fn lemma_handler_event_reported_with_peer<S>(
    s: StreamingState<S>,
    p: PeerKey,
    e: StreamingProtocolsHandlerEvent<S>,
)
    requires
        accepts_handler_event(e),
    ensures
        s.after_handler_event(p, e).connected == s.connected,
        s.after_handler_event(p, e).next_stream_id == s.next_stream_id,
        s.after_handler_event(p, e).pending_events.len() == s.pending_events.len() + 1,
        s.after_handler_event(p, e).pending_events.take(s.pending_events.len() as int) == s.pending_events,
        e matches StreamingProtocolsHandlerEvent::NewIncoming { id, stream } ==> s.after_handler_event(
            p,
            e,
        ).pending_events.last() == NetworkAction::GenerateEvent(
            StreamingEvent::NewIncoming { peer_id: p, id, stream },
        ),
        e matches StreamingProtocolsHandlerEvent::StreamOpened { id, stream } ==> s.after_handler_event(
            p,
            e,
        ).pending_events.last() == NetworkAction::GenerateEvent(
            StreamingEvent::StreamOpened { peer_id: p, id, stream },
        ),
{
    assert(s.after_handler_event(p, e).pending_events.take(s.pending_events.len() as int)
        =~= s.pending_events);
}

/// Polling the behaviour hands out its oldest pending action and removes
/// exactly that one, or hands out nothing and changes nothing when none is
/// pending; the connected peers and the ID counter never change.
pub proof fn lemma_streaming_poll_effect<S>(s: StreamingState<S>)
    ensures
        s.poll_result().0.connected == s.connected,
        s.poll_result().0.next_stream_id == s.next_stream_id,
        s.pending_events.len() > 0 ==> s.poll_result().1 == Some(s.pending_events[0])
            && s.poll_result().0.pending_events == s.pending_events.subrange(1, s.pending_events.len() as int),
        s.pending_events.len() == 0 ==> s.poll_result().1 is None && s.poll_result().0 == s,
{
}


/// Whether each state of `trace` follows from the one before it by one
/// operation of the behaviour.
pub open spec fn is_streaming_trace<S>(trace: Seq<StreamingState<S>>) -> bool {
    forall|i: int| 0 <= i < trace.len() - 1 ==> is_streaming_step(#[trigger] trace[i], trace[i + 1])
}

/// No operation of the behaviour moves the outbound ID counter backwards.
pub proof fn lemma_stream_id_counter_monotone<S>(pre: StreamingState<S>, post: StreamingState<S>)
    requires
        is_streaming_step(pre, post),
    ensures
        pre.next_stream_id <= post.next_stream_id,
{
    if exists|p: PeerKey, r: Result<OutboundStreamId, StreamingError>|
        #[trigger] pre.open_stream_outcome(p, post, r) {
        let (p, r) = choose|p: PeerKey, r: Result<OutboundStreamId, StreamingError>|
            #[trigger] pre.open_stream_outcome(p, post, r);
        assert(pre.open_stream_outcome(p, post, r));
    }
}

/// Along a trace, the outbound ID counter never decreases.
proof fn lemma_stream_id_counter_monotone_along<S>(trace: Seq<StreamingState<S>>, i: int, j: int)
    requires
        is_streaming_trace(trace),
        0 <= i <= j < trace.len(),
    ensures
        trace[i].next_stream_id <= trace[j].next_stream_id,
    decreases j - i,
{
    if i < j {
        lemma_stream_id_counter_monotone_along(trace, i, j - 1);
        assert(is_streaming_step(trace[j - 1], trace[j]));
        lemma_stream_id_counter_monotone(trace[j - 1], trace[j]);
    }
}

/// Outbound stream IDs are unique: of two streams that `open_stream` opens,
/// at steps `i < j` of any run of the behaviour, the later one carries a
/// larger ID than the earlier one, so the two IDs differ.
pub proof fn lemma_outbound_ids_unique<S>(
    trace: Seq<StreamingState<S>>,
    i: int,
    j: int,
    p: PeerKey,
    q: PeerKey,
    first: OutboundStreamId,
    second: OutboundStreamId,
)
    requires
        is_streaming_trace(trace),
        0 <= i < j,
        j + 1 < trace.len(),
        trace[i].open_stream_outcome(p, trace[i + 1], Ok(first)),
        trace[j].open_stream_outcome(q, trace[j + 1], Ok(second)),
    ensures
        first@ < second@,
        first != second,
{
    lemma_stream_id_counter_monotone_along(trace, i + 1, j);
}

/// A peer that has just connected can have a stream opened to it: it gets
/// the next outbound ID.
pub proof fn lemma_open_after_connect<S>(
    s: StreamingState<S>,
    peer: PeerKey,
    post: StreamingState<S>,
    r: Result<OutboundStreamId, StreamingError>,
)
    requires
        s.with_connected(peer@).open_stream_outcome(peer, post, r),
    ensures
        r matches Ok(id) && id@ == s.next_stream_id,
        post.next_stream_id == s.next_stream_id + 1,
{
}

/// A peer that has just disconnected is refused with `NotConnected`, and the
/// refusal changes nothing.
pub proof fn lemma_open_after_disconnect<S>(
    s: StreamingState<S>,
    peer: PeerKey,
    post: StreamingState<S>,
    r: Result<OutboundStreamId, StreamingError>,
)
    requires
        s.with_disconnected(peer@).open_stream_outcome(peer, post, r),
    ensures
        r == Err::<OutboundStreamId, StreamingError>(StreamingError::NotConnected(peer)),
        post == s.with_disconnected(peer@),
{
}

/// The behaviour hands out its actions first in, first out: an action
/// queued now comes out after every action that was already pending, and
/// straight away when none was.
pub proof fn lemma_streaming_actions_fifo<S>(s: StreamingState<S>, action: NetworkAction<S>)
    ensures
        s.pending_events.len() == 0 ==> s.with_action(action).poll_result() == (s, Some(action)),
        s.pending_events.len() > 0 ==> s.with_action(action).poll_result() == (
            s.poll_result().0.with_action(action),
            s.poll_result().1,
        ),
{
    if s.pending_events.len() == 0 {
        assert(s.with_action(action).pending_events.drop_first() =~= s.pending_events);
    } else {
        assert(s.with_action(action).pending_events.drop_first() =~= s.pending_events.drop_first().push(
            action,
        ));
    }
}

// ---------------------------------------------------------------------------
// Handler
// ---------------------------------------------------------------------------

/// A failed outbound upgrade is answered according to its kind, whatever is
/// already queued: a timeout queues exactly one `OutboundTimeout` for the
/// substream behind the pending events, a failed negotiation exactly one
/// `OutboundUnsupportedProtocols`, and in both cases nothing else changes;
/// any other error becomes the pending error, replacing an earlier one, and
/// leaves the queues as they were.
pub proof fn lemma_dial_upgrade_error_effect<S, E>(
    h: HandlerState<S, E>,
    id: OutboundStreamId,
    err: UpgradeError<E>,
)
    ensures
        h.after_dial_upgrade_error(id, err).outbound == h.outbound,
        h.after_dial_upgrade_error(id, err).keep_alive == h.keep_alive,
        h.after_dial_upgrade_error(id, err).substream_timeout_ms == h.substream_timeout_ms,
        err is Timeout ==> {
            &&& h.after_dial_upgrade_error(id, err).pending_events == h.pending_events.push(
                StreamingProtocolsHandlerEvent::OutboundTimeout(id),
            )
            &&& h.after_dial_upgrade_error(id, err).pending_error == h.pending_error
        },
        err is UnsupportedProtocols ==> {
            &&& h.after_dial_upgrade_error(id, err).pending_events == h.pending_events.push(
                StreamingProtocolsHandlerEvent::OutboundUnsupportedProtocols(id),
            )
            &&& h.after_dial_upgrade_error(id, err).pending_error == h.pending_error
        },
        err matches UpgradeError::Fatal(e) ==> {
            &&& h.after_dial_upgrade_error(id, err).pending_error == Some(e)
            &&& h.after_dial_upgrade_error(id, err).pending_events == h.pending_events
        },
{
}

/// A negotiated substream is reported by exactly one event behind those
/// pending, and a request for an outbound substream queues exactly its ID
/// behind the waiting ones and keeps the connection alive; nothing else
/// changes.
pub proof fn lemma_handler_queue_effects<S, E>(
    h: HandlerState<S, E>,
    e: StreamingProtocolsHandlerEvent<S>,
    id: OutboundStreamId,
)
    ensures
        h.with_event(e).pending_events == h.pending_events.push(e),
        h.with_event(e).outbound == h.outbound,
        h.with_event(e).pending_error == h.pending_error,
        h.with_event(e).keep_alive == h.keep_alive,
        h.with_event(e).substream_timeout_ms == h.substream_timeout_ms,
        h.with_outbound_request(id).outbound == h.outbound.push(id),
        h.with_outbound_request(id).pending_events == h.pending_events,
        h.with_outbound_request(id).pending_error == h.pending_error,
        h.with_outbound_request(id).keep_alive,
        h.with_outbound_request(id).substream_timeout_ms == h.substream_timeout_ms,
{
}


/// Whether `post` is a state a handler can be in after one of its
/// operations, started in `pre`.
pub open spec fn is_handler_step<S, E>(pre: HandlerState<S, E>, post: HandlerState<S, E>) -> bool {
    ||| exists|e: StreamingProtocolsHandlerEvent<S>| post == #[trigger] pre.with_event(e)
    ||| exists|id: OutboundStreamId| post == #[trigger] pre.with_outbound_request(id)
    ||| exists|id: OutboundStreamId, err: UpgradeError<E>|
        post == #[trigger] pre.after_dial_upgrade_error(id, err)
    ||| post == pre.poll_result().0
    ||| post == pre
}

/// Whether `trace` starts with a fresh handler and each later state follows
/// from the one before it by one operation of the handler.
pub open spec fn is_handler_run<S, E>(trace: Seq<HandlerState<S, E>>) -> bool {
    &&& trace.len() > 0
    &&& trace[0] == initial_handler_state::<S, E>()
    &&& forall|i: int| 0 <= i < trace.len() - 1 ==> is_handler_step(#[trigger] trace[i], trace[i + 1])
}

/// A handler always keeps its connection alive and always negotiates
/// outbound substreams with the same timeout, whatever it has been through.
pub proof fn lemma_handler_keeps_connection_alive<S, E>(trace: Seq<HandlerState<S, E>>, i: int)
    requires
        is_handler_run(trace),
        0 <= i < trace.len(),
    ensures
        trace[i].keep_alive,
        trace[i].substream_timeout_ms == SUBSTREAM_TIMEOUT_MS,
    decreases i,
{
    if i > 0 {
        lemma_handler_keeps_connection_alive(trace, i - 1);
        let pre = trace[i - 1];
        let post = trace[i];
        assert(is_handler_step(pre, post));
        if exists|id: OutboundStreamId, err: UpgradeError<E>|
            post == #[trigger] pre.after_dial_upgrade_error(id, err) {
            let (id, err) = choose|id: OutboundStreamId, err: UpgradeError<E>|
                post == #[trigger] pre.after_dial_upgrade_error(id, err);
            assert(post == pre.after_dial_upgrade_error(id, err));
        }
    }
}

/// Outbound requests leave the handler first in, first out, each with the
/// handler's timeout: a request queued now comes out after everything the
/// handler already had to hand out, and straight away when it had nothing.
pub proof fn lemma_outbound_requests_fifo<S, E>(h: HandlerState<S, E>, id: OutboundStreamId)
    ensures
        h.pending_error is None && h.pending_events.len() == 0 && h.outbound.len() == 0
            ==> h.with_outbound_request(id).poll_result() == (
            HandlerState { keep_alive: true, ..h },
            Some(HandlerOutput::<S, E>::OutboundSubstreamRequest { info: id, timeout_ms: h.substream_timeout_ms }),
        ),
        h.poll_result().1 is Some ==> h.with_outbound_request(id).poll_result() == (
            h.poll_result().0.with_outbound_request(id),
            h.poll_result().1,
        ),
{
    let h1 = h.with_outbound_request(id);
    if h.pending_error is None && h.pending_events.len() == 0 {
        if h.outbound.len() == 0 {
            assert(h1.outbound.drop_first() =~= h.outbound);
        } else {
            assert(h1.outbound.drop_first() =~= h.outbound.drop_first().push(id));
        }
    }
}

/// Events for the behaviour leave the handler first in, first out, and go
/// out before any outbound request that is still waiting; only a pending
/// fatal error goes first.
pub proof fn lemma_handler_events_fifo<S, E>(
    h: HandlerState<S, E>,
    event: StreamingProtocolsHandlerEvent<S>,
)
    ensures
        h.pending_error is None && h.pending_events.len() == 0 ==> h.with_event(event).poll_result() == (
            h,
            Some(HandlerOutput::<S, E>::Custom(event)),
        ),
        h.pending_error is Some || h.pending_events.len() > 0 ==> h.with_event(event).poll_result() == (
            h.poll_result().0.with_event(event),
            h.poll_result().1,
        ),
{
    let h1 = h.with_event(event);
    if h.pending_error is None {
        if h.pending_events.len() == 0 {
            assert(h1.pending_events.drop_first() =~= h.pending_events);
        } else {
            assert(h1.pending_events.drop_first() =~= h.pending_events.drop_first().push(event));
        }
    }
}

/// A fatal upgrade error closes the connection at the very next poll, ahead
/// of anything else the handler had queued, which stays queued.
pub proof fn lemma_fatal_error_closes_first<S, E>(h: HandlerState<S, E>, info: OutboundStreamId, e: E)
    ensures
        h.after_dial_upgrade_error(info, UpgradeError::Fatal(e)).poll_result() == (
            HandlerState { pending_error: None, ..h },
            Some(HandlerOutput::<S, E>::Close(e)),
        ),
{
}

/// The state after `n` polls of a handler in state `h`, and what the polls
/// handed out, in order.
pub open spec fn handler_poll_times<S, E>(h: HandlerState<S, E>, n: nat) -> (
    HandlerState<S, E>,
    Seq<Option<HandlerOutput<S, E>>>,
)
    decreases n,
{
    if n == 0 {
        (h, Seq::empty())
    } else {
        let (next, out) = h.poll_result();
        let (last, outs) = handler_poll_times(next, (n - 1) as nat);
        (last, seq![out] + outs)
    }
}

/// Everything a handler in state `h` has to hand out, in the order it goes
/// out: the pending error, then the pending events oldest first, then a
/// request for each waiting outbound substream, oldest first.
pub open spec fn handler_queued_outputs<S, E>(h: HandlerState<S, E>) -> Seq<Option<HandlerOutput<S, E>>> {
    let error: Seq<Option<HandlerOutput<S, E>>> = match h.pending_error {
        Some(e) => seq![Some(HandlerOutput::Close(e))],
        None => Seq::empty(),
    };
    let events = h.pending_events.map_values(
        |e: StreamingProtocolsHandlerEvent<S>| Some(HandlerOutput::<S, E>::Custom(e)),
    );
    let requests = h.outbound.map_values(
        |id: OutboundStreamId|
            Some(
                HandlerOutput::<S, E>::OutboundSubstreamRequest {
                    info: id,
                    timeout_ms: h.substream_timeout_ms,
                },
            ),
    );
    error + events + requests
}

/// How many items a handler in state `h` hands out before an event queued
/// now: its pending error, if any, and its pending events.
pub open spec fn handler_outputs_ahead_of_event<S, E>(h: HandlerState<S, E>) -> nat {
    (if h.pending_error is Some { 1nat } else { 0nat }) + h.pending_events.len()
}

/// An event queued now leaves after what is ahead of it, and before any
/// waiting outbound request.
pub proof fn lemma_event_leaves_after_those_ahead<S, E>(
    h: HandlerState<S, E>,
    event: StreamingProtocolsHandlerEvent<S>,
)
    ensures
        handler_poll_times(h.with_event(event), handler_outputs_ahead_of_event(h) + 1).1.last()
            == Some(HandlerOutput::<S, E>::Custom(event)),
{
    let g = h.with_event(event);
    let k = handler_outputs_ahead_of_event(h) + 1;
    let err: Seq<Option<HandlerOutput<S, E>>> = match h.pending_error {
        Some(e) => seq![Some(HandlerOutput::Close(e))],
        None => Seq::empty(),
    };
    let events = g.pending_events.map_values(
        |e: StreamingProtocolsHandlerEvent<S>| Some(HandlerOutput::<S, E>::Custom(e)),
    );
    let requests = g.outbound.map_values(
        |id: OutboundStreamId|
            Some(
                HandlerOutput::<S, E>::OutboundSubstreamRequest {
                    info: id,
                    timeout_ms: g.substream_timeout_ms,
                },
            ),
    );
    let q = handler_queued_outputs(g);
    assert(q == err + events + requests);
    assert(err.len() + h.pending_events.len() == k - 1);
    assert(events[h.pending_events.len() as int] == Some(HandlerOutput::<S, E>::Custom(event)));
    assert(q[k - 1] == events[h.pending_events.len() as int]);
    lemma_handler_drains_in_order(g, k);
    assert(handler_poll_times(g, k).1.last() == q.push(None).take(k as int)[k - 1]);
}

/// An action queued now leaves the behaviour after the actions already
/// pending.
pub proof fn lemma_action_leaves_after_those_ahead<S>(s: StreamingState<S>, action: NetworkAction<S>)
    ensures
        streaming_poll_times(s.with_action(action), s.pending_events.len() + 1).1.last() == Some(
            action,
        ),
{
    let g = s.with_action(action);
    let k = s.pending_events.len() + 1;
    lemma_streaming_drains_in_order(g, k);
    let all = g.pending_events.map_values(|a: NetworkAction<S>| Some(a));
    assert(all[k - 1] == Some(action));
    assert(streaming_poll_times(g, k).1.last() == all.push(None).take(k as int)[k - 1]);
}

/// Polling the behaviour hands out the same actions from two states with
/// the same pending actions.
proof fn lemma_poll_times_depends_on_queue<S>(s: StreamingState<S>, t: StreamingState<S>, n: nat)
    requires
        s.pending_events == t.pending_events,
    ensures
        streaming_poll_times(s, n).1 == streaming_poll_times(t, n).1,
    decreases n,
{
    if n > 0 {
        lemma_poll_times_depends_on_queue(s.poll_result().0, t.poll_result().0, (n - 1) as nat);
    }
}

/// A handler drains first in, first out: its polls hand out everything it
/// has queued, each item once and in order, and then nothing. After `k`
/// polls it has handed out the first `k` of these.
pub proof fn lemma_handler_drains_in_order<S, E>(h: HandlerState<S, E>, k: nat)
    requires
        k <= handler_queued_outputs(h).len() + 1,
    ensures
        handler_poll_times(h, k).1 == handler_queued_outputs(h).push(None).take(k as int),
        k == handler_queued_outputs(h).len() + 1 ==> handler_poll_times(h, k).0 == (HandlerState {
            pending_error: None,
            pending_events: Seq::empty(),
            outbound: Seq::empty(),
            ..h
        }),
    decreases k,
{
    let all = handler_queued_outputs(h).push(None);
    if k > 0 {
        let (next, out) = h.poll_result();
        let rest = handler_queued_outputs(next).push(None);
        assert(next.substream_timeout_ms == h.substream_timeout_ms);
        if h.pending_error is Some {
            assert(next.pending_events == h.pending_events);
            assert(next.outbound == h.outbound);
            assert(rest =~= all.drop_first());
        } else if h.pending_events.len() > 0 {
            assert(rest =~= all.drop_first());
        } else if h.outbound.len() > 0 {
            assert(h.pending_events.map_values(
                |e: StreamingProtocolsHandlerEvent<S>| Some(HandlerOutput::<S, E>::Custom(e)),
            ) =~= Seq::empty());
            assert(rest =~= all.drop_first());
        } else {
            assert(handler_queued_outputs(h) =~= Seq::empty());
            assert(rest =~= all);
            assert(h.pending_events =~= Seq::empty());
            assert(h.outbound =~= Seq::empty());
        }
        assert(out == all[0]);
        lemma_handler_drains_in_order(next, (k - 1) as nat);
        assert(handler_poll_times(h, k).1 =~= all.take(k as int));
    }
}

/// The state after `n` polls of the behaviour in state `s`, and what the
/// polls handed out, in order.
pub open spec fn streaming_poll_times<S>(s: StreamingState<S>, n: nat) -> (
    StreamingState<S>,
    Seq<Option<NetworkAction<S>>>,
)
    decreases n,
{
    if n == 0 {
        (s, Seq::empty())
    } else {
        let (next, out) = s.poll_result();
        let (last, outs) = streaming_poll_times(next, (n - 1) as nat);
        (last, seq![out] + outs)
    }
}

/// The behaviour drains first in, first out: its polls hand out its pending
/// actions, each once and in order, and then nothing. After `k` polls it has
/// handed out the first `k` of them.
pub proof fn lemma_streaming_drains_in_order<S>(s: StreamingState<S>, k: nat)
    requires
        k <= s.pending_events.len() + 1,
    ensures
        streaming_poll_times(s, k).1 == s.pending_events.map_values(
            |a: NetworkAction<S>| Some(a),
        ).push(None).take(k as int),
        k == s.pending_events.len() + 1 ==> streaming_poll_times(s, k).0 == (StreamingState {
            pending_events: Seq::empty(),
            ..s
        }),
    decreases k,
{
    let all = s.pending_events.map_values(|a: NetworkAction<S>| Some(a)).push(None);
    if k > 0 {
        let (next, out) = s.poll_result();
        let rest = next.pending_events.map_values(|a: NetworkAction<S>| Some(a)).push(None);
        if s.pending_events.len() > 0 {
            assert(rest =~= all.drop_first());
        } else {
            assert(s.pending_events =~= Seq::empty());
            assert(rest =~= all);
        }
        assert(out == all[0]);
        lemma_streaming_drains_in_order(next, (k - 1) as nat);
        assert(streaming_poll_times(s, k).1 =~= all.take(k as int));
    }
}

// ---------------------------------------------------------------------------
// Behaviour and handler together
// ---------------------------------------------------------------------------

/// The stream that `open_stream` asks for reaches the user under the ID that
/// `open_stream` returned, and from the peer it was asked of, whatever else
/// was queued on the way:
/// - once the actions queued before it have gone out, the behaviour tells a
///   handler of the peer to open that ID;
/// - once what a handler (`h0`) had queued has gone out, it requests the
///   substream for that ID, with its timeout;
/// - once the substream is negotiated, after the events queued before it the
///   handler (now `h1`) reports it opened under that ID;
/// - after the actions queued before it, the behaviour (now `b2`) reports it to
///   the user under that ID, with the peer attached.
pub proof fn lemma_opened_stream_keeps_its_id<S, E>(
    b0: StreamingState<S>,
    peer: PeerKey,
    b1: StreamingState<S>,
    r: Result<OutboundStreamId, StreamingError>,
    h0: HandlerState<S, E>,
    h1: HandlerState<S, E>,
    b2: StreamingState<S>,
    stream: S,
)
    requires
        b0.connected.contains(peer@),
        b0.open_stream_outcome(peer, b1, r),
    ensures
        r is Ok,
        forall|id: OutboundStreamId|
            r == Ok::<OutboundStreamId, StreamingError>(id) ==> {
                let opened = StreamingProtocolsHandlerEvent::StreamOpened { id, stream };
                let asked = h0.with_outbound_request(id);
                let negotiated = h1.with_event(opened);
                let reported = b2.after_handler_event(peer, opened);
                &&& streaming_poll_times(b1, b1.pending_events.len()).1.last() == Some(
                    NetworkAction::<S>::NotifyHandler { peer_id: peer, event: id },
                )
                &&& handler_poll_times(asked, handler_queued_outputs(asked).len()).1.last() == Some(
                    HandlerOutput::<S, E>::OutboundSubstreamRequest {
                        info: id,
                        timeout_ms: h0.substream_timeout_ms,
                    },
                )
                &&& handler_poll_times(negotiated, handler_outputs_ahead_of_event(h1) + 1).1.last()
                    == Some(HandlerOutput::<S, E>::Custom(opened))
                &&& streaming_poll_times(reported, reported.pending_events.len()).1.last() == Some(
                    NetworkAction::GenerateEvent(
                        StreamingEvent::StreamOpened { peer_id: peer, id, stream },
                    ),
                )
            },
{
    assert forall|id: OutboundStreamId| r == Ok::<OutboundStreamId, StreamingError>(id) implies {
        let opened = StreamingProtocolsHandlerEvent::StreamOpened { id, stream };
        let asked = h0.with_outbound_request(id);
        let negotiated = h1.with_event(opened);
        let reported = b2.after_handler_event(peer, opened);
        &&& streaming_poll_times(b1, b1.pending_events.len()).1.last() == Some(
            NetworkAction::<S>::NotifyHandler { peer_id: peer, event: id },
        )
        &&& handler_poll_times(asked, handler_queued_outputs(asked).len()).1.last() == Some(
            HandlerOutput::<S, E>::OutboundSubstreamRequest {
                info: id,
                timeout_ms: h0.substream_timeout_ms,
            },
        )
        &&& handler_poll_times(negotiated, handler_outputs_ahead_of_event(h1) + 1).1.last() == Some(
            HandlerOutput::<S, E>::Custom(opened),
        )
        &&& streaming_poll_times(reported, reported.pending_events.len()).1.last() == Some(
            NetworkAction::GenerateEvent(StreamingEvent::StreamOpened { peer_id: peer, id, stream }),
        )
    } by {
        let opened = StreamingProtocolsHandlerEvent::StreamOpened { id, stream };
        let asked = h0.with_outbound_request(id);
        let request = HandlerOutput::<S, E>::OutboundSubstreamRequest {
            info: id,
            timeout_ms: h0.substream_timeout_ms,
        };
        lemma_action_leaves_after_those_ahead(b0, NetworkAction::NotifyHandler { peer_id: peer, event: id });
        assert(b1.pending_events == b0.with_action(NetworkAction::NotifyHandler { peer_id: peer, event: id }).pending_events);
        assert(streaming_poll_times(b1, b1.pending_events.len()).1 == streaming_poll_times(
            b0.with_action(NetworkAction::NotifyHandler { peer_id: peer, event: id }),
            b0.pending_events.len() + 1,
        ).1) by {
            lemma_poll_times_depends_on_queue(b1, b0.with_action(NetworkAction::NotifyHandler { peer_id: peer, event: id }), b1.pending_events.len());
        }
        let q = handler_queued_outputs(asked);
        assert(q =~= handler_queued_outputs(h0).push(Some(request)));
        lemma_handler_drains_in_order(asked, q.len());
        assert(handler_poll_times(asked, q.len()).1.last() == q.push(None).take(q.len() as int)[q.len() - 1]);
        lemma_event_leaves_after_those_ahead(h1, opened);
        lemma_action_leaves_after_those_ahead(
            b2,
            NetworkAction::GenerateEvent(StreamingEvent::StreamOpened { peer_id: peer, id, stream }),
        );
    }
}

/// A stream the remote opens reaches the user under the ID the handler
/// listened with, and from the peer whose connection it came on, whatever
/// else was queued: after the events queued before it the handler reports
/// the negotiated substream, and after the actions queued before it the
/// behaviour reports it to the user with the peer attached.
pub proof fn lemma_incoming_stream_keeps_its_id<S, E>(
    h: HandlerState<S, E>,
    b: StreamingState<S>,
    peer: PeerKey,
    id: InboundStreamId,
    stream: S,
)
    ensures
        ({
            let incoming = StreamingProtocolsHandlerEvent::NewIncoming { id, stream };
            let negotiated = h.with_event(incoming);
            let reported = b.after_handler_event(peer, incoming);
            &&& handler_poll_times(negotiated, handler_outputs_ahead_of_event(h) + 1).1.last() == Some(
                HandlerOutput::<S, E>::Custom(incoming),
            )
            &&& streaming_poll_times(reported, reported.pending_events.len()).1.last() == Some(
                NetworkAction::GenerateEvent(StreamingEvent::NewIncoming { peer_id: peer, id, stream }),
            )
        }),
{
    let incoming = StreamingProtocolsHandlerEvent::NewIncoming { id, stream };
    lemma_event_leaves_after_those_ahead(h, incoming);
    lemma_action_leaves_after_those_ahead(
        b,
        NetworkAction::GenerateEvent(StreamingEvent::NewIncoming { peer_id: peer, id, stream }),
    );
}

} // verus!
