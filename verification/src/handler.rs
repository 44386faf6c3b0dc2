//! The per-connection state machine. One handler serves one connection and
//! all the substreams on it: it queues the events it has for the behaviour,
//! the outbound substreams it has been asked to open, and at most one fatal
//! error, and hands them out one at a time when polled.

use std::collections::VecDeque;
use std::sync::atomic::AtomicU64;
use std::sync::atomic::Ordering;
use std::sync::Arc;
use vstd::prelude::*;

use crate::ids::{InboundStreamId, OutboundStreamId};
use crate::queue::release_spare_capacity;

verus! {

/// How long the negotiation of a substream may take, in milliseconds.
pub const SUBSTREAM_TIMEOUT_MS: u64 = 500;

/// The raw streaming protocol, as offered on every substream.
#[derive(Debug)]
pub struct StreamingProtocol;

/// The name under which the protocol is negotiated: `/streaming/raw/1.0.0`.
pub open spec fn protocol_name() -> Seq<u8> {
    // the ASCII bytes of `/streaming/raw/1.0.0`
    seq![
        47, 115, 116, 114, 101, 97, 109, 105, 110, 103, 47, 114, 97, 119, 47,
        49, 46, 48, 46, 48
    ]
}

impl StreamingProtocol {
    /// The protocol name to negotiate. Protocol names must start with `/`.
    pub fn protocol_info(&self) -> (name: Vec<u8>)
        ensures
            name@ == protocol_name(),
            name@.len() > 0 && name@[0] == 47, // `/`,
    {
        let name: Vec<u8> = vec![
            47u8, 115, 116, 114, 101, 97, 109, 105, 110, 103, 47, 114, 97, 119, 47, 49, 46, 48, 46, 48
        ];
        assert(name@ =~= protocol_name());
        name
    }
}

/// What a handler reports to the behaviour about its substreams.
#[derive(Debug)]
pub enum StreamingProtocolsHandlerEvent<S> {
    /// The remote opened a substream to us.
    NewIncoming { id: InboundStreamId, stream: S },
    /// A substream we asked for has been opened.
    StreamOpened { id: OutboundStreamId, stream: S },
    /// Negotiating the outbound substream `id` timed out.
    OutboundTimeout(OutboundStreamId),
    /// The remote supports none of the protocols offered for the outbound substream `id`.
    OutboundUnsupportedProtocols(OutboundStreamId),
}

/// Why an outbound substream could not be upgraded to the protocol.
#[derive(Debug)]
pub enum UpgradeError<E> {
    /// The upgrade did not finish in time.
    Timeout,
    /// Protocol negotiation failed: the remote supports none of the protocols.
    UnsupportedProtocols,
    /// Anything else: a fatal error or misbehaviour of the remote, which
    /// closes the connection. `E` is the error as it was reported.
    Fatal(E),
}

/// What a handler hands out when it is polled.
#[derive(Debug)]
pub enum HandlerOutput<S, E> {
    /// Open an outbound substream for `info`, negotiated within `timeout_ms`.
    OutboundSubstreamRequest { info: OutboundStreamId, timeout_ms: u64 },
    /// An event for the behaviour.
    Custom(StreamingProtocolsHandlerEvent<S>),
    /// Close the connection with this error; the handler is not polled again.
    Close(E),
}

/// The abstract state of a handler.
pub struct HandlerState<S, E> {
    /// Negotiation timeout given to every outbound substream, in milliseconds.
    pub substream_timeout_ms: u64,
    /// Whether the handler wants its connection kept alive.
    pub keep_alive: bool,
    /// Events for the behaviour, oldest first.
    pub pending_events: Seq<StreamingProtocolsHandlerEvent<S>>,
    /// Outbound substreams still to be requested, oldest first.
    pub outbound: Seq<OutboundStreamId>,
    /// A fatal error that closes the connection at the next poll.
    pub pending_error: Option<E>,
}

/// The state of a freshly created handler.
pub open spec fn initial_handler_state<S, E>() -> HandlerState<S, E> {
    HandlerState {
        substream_timeout_ms: SUBSTREAM_TIMEOUT_MS,
        keep_alive: true,
        pending_events: Seq::empty(),
        outbound: Seq::empty(),
        pending_error: None,
    }
}

impl<S, E> HandlerState<S, E> {
    /// What holds of every handler: it keeps its connection alive and
    /// negotiates substreams within `SUBSTREAM_TIMEOUT_MS`.
    pub open spec fn is_live(self) -> bool {
        self.keep_alive && self.substream_timeout_ms == SUBSTREAM_TIMEOUT_MS
    }

    /// `event` queued behind the pending events.
    pub open spec fn with_event(self, event: StreamingProtocolsHandlerEvent<S>) -> Self {
        HandlerState { pending_events: self.pending_events.push(event), ..self }
    }

    /// The request to open an outbound substream for `id` queued, and the
    /// connection kept alive.
    pub open spec fn with_outbound_request(self, id: OutboundStreamId) -> Self {
        HandlerState { keep_alive: true, outbound: self.outbound.push(id), ..self }
    }

    /// The state after the upgrade of the outbound substream `info` failed with `err`.
    pub open spec fn after_dial_upgrade_error(self, info: OutboundStreamId, err: UpgradeError<E>) -> Self {
        match err {
            UpgradeError::Timeout => self.with_event(
                StreamingProtocolsHandlerEvent::OutboundTimeout(info),
            ),
            UpgradeError::UnsupportedProtocols => self.with_event(
                StreamingProtocolsHandlerEvent::OutboundUnsupportedProtocols(info),
            ),
            UpgradeError::Fatal(e) => HandlerState { pending_error: Some(e), ..self },
        }
    }

    /// The state after one poll, and what the poll hands out: a pending error
    /// first, then the oldest pending event, then the oldest outbound
    /// request; nothing when all three are empty.
    pub open spec fn poll_result(self) -> (Self, Option<HandlerOutput<S, E>>) {
        match self.pending_error {
            Some(e) => (HandlerState { pending_error: None, ..self }, Some(HandlerOutput::Close(e))),
            None => if self.pending_events.len() > 0 {
                (
                    HandlerState { pending_events: self.pending_events.drop_first(), ..self },
                    Some(HandlerOutput::Custom(self.pending_events[0])),
                )
            } else if self.outbound.len() > 0 {
                (
                    HandlerState { outbound: self.outbound.drop_first(), ..self },
                    Some(
                        HandlerOutput::OutboundSubstreamRequest {
                            info: self.outbound[0],
                            timeout_ms: self.substream_timeout_ms,
                        },
                    ),
                )
            } else {
                (self, None)
            },
        }
    }
}

/// The handler of one connection.
pub struct StreamingProtocolsHandler<S, E> {
    /// The timeout for outbound substream negotiation, in milliseconds.
    substream_timeout_ms: u64,
    /// Whether the connection is to be kept alive.
    keep_alive: bool,
    /// Queue of events to emit in `poll`.
    pending_events: VecDeque<StreamingProtocolsHandlerEvent<S>>,
    /// Outbound substreams waiting to be requested in `poll`.
    outbound: VecDeque<OutboundStreamId>,
    /// Counter for inbound stream IDs, shared by all handlers of one behaviour.
    inbound_stream_id: Arc<AtomicU64>,
    /// A pending fatal error that results in the connection being closed.
    pending_error: Option<E>,
}

impl<S, E> View for StreamingProtocolsHandler<S, E> {
    type V = HandlerState<S, E>;

    closed spec fn view(&self) -> HandlerState<S, E> {
        HandlerState {
            substream_timeout_ms: self.substream_timeout_ms,
            keep_alive: self.keep_alive,
            pending_events: self.pending_events@,
            outbound: self.outbound@,
            pending_error: self.pending_error,
        }
    }
}

impl<S, E> StreamingProtocolsHandler<S, E> {
    /// Every handler keeps its connection alive and negotiates substreams
    /// within `SUBSTREAM_TIMEOUT_MS`.
    #[verifier::type_invariant]
    spec fn is_live(self) -> bool {
        self@.is_live()
    }

    /// A handler with nothing queued that draws inbound stream IDs from
    /// `inbound_stream_id`.
    pub(crate) fn new(inbound_stream_id: Arc<AtomicU64>) -> (handler: Self)
        ensures
            handler@ == initial_handler_state::<S, E>(),
            handler@.pending_events.len() == 0,
            handler@.outbound.len() == 0,
            handler@.pending_error is None,
            handler@.keep_alive,
            handler@.substream_timeout_ms == 500,
    {
        let handler = StreamingProtocolsHandler {
            substream_timeout_ms: SUBSTREAM_TIMEOUT_MS,
            keep_alive: true,
            pending_events: VecDeque::new(),
            outbound: VecDeque::new(),
            inbound_stream_id,
            pending_error: None,
        };
        assert(handler@.pending_events =~= Seq::empty());
        assert(handler@.outbound =~= Seq::empty());
        handler
    }

    /// What to listen for inbound substreams with: the ID of the next
    /// inbound substream, drawn from the counter shared by all handlers of
    /// the behaviour, and the timeout for its negotiation in milliseconds,
    /// the same as for outbound substreams.
    pub fn listen_protocol(&self) -> (listen: (InboundStreamId, u64))
        ensures
            listen.1 == self@.substream_timeout_ms,
            listen.1 == SUBSTREAM_TIMEOUT_MS,
    {
        proof {
            use_type_invariant(self);
        }
        let value = self.inbound_stream_id.fetch_add(1, Ordering::Relaxed);
        (InboundStreamId::new(value), self.substream_timeout_ms)
    }

    /// Queues `event` behind the pending events.
    fn push_event(&mut self, event: StreamingProtocolsHandlerEvent<S>)
        ensures
            final(self)@ == old(self)@.with_event(event),
            final(self)@.is_live(),
    {
        proof {
            use_type_invariant(&*self);
        }
        let mut events = VecDeque::new();
        std::mem::swap(&mut events, &mut self.pending_events);
        events.push_back(event);
        self.pending_events = events;
    }

    /// An inbound substream `info` has been negotiated: report it.
    pub fn inject_fully_negotiated_inbound(&mut self, handle: S, info: InboundStreamId)
        ensures
            final(self)@ == old(self)@.with_event(
                StreamingProtocolsHandlerEvent::NewIncoming { id: info, stream: handle },
            ),
            final(self)@.is_live(),
    {
        let ev = StreamingProtocolsHandlerEvent::NewIncoming { id: info, stream: handle };
        self.push_event(ev);
    }

    /// The outbound substream `info` has been negotiated: report it.
    pub fn inject_fully_negotiated_outbound(&mut self, handle: S, info: OutboundStreamId)
        ensures
            final(self)@ == old(self)@.with_event(
                StreamingProtocolsHandlerEvent::StreamOpened { id: info, stream: handle },
            ),
            final(self)@.is_live(),
    {
        let ev = StreamingProtocolsHandlerEvent::StreamOpened { id: info, stream: handle };
        self.push_event(ev);
    }

    /// The behaviour asks for an outbound substream `event`: queue the request
    /// and keep the connection alive.
    pub fn inject_event(&mut self, event: OutboundStreamId)
        ensures
            final(self)@ == old(self)@.with_outbound_request(event),
            final(self)@.is_live(),
    {
        proof {
            use_type_invariant(&*self);
        }
        self.keep_alive = true;
        let mut outbound = VecDeque::new();
        std::mem::swap(&mut outbound, &mut self.outbound);
        outbound.push_back(event);
        self.outbound = outbound;
    }

    /// Upgrading the outbound substream `info` failed with `err`. A timeout
    /// or a failed negotiation is reported as an event; anything else is
    /// fatal and closes the connection at the next poll.
    pub fn inject_dial_upgrade_error(&mut self, info: OutboundStreamId, err: UpgradeError<E>)
        ensures
            final(self)@ == old(self)@.after_dial_upgrade_error(info, err),
            final(self)@.outbound == old(self)@.outbound,
            err is Timeout ==> final(self)@.pending_events == old(self)@.pending_events.push(
                StreamingProtocolsHandlerEvent::OutboundTimeout(info),
            ) && final(self)@.pending_error == old(self)@.pending_error,
            err is UnsupportedProtocols ==> final(self)@.pending_events == old(self)@.pending_events.push(
                StreamingProtocolsHandlerEvent::OutboundUnsupportedProtocols(info),
            ) && final(self)@.pending_error == old(self)@.pending_error,
            err matches UpgradeError::Fatal(e) ==> final(self)@.pending_error == Some(e)
                && final(self)@.pending_events == old(self)@.pending_events,
            final(self)@.is_live(),
    {
        proof {
            use_type_invariant(&*self);
        }
        match err {
            UpgradeError::Timeout => {
                self.push_event(StreamingProtocolsHandlerEvent::OutboundTimeout(info));
            },
            UpgradeError::UnsupportedProtocols => {
                self.push_event(StreamingProtocolsHandlerEvent::OutboundUnsupportedProtocols(info));
            },
            UpgradeError::Fatal(e) => {
                self.pending_error = Some(e);
            },
        }
    }

    /// Whether the connection is to be kept alive.
    pub fn connection_keep_alive(&self) -> (keep: bool)
        ensures
            keep == self@.keep_alive,
            keep,
    {
        proof {
            use_type_invariant(self);
        }
        self.keep_alive
    }

    /// Hands out the next thing the handler has to do: a pending error
    /// first, then the oldest pending event, then the oldest outbound
    /// request; `None` when there is nothing to do.
    pub fn poll(&mut self) -> (out: Option<HandlerOutput<S, E>>)
        ensures
            old(self)@.is_live(),
            final(self)@.is_live(),
            (final(self)@, out) == old(self)@.poll_result(),
    {
        proof {
            use_type_invariant(&*self);
        }
        let mut pending_error = None;
        std::mem::swap(&mut pending_error, &mut self.pending_error);
        if let Some(err) = pending_error {
            return Some(HandlerOutput::Close(err));
        }
        let mut events = VecDeque::new();
        std::mem::swap(&mut events, &mut self.pending_events);
        let event = events.pop_front();
        if event.is_none() {
            release_spare_capacity(&mut events);
        }
        self.pending_events = events;
        if let Some(event) = event {
            return Some(HandlerOutput::Custom(event));
        }
        let mut outbound = VecDeque::new();
        std::mem::swap(&mut outbound, &mut self.outbound);
        let info = outbound.pop_front();
        if info.is_none() {
            release_spare_capacity(&mut outbound);
        }
        self.outbound = outbound;
        if let Some(info) = info {
            return Some(
                HandlerOutput::OutboundSubstreamRequest {
                    info,
                    timeout_ms: self.substream_timeout_ms,
                },
            );
        }
        None
    }
}

} // verus!
