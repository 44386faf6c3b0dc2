//! Identifiers handed out for inbound and outbound streams.

use vstd::prelude::*;

verus! {

/// The ID of an inbound stream.
///
/// Uniqueness is only meant between two inbound streams of one behaviour;
/// inbound and outbound IDs live in separate spaces.
#[derive(Debug, Copy, Clone, PartialEq, Eq, Hash, Structural)]
pub struct InboundStreamId(u64);

/// The ID of an outbound stream.
///
/// Uniqueness is only meant between two outbound streams of one behaviour;
/// inbound and outbound IDs live in separate spaces.
#[derive(Debug, Copy, Clone, PartialEq, Eq, Hash, Structural)]
pub struct OutboundStreamId(u64);

impl View for InboundStreamId {
    type V = u64;

    closed spec fn view(&self) -> u64 {
        self.0
    }
}

impl View for OutboundStreamId {
    type V = u64;

    closed spec fn view(&self) -> u64 {
        self.0
    }
}

impl InboundStreamId {
    /// The inbound ID carrying the number `value`.
    pub(crate) fn new(value: u64) -> (id: Self)
        ensures
            id@ == value,
    {
        InboundStreamId(value)
    }
}

impl OutboundStreamId {
    /// The ID that follows this one.
    pub(crate) fn successor(&self) -> (next: Self)
        requires
            self@ < u64::MAX,
        ensures
            next@ == self@ + 1,
    {
        OutboundStreamId(self.0 + 1)
    }

    /// Whether this is the largest ID there is.
    pub(crate) fn is_last(&self) -> (last: bool)
        ensures
            last == (self@ == u64::MAX),
    {
        self.0 == u64::MAX
    }
}

impl Default for InboundStreamId {
    fn default() -> (id: Self)
        ensures
            id@ == 0,
    {
        InboundStreamId(0)
    }
}

impl Default for OutboundStreamId {
    fn default() -> (id: Self)
        ensures
            id@ == 0,
    {
        OutboundStreamId(0)
    }
}

} // verus!
