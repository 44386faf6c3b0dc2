//! Stream bookkeeping for a raw streaming protocol: the connection-level
//! handler state machine, the behaviour-level state machine that sits above
//! all connections, and the laws that tie them together.

pub mod behaviour;
pub mod handler;
pub mod ids;
pub mod laws;
pub mod peer;
pub mod queue;

pub use behaviour::{
    NetworkAction, OutboundFailure, Streaming, StreamingError, StreamingEvent, StreamingState,
};
pub use handler::{
    HandlerOutput, HandlerState, StreamingProtocol, StreamingProtocolsHandler,
    StreamingProtocolsHandlerEvent, UpgradeError,
};
pub use ids::{InboundStreamId, OutboundStreamId};
pub use peer::{PeerKey, PeerSet};
