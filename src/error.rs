use crate::protocol::MessageId;
use vstd::prelude::*;

verus! {

/// The ways in which handling a message or an exchange can fail.
#[derive(Debug, Clone, Copy, PartialEq, Eq, Structural)]
pub enum Error {
    /// Reading or writing the transport failed; serving stops.
    TransportFailure,
    /// A body's fields do not match its `type`.
    DecodeFailure,
    /// No handler is registered for the body's `type`, or it has none.
    UnroutableMessage,
    /// The request was superseded by a later one on the same handle.
    RequestCancelled,
    /// An attempt took longer than its bound.
    RequestTimedOut,
    /// The completion of the request was dropped without an outcome.
    NoResponse(MessageId),
}

} // verus!
