//! What the extraction state machines observe of a request: its head on the
//! first resumption, and the body read's progress on every resumption.

use vstd::prelude::*;

verus! {

/// The part of a request's head that content negotiation reads: the raw
/// value of its `Content-Type` header, if the header is present.
pub struct RequestHead {
    /// The header's bytes, or `None` when the request carries no
    /// `Content-Type` header.
    pub content_type: Option<Vec<u8>>,
}

/// What one resumption of an extraction observes of the body read.
pub enum BodyPoll {
    /// The body is not fully available yet; the extraction must be resumed
    /// later.
    Pending,
    /// The transport failed before the body was complete; the payload is the
    /// transport error's text.
    Failure(String),
    /// The body arrived whole.
    Payload(Vec<u8>),
}

/// Outcome of one resumption of an extraction state machine.
pub enum ExtractPoll<T, E> {
    /// The machine is waiting on the body read and must be resumed again.
    Pending,
    /// The machine reached a terminal outcome: a decoded wrapper or a
    /// rejection. It must not be resumed afterwards.
    Ready(Result<T, E>),
}

} // verus!
