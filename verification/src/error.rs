use vstd::prelude::*;

verus! {

/// Failure reported by, or observed on, a byte stream.
///
/// `NotReady` is the non-blocking "no data yet" signal: the operation did not
/// consume or produce anything and may simply be retried later. `Closed`
/// records a stream that accepted none of the bytes offered to it. `Other`
/// covers every other transport failure; the channel passes it through
/// unchanged so the caller's own event loop can decide what to do.
#[derive(Clone, Copy, PartialEq, Eq, Structural, Debug)]
pub enum StreamError {
    NotReady,
    Closed,
    Other,
}

/// Failure of a `send` or `flush` call.
#[derive(Clone, Copy, PartialEq, Eq, Structural, Debug)]
pub enum SendError {
    /// The peer is gone. [`Sender`](crate::Sender) itself reports every
    /// stream failure as `IoError` (a stream that takes nothing as
    /// `IoError(Closed)`); this kind is for channel implementations that
    /// observe disconnection directly.
    Disconnected,
    /// The underlying stream failed; a `NotReady` cause may be retried.
    IoError(StreamError),
    /// The codec could not encode the value.
    SerializationError,
}

/// Failure of a `recv` call.
#[derive(Clone, Copy, PartialEq, Eq, Structural, Debug)]
pub enum RecvError {
    /// The stream ended in the middle of a length prefix or a payload.
    Disconnected,
    /// The underlying stream failed; a `NotReady` cause may be retried, and
    /// the bytes of a partially assembled frame are kept for the retry.
    IoError(StreamError),
    /// A complete frame arrived whose payload did not decode to a value.
    SerializationError,
    /// The declared frame length exceeds the configured maximum; no payload
    /// byte has been read.
    TooLarge(u64),
}

} // verus!
