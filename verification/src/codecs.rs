//! The outcome of handing a packet to a decoder.

use vstd::prelude::*;
use crate::errors::Error;

verus! {

/// Why one packet could not be decoded although the decoder is still fit
/// for the next.
#[derive(Copy, Clone, Debug, PartialEq, Eq, Structural)]
pub enum SkipKind {
    /// The payload of the packet ended early.
    IoError,
    /// The payload of the packet held invalid data.
    DecodeError,
}

/// How the decoding of one delivered packet ended. `A` is the decoded
/// audio, which comes in one of several sample layouts that the consumer
/// tells apart.
#[derive(Debug, PartialEq, Eq)]
pub enum DecodeOutcome<A> {
    /// The packet was decoded into the audio held here.
    Consumed(A),
    /// This packet failed to decode, but the state of the decoder is still
    /// usable. The consumer discards what the packet gave and goes on with
    /// the next packet.
    SkipRecoverable(SkipKind),
    /// The decoder cannot go on. The consumer stops and surfaces the cause.
    Fatal(Error),
}

impl<A> DecodeOutcome<A> {
    /// The outcome that the result of a decoder stands for.
    pub open spec fn of_result(result: Result<A, Error>) -> DecodeOutcome<A> {
        match result {
            Ok(decoded) => DecodeOutcome::Consumed(decoded),
            Err(Error::IoError) => DecodeOutcome::SkipRecoverable(SkipKind::IoError),
            Err(Error::DecodeError) => DecodeOutcome::SkipRecoverable(SkipKind::DecodeError),
            Err(cause) => DecodeOutcome::Fatal(cause),
        }
    }

    /// Sorts the result of a decoder: audio is consumed, a packet that ended
    /// early or held invalid data is skipped, and every other error is
    /// fatal.
    pub fn from_result(result: Result<A, Error>) -> (outcome: DecodeOutcome<A>)
        ensures
            outcome == DecodeOutcome::of_result(result),
    {
        match result {
            Ok(decoded) => DecodeOutcome::Consumed(decoded),
            Err(Error::IoError) => DecodeOutcome::SkipRecoverable(SkipKind::IoError),
            Err(Error::DecodeError) => DecodeOutcome::SkipRecoverable(SkipKind::DecodeError),
            Err(cause) => DecodeOutcome::Fatal(cause),
        }
    }
}

} // verus!
