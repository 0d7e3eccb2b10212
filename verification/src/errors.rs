//! The errors that format readers and decoders report.

use vstd::prelude::*;

verus! {

/// `Error` lists the failures that a format reader or a decoder reports.
///
/// Whether a failure ends the decoding depends on who reports it: see
/// `PacketOutcome::from_result` and `DecodeOutcome::from_result`.
#[derive(Copy, Clone, Debug, PartialEq, Eq, Structural)]
pub enum Error {
    /// An I/O error occurred while reading or seeking the stream.
    IoError,
    /// The stream contained malformed data and could not be decoded or
    /// demuxed.
    DecodeError,
    /// The stream could not be seeked.
    SeekError,
    /// An unsupported container or codec feature was encountered.
    Unsupported,
    /// A default or user-defined limit was reached while decoding or
    /// demuxing the stream.
    LimitError,
    /// The track list of the stream changed. The decoders must be remade
    /// from the new list before decoding goes on.
    ResetRequired,
    /// The underlying source has less data at hand than is needed. Nothing
    /// was lost: the same request may be made again.
    MoreDataRequired,
}

} // verus!
