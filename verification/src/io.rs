//! What a byte source tells a format reader, and a gate that makes a byte
//! source behave like a slow transport.

use vstd::prelude::*;
use crate::errors::Error;

verus! {

/// How one read of a byte source ended. A source keeps the three ways in
/// which a read gives no data apart, so that a format reader can tell a
/// pause from the end.
#[derive(Copy, Clone, Debug, PartialEq, Eq, Structural)]
pub enum ReadOutcome {
    /// The read gave this many bytes, at least one.
    Data(usize),
    /// No data is at hand now, but more may come: a non-blocking source
    /// would have had to wait.
    WouldBlock,
    /// The stream has ended.
    EndOfStream,
    /// The source failed.
    Failed,
}

impl ReadOutcome {
    /// What a format reader that needed the read for its next packet makes
    /// of it: the count of bytes, a call to ask again, or an I/O error.
    pub open spec fn for_packet(self) -> Result<usize, Error> {
        match self {
            ReadOutcome::Data(len) => Ok(len),
            ReadOutcome::WouldBlock => Err(Error::MoreDataRequired),
            ReadOutcome::EndOfStream => Err(Error::IoError),
            ReadOutcome::Failed => Err(Error::IoError),
        }
    }

    /// Turns the outcome of a read that a packet needed into the count of
    /// bytes read or the error that the format reader reports. Only a source
    /// that would block asks for more data; the end of the stream and a
    /// failure are I/O errors.
    pub fn into_result(self) -> (result: Result<usize, Error>)
        ensures
            result == self.for_packet(),
    {
        match self {
            ReadOutcome::Data(len) => Ok(len),
            ReadOutcome::WouldBlock => Err(Error::MoreDataRequired),
            ReadOutcome::EndOfStream => Err(Error::IoError),
            ReadOutcome::Failed => Err(Error::IoError),
        }
    }
}

/// Of this many reads in a row, the last finds no data.
pub const STALL_PERIOD: u8 = 4;

/// Whether the read with the number `ordinal`, counted from one at a fresh
/// gate, finds no data.
pub open spec fn stalls(ordinal: nat) -> bool {
    ordinal % (STALL_PERIOD as nat) == 0
}

/// What a gate that showed `since_stall` shows after one more read: one
/// more, or nought again when that read completed a period.
pub open spec fn count_after_read(since_stall: nat) -> nat {
    if since_stall + 1 == STALL_PERIOD {
        0
    } else {
        since_stall + 1
    }
}

/// What a fresh gate shows after `reads` reads.
pub open spec fn count_after(reads: nat) -> nat
    decreases reads,
{
    if reads == 0 {
        0
    } else {
        count_after_read(count_after((reads - 1) as nat))
    }
}

/// A `ReadGate` decides for each read of a source whether it goes through
/// or finds the source without data, as a non-blocking transport does now
/// and then. Every read that completes a period of `STALL_PERIOD` stalls.
///
/// The view of a gate counts the reads that went through after the latest
/// stall.
pub struct ReadGate {
    since_stall: u8,
}

impl View for ReadGate {
    type V = nat;

    closed spec fn view(&self) -> nat {
        self.since_stall as nat
    }
}

impl ReadGate {
    #[verifier::type_invariant]
    spec fn within_period(self) -> bool {
        self.since_stall < STALL_PERIOD
    }

    /// Creates a gate that no read has passed yet.
    pub fn new() -> (gate: ReadGate)
        ensures
            gate@ == 0,
    {
        ReadGate { since_stall: 0 }
    }

    /// Counts one read and returns whether it goes through. When `false` is
    /// returned the caller makes no read and reports that no data is at
    /// hand, which is no failure: the next reads go through again.
    pub fn allow_read(&mut self) -> (allowed: bool)
        ensures
            allowed == (old(self)@ + 1 != STALL_PERIOD),
            final(self)@ == count_after_read(old(self)@),
            final(self)@ < STALL_PERIOD,
    {
        proof {
            use_type_invariant(&*self);
        }
        if self.since_stall + 1 == STALL_PERIOD {
            self.since_stall = 0;
            false
        } else {
            self.since_stall = self.since_stall + 1;
            true
        }
    }
}

/// At a fresh gate the reads that stall are the fourth, the eighth and so
/// on, and no others: after `reads` reads a gate shows what is left of
/// `reads` when the full periods are taken away, so the next read completes
/// a period exactly when its number is a multiple of `STALL_PERIOD`.
pub proof fn lemma_every_fourth_read_stalls(reads: nat)
    ensures
        count_after(reads) == reads % (STALL_PERIOD as nat),
        count_after(reads) + 1 == STALL_PERIOD <==> stalls(reads + 1),
    decreases reads,
{
    if reads > 0 {
        lemma_every_fourth_read_stalls((reads - 1) as nat);
    }
}

} // verus!
