//! The decisions of the loop that pulls packets from a format reader and
//! feeds them to a decoder.
//!
//! The loop itself belongs to the caller, who owns the reader and the
//! decoder and decides whether to retry at once, to sleep or to yield. After
//! each request for a packet and after each decoding the caller reports the
//! outcome to its `Consumer`, which answers with the step to take.

pub mod trace;

use vstd::prelude::*;
use crate::codecs::{DecodeOutcome, SkipKind};
use crate::errors::Error;
use crate::formats::{Packet, PacketOutcome};
use crate::meta::queue::{after_drain, drained, MetadataQueue};
use crate::meta::revision::Metadata;

verus! {

/// Where a consumer stands.
#[derive(Copy, Clone, Debug, PartialEq, Eq, Structural)]
pub enum Phase {
    /// The consumer requests packets and decodes those of its track.
    Running,
    /// The track list changed. Nothing is decoded until the consumer is
    /// reset with the track chosen from the new list.
    AwaitingReset,
    /// The consumer stopped on the fatal error held here, for good.
    Stopped(Error),
}

/// The step that follows a request for a packet.
#[derive(Debug, PartialEq, Eq)]
pub enum PacketStep {
    /// Hand the packet to the decoder and report the outcome.
    Decode(Packet),
    /// The packet belongs to another track. Drop it, which is no error, and
    /// request the next.
    Discard,
    /// No packet was at hand. Make the same request again, now or later.
    Retry,
    /// Discard all decoders, go through the tracks anew and reset the
    /// consumer with the track to decode. No packet is requested before.
    Reset,
    /// Stop. Flush what was gathered so far, then surface the error.
    Stop(Error),
}

/// The step that follows the decoding of a packet.
#[derive(Debug, PartialEq, Eq)]
pub enum DecodeStep<A> {
    /// Process the decoded audio, then request the next packet.
    Output(A),
    /// Drop whatever the packet gave and request the next packet.
    Skip(SkipKind),
    /// The decoder was made before the track list changed, so what it gave
    /// is void. Proceed as for `PacketStep::Reset`.
    Reset,
    /// Stop. Flush what was gathered so far, then surface the error.
    Stop(Error),
}

/// What a consumer knows: the track that it decodes and where it stands.
pub struct ConsumerState {
    pub track_id: u32,
    pub phase: Phase,
}

impl ConsumerState {
    /// The state of a consumer that starts to decode the track `track_id`.
    pub open spec fn start(track_id: u32) -> ConsumerState {
        ConsumerState { track_id, phase: Phase::Running }
    }

    /// The step that a consumer in this state takes when a request for a
    /// packet ended in `outcome`.
    pub open spec fn packet_step(self, outcome: PacketOutcome) -> PacketStep {
        match self.phase {
            Phase::Stopped(cause) => PacketStep::Stop(cause),
            Phase::AwaitingReset => PacketStep::Reset,
            Phase::Running => match outcome {
                PacketOutcome::Delivered(packet) => if packet.track_id == self.track_id {
                    PacketStep::Decode(packet)
                } else {
                    PacketStep::Discard
                },
                PacketOutcome::NeedsMoreData => PacketStep::Retry,
                PacketOutcome::ResetRequired => PacketStep::Reset,
                PacketOutcome::Fatal(cause) => PacketStep::Stop(cause),
            },
        }
    }

    /// The state after a request for a packet ended in `outcome`.
    pub open spec fn after_packet(self, outcome: PacketOutcome) -> ConsumerState {
        match self.phase {
            Phase::Running => match outcome {
                PacketOutcome::ResetRequired => ConsumerState {
                    phase: Phase::AwaitingReset,
                    ..self
                },
                PacketOutcome::Fatal(cause) => ConsumerState {
                    phase: Phase::Stopped(cause),
                    ..self
                },
                _ => self,
            },
            _ => self,
        }
    }

    /// Whether a consumer in this state, told that a request for a packet
    /// ended in `outcome`, brings the metadata queue up to its newest
    /// revision: it does after each packet that it was delivered.
    pub open spec fn drains_on(self, outcome: PacketOutcome) -> bool {
        self.phase == Phase::Running && outcome is Delivered
    }

    /// The step that a consumer in this state takes when a decoding ended
    /// in `outcome`.
    pub open spec fn decode_step<A>(self, outcome: DecodeOutcome<A>) -> DecodeStep<A> {
        match self.phase {
            Phase::Stopped(cause) => DecodeStep::Stop(cause),
            Phase::AwaitingReset => DecodeStep::Reset,
            Phase::Running => match outcome {
                DecodeOutcome::Consumed(decoded) => DecodeStep::Output(decoded),
                DecodeOutcome::SkipRecoverable(kind) => DecodeStep::Skip(kind),
                DecodeOutcome::Fatal(cause) => DecodeStep::Stop(cause),
            },
        }
    }

    /// The state after a decoding ended in `outcome`.
    pub open spec fn after_decode<A>(self, outcome: DecodeOutcome<A>) -> ConsumerState {
        match self.phase {
            Phase::Running => match outcome {
                DecodeOutcome::Fatal(cause) => ConsumerState {
                    phase: Phase::Stopped(cause),
                    ..self
                },
                _ => self,
            },
            _ => self,
        }
    }

    /// The state after a reset with the track `track_id`. Only a consumer
    /// that awaits a reset takes it.
    pub open spec fn after_reset(self, track_id: u32) -> ConsumerState {
        match self.phase {
            Phase::AwaitingReset => ConsumerState { track_id, phase: Phase::Running },
            _ => self,
        }
    }
}

/// A `Consumer` holds the state of one decode loop and decides each of its
/// steps.
pub struct Consumer {
    track_id: u32,
    phase: Phase,
}

impl View for Consumer {
    type V = ConsumerState;

    closed spec fn view(&self) -> ConsumerState {
        ConsumerState { track_id: self.track_id, phase: self.phase }
    }
}

impl Consumer {
    /// Creates a consumer that decodes the packets of the track `track_id`.
    pub fn new(track_id: u32) -> (consumer: Consumer)
        ensures
            consumer@ == ConsumerState::start(track_id),
    {
        Consumer { track_id, phase: Phase::Running }
    }

    /// The identifier of the track that the consumer decodes.
    pub fn track_id(&self) -> (track_id: u32)
        ensures
            track_id == self@.track_id,
    {
        self.track_id
    }

    /// Where the consumer stands.
    pub fn phase(&self) -> (phase: Phase)
        ensures
            phase == self@.phase,
    {
        self.phase
    }

    /// Takes the outcome of a request for a packet and decides the next
    /// step.
    ///
    /// A running consumer hands a delivered packet of its track on to be
    /// decoded and discards one of another track; either way it first
    /// advances `metadata`, the queue of the reader, to its newest revision
    /// and returns the revisions that this discarded, oldest first. It
    /// retries when no data was at hand, waits for a reset when the track
    /// list changed, and stops on a fatal error. A consumer that awaits a
    /// reset or has stopped repeats that, and drops the packet if there is
    /// one. In all these cases the queue is left alone and no revision is
    /// returned.
    pub fn on_packet(&mut self, outcome: PacketOutcome, metadata: &mut MetadataQueue) -> (answer: (
        PacketStep,
        Vec<Metadata>,
    ))
        ensures
            answer.0 == old(self)@.packet_step(outcome),
            final(self)@ == old(self)@.after_packet(outcome),
            old(self)@.drains_on(outcome) ==> answer.1@ == drained(old(metadata)@)
                && final(metadata)@ == after_drain(old(metadata)@),
            !old(self)@.drains_on(outcome) ==> answer.1@ == Seq::<Metadata>::empty()
                && final(metadata)@ == old(metadata)@,
    {
        match self.phase {
            Phase::Stopped(cause) => (PacketStep::Stop(cause), Vec::new()),
            Phase::AwaitingReset => (PacketStep::Reset, Vec::new()),
            Phase::Running => match outcome {
                PacketOutcome::Delivered(packet) => {
                    let discarded = metadata.drain();
                    if packet.track_id() == self.track_id {
                        (PacketStep::Decode(packet), discarded)
                    } else {
                        (PacketStep::Discard, discarded)
                    }
                },
                PacketOutcome::NeedsMoreData => (PacketStep::Retry, Vec::new()),
                PacketOutcome::ResetRequired => {
                    self.phase = Phase::AwaitingReset;
                    (PacketStep::Reset, Vec::new())
                },
                PacketOutcome::Fatal(cause) => {
                    self.phase = Phase::Stopped(cause);
                    (PacketStep::Stop(cause), Vec::new())
                },
            },
        }
    }

    /// Takes the outcome of the decoding of a packet and decides the next
    /// step.
    ///
    /// A running consumer puts out the decoded audio, skips a packet that
    /// failed in a recoverable way, and stops on a fatal error. A consumer
    /// that awaits a reset or has stopped repeats that, and drops the audio
    /// if there is any.
    pub fn on_decode<A>(&mut self, outcome: DecodeOutcome<A>) -> (step: DecodeStep<A>)
        ensures
            step == old(self)@.decode_step(outcome),
            final(self)@ == old(self)@.after_decode(outcome),
    {
        match self.phase {
            Phase::Stopped(cause) => DecodeStep::Stop(cause),
            Phase::AwaitingReset => DecodeStep::Reset,
            Phase::Running => match outcome {
                DecodeOutcome::Consumed(decoded) => DecodeStep::Output(decoded),
                DecodeOutcome::SkipRecoverable(kind) => DecodeStep::Skip(kind),
                DecodeOutcome::Fatal(cause) => {
                    self.phase = Phase::Stopped(cause);
                    DecodeStep::Stop(cause)
                },
            },
        }
    }

    /// Resumes a consumer that awaits a reset, once the decoders were
    /// discarded and the track `track_id` was chosen from the new track
    /// list. Returns whether the consumer was resumed; one that runs or has
    /// stopped is left as it is.
    pub fn reset(&mut self, track_id: u32) -> (resumed: bool)
        ensures
            resumed == (old(self)@.phase == Phase::AwaitingReset),
            final(self)@ == old(self)@.after_reset(track_id),
    {
        match self.phase {
            Phase::AwaitingReset => {
                self.track_id = track_id;
                self.phase = Phase::Running;
                true
            },
            _ => false,
        }
    }
}

} // verus!
