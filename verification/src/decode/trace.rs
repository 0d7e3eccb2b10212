//! What holds of a consumer over any run of events, proved from its single
//! steps.

use vstd::prelude::*;
use crate::codecs::DecodeOutcome;
use crate::errors::Error;
use crate::formats::{Packet, PacketOutcome};
use crate::io::ReadOutcome;
use super::{ConsumerState, DecodeStep, PacketStep, Phase};

verus! {

/// One thing that a consumer is told.
pub enum Event<A> {
    /// A request for a packet ended in the outcome.
    Packet(PacketOutcome),
    /// A decoding ended in the outcome.
    Decoded(DecodeOutcome<A>),
    /// The consumer was reset with the track.
    Reset(u32),
}

impl<A> Event<A> {
    /// Whether the event is one that a consumer gets over on its own: a
    /// delivered packet, a lack of data, decoded audio or a packet to skip.
    pub open spec fn recoverable(self) -> bool {
        match self {
            Event::Packet(PacketOutcome::Delivered(_)) => true,
            Event::Packet(PacketOutcome::NeedsMoreData) => true,
            Event::Decoded(DecodeOutcome::Consumed(_)) => true,
            Event::Decoded(DecodeOutcome::SkipRecoverable(_)) => true,
            _ => false,
        }
    }
}

/// The state of a consumer that was in `state` and is told `event`.
pub open spec fn after<A>(state: ConsumerState, event: Event<A>) -> ConsumerState {
    match event {
        Event::Packet(outcome) => state.after_packet(outcome),
        Event::Decoded(outcome) => state.after_decode(outcome),
        Event::Reset(track_id) => state.after_reset(track_id),
    }
}

/// The state of a consumer that was in `state` and is told `events`, one
/// after the other.
pub open spec fn after_all<A>(state: ConsumerState, events: Seq<Event<A>>) -> ConsumerState
    decreases events.len(),
{
    if events.len() == 0 {
        state
    } else {
        after(after_all(state, events.drop_last()), events.last())
    }
}

/// The packets that a consumer starting in `state` hands to the decoder
/// while it is told `events`, in order.
pub open spec fn to_decoder<A>(state: ConsumerState, events: Seq<Event<A>>) -> Seq<Packet>
    decreases events.len(),
{
    if events.len() == 0 {
        Seq::empty()
    } else {
        let earlier = to_decoder(state, events.drop_last());
        match events.last() {
            Event::Packet(outcome) => match after_all(state, events.drop_last()).packet_step(
                outcome,
            ) {
                PacketStep::Decode(packet) => earlier.push(packet),
                _ => earlier,
            },
            _ => earlier,
        }
    }
}

/// The audio that a consumer starting in `state` puts out while it is told
/// `events`, in order.
pub open spec fn outputs<A>(state: ConsumerState, events: Seq<Event<A>>) -> Seq<A>
    decreases events.len(),
{
    if events.len() == 0 {
        Seq::empty()
    } else {
        let earlier = outputs(state, events.drop_last());
        match events.last() {
            Event::Decoded(outcome) => match after_all(state, events.drop_last()).decode_step(
                outcome,
            ) {
                DecodeStep::Output(decoded) => earlier.push(decoded),
                _ => earlier,
            },
            _ => earlier,
        }
    }
}

/// The packets of the track `track_id` among those that `events` deliver,
/// in order.
pub open spec fn delivered_of_track<A>(track_id: u32, events: Seq<Event<A>>) -> Seq<Packet>
    decreases events.len(),
{
    if events.len() == 0 {
        Seq::empty()
    } else {
        let earlier = delivered_of_track(track_id, events.drop_last());
        match events.last() {
            Event::Packet(PacketOutcome::Delivered(packet)) => if packet.track_id == track_id {
                earlier.push(packet)
            } else {
                earlier
            },
            _ => earlier,
        }
    }
}

/// The audio that the decodings among `events` consumed, in order.
pub open spec fn consumed<A>(events: Seq<Event<A>>) -> Seq<A>
    decreases events.len(),
{
    if events.len() == 0 {
        Seq::empty()
    } else {
        let earlier = consumed(events.drop_last());
        match events.last() {
            Event::Decoded(DecodeOutcome::Consumed(decoded)) => earlier.push(decoded),
            _ => earlier,
        }
    }
}

/// A lack of data or a packet to skip never ends a consumer, however often
/// and wherever it comes: over recoverable events a running consumer stays
/// as it is, hands to the decoder exactly the delivered packets of its
/// track, in the order of their delivery, and puts out exactly the audio
/// that was consumed.
pub proof fn lemma_recoverable_events_keep_running<A>(
    state: ConsumerState,
    events: Seq<Event<A>>,
)
    requires
        state.phase == Phase::Running,
        forall|i: int| 0 <= i < events.len() ==> (#[trigger] events[i]).recoverable(),
    ensures
        after_all(state, events) == state,
        to_decoder(state, events) == delivered_of_track(state.track_id, events),
        outputs(state, events) == consumed(events),
    decreases events.len(),
{
    if events.len() > 0 {
        lemma_recoverable_events_keep_running(state, events.drop_last());
    }
}

/// Whether no event among `events` is a reset.
pub open spec fn without_reset<A>(events: Seq<Event<A>>) -> bool {
    forall|i: int| 0 <= i < events.len() ==> !((#[trigger] events[i]) is Reset)
}

/// Whatever a consumer is told, the decoder only ever gets packets of the
/// selected track, in the order of their delivery and none twice: until it
/// is reset, what the consumer hands to the decoder is a leading part of
/// the delivered packets of its track, and what it puts out is a leading
/// part of the audio that was consumed. Nothing is missing from either
/// while the consumer still runs.
pub proof fn lemma_decoder_gets_selected_track_in_order<A>(
    state: ConsumerState,
    events: Seq<Event<A>>,
)
    requires
        without_reset(events),
    ensures
        after_all(state, events).track_id == state.track_id,
        to_decoder(state, events).is_prefix_of(delivered_of_track(state.track_id, events)),
        outputs(state, events).is_prefix_of(consumed(events)),
        after_all(state, events).phase == Phase::Running ==> {
            &&& state.phase == Phase::Running
            &&& to_decoder(state, events) == delivered_of_track(state.track_id, events)
            &&& outputs(state, events) == consumed(events)
        },
        state.phase != Phase::Running ==> {
            &&& after_all(state, events) == state
            &&& to_decoder(state, events) == Seq::<Packet>::empty()
            &&& outputs(state, events) == Seq::<A>::empty()
        },
    decreases events.len(),
{
    if events.len() > 0 {
        lemma_decoder_gets_selected_track_in_order(state, events.drop_last());
    }
}

/// Only packets of the selected track reach the decoder: a consumer that
/// is not reset hands on no packet of another track, and no more packets
/// than its track was delivered, whatever the mix.
pub proof fn lemma_other_tracks_are_left_out<A>(state: ConsumerState, events: Seq<Event<A>>)
    requires
        without_reset(events),
    ensures
        forall|i: int|
            0 <= i < to_decoder(state, events).len() ==> (#[trigger] to_decoder(
                state,
                events,
            )[i]).track_id == state.track_id,
        to_decoder(state, events).len() <= delivered_of_track(state.track_id, events).len(),
        to_decoder(state, events).len() <= events.len(),
{
    lemma_decoder_gets_selected_track_in_order(state, events);
    lemma_delivered_of_track(state.track_id, events);
}

/// What `delivered_of_track` gives holds packets of that track only, and
/// no more of them than there are events.
pub proof fn lemma_delivered_of_track<A>(track_id: u32, events: Seq<Event<A>>)
    ensures
        forall|i: int|
            0 <= i < delivered_of_track(track_id, events).len() ==> (#[trigger] delivered_of_track(
                track_id,
                events,
            )[i]).track_id == track_id,
        delivered_of_track(track_id, events).len() <= events.len(),
    decreases events.len(),
{
    if events.len() > 0 {
        lemma_delivered_of_track(track_id, events.drop_last());
    }
}

/// A source that would block never ends the decoding: the error that a
/// format reader makes of such a read is no failure but a call to ask
/// again, and a running consumer answers it with a retry and stays as it
/// is. The end of the stream and a failed read, by contrast, stop it.
pub proof fn lemma_would_block_is_retried(state: ConsumerState, read: ReadOutcome)
    requires
        state.phase == Phase::Running,
        !(read is Data),
    ensures
        read.for_packet() is Err,
        read is WouldBlock ==> {
            let outcome = PacketOutcome::of_result(Err(read.for_packet()->Err_0));
            &&& outcome == PacketOutcome::NeedsMoreData
            &&& state.packet_step(outcome) == PacketStep::Retry
            &&& state.after_packet(outcome) == state
        },
        !(read is WouldBlock) ==> {
            let outcome = PacketOutcome::of_result(Err(read.for_packet()->Err_0));
            &&& state.packet_step(outcome) == PacketStep::Stop(Error::IoError)
            &&& state.after_packet(outcome).phase == Phase::Stopped(Error::IoError)
        },
{
}

/// A packet that is skipped does not stand in the way of the next: the
/// consumer is as it was before, so it hands the next delivered packet of
/// its track to the decoder and puts out what that gives.
pub proof fn lemma_skip_does_not_block<A>(
    state: ConsumerState,
    skipped: DecodeOutcome<A>,
    next: Packet,
    decoded: A,
)
    requires
        state.phase == Phase::Running,
        skipped is SkipRecoverable,
        next.track_id == state.track_id,
    ensures
        state.decode_step(skipped) == DecodeStep::<A>::Skip(skipped->SkipRecoverable_0),
        state.after_decode(skipped) == state,
        state.after_decode(skipped).packet_step(PacketOutcome::Delivered(next))
            == PacketStep::Decode(next),
        state.after_decode(skipped).decode_step(DecodeOutcome::Consumed(decoded))
            == DecodeStep::Output(decoded),
{
}

/// A consumer that has stopped stays stopped: whatever it is told, it
/// hands nothing to the decoder and puts nothing out.
pub proof fn lemma_stopped_is_final<A>(state: ConsumerState, events: Seq<Event<A>>)
    requires
        state.phase is Stopped,
    ensures
        after_all(state, events) == state,
        to_decoder(state, events) == Seq::<Packet>::empty(),
        outputs(state, events) == Seq::<A>::empty(),
    decreases events.len(),
{
    if events.len() > 0 {
        lemma_stopped_is_final(state, events.drop_last());
    }
}

/// After a change of the track list nothing is decoded until the consumer
/// is reset: while no reset is among the events, a consumer that awaits one
/// hands nothing to the decoder and puts nothing out.
pub proof fn lemma_nothing_decoded_before_reset<A>(state: ConsumerState, events: Seq<Event<A>>)
    requires
        state.phase == Phase::AwaitingReset,
        without_reset(events),
    ensures
        after_all(state, events) == state,
        to_decoder(state, events) == Seq::<Packet>::empty(),
        outputs(state, events) == Seq::<A>::empty(),
{
    lemma_decoder_gets_selected_track_in_order(state, events);
}

} // verus!
