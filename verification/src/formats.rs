//! What a format reader hands to the loop that drives it: tracks, packets
//! and the outcome of a request for a packet.

use vstd::prelude::*;
use crate::errors::Error;

verus! {

/// A `CodecType` identifies a codec.
pub type CodecType = u32;

/// The codec type of a track for which no decodable codec is known.
pub const CODEC_TYPE_NULL: CodecType = 0;

/// The parameters that a decoder is made from.
#[derive(Copy, Clone, Debug, PartialEq, Eq, Structural)]
pub struct CodecParameters {
    /// The codec of the track, or `CODEC_TYPE_NULL`.
    pub codec: CodecType,
}

/// A `Track` is one logical encoded sub-stream of a container.
#[derive(Copy, Clone, Debug, PartialEq, Eq, Structural)]
pub struct Track {
    /// The identifier of the track, which every packet of the track carries.
    pub id: u32,
    /// The codec parameters of the track.
    pub codec_params: CodecParameters,
}

impl Track {
    /// Whether a decoder can be made for the track: its codec is known.
    pub open spec fn decodable(self) -> bool {
        self.codec_params.codec != CODEC_TYPE_NULL
    }

    /// Returns true if the codec of the track is known.
    pub fn is_decodable(&self) -> (decodable: bool)
        ensures
            decodable == self.decodable(),
    {
        self.codec_params.codec != CODEC_TYPE_NULL
    }
}

/// Whether `at` is the place of the first decodable track in `tracks`.
pub open spec fn first_decodable_at(tracks: Seq<Track>, at: int) -> bool {
    &&& 0 <= at < tracks.len()
    &&& tracks[at].decodable()
    &&& forall|before: int| 0 <= before < at ==> !(#[trigger] tracks[before]).decodable()
}

/// Finds the first track with a known codec, which is the track that a
/// consumer decodes when it has no preference. There is none if and only if
/// no track is decodable.
pub fn first_decodable(tracks: &[Track]) -> (found: Option<&Track>)
    ensures
        match found {
            Some(track) => exists|at: int| first_decodable_at(tracks@, at) && tracks@[at] == *track,
            None => forall|at: int| 0 <= at < tracks@.len() ==> !(#[trigger] tracks@[at]).decodable(),
        },
{
    let mut at: usize = 0;
    while at < tracks.len()
        invariant
            at <= tracks@.len(),
            forall|before: int| 0 <= before < at ==> !(#[trigger] tracks@[before]).decodable(),
        decreases tracks@.len() - at,
    {
        if tracks[at].is_decodable() {
            return Some(&tracks[at]);
        }
        at += 1;
    }
    None
}

/// A `Packet` is one discrete unit of encoded payload of one track.
#[derive(Debug, PartialEq, Eq)]
pub struct Packet {
    /// The identifier of the track that the packet belongs to.
    pub track_id: u32,
    /// The encoded payload.
    pub data: Box<[u8]>,
}

impl Packet {
    /// Create a new `Packet` of the track `track_id`.
    pub fn new(track_id: u32, data: Box<[u8]>) -> (packet: Packet)
        ensures
            packet.track_id == track_id,
            packet.data == data,
    {
        Packet { track_id, data }
    }

    /// The identifier of the track that the packet belongs to.
    pub fn track_id(&self) -> (track_id: u32)
        ensures
            track_id == self.track_id,
    {
        self.track_id
    }

    /// The encoded payload of the packet.
    pub fn buf(&self) -> (buf: &[u8])
        ensures
            buf@ == self.data@,
    {
        &self.data
    }
}

/// How a request for the next packet ended.
#[derive(Debug, PartialEq, Eq)]
pub enum PacketOutcome {
    /// The next packet.
    Delivered(Packet),
    /// The transport had less data than a whole packet needs. This is no
    /// error: nothing was lost, and the same request is to be made again.
    NeedsMoreData,
    /// The track list of the stream changed. All decoders made so far are
    /// void. The consumer discards them and goes through the tracks anew
    /// before it asks for another packet.
    ResetRequired,
    /// The source failed for good. The consumer stops and surfaces the
    /// cause.
    Fatal(Error),
}

impl PacketOutcome {
    /// The outcome that the result of a format reader stands for.
    pub open spec fn of_result(result: Result<Packet, Error>) -> PacketOutcome {
        match result {
            Ok(packet) => PacketOutcome::Delivered(packet),
            Err(Error::MoreDataRequired) => PacketOutcome::NeedsMoreData,
            Err(Error::ResetRequired) => PacketOutcome::ResetRequired,
            Err(cause) => PacketOutcome::Fatal(cause),
        }
    }

    /// Sorts the result of a format reader: a packet is delivered, a lack of
    /// data calls for the same request again, a changed track list calls for
    /// a reset, and every other error is fatal.
    pub fn from_result(result: Result<Packet, Error>) -> (outcome: PacketOutcome)
        ensures
            outcome == PacketOutcome::of_result(result),
    {
        match result {
            Ok(packet) => PacketOutcome::Delivered(packet),
            Err(Error::MoreDataRequired) => PacketOutcome::NeedsMoreData,
            Err(Error::ResetRequired) => PacketOutcome::ResetRequired,
            Err(cause) => PacketOutcome::Fatal(cause),
        }
    }
}

} // verus!
