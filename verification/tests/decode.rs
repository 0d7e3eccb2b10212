use std::collections::VecDeque;

use sonata_core::codecs::{DecodeOutcome, SkipKind};
use sonata_core::decode::{Consumer, DecodeStep, PacketStep, Phase};
use sonata_core::errors::Error;
use sonata_core::formats::{
    first_decodable, CodecParameters, Packet, PacketOutcome, Track, CODEC_TYPE_NULL,
};
use sonata_core::io::{ReadGate, ReadOutcome};
use sonata_core::meta::{Metadata, MetadataBuilder, MetadataQueue, Tag};

fn packet(track_id: u32, n: u8) -> Packet {
    Packet::new(track_id, vec![n, n, n].into_boxed_slice())
}

fn revision(n: usize) -> Metadata {
    let mut builder = MetadataBuilder::new();
    builder.add_tag(Tag::new(None, "REVISION", &n.to_string()));
    builder.metadata()
}

/// A source that has no data on every fourth request and delivers its
/// packets in order otherwise.
struct StallingSource {
    packets: VecDeque<Packet>,
    gate: ReadGate,
    metadata: MetadataQueue,
    requests: usize,
}

impl StallingSource {
    fn new(packets: Vec<Packet>) -> StallingSource {
        StallingSource {
            packets: packets.into(),
            gate: ReadGate::new(),
            metadata: MetadataQueue::default(),
            requests: 0,
        }
    }

    fn request_packet(&mut self) -> PacketOutcome {
        self.requests += 1;
        if !self.gate.allow_read() {
            return PacketOutcome::NeedsMoreData;
        }
        match self.packets.pop_front() {
            Some(packet) => PacketOutcome::Delivered(packet),
            None => PacketOutcome::Fatal(Error::IoError),
        }
    }
}

#[test]
fn stalling_source_delivers_every_packet_in_order() {
    let mut source = StallingSource::new((0..10).map(|n| packet(1, n)).collect());
    let mut consumer = Consumer::new(1);
    let mut received = Vec::new();
    let mut retries = 0;
    while received.len() < 10 {
        let outcome = source.request_packet();
        match consumer.on_packet(outcome, &mut source.metadata).0 {
            PacketStep::Decode(packet) => {
                assert_ne!(source.requests % 4, 0);
                received.push(packet);
            },
            PacketStep::Retry => {
                assert_eq!(source.requests % 4, 0);
                retries += 1;
            },
            step => panic!("unexpected step {:?}", step),
        }
        assert_eq!(consumer.phase(), Phase::Running);
    }
    let expected: Vec<Packet> = (0..10).map(|n| packet(1, n)).collect();
    assert_eq!(received, expected);
    assert_eq!(retries, 3);
    assert_eq!(source.requests, 13);
}

#[test]
fn lack_of_data_is_never_terminal() {
    let mut consumer = Consumer::new(0);
    let mut metadata = MetadataQueue::default();
    for _ in 0..1000 {
        assert_eq!(consumer.on_packet(PacketOutcome::NeedsMoreData, &mut metadata).0, PacketStep::Retry);
        assert_eq!(consumer.phase(), Phase::Running);
    }
    assert_eq!(
        consumer.on_packet(PacketOutcome::Delivered(packet(0, 1)), &mut metadata).0,
        PacketStep::Decode(packet(0, 1))
    );
}

#[test]
fn skipped_packet_does_not_hold_up_the_next() {
    let mut consumer = Consumer::new(4);
    let mut metadata = MetadataQueue::default();

    let first = consumer.on_packet(PacketOutcome::Delivered(packet(4, 10)), &mut metadata).0;
    assert_eq!(first, PacketStep::Decode(packet(4, 10)));
    let skipped =
        consumer.on_decode::<Vec<i16>>(DecodeOutcome::SkipRecoverable(SkipKind::DecodeError));
    assert_eq!(skipped, DecodeStep::Skip(SkipKind::DecodeError));
    assert_eq!(consumer.phase(), Phase::Running);

    let second = consumer.on_packet(PacketOutcome::Delivered(packet(4, 11)), &mut metadata).0;
    assert_eq!(second, PacketStep::Decode(packet(4, 11)));
    let decoded = consumer.on_decode(DecodeOutcome::Consumed(vec![1i16, -1, 2]));
    assert_eq!(decoded, DecodeStep::Output(vec![1i16, -1, 2]));
    assert_eq!(consumer.phase(), Phase::Running);
}

#[test]
fn truncated_packet_is_skipped_too() {
    let mut consumer = Consumer::new(4);
    let step = consumer.on_decode::<u8>(DecodeOutcome::SkipRecoverable(SkipKind::IoError));
    assert_eq!(step, DecodeStep::Skip(SkipKind::IoError));
    assert_eq!(consumer.phase(), Phase::Running);
}

#[test]
fn packets_of_other_tracks_are_not_decoded() {
    let tracks = [1u32, 2, 1, 3, 1, 1, 2, 0, u32::MAX, 1];
    let mut consumer = Consumer::new(1);
    let mut metadata = MetadataQueue::default();
    let mut decoded = 0;
    let mut discarded = 0;
    for (n, track_id) in tracks.iter().enumerate() {
        match consumer.on_packet(PacketOutcome::Delivered(packet(*track_id, n as u8)), &mut metadata).0 {
            PacketStep::Decode(packet) => {
                assert_eq!(packet.track_id(), 1);
                assert_eq!(packet.buf(), &[n as u8; 3][..]);
                match consumer.on_decode(DecodeOutcome::Consumed(n)) {
                    DecodeStep::Output(audio) => {
                        assert_eq!(audio, n);
                        decoded += 1;
                    },
                    step => panic!("unexpected step {:?}", step),
                }
            },
            PacketStep::Discard => {
                assert_ne!(*track_id, 1);
                discarded += 1;
            },
            step => panic!("unexpected step {:?}", step),
        }
        assert_eq!(consumer.phase(), Phase::Running);
    }
    assert_eq!(decoded, 5);
    assert_eq!(discarded, 5);
}

#[test]
fn no_packet_is_decoded_when_none_matches() {
    let mut consumer = Consumer::new(9);
    let mut metadata = MetadataQueue::default();
    for track_id in [0u32, 1, 8, 10] {
        assert_eq!(
            consumer.on_packet(PacketOutcome::Delivered(packet(track_id, 0)), &mut metadata).0,
            PacketStep::Discard
        );
    }
    assert_eq!(consumer.track_id(), 9);
}

#[test]
fn fatal_source_error_stops_the_consumer() {
    let mut consumer = Consumer::new(1);
    let mut metadata = MetadataQueue::default();
    assert_eq!(
        consumer.on_packet(PacketOutcome::Fatal(Error::IoError), &mut metadata).0,
        PacketStep::Stop(Error::IoError)
    );
    assert_eq!(consumer.phase(), Phase::Stopped(Error::IoError));
    // Nothing that follows is decoded, and the first cause is kept.
    assert_eq!(
        consumer.on_packet(PacketOutcome::Delivered(packet(1, 0)), &mut metadata).0,
        PacketStep::Stop(Error::IoError)
    );
    assert_eq!(
        consumer.on_packet(PacketOutcome::Fatal(Error::Unsupported), &mut metadata).0,
        PacketStep::Stop(Error::IoError)
    );
    assert_eq!(consumer.on_decode(DecodeOutcome::Consumed(1u8)), DecodeStep::Stop(Error::IoError));
    assert!(!consumer.reset(1));
    assert_eq!(consumer.phase(), Phase::Stopped(Error::IoError));
}

#[test]
fn fatal_decoder_error_stops_the_consumer() {
    let mut consumer = Consumer::new(1);
    let mut metadata = MetadataQueue::default();
    assert_eq!(
        consumer.on_decode::<u8>(DecodeOutcome::Fatal(Error::Unsupported)),
        DecodeStep::Stop(Error::Unsupported)
    );
    assert_eq!(consumer.phase(), Phase::Stopped(Error::Unsupported));
    assert_eq!(
        consumer.on_packet(PacketOutcome::NeedsMoreData, &mut metadata).0,
        PacketStep::Stop(Error::Unsupported)
    );
}

#[test]
fn changed_track_list_suspends_decoding_until_reset() {
    let mut consumer = Consumer::new(1);
    let mut metadata = MetadataQueue::default();
    assert!(!consumer.reset(5));
    assert_eq!(consumer.track_id(), 1);

    assert_eq!(consumer.on_packet(PacketOutcome::ResetRequired, &mut metadata).0, PacketStep::Reset);
    assert_eq!(consumer.phase(), Phase::AwaitingReset);
    assert_eq!(
        consumer.on_packet(PacketOutcome::Delivered(packet(1, 0)), &mut metadata).0,
        PacketStep::Reset
    );
    assert_eq!(consumer.on_packet(PacketOutcome::NeedsMoreData, &mut metadata).0, PacketStep::Reset);
    assert_eq!(consumer.on_decode(DecodeOutcome::Consumed(3u8)), DecodeStep::Reset);
    assert_eq!(
        consumer.on_packet(PacketOutcome::Fatal(Error::IoError), &mut metadata).0,
        PacketStep::Reset
    );
    assert_eq!(consumer.phase(), Phase::AwaitingReset);

    assert!(consumer.reset(2));
    assert_eq!(consumer.phase(), Phase::Running);
    assert_eq!(consumer.track_id(), 2);
    assert_eq!(
        consumer.on_packet(PacketOutcome::Delivered(packet(1, 1)), &mut metadata).0,
        PacketStep::Discard
    );
    assert_eq!(
        consumer.on_packet(PacketOutcome::Delivered(packet(2, 2)), &mut metadata).0,
        PacketStep::Decode(packet(2, 2))
    );
}

#[test]
fn delivered_packet_brings_metadata_up_to_date() {
    let mut consumer = Consumer::new(1);
    let mut metadata = MetadataQueue::default();
    for n in 0..3 {
        metadata.push(revision(n));
    }
    let (step, discarded) = consumer.on_packet(PacketOutcome::NeedsMoreData, &mut metadata);
    assert_eq!(step, PacketStep::Retry);
    assert!(discarded.is_empty());
    assert!(!metadata.is_latest());
    assert_eq!(*metadata.current().unwrap(), revision(0));

    let (step, discarded) =
        consumer.on_packet(PacketOutcome::Delivered(packet(2, 0)), &mut metadata);
    assert_eq!(step, PacketStep::Discard);
    assert_eq!(discarded, vec![revision(0), revision(1)]);
    assert!(metadata.is_latest());
    assert_eq!(*metadata.current().unwrap(), revision(2));

    metadata.push(revision(3));
    let (step, discarded) =
        consumer.on_packet(PacketOutcome::Delivered(packet(1, 0)), &mut metadata);
    assert_eq!(step, PacketStep::Decode(packet(1, 0)));
    assert_eq!(discarded, vec![revision(2)]);
    assert!(metadata.is_latest());
    assert_eq!(*metadata.current().unwrap(), revision(3));

    let (step, discarded) =
        consumer.on_packet(PacketOutcome::Delivered(packet(1, 1)), &mut metadata);
    assert_eq!(step, PacketStep::Decode(packet(1, 1)));
    assert!(discarded.is_empty());
    assert_eq!(*metadata.current().unwrap(), revision(3));
}

#[test]
fn stopped_consumer_leaves_metadata_alone() {
    let mut consumer = Consumer::new(1);
    let mut metadata = MetadataQueue::default();
    metadata.push(revision(0));
    metadata.push(revision(1));
    consumer.on_packet(PacketOutcome::Fatal(Error::DecodeError), &mut metadata);
    let (step, discarded) = consumer.on_packet(PacketOutcome::Delivered(packet(1, 0)), &mut metadata);
    assert_eq!(step, PacketStep::Stop(Error::DecodeError));
    assert!(discarded.is_empty());
    assert!(!metadata.is_latest());
    assert_eq!(*metadata.current().unwrap(), revision(0));
}

#[test]
fn reader_results_are_sorted_into_outcomes() {
    assert_eq!(PacketOutcome::from_result(Ok(packet(3, 1))), PacketOutcome::Delivered(packet(3, 1)));
    assert_eq!(PacketOutcome::from_result(Err(Error::MoreDataRequired)), PacketOutcome::NeedsMoreData);
    assert_eq!(PacketOutcome::from_result(Err(Error::ResetRequired)), PacketOutcome::ResetRequired);
    for cause in [
        Error::IoError,
        Error::DecodeError,
        Error::SeekError,
        Error::Unsupported,
        Error::LimitError,
    ] {
        assert_eq!(PacketOutcome::from_result(Err(cause)), PacketOutcome::Fatal(cause));
    }
}

#[test]
fn decoder_results_are_sorted_into_outcomes() {
    assert_eq!(DecodeOutcome::from_result(Ok(vec![0.5f32, -0.5])), DecodeOutcome::Consumed(vec![0.5f32, -0.5]));
    assert_eq!(
        DecodeOutcome::<u8>::from_result(Err(Error::IoError)),
        DecodeOutcome::SkipRecoverable(SkipKind::IoError)
    );
    assert_eq!(
        DecodeOutcome::<u8>::from_result(Err(Error::DecodeError)),
        DecodeOutcome::SkipRecoverable(SkipKind::DecodeError)
    );
    for cause in [
        Error::SeekError,
        Error::Unsupported,
        Error::LimitError,
        Error::ResetRequired,
        Error::MoreDataRequired,
    ] {
        assert_eq!(DecodeOutcome::<u8>::from_result(Err(cause)), DecodeOutcome::Fatal(cause));
    }
}

#[test]
fn first_track_with_a_codec_is_found() {
    let track = |id: u32, codec: u32| Track { id, codec_params: CodecParameters { codec } };
    assert_eq!(first_decodable(&[]), None);
    assert_eq!(first_decodable(&[track(0, CODEC_TYPE_NULL)]), None);
    assert_eq!(first_decodable(&[track(0, CODEC_TYPE_NULL), track(1, CODEC_TYPE_NULL)]), None);
    assert_eq!(first_decodable(&[track(7, 0x1001)]), Some(&track(7, 0x1001)));
    assert_eq!(
        first_decodable(&[track(0, CODEC_TYPE_NULL), track(3, 0x1001), track(4, 0x1002)]),
        Some(&track(3, 0x1001))
    );
    assert!(track(3, 1).is_decodable());
    assert!(!track(3, CODEC_TYPE_NULL).is_decodable());
}

#[test]
fn gate_stalls_every_fourth_read() {
    let mut gate = ReadGate::new();
    let passed: Vec<bool> = (0..12).map(|_| gate.allow_read()).collect();
    assert_eq!(
        passed,
        vec![true, true, true, false, true, true, true, false, true, true, true, false]
    );
}

#[test]
fn gate_stalls_on_multiples_of_four_only() {
    let mut gate = ReadGate::new();
    for read in 1..=1000u32 {
        assert_eq!(gate.allow_read(), read % 4 != 0);
    }
}

#[test]
fn read_outcomes_are_sorted_for_the_reader() {
    assert_eq!(ReadOutcome::Data(1).into_result(), Ok(1));
    assert_eq!(ReadOutcome::Data(4096).into_result(), Ok(4096));
    assert_eq!(ReadOutcome::WouldBlock.into_result(), Err(Error::MoreDataRequired));
    assert_eq!(ReadOutcome::EndOfStream.into_result(), Err(Error::IoError));
    assert_eq!(ReadOutcome::Failed.into_result(), Err(Error::IoError));
}

#[test]
fn blocked_read_leads_to_a_retry_and_the_end_to_a_stop() {
    let as_packet = |read: ReadOutcome| read.into_result().map(|len| packet(1, len as u8));
    let mut metadata = MetadataQueue::default();

    let mut consumer = Consumer::new(1);
    let blocked = PacketOutcome::from_result(as_packet(ReadOutcome::WouldBlock));
    assert_eq!(consumer.on_packet(blocked, &mut metadata).0, PacketStep::Retry);
    let read = PacketOutcome::from_result(as_packet(ReadOutcome::Data(3)));
    assert_eq!(consumer.on_packet(read, &mut metadata).0, PacketStep::Decode(packet(1, 3)));
    let ended = PacketOutcome::from_result(as_packet(ReadOutcome::EndOfStream));
    assert_eq!(consumer.on_packet(ended, &mut metadata).0, PacketStep::Stop(Error::IoError));

    let mut consumer = Consumer::new(1);
    let failed = PacketOutcome::from_result(as_packet(ReadOutcome::Failed));
    assert_eq!(consumer.on_packet(failed, &mut metadata).0, PacketStep::Stop(Error::IoError));
    assert_eq!(consumer.phase(), Phase::Stopped(Error::IoError));
}
