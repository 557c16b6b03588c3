use bytes::Bytes;
use std::time::Instant;
use openh264::formats::YUVSource;
use std::time::Instant as Clock;
use transprot::capture::encoder_p::{
    bytes_to_yub, encode_raw_frame, encoded_frame_datagrams, start_encoder, EncodedKind,
    FrameError,
};
use transprot::capture::udp_connect::{after_send, fragment_count, frame_fragments, next_seqnum};
use transprot::capture::RawStreamData;
use transprot::header::{ChannelType, FragmentType, Header, HEADERSIZE};
use transprot::udp::dummy_gen::{
    control_datagram, generate_control_datagram, generate_fake_datagram, generate_header,
};
use transprot::udp::{
    judge_reply, read_datagram, FakeDataSchedule, HolePunch, PunchVerdict, ReceivedHeader,
    PAYLOADSIZE,
};
use transprot::PacketError;

fn parse(d: &Bytes) -> Header {
    let mut b = d.clone();
    Header::unserialize(&mut b).unwrap()
}

#[test]
fn generate_header_maps_numbers_to_kinds() {
    let h = generate_header(3, 7, true, 2, false, 5, 6, 7, 8);
    assert_eq!(h, Header::new(FragmentType::End, 7, true, ChannelType::Audio, false, 5, 6, 7, 8));
}

#[test]
fn control_datagram_is_a_sync_header() {
    let d = control_datagram(1234);
    assert_eq!(d.len(), HEADERSIZE);
    let expected =
        Header::new(FragmentType::Unfragmented, 2, false, ChannelType::Sync, true, 0, 0, 1234, 1);
    assert_eq!(&d[..], &expected.serialize()[..]);
    let mut b = d.clone();
    assert_eq!(Header::unserialize(&mut b), Err(PacketError::InvalidChannel(4)));
    let g = generate_control_datagram(Instant::now());
    assert_eq!(g.len(), HEADERSIZE);
    assert_eq!(&g[..9], &[4, 2, 0, 4, 1, 0, 0, 0, 0][..]);
    assert_eq!(&g[13..], &[0, 0, 0, 1][..]);
}

#[test]
fn fake_datagram_has_header_and_uniform_payload() {
    let d = generate_fake_datagram(99, 42);
    assert_eq!(d.len(), HEADERSIZE + PAYLOADSIZE);
    let h = parse(&d);
    assert_eq!(h.sequence_number, 42);
    assert_eq!(h.timestamp, 99);
    assert_eq!(h.size as usize, PAYLOADSIZE);
    assert!(h.version == 1 || h.version == 2);
    assert_ne!(h.channel, ChannelType::Sync);
    let first = d[HEADERSIZE];
    assert!(d[HEADERSIZE..].iter().all(|b| *b == first));
}

#[test]
fn fake_schedule_sends_ten_numbered_datagrams() {
    let mut s = FakeDataSchedule::new();
    let mut seqs = Vec::new();
    while s.has_next() {
        let d = s.next_datagram(5);
        seqs.push(parse(&d).sequence_number);
    }
    assert_eq!(seqs, (11u16..=20).collect::<Vec<_>>());
}

#[test]
fn judge_reply_cases() {
    assert_eq!(judge_reply(&[4u8; 10]), PunchVerdict::TooShort);
    let sync = control_datagram(0);
    let mut with_tail = sync.to_vec();
    with_tail.extend_from_slice(&[0xFF; 20]);
    assert_eq!(
        judge_reply(&with_tail),
        PunchVerdict::Failed(PacketError::InvalidChannel(4))
    );
    let video = Header::new(FragmentType::Start, 1, false, ChannelType::Video, false, 0, 0, 0, 0)
        .serialize();
    assert_eq!(judge_reply(&video), PunchVerdict::NotControl);
    let mut bad = video.to_vec();
    bad[3] = 7;
    assert_eq!(judge_reply(&bad), PunchVerdict::Failed(PacketError::InvalidChannel(7)));
}

#[test]
fn hole_punch_rounds_advance_and_sync_reply_is_refused() {
    let mut p = HolePunch::new();
    assert_eq!(p.current_round(), 1);
    let d = p.on_tick(Instant::now());
    assert_eq!(d.len(), HEADERSIZE);
    assert_eq!(d[3], 4);
    assert_eq!(p.current_round(), 2);
    assert_eq!(p.on_reply(&[0u8; 3]), PunchVerdict::TooShort);
    assert!(!p.is_over());
    assert_eq!(
        p.on_reply(&control_datagram(7)),
        PunchVerdict::Failed(PacketError::InvalidChannel(4))
    );
    assert!(!p.is_connected());
    assert_eq!(p.current_round(), 4);
}

#[test]
fn hole_punch_gives_up_after_nineteen_rounds() {
    let mut p = HolePunch::new();
    let mut rounds = 0;
    while !p.is_over() {
        let _ = p.on_reply(&[0u8; 2]);
        rounds += 1;
    }
    assert_eq!(rounds, 19);
    assert!(!p.is_connected());
}

#[test]
fn read_datagram_reports_header_and_payload_length() {
    let d = generate_fake_datagram(3, 4);
    let r = read_datagram(&d).unwrap();
    assert_eq!(r, ReceivedHeader { header: parse(&d), payload_len: PAYLOADSIZE });
    assert_eq!(read_datagram(&[1, 2, 3]), Err(PacketError::WrongBufferSize));
}

#[test]
fn fragment_count_rounds_up() {
    assert_eq!(fragment_count(0), 0);
    assert_eq!(fragment_count(1), 1);
    assert_eq!(fragment_count(PAYLOADSIZE), 1);
    assert_eq!(fragment_count(PAYLOADSIZE + 1), 2);
    assert_eq!(fragment_count(3 * PAYLOADSIZE), 3);
}

#[test]
fn frame_fragments_cut_and_label_the_frame() {
    let payload: Vec<u8> = (0..(2 * PAYLOADSIZE + 10)).map(|i| (i % 251) as u8).collect();
    let ds = frame_fragments(true, &Bytes::from(payload.clone()), 100, 77);
    assert_eq!(ds.len(), 3);
    let kinds = [FragmentType::Start, FragmentType::Middle, FragmentType::End];
    let mut rejoined = Vec::new();
    for (i, d) in ds.iter().enumerate() {
        let h = parse(d);
        assert_eq!(h.fragment, kinds[i]);
        assert_eq!(h.sequence_number, 100 + i as u16);
        assert_eq!(h.channel, ChannelType::Video);
        assert_eq!(h.version, 1);
        assert!(h.frametype);
        assert_eq!(h.timestamp, 77);
        assert_eq!(h.ssrc, 1);
        assert_eq!(h.size as usize, d.len() - HEADERSIZE);
        rejoined.extend_from_slice(&d[HEADERSIZE..]);
    }
    assert_eq!(rejoined, payload);
    let single = frame_fragments(false, &Bytes::from_static(b"abc"), 0, 0);
    assert_eq!(single.len(), 1);
    assert_eq!(parse(&single[0]).fragment, FragmentType::Unfragmented);
    assert!(frame_fragments(false, &Bytes::new(), 0, 0).is_empty());
}

#[test]
fn bytes_to_yub_checks_the_buffer_size() {
    let ok = RawStreamData::from_frame(&[0u8; 4 * 4 * 2], 4, 2);
    assert_eq!(ok.width, 4);
    let yuv = bytes_to_yub(ok).unwrap();
    assert_eq!(yuv.dimensions(), (4, 2));
    let bad = RawStreamData::from_frame(&[0u8; 10], 4, 2);
    assert_eq!(bytes_to_yub(bad).err(), Some(FrameError::InvalidBgraSize));
}

#[test]
fn bytes_to_yub_keeps_width_and_height_apart() {
    let frame = RawStreamData::from_frame(&[7u8; 6 * 2 * 4], 6, 2);
    assert_eq!(bytes_to_yub(frame).unwrap().dimensions(), (6, 2));
}

#[test]
fn frame_error_messages() {
    assert_eq!(FrameError::InvalidBgraSize.to_string(), "Invalid BGRA buffer size");
    assert_eq!(FrameError::EncodeFailed.to_string(), "H.264 encoding failed");
}

#[test]
fn encoded_frame_datagrams_by_kind() {
    let bits = Bytes::from_static(&[0, 0, 0, 1, 9, 9, 9]);
    for (kind, key) in [(EncodedKind::Idr, true), (EncodedKind::I, true), (EncodedKind::P, false)] {
        let ds = encoded_frame_datagrams(kind, &bits, 10, 20).unwrap().unwrap();
        assert_eq!(ds.len(), 1);
        let h = parse(&ds[0]);
        assert_eq!(h.frametype, key);
        assert_eq!(h.fragment, FragmentType::Unfragmented);
        assert_eq!(h.sequence_number, 10);
        assert_eq!(h.timestamp, 20);
        assert_eq!(&ds[0][HEADERSIZE..], &bits[..]);
    }
    for kind in [EncodedKind::Invalid, EncodedKind::Skip, EncodedKind::IpMixed] {
        assert_eq!(encoded_frame_datagrams(kind, &bits, 10, 20).unwrap(), None);
        assert_eq!(encoded_frame_datagrams(kind, &bits, u16::MAX, 20).unwrap(), None);
    }
    assert_eq!(
        encoded_frame_datagrams(EncodedKind::P, &bits, u16::MAX, 20),
        Err(FrameError::SequenceOverflow)
    );
    assert!(encoded_frame_datagrams(EncodedKind::P, &bits, u16::MAX - 1, 20).is_ok());
}

#[test]
fn encode_raw_frame_sends_first_frame_as_key_frame() {
    let mut encoder = start_encoder().unwrap();
    let frame = RawStreamData::from_frame(&[0u8; 64 * 48 * 4], 64, 48);
    let encoded = encode_raw_frame(&mut encoder, frame, Clock::now()).unwrap();
    assert_eq!(encoded.kind, EncodedKind::Idr);
    assert!(encoded.bitstream.starts_with(&[0, 0, 0, 1]) || encoded.bitstream.starts_with(&[0, 0, 1]));
    let ds = encoded.datagrams(5).unwrap().unwrap();
    assert!(!ds.is_empty());
    let mut stream = Vec::new();
    for (i, d) in ds.iter().enumerate() {
        let h = parse(d);
        assert!(h.frametype);
        assert_eq!(h.sequence_number, 5 + i as u16);
        assert_eq!(h.channel, ChannelType::Video);
        assert_eq!(h.timestamp, encoded.timestamp);
        stream.extend_from_slice(&d[HEADERSIZE..]);
    }
    assert_eq!(&stream[..], &encoded.bitstream[..]);
    assert_eq!(encoded.datagrams(u16::MAX).err(), Some(FrameError::SequenceOverflow));
    let bad = RawStreamData::from_frame(&[0u8; 3], 64, 48);
    assert_eq!(
        encode_raw_frame(&mut encoder, bad, Clock::now()).err(),
        Some(FrameError::InvalidBgraSize)
    );
}

#[test]
fn bytes_to_yub_converts_the_pixels() {
    let black = bytes_to_yub(RawStreamData::from_frame(&[0u8; 4 * 2 * 4], 4, 2)).unwrap();
    let white = bytes_to_yub(RawStreamData::from_frame(&[255u8; 4 * 2 * 4], 4, 2)).unwrap();
    assert_ne!(black.y(), white.y());
    assert_eq!(black.y().len(), 8);
}

#[test]
fn after_send_advances_or_stops() {
    assert_eq!(after_send(5, true), Some(6));
    assert_eq!(after_send(5, false), None);
    assert_eq!(after_send(u16::MAX, false), None);
}

#[test]
fn next_seqnum_counts_delivered_datagrams() {
    assert_eq!(next_seqnum(5, 3), 8);
    assert_eq!(next_seqnum(7, 1), 8);
    assert_eq!(next_seqnum(3, 0), 3);
    assert_eq!(next_seqnum(u16::MAX - 2, 2), u16::MAX);
}

#[test]
fn frame_of_2500_bytes_matches_worked_example() {
    let ds = frame_fragments(true, &Bytes::from(vec![0xABu8; 2500]), 5, 100);
    assert_eq!(ds.len(), 3);
    assert_eq!(&ds[0][..17], &[1, 1, 0, 1, 1, 0, 5, 4, 156, 0, 0, 0, 100, 0, 0, 0, 1][..]);
    assert_eq!(&ds[1][..17], &[2, 1, 0, 1, 1, 0, 6, 4, 156, 0, 0, 0, 100, 0, 0, 0, 1][..]);
    assert_eq!(&ds[2][..17], &[3, 1, 0, 1, 1, 0, 7, 0, 140, 0, 0, 0, 100, 0, 0, 0, 1][..]);
    assert_eq!(ds[0].len(), 1197);
    assert_eq!(ds[2].len(), 157);
    assert!(ds.iter().all(|d| d[17..].iter().all(|b| *b == 0xAB)));
    assert_eq!(next_seqnum(5, ds.len()), 8);
}

#[test]
fn frame_of_five_bytes_is_one_unfragmented_datagram() {
    let ds = frame_fragments(false, &Bytes::from_static(&[1, 2, 3, 4, 5]), 7, 0);
    assert_eq!(ds.len(), 1);
    assert_eq!(
        &ds[0][..],
        &[4, 1, 0, 1, 0, 0, 7, 0, 5, 0, 0, 0, 0, 0, 0, 0, 1, 1, 2, 3, 4, 5][..]
    );
}
