use bytes::{Buf, BufMut, Bytes, BytesMut};
use rand::RngExt;
use transprot::header::{ChannelType, FragmentType, Header as head, HEADERSIZE};
use transprot::PacketError;

#[test]
fn test_marsh_and_unmarsh() {
    let mut rng = rand::rng();
    let sequence: u16 = rng.random();
    let size: u16 = rng.random();
    let timestamp: u32 = rng.random();
    let ssrc: u32 = rng.random();
    let head_example = head::new(
        FragmentType::Start,
        2,
        false,
        ChannelType::Video,
        false,
        sequence,
        size,
        timestamp,
        ssrc,
    );

    let mut serialized = head::serialize(&head_example).freeze();

    let deserialized = head::unserialize(&mut serialized).expect("Something went wrong");

    assert_eq!(head_example, deserialized);
}

#[test]
fn check_wrong_channel() {
    let mut wrong_serial: BytesMut = BytesMut::new();
    let mut rng = rand::rng();
    wrong_serial.put_u8(1);
    wrong_serial.put_u8(2);
    wrong_serial.put_u8(0);
    //can be numbers 1-3, nothing else
    wrong_serial.put_u8(4);
    wrong_serial.put_u8(0);
    //seq number
    wrong_serial.put_u16(rng.random());
    //size
    wrong_serial.put_u16(rng.random());
    //timestamp
    wrong_serial.put_u32(rng.random());
    //ssrc
    wrong_serial.put_u32(rng.random());
    let mut bwrong_serial = wrong_serial.freeze();
    let deserialized = head::unserialize(&mut bwrong_serial);
    assert_eq!(deserialized, Err(PacketError::InvalidChannel(4)));
}

#[test]
fn check_wrong_header_size() {
    let mut wrong_serial: BytesMut = BytesMut::new();
    let mut rng = rand::rng();
    wrong_serial.put_u8(2);
    wrong_serial.put_u8(2);
    wrong_serial.put_u8(0);
    wrong_serial.put_u8(1);
    wrong_serial.put_u8(0);
    //seq number
    wrong_serial.put_u16(rng.random());
    //size
    wrong_serial.put_u16(rng.random());
    //timestamp
    //ssrc
    wrong_serial.put_u32(rng.random());
    let mut bwrong_serial = wrong_serial.freeze();
    let deserialized = head::unserialize(&mut bwrong_serial);
    assert_eq!(deserialized, Err(PacketError::WrongBufferSize));
}

#[test]
fn check_wrong_fragmentype() {
    let mut wrong_serial: BytesMut = BytesMut::new();
    let mut rng = rand::rng();
    //can be numbers 1-4, nothing else
    wrong_serial.put_u8(0);
    wrong_serial.put_u8(2);
    wrong_serial.put_u8(0);
    wrong_serial.put_u8(2);
    wrong_serial.put_u8(0);
    //seq number
    wrong_serial.put_u16(rng.random());
    //size
    wrong_serial.put_u16(rng.random());
    //timestamp
    wrong_serial.put_u32(rng.random());
    //ssrc
    wrong_serial.put_u32(rng.random());
    let mut bwrong_serial = wrong_serial.freeze();
    let deserialized = head::unserialize(&mut bwrong_serial);
    assert_eq!(deserialized, Err(PacketError::InvalidFragmenttype(0)));
}

fn sample_header() -> head {
    head::new(
        FragmentType::End,
        1,
        true,
        ChannelType::Audio,
        true,
        0x0102,
        0x0304,
        0x0506_0708,
        0x090A_0B0C,
    )
}

#[test]
fn serialize_writes_the_documented_layout() {
    let bytes = sample_header().serialize();
    assert_eq!(
        &bytes[..],
        &[3, 1, 1, 2, 1, 0x01, 0x02, 0x03, 0x04, 0x05, 0x06, 0x07, 0x08, 0x09, 0x0A, 0x0B, 0x0C][..]
    );
    assert_eq!(bytes.len(), HEADERSIZE);
}

#[test]
fn serialize_encodes_every_channel_and_fragment() {
    let cases = [
        (FragmentType::Start, ChannelType::Video, 1u8, 1u8),
        (FragmentType::Middle, ChannelType::Audio, 2, 2),
        (FragmentType::End, ChannelType::Control, 3, 3),
        (FragmentType::Unfragmented, ChannelType::Sync, 4, 4),
    ];
    for (f, c, fb, cb) in cases {
        let h = head::new(f, 0, false, c, false, 0, 0, 0, 0);
        let bytes = h.serialize();
        assert_eq!(bytes[0], fb);
        assert_eq!(bytes[3], cb);
        let mut frozen = bytes.freeze();
        if c == ChannelType::Sync {
            assert_eq!(head::unserialize(&mut frozen), Err(PacketError::InvalidChannel(4)));
        } else {
            assert_eq!(head::unserialize(&mut frozen), Ok(h));
        }
    }
}

#[test]
fn unserialize_leaves_the_payload_in_the_buffer() {
    let mut buf = sample_header().serialize();
    buf.put_slice(b"payload");
    let mut frozen = buf.freeze();
    assert_eq!(head::unserialize(&mut frozen), Ok(sample_header()));
    assert_eq!(&frozen[..], b"payload");
}

#[test]
fn unserialize_reads_nonzero_flags_as_true() {
    let mut raw = sample_header().serialize();
    raw[2] = 7;
    raw[4] = 0;
    let mut frozen = raw.freeze();
    let h = head::unserialize(&mut frozen).unwrap();
    assert!(h.padding);
    assert!(!h.frametype);
}

#[test]
fn short_buffer_is_rejected_and_untouched() {
    let mut buf = Bytes::from_static(&[1, 2, 0, 1, 0, 0, 0, 0, 0, 0, 0, 0, 0, 0, 0, 0]);
    assert_eq!(head::unserialize(&mut buf), Err(PacketError::WrongBufferSize));
    assert_eq!(buf.remaining(), 16);
    let mut empty = Bytes::new();
    assert_eq!(head::unserialize(&mut empty), Err(PacketError::WrongBufferSize));
}

#[test]
fn bad_fragment_consumes_one_byte() {
    let mut raw = sample_header().serialize();
    raw[0] = 9;
    let mut frozen = raw.freeze();
    assert_eq!(head::unserialize(&mut frozen), Err(PacketError::InvalidFragmenttype(9)));
    assert_eq!(frozen.remaining(), HEADERSIZE - 1);
}

#[test]
fn bad_channel_consumes_four_bytes() {
    let mut raw = sample_header().serialize();
    raw[3] = 0;
    let mut frozen = raw.freeze();
    assert_eq!(head::unserialize(&mut frozen), Err(PacketError::InvalidChannel(0)));
    assert_eq!(frozen.remaining(), HEADERSIZE - 4);
}

#[test]
fn try_from_accepts_exactly_one_to_four() {
    assert_eq!(ChannelType::try_from(1u8), Ok(ChannelType::Video));
    assert_eq!(ChannelType::try_from(4u8), Ok(ChannelType::Sync));
    assert_eq!(ChannelType::try_from(5u8), Err(PacketError::InvalidChannel(5)));
    assert_eq!(FragmentType::try_from(2u8), Ok(FragmentType::Middle));
    assert_eq!(FragmentType::try_from(0u8), Err(PacketError::InvalidFragmenttype(0)));
    assert_eq!(ChannelType::Control.to_byte(), 3);
    assert_eq!(FragmentType::Unfragmented.to_byte(), 4);
}

#[test]
fn error_messages_match_display_format() {
    assert_eq!(PacketError::WrongBufferSize.to_string(), "Buffer too short to parse packet");
    assert_eq!(
        PacketError::InvalidChannel(4).to_string(),
        "Invalid channel byte received: 0x04"
    );
    assert_eq!(
        PacketError::InvalidFragmenttype(0xAB).to_string(),
        "Invalid fragment byte received: 0xAB"
    );
    assert_eq!(format!("{:#04X}", 0xABu8), "0xAB");
}
