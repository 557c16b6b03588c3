//! Test traffic: headers, payloads and whole datagrams made of random
//! values, and the control datagram that announces a peer.
use crate::buf::{
    be32_value, bytes_as_slice, bytes_contents, bytes_len, bytes_mut_new,
    bytes_mut_with_capacity, freeze, put_slice, resize,
};
use crate::clock::{as_millis, elapsed};
use crate::header::{
    encode_header, lemma_be32_roundtrip, lemma_serialize_then_unserialize, parse_header,
    ChannelType, FragmentType, Header, HEADERSIZE,
};
use crate::random::{random_flag, random_range_u8, random_u32, random_u8};
use crate::udp::PAYLOADSIZE;
use bytes::Bytes;
use std::time::Instant;
use vstd::prelude::*;

verus! {

/// A header of random test traffic: random fragment kind, version 1 or 2,
/// random flags, a random channel other than `Sync`, a random ssrc, and
/// the given sequence number and timestamp for a full payload.
fn generate_test_header(timestamp: u32, seqnum: u16) -> (h: Header)
    ensures
        h.sequence_number == seqnum,
        h.timestamp == timestamp,
        h.size == PAYLOADSIZE,
        1 <= h.version <= 2,
        h.channel != ChannelType::Sync,
{
    let fragment = FragmentType::try_from(random_range_u8(1, 5)).expect("fragment kind in range");
    let version = random_range_u8(1, 3);
    let padding: bool = random_flag();
    let channel = ChannelType::try_from(random_range_u8(1, 4)).expect("channel in range");
    let frametype: bool = random_flag();
    let sequence: u16 = seqnum;
    let size: u16 = PAYLOADSIZE as u16;
    let ssrc: u32 = random_u32();
    Header::new(fragment, version, padding, channel, frametype, sequence, size, timestamp, ssrc)
}

/// A header built from raw fragment and channel numbers, which must be
/// valid wire bytes (1 to 4).
pub fn generate_header(
    fragmentnum: u8,
    version: u8,
    padding: bool,
    channelnum: u8,
    frametype: bool,
    sequence: u16,
    size: u16,
    timestamp: u32,
    ssrc: u32,
) -> (h: Header)
    requires
        1 <= fragmentnum <= 4,
        1 <= channelnum <= 4,
    ensures
        crate::header::fragment_from_byte(fragmentnum) == Ok::<FragmentType, crate::PacketError>(h.fragment),
        crate::header::channel_from_byte(channelnum) == Ok::<ChannelType, crate::PacketError>(h.channel),
        h.version == version,
        h.padding == padding,
        h.frametype == frametype,
        h.sequence_number == sequence,
        h.size == size,
        h.timestamp == timestamp,
        h.ssrc == ssrc,
{
    let fragment = FragmentType::try_from(fragmentnum).expect("valid fragment number");
    let channel = ChannelType::try_from(channelnum).expect("valid channel number");
    Header::new(fragment, version, padding, channel, frametype, sequence, size, timestamp, ssrc)
}

/// A payload of `PAYLOADSIZE` copies of one random byte.
fn generate_fake_payload() -> (p: Bytes)
    ensures
        bytes_contents(p).len() == PAYLOADSIZE,
        forall|i: int| 0 <= i < PAYLOADSIZE ==> #[trigger] bytes_contents(p)[i] == bytes_contents(p)[0],
{
    let mut payload = bytes_mut_new();
    let fill: u8 = random_u8();
    resize(&mut payload, PAYLOADSIZE, fill);
    freeze(payload)
}

/// A datagram of random test traffic: a random test header with the given
/// timestamp and sequence number, then a full payload of one repeated byte.
pub fn generate_fake_datagram(timestamp: u32, seqnum: u16) -> (d: Bytes)
    ensures
        bytes_contents(d).len() == HEADERSIZE + PAYLOADSIZE,
        parse_header(bytes_contents(d)).0 is Ok,
        parse_header(bytes_contents(d)).1 == HEADERSIZE,
        ({
            let h = parse_header(bytes_contents(d)).0->Ok_0;
            &&& h.sequence_number == seqnum
            &&& h.timestamp == timestamp
            &&& h.size == PAYLOADSIZE
            &&& 1 <= h.version <= 2
            &&& h.channel != ChannelType::Sync
            &&& bytes_contents(d) == encode_header(h) + bytes_contents(d).skip(HEADERSIZE as int)
        }),
        forall|i: int|
            HEADERSIZE <= i < HEADERSIZE + PAYLOADSIZE ==> #[trigger] bytes_contents(d)[i]
                == bytes_contents(d)[HEADERSIZE as int],
{
    let h = generate_test_header(timestamp, seqnum);
    let header = freeze(h.serialize());
    let payload = generate_fake_payload();
    let mut combined = bytes_mut_with_capacity(bytes_len(&header) + bytes_len(&payload));
    put_slice(&mut combined, bytes_as_slice(&header));
    put_slice(&mut combined, bytes_as_slice(&payload));
    let d = freeze(combined);
    proof {
        let p = bytes_contents(payload);
        lemma_serialize_then_unserialize(h, p);
        assert(bytes_contents(d) =~= encode_header(h) + p);
        assert(bytes_contents(d).skip(HEADERSIZE as int) =~= p);
        assert forall|i: int| HEADERSIZE <= i < HEADERSIZE + PAYLOADSIZE implies #[trigger] bytes_contents(d)[i]
            == bytes_contents(d)[HEADERSIZE as int] by {
            assert(bytes_contents(d)[i] == p[i - HEADERSIZE]);
            assert(p[i - HEADERSIZE] == p[0]);
        }
    }
    d
}

/// The header of the control datagram that a peer sends while connecting:
/// an unfragmented, version-2 `Sync` packet with the frame-type flag set,
/// sequence number 0, size 0 (it carries no payload), ssrc 1 and the
/// given timestamp.
pub open spec fn control_header(timestamp: u32) -> Header {
    Header {
        fragment: FragmentType::Unfragmented,
        version: 2,
        padding: false,
        channel: ChannelType::Sync,
        frametype: true,
        sequence_number: 0,
        size: 0,
        timestamp,
        ssrc: 1,
    }
}

/// The control datagram stamped `time_now`: only a header, no payload.
pub fn control_datagram(time_now: u32) -> (d: Bytes)
    ensures
        bytes_contents(d) == encode_header(control_header(time_now)),
{
    let h = generate_header(4, 2, false, 4, true, 0, 0, time_now, 1);
    assert(h == control_header(time_now));
    freeze(h.serialize())
}

/// The timestamp field of an encoded header.
pub open spec fn encoded_timestamp(c: Seq<u8>) -> u32 {
    be32_value(c[9], c[10], c[11], c[12])
}

/// The control datagram stamped with the milliseconds elapsed since
/// `timer`, cut to 32 bits. Which timestamp that is depends on the clock.
pub fn generate_control_datagram(timer: Instant) -> (d: Bytes)
    ensures
        bytes_contents(d) == encode_header(control_header(encoded_timestamp(bytes_contents(d)))),
{
    let time_now = #[verifier::truncate] (as_millis(&elapsed(&timer)) as u32);
    let d = control_datagram(time_now);
    proof {
        lemma_be32_roundtrip(time_now);
        assert(encoded_timestamp(bytes_contents(d)) == time_now);
    }
    d
}

} // verus!
