//! The packet header: its fields, its 17-byte big-endian encoding, and the
//! parser that reads it back.
use crate::buf::{
    be16_bytes, be16_value, be32_bytes, be32_value, bytes_contents, bytes_mut_contents,
    bytes_mut_with_capacity, get_u16, get_u32, get_u8, put_u16, put_u32, put_u8, remaining,
};
use crate::error::PacketError;
use bytes::{Bytes, BytesMut};
use vstd::prelude::*;

verus! {

/// Number of bytes of an encoded header.
pub const HEADERSIZE: usize = 17;

/// What a packet carries.
#[derive(Debug, Clone, Copy, PartialEq, Eq, Structural)]
pub enum ChannelType {
    Video,
    Audio,
    Control,
    Sync,
}

/// Where a packet stands in a fragmented frame.
#[derive(Debug, Clone, Copy, PartialEq, Eq, Structural)]
pub enum FragmentType {
    Start,
    Middle,
    End,
    Unfragmented,
}

/// The byte that stands for a channel on the wire.
pub open spec fn channel_byte(c: ChannelType) -> u8 {
    match c {
        ChannelType::Video => 1,
        ChannelType::Audio => 2,
        ChannelType::Control => 3,
        ChannelType::Sync => 4,
    }
}

/// The channel that a wire byte stands for, or the error naming the byte.
pub open spec fn channel_from_byte(value: u8) -> Result<ChannelType, PacketError> {
    if value == 1 {
        Ok(ChannelType::Video)
    } else if value == 2 {
        Ok(ChannelType::Audio)
    } else if value == 3 {
        Ok(ChannelType::Control)
    } else if value == 4 {
        Ok(ChannelType::Sync)
    } else {
        Err(PacketError::InvalidChannel(value))
    }
}

/// The byte that stands for a fragment kind on the wire.
pub open spec fn fragment_byte(f: FragmentType) -> u8 {
    match f {
        FragmentType::Start => 1,
        FragmentType::Middle => 2,
        FragmentType::End => 3,
        FragmentType::Unfragmented => 4,
    }
}

/// The fragment kind that a wire byte stands for, or the error naming the byte.
pub open spec fn fragment_from_byte(value: u8) -> Result<FragmentType, PacketError> {
    if value == 1 {
        Ok(FragmentType::Start)
    } else if value == 2 {
        Ok(FragmentType::Middle)
    } else if value == 3 {
        Ok(FragmentType::End)
    } else if value == 4 {
        Ok(FragmentType::Unfragmented)
    } else {
        Err(PacketError::InvalidFragmenttype(value))
    }
}

impl ChannelType {
    /// The byte that stands for this channel on the wire.
    pub fn to_byte(&self) -> (b: u8)
        ensures
            b == channel_byte(*self),
    {
        match self {
            ChannelType::Video => 1,
            ChannelType::Audio => 2,
            ChannelType::Control => 3,
            ChannelType::Sync => 4,
        }
    }
}

impl FragmentType {
    /// The byte that stands for this fragment kind on the wire.
    pub fn to_byte(&self) -> (b: u8)
        ensures
            b == fragment_byte(*self),
    {
        match self {
            FragmentType::Start => 1,
            FragmentType::Middle => 2,
            FragmentType::End => 3,
            FragmentType::Unfragmented => 4,
        }
    }
}

impl TryFrom<u8> for ChannelType {
    type Error = PacketError;

    fn try_from(value: u8) -> (r: Result<Self, Self::Error>)
        ensures
            r == channel_from_byte(value),
    {
        match value {
            1 => Ok(ChannelType::Video),
            2 => Ok(ChannelType::Audio),
            3 => Ok(ChannelType::Control),
            4 => Ok(ChannelType::Sync),
            _ => Err(PacketError::InvalidChannel(value)),
        }
    }
}

impl TryFrom<u8> for FragmentType {
    type Error = PacketError;

    fn try_from(value: u8) -> (r: Result<Self, Self::Error>)
        ensures
            r == fragment_from_byte(value),
    {
        match value {
            1 => Ok(FragmentType::Start),
            2 => Ok(FragmentType::Middle),
            3 => Ok(FragmentType::End),
            4 => Ok(FragmentType::Unfragmented),
            _ => Err(PacketError::InvalidFragmenttype(value)),
        }
    }
}

impl vstd::std_specs::convert::TryFromSpecImpl<u8> for ChannelType {
    open spec fn obeys_try_from_spec() -> bool {
        true
    }

    open spec fn try_from_spec(v: u8) -> Result<Self, PacketError> {
        channel_from_byte(v)
    }
}

impl vstd::std_specs::convert::TryFromSpecImpl<u8> for FragmentType {
    open spec fn obeys_try_from_spec() -> bool {
        true
    }

    open spec fn try_from_spec(v: u8) -> Result<Self, PacketError> {
        fragment_from_byte(v)
    }
}

/// The header that starts every datagram.
#[derive(Debug, Clone, Copy, PartialEq, Eq, Structural)]
pub struct Header {
    pub fragment: FragmentType,
    /// Protocol version.
    pub version: u8,
    /// Whether the packet ends with padding.
    pub padding: bool,
    pub channel: ChannelType,
    /// For video: whether this is a key frame.
    pub frametype: bool,
    pub sequence_number: u16,
    /// Number of payload bytes that follow the header.
    pub size: u16,
    pub timestamp: u32,
    pub ssrc: u32,
}

/// The byte that stands for a flag on the wire.
pub open spec fn bool_byte(b: bool) -> u8 {
    if b {
        1
    } else {
        0
    }
}

/// The encoding of a header: five single bytes (fragment, version, padding,
/// channel, frame type), then sequence number and size as big-endian `u16`,
/// then timestamp and ssrc as big-endian `u32`.
pub open spec fn encode_header(h: Header) -> Seq<u8> {
    seq![
        fragment_byte(h.fragment),
        h.version,
        bool_byte(h.padding),
        channel_byte(h.channel),
        bool_byte(h.frametype),
    ] + be16_bytes(h.sequence_number) + be16_bytes(h.size) + be32_bytes(h.timestamp) + be32_bytes(
        h.ssrc,
    )
}

/// The header that a buffer of at least `HEADERSIZE` bytes with valid
/// fragment and channel bytes encodes; a flag byte is true when non-zero.
pub open spec fn decode_fields(s: Seq<u8>, fragment: FragmentType, channel: ChannelType) -> Header {
    Header {
        fragment,
        version: s[1],
        padding: s[2] != 0,
        channel,
        frametype: s[4] != 0,
        sequence_number: be16_value(s[5], s[6]),
        size: be16_value(s[7], s[8]),
        timestamp: be32_value(s[9], s[10], s[11], s[12]),
        ssrc: be32_value(s[13], s[14], s[15], s[16]),
    }
}

/// The channel that a header's channel byte may carry: 1 to 3 only. A
/// received header never names the `Sync` channel (byte 4): the reader
/// refuses it like any other unknown channel byte.
pub open spec fn header_channel_from_byte(value: u8) -> Result<ChannelType, PacketError> {
    if value == 4 {
        Err(PacketError::InvalidChannel(value))
    } else {
        channel_from_byte(value)
    }
}

/// What reading a header from the front of `s` gives, and how many bytes
/// the reader has taken off the front by then: nothing when `s` is too
/// short, one byte when the fragment byte is bad, four bytes when the
/// channel byte is bad, and the whole header otherwise.
pub open spec fn parse_header(s: Seq<u8>) -> (Result<Header, PacketError>, nat) {
    if s.len() < HEADERSIZE {
        (Err(PacketError::WrongBufferSize), 0)
    } else {
        match fragment_from_byte(s[0]) {
            Err(e) => (Err(e), 1),
            Ok(fragment) => match header_channel_from_byte(s[3]) {
                Err(e) => (Err(e), 4),
                Ok(channel) => (Ok(decode_fields(s, fragment, channel)), HEADERSIZE as nat),
            },
        }
    }
}

impl Header {
    /// A header with the given fields.
    pub fn new(
        fragment: FragmentType,
        version: u8,
        padding: bool,
        channel: ChannelType,
        frametype: bool,
        sequence_number: u16,
        size: u16,
        timestamp: u32,
        ssrc: u32,
    ) -> (h: Header)
        ensures
            h == (Header {
                fragment,
                version,
                padding,
                channel,
                frametype,
                sequence_number,
                size,
                timestamp,
                ssrc,
            }),
    {
        Header {
            fragment,
            version,
            padding,
            channel,
            frametype,
            sequence_number,
            size,
            timestamp,
            ssrc,
        }
    }

    /// The header's encoding, in a fresh buffer.
    pub fn serialize(&self) -> (buf: BytesMut)
        ensures
            bytes_mut_contents(buf) == encode_header(*self),
            bytes_mut_contents(buf).len() == HEADERSIZE,
    {
        let mut buf = bytes_mut_with_capacity(HEADERSIZE);
        put_u8(&mut buf, self.fragment.to_byte());
        put_u8(&mut buf, self.version);
        put_u8(&mut buf, if self.padding { 1 } else { 0 });
        put_u8(&mut buf, self.channel.to_byte());
        put_u8(&mut buf, if self.frametype { 1 } else { 0 });
        put_u16(&mut buf, self.sequence_number);
        put_u16(&mut buf, self.size);
        put_u32(&mut buf, self.timestamp);
        put_u32(&mut buf, self.ssrc);
        proof {
            assert(bytes_mut_contents(buf) =~= encode_header(*self));
        }
        buf
    }

    /// Reads a header off the front of `buffer`. The result is
    /// `parse_header` of the buffer's bytes, and the bytes that the reader
    /// took before succeeding or failing are gone from the buffer.
    pub fn unserialize(buffer: &mut Bytes) -> (r: Result<Header, PacketError>)
        ensures
            r == parse_header(bytes_contents(*old(buffer))).0,
            bytes_contents(*final(buffer)) == bytes_contents(*old(buffer)).skip(
                parse_header(bytes_contents(*old(buffer))).1 as int,
            ),
    {
        let ghost s = bytes_contents(*buffer);
        if remaining(buffer) < HEADERSIZE {
            assert(s.skip(0) =~= s);
            Err(PacketError::WrongBufferSize)
        } else {
            let fragment = match FragmentType::try_from(get_u8(buffer)) {
                Ok(f) => f,
                Err(e) => {
                    return Err(e);
                },
            };
            let version = get_u8(buffer);
            let padding = get_u8(buffer) != 0;
            let channel_byte = get_u8(buffer);
            let channel = match ChannelType::try_from(channel_byte) {
                Ok(ChannelType::Sync) => {
                    assert(bytes_contents(*buffer) =~= s.skip(4));
                    return Err(PacketError::InvalidChannel(channel_byte));
                },
                Ok(c) => c,
                Err(e) => {
                    assert(bytes_contents(*buffer) =~= s.skip(4));
                    return Err(e);
                },
            };
            let frametype = get_u8(buffer) != 0;
            let sequence_number = get_u16(buffer);
            let size = get_u16(buffer);
            let timestamp = get_u32(buffer);
            let ssrc = get_u32(buffer);
            assert(bytes_contents(*buffer) =~= s.skip(17));
            Ok(
                Header::new(
                    fragment,
                    version,
                    padding,
                    channel,
                    frametype,
                    sequence_number,
                    size,
                    timestamp,
                    ssrc,
                ),
            )
        }
    }
}

proof fn lemma_be16_roundtrip(v: u16)
    ensures
        be16_bytes(v).len() == 2,
        be16_value(be16_bytes(v)[0], be16_bytes(v)[1]) == v,
{
    assert(v / 256 < 256);
    assert((v / 256) * 256 + v % 256 == v);
}

pub(crate) proof fn lemma_be32_roundtrip(v: u32)
    ensures
        be32_bytes(v).len() == 4,
        be32_value(be32_bytes(v)[0], be32_bytes(v)[1], be32_bytes(v)[2], be32_bytes(v)[3]) == v,
{
    let b0 = v / 0x100_0000;
    let b1 = (v / 0x1_0000) % 256;
    let b2 = (v / 256) % 256;
    let b3 = v % 256;
    assert(b0 < 256 && b0 * 0x100_0000 + b1 * 0x1_0000 + b2 * 256 + b3 == v) by (nonlinear_arith)
        requires
            b0 == v / 0x100_0000,
            b1 == (v / 0x1_0000) % 256,
            b2 == (v / 256) % 256,
            b3 == v % 256,
            v < 0x1_0000_0000,
    ;
}

proof fn lemma_be16_bytes_of_value(b0: u8, b1: u8)
    ensures
        be16_bytes(be16_value(b0, b1)) == seq![b0, b1],
{
    let v = be16_value(b0, b1);
    assert(v == b0 * 256 + b1);
    assert(v / 256 == b0 && v % 256 == b1) by (nonlinear_arith)
        requires
            v == b0 * 256 + b1,
            b0 < 256,
            b1 < 256,
    ;
    assert(be16_bytes(v) =~= seq![b0, b1]);
}

proof fn lemma_be32_bytes_of_value(b0: u8, b1: u8, b2: u8, b3: u8)
    ensures
        be32_bytes(be32_value(b0, b1, b2, b3)) == seq![b0, b1, b2, b3],
{
    let v = be32_value(b0, b1, b2, b3);
    assert(b0 * 0x100_0000 + b1 * 0x1_0000 + b2 * 256 + b3 < 0x1_0000_0000) by (nonlinear_arith)
        requires
            b0 < 256,
            b1 < 256,
            b2 < 256,
            b3 < 256,
    ;
    assert(v == b0 * 0x100_0000 + b1 * 0x1_0000 + b2 * 256 + b3);
    assert(v / 0x100_0000 == b0 && (v / 0x1_0000) % 256 == b1 && (v / 256) % 256 == b2 && v % 256
        == b3) by (nonlinear_arith)
        requires
            v == b0 * 0x100_0000 + b1 * 0x1_0000 + b2 * 256 + b3,
            b0 < 256,
            b1 < 256,
            b2 < 256,
            b3 < 256,
    ;
    assert(be32_bytes(v) =~= seq![b0, b1, b2, b3]);
}

/// Reading back what `serialize` wrote gives the same header, whatever
/// follows it in the buffer, and takes exactly `HEADERSIZE` bytes, for
/// every header whose channel the reader accepts (all but `Sync`).
pub proof fn lemma_serialize_then_unserialize(h: Header, rest: Seq<u8>)
    requires
        h.channel != ChannelType::Sync,
    ensures
        encode_header(h).len() == HEADERSIZE,
        parse_header(encode_header(h) + rest) == (Ok::<Header, PacketError>(h), HEADERSIZE as nat),
{
    lemma_be16_roundtrip(h.sequence_number);
    lemma_be16_roundtrip(h.size);
    lemma_be32_roundtrip(h.timestamp);
    lemma_be32_roundtrip(h.ssrc);
    let s = encode_header(h) + rest;
    assert(s[5] == be16_bytes(h.sequence_number)[0] && s[6] == be16_bytes(h.sequence_number)[1]);
    assert(s[7] == be16_bytes(h.size)[0] && s[8] == be16_bytes(h.size)[1]);
    assert(s[9] == be32_bytes(h.timestamp)[0] && s[10] == be32_bytes(h.timestamp)[1]);
    assert(s[11] == be32_bytes(h.timestamp)[2] && s[12] == be32_bytes(h.timestamp)[3]);
    assert(s[13] == be32_bytes(h.ssrc)[0] && s[14] == be32_bytes(h.ssrc)[1]);
    assert(s[15] == be32_bytes(h.ssrc)[2] && s[16] == be32_bytes(h.ssrc)[3]);
    assert(decode_fields(s, h.fragment, h.channel) == h);
}

/// A header that parses, and whose two flag bytes are 0 or 1, is encoded
/// again by exactly the bytes it was read from: the encoding is canonical
/// on such input.
pub proof fn lemma_unserialize_then_serialize(s: Seq<u8>)
    requires
        parse_header(s).0 is Ok,
        s[2] <= 1,
        s[4] <= 1,
    ensures
        encode_header(parse_header(s).0->Ok_0) == s.take(HEADERSIZE as int),
{
    let h = parse_header(s).0->Ok_0;
    lemma_be16_bytes_of_value(s[5], s[6]);
    lemma_be16_bytes_of_value(s[7], s[8]);
    lemma_be32_bytes_of_value(s[9], s[10], s[11], s[12]);
    lemma_be32_bytes_of_value(s[13], s[14], s[15], s[16]);
    assert(encode_header(h) =~= s.take(HEADERSIZE as int));
}

/// A serialized `Sync` header is refused by the reader with the channel
/// byte 4, after the reader took four bytes.
pub proof fn lemma_sync_header_refused(h: Header, rest: Seq<u8>)
    requires
        h.channel == ChannelType::Sync,
    ensures
        parse_header(encode_header(h) + rest) == (Err::<Header, PacketError>(
            PacketError::InvalidChannel(4),
        ), 4nat),
{
    let s = encode_header(h) + rest;
    assert(s[0] == fragment_byte(h.fragment));
    assert(s[3] == 4);
}

/// A channel's wire byte reads back as that channel, and exactly the bytes
/// 1 to 4 name a channel.
pub proof fn lemma_channel_byte_roundtrip(c: ChannelType, b: u8)
    ensures
        channel_from_byte(channel_byte(c)) == Ok::<ChannelType, PacketError>(c),
        channel_from_byte(b) is Ok <==> 1 <= b <= 4,
        channel_from_byte(b) is Ok ==> channel_byte(channel_from_byte(b)->Ok_0) == b,
{
}

/// A fragment kind's wire byte reads back as that kind, and exactly the
/// bytes 1 to 4 name a fragment kind.
pub proof fn lemma_fragment_byte_roundtrip(f: FragmentType, b: u8)
    ensures
        fragment_from_byte(fragment_byte(f)) == Ok::<FragmentType, PacketError>(f),
        fragment_from_byte(b) is Ok <==> 1 <= b <= 4,
        fragment_from_byte(b) is Ok ==> fragment_byte(fragment_from_byte(b)->Ok_0) == b,
{
}

} // verus!
