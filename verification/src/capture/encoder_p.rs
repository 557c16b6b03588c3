//! The encoder side: a captured BGRA frame is turned into the YUV picture
//! the H.264 encoder takes, encoded, and the encoded frame is cut into
//! datagrams according to its kind.
use crate::buf::{bytes_as_slice, bytes_contents, bytes_from_vec, bytes_len};
use crate::capture::udp_connect::{chunk_count, fragment_count, fragment_datagram, frame_fragments};
use crate::capture::RawStreamData;
use crate::clock::{as_millis, elapsed};
use bytes::Bytes;
use openh264::encoder::{Encoder, FrameType};
use openh264::formats::{BgraSliceU8, YUVBuffer};
use std::time::Instant;
use vstd::prelude::*;

verus! {

#[verifier::external_type_specification]
#[verifier::external_body]
pub struct ExYUVBuffer(openh264::formats::YUVBuffer);

#[verifier::external_type_specification]
#[verifier::external_body]
pub struct ExEncoder(openh264::encoder::Encoder);

#[verifier::external_type_specification]
#[verifier::external_body]
pub struct ExOpenH264Error(openh264::Error);

/// The size in pixels, width then height, of a YUV picture.
pub uninterp spec fn yuv_dimensions(b: YUVBuffer) -> (usize, usize);

/// The bytes a YUV picture holds: its Y, U and V planes, one after the other.
pub uninterp spec fn yuv_planes(b: YUVBuffer) -> Seq<u8>;

/// The I420 planes that openh264 computes from the BGRA pixels `data` of a
/// `width` by `height` frame (`YUVBuffer::from_bgra8_source`).
pub uninterp spec fn bgra_to_i420(data: Seq<u8>, width: usize, height: usize) -> Seq<u8>;

/// Why a captured frame could not be turned into datagrams.
#[derive(Debug, Clone, Copy, PartialEq, Eq, Structural)]
pub enum FrameError {
    /// The pixel buffer is not four bytes for each pixel of the frame.
    InvalidBgraSize,
    /// The H.264 encoder could not be set up.
    EncoderUnavailable,
    /// The H.264 encoder refused the picture.
    EncodeFailed,
    /// Numbering the frame's datagrams would run past the largest
    /// sequence number.
    SequenceOverflow,
}

impl FrameError {
    /// The text that describes the error, as it is shown to a user.
    pub fn to_string(&self) -> (s: String)
        ensures
            s@ == frame_error_message(*self),
    {
        match self {
            FrameError::InvalidBgraSize => String::from_str("Invalid BGRA buffer size"),
            FrameError::EncoderUnavailable => String::from_str("H.264 encoder could not be created"),
            FrameError::EncodeFailed => String::from_str("H.264 encoding failed"),
            FrameError::SequenceOverflow => String::from_str(
                "sequence number would overflow while numbering the frame's datagrams",
            ),
        }
    }
}

/// The text that describes a frame error.
pub open spec fn frame_error_message(e: FrameError) -> Seq<char> {
    match e {
        FrameError::InvalidBgraSize => "Invalid BGRA buffer size"@,
        FrameError::EncoderUnavailable => "H.264 encoder could not be created"@,
        FrameError::EncodeFailed => "H.264 encoding failed"@,
        FrameError::SequenceOverflow => "sequence number would overflow while numbering the frame's datagrams"@,
    }
}

/// The kind of an encoded frame, as the encoder reports it.
#[derive(Debug, Clone, Copy, PartialEq, Eq, Structural)]
pub enum EncodedKind {
    /// The encoder was not ready or its parameters were invalid.
    Invalid,
    /// An instantaneous decoder refresh frame: a key frame that also resets
    /// the decoder.
    Idr,
    /// A key frame.
    I,
    /// A delta frame.
    P,
    /// A skipped frame.
    Skip,
    /// A frame mixing I and P slices.
    IpMixed,
}

/// Whether frames of this kind are sent: key frames (IDR and I) and delta
/// frames (P).
pub open spec fn kind_is_sent(k: EncodedKind) -> bool {
    k == EncodedKind::Idr || k == EncodedKind::I || k == EncodedKind::P
}

/// Whether frames of this kind are key frames: IDR and I frames.
pub open spec fn kind_is_key(k: EncodedKind) -> bool {
    k == EncodedKind::Idr || k == EncodedKind::I
}

/// `YUVBuffer::from_bgra8_source` on the BGRA pixels `data` of a
/// `width` by `height` frame: a picture of that size (the crate allocates it
/// with `YUVBuffer::new(width, height)`), whose planes are the crate's
/// conversion of `data`, named `bgra_to_i420`; the conversion depends on
/// its arguments alone (the crate tests its accelerated path against the
/// scalar one). The crate panics unless the buffer holds four bytes per
/// pixel and both sides are even.
#[verifier::external_body]
pub(crate) fn yuv_from_bgra(data: &[u8], width: usize, height: usize) -> (r: YUVBuffer)
    requires
        data@.len() == width * height * 4,
        width % 2 == 0,
        height % 2 == 0,
    ensures
        yuv_dimensions(r) == (width, height),
        yuv_planes(r) == bgra_to_i420(data@, width, height),
{
    YUVBuffer::from_bgra8_source(BgraSliceU8::new(data, (width, height)))
}

/// `Encoder::new`: an encoder built from the bundled OpenH264 source, or
/// the crate's error.
#[verifier::external_body]
pub(crate) fn new_encoder() -> Result<Encoder, openh264::Error> {
    Encoder::new()
}

/// `Encoder::encode` on `yuv`, with the bitstream taken out by
/// `EncodedBitStream::to_vec` and its `frame_type` mapped to `EncodedKind`.
/// What comes back depends on the encoder's state (earlier frames and
/// settings), so nothing is promised of it.
#[verifier::external_body]
pub(crate) fn encode_frame(enc: &mut Encoder, yuv: &YUVBuffer) -> Result<
    (Vec<u8>, EncodedKind),
    openh264::Error,
> {
    match enc.encode(yuv) {
        Ok(stream) => {
            let kind = match stream.frame_type() {
                FrameType::Invalid => EncodedKind::Invalid,
                FrameType::IDR => EncodedKind::Idr,
                FrameType::I => EncodedKind::I,
                FrameType::P => EncodedKind::P,
                FrameType::Skip => EncodedKind::Skip,
                FrameType::IPMixed => EncodedKind::IpMixed,
            };
            Ok((stream.to_vec(), kind))
        },
        Err(e) => Err(e),
    }
}

/// An H.264 encoder, or `EncoderUnavailable` when the library cannot set one up.
pub fn start_encoder() -> (r: Result<Encoder, FrameError>)
    ensures
        r is Err ==> r == Err::<Encoder, FrameError>(FrameError::EncoderUnavailable),
{
    match new_encoder() {
        Ok(e) => Ok(e),
        Err(_) => Err(FrameError::EncoderUnavailable),
    }
}

/// The YUV picture of a captured frame, of the frame's size and converted
/// from its pixels, or
/// `InvalidBgraSize` exactly when the pixel buffer is not four bytes per pixel.
pub fn bytes_to_yub(bytedata: RawStreamData) -> (r: Result<YUVBuffer, FrameError>)
    requires
        bytedata.height * bytedata.width * 4 <= usize::MAX,
        bytes_contents(bytedata.data).len() == bytedata.height * bytedata.width * 4 ==> {
            &&& bytedata.width % 2 == 0
            &&& bytedata.height % 2 == 0
        },
    ensures
        r is Ok <==> bytes_contents(bytedata.data).len() == bytedata.height * bytedata.width * 4,
        r is Ok ==> yuv_dimensions(r->Ok_0) == (bytedata.width, bytedata.height),
        r is Ok ==> yuv_planes(r->Ok_0) == bgra_to_i420(
            bytes_contents(bytedata.data),
            bytedata.width,
            bytedata.height,
        ),
        r is Err ==> r == Err::<YUVBuffer, FrameError>(FrameError::InvalidBgraSize),
{
    let height = bytedata.height;
    let width = bytedata.width;
    let data = bytes_as_slice(&bytedata.data);
    assert(height * width <= height * width * 4) by (nonlinear_arith)
        requires
            height * width >= 0,
    ;
    if data.len() != height * width * 4 {
        return Err(FrameError::InvalidBgraSize);
    }
    assert(width * height * 4 == height * width * 4) by (nonlinear_arith);
    Ok(yuv_from_bgra(data, width, height))
}

/// Whether frames of this kind are sent.
pub fn is_sent(kind: EncodedKind) -> (b: bool)
    ensures
        b == kind_is_sent(kind),
{
    match kind {
        EncodedKind::Idr | EncodedKind::I | EncodedKind::P => true,
        _ => false,
    }
}

/// Whether frames of this kind are key frames.
pub fn is_key(kind: EncodedKind) -> (b: bool)
    ensures
        b == kind_is_key(kind),
{
    match kind {
        EncodedKind::Idr | EncodedKind::I => true,
        _ => false,
    }
}

/// `ds` carries the frame `b` as datagrams numbered from `seqnum`, stamped
/// `timestamp`, flagged as a key frame or not.
pub open spec fn carries_frame(
    ds: Seq<Bytes>,
    is_keyframe: bool,
    b: Seq<u8>,
    seqnum: u16,
    timestamp: u32,
) -> bool {
    &&& ds.len() == chunk_count(b.len())
    &&& forall|i: int|
        0 <= i < ds.len() ==> #[trigger] bytes_contents(ds[i]) == fragment_datagram(
            is_keyframe,
            b,
            seqnum,
            timestamp,
            i,
        )
}

/// Numbering the datagrams of frame `b` from `seqnum` on would run past
/// the largest sequence number.
pub open spec fn numbering_overflows(seqnum: u16, b: Seq<u8>) -> bool {
    seqnum + chunk_count(b.len()) > u16::MAX
}

/// The datagrams of an encoded frame of the given kind: key frames (IDR, I)
/// and delta frames (P) are cut into datagrams, flagged as key frames or
/// not; frames of the other kinds are not sent (`Ok(None)`). A frame to send
/// whose datagrams would be numbered past the largest sequence number gives
/// `SequenceOverflow`.
pub fn encoded_frame_datagrams(
    kind: EncodedKind,
    bitstream: &Bytes,
    seqnum: u16,
    timestamp: u32,
) -> (r: Result<Option<Vec<Bytes>>, FrameError>)
    ensures
        (r == Err::<Option<Vec<Bytes>>, FrameError>(FrameError::SequenceOverflow)) <==> (kind_is_sent(
            kind,
        ) && numbering_overflows(seqnum, bytes_contents(*bitstream))),
        r is Err ==> r == Err::<Option<Vec<Bytes>>, FrameError>(FrameError::SequenceOverflow),
        kind_is_sent(kind) && !numbering_overflows(seqnum, bytes_contents(*bitstream)) ==> ({
            &&& r matches Ok(Some(ds))
            &&& carries_frame(
                r->Ok_0->Some_0@,
                kind_is_key(kind),
                bytes_contents(*bitstream),
                seqnum,
                timestamp,
            )
        }),
        !kind_is_sent(kind) ==> r == Ok::<Option<Vec<Bytes>>, FrameError>(None),
{
    if is_sent(kind) {
        let total = fragment_count(bytes_len(bitstream));
        if total > (u16::MAX - seqnum) as usize {
            return Err(FrameError::SequenceOverflow);
        }
        Ok(Some(frame_fragments(is_key(kind), bitstream, seqnum, timestamp)))
    } else {
        Ok(None)
    }
}

/// A frame as the encoder gave it back: its kind, its bitstream, and the
/// milliseconds (cut to 32 bits) elapsed at the time it was encoded.
pub struct EncodedFrame {
    pub kind: EncodedKind,
    pub bitstream: Bytes,
    pub timestamp: u32,
}

impl EncodedFrame {
    /// The frame's datagrams numbered from `seqnum`, as
    /// `encoded_frame_datagrams` cuts them.
    pub fn datagrams(&self, seqnum: u16) -> (r: Result<Option<Vec<Bytes>>, FrameError>)
        ensures
            (r == Err::<Option<Vec<Bytes>>, FrameError>(FrameError::SequenceOverflow)) <==> (
            kind_is_sent(self.kind) && numbering_overflows(seqnum, bytes_contents(self.bitstream))),
            r is Err ==> r == Err::<Option<Vec<Bytes>>, FrameError>(FrameError::SequenceOverflow),
            kind_is_sent(self.kind) && !numbering_overflows(seqnum, bytes_contents(self.bitstream))
                ==> ({
                &&& r matches Ok(Some(ds))
                &&& carries_frame(
                    r->Ok_0->Some_0@,
                    kind_is_key(self.kind),
                    bytes_contents(self.bitstream),
                    seqnum,
                    self.timestamp,
                )
            }),
            !kind_is_sent(self.kind) ==> r == Ok::<Option<Vec<Bytes>>, FrameError>(None),
    {
        encoded_frame_datagrams(self.kind, &self.bitstream, seqnum, self.timestamp)
    }
}

/// One step of the encoder: converts the captured frame with
/// `bytes_to_yub`, hands that picture to the encoder, and returns the
/// bitstream and kind it produced, stamped with the milliseconds elapsed
/// since `timer`. A buffer of the wrong size gives `InvalidBgraSize`, and
/// nothing else does; the encoder's own failure gives `EncodeFailed`. Which
/// bitstream and kind the encoder produces depends on its state.
pub fn encode_raw_frame(encoder: &mut Encoder, raw: RawStreamData, timer: Instant) -> (r: Result<
    EncodedFrame,
    FrameError,
>)
    requires
        raw.height * raw.width * 4 <= usize::MAX,
        bytes_contents(raw.data).len() == raw.height * raw.width * 4 ==> {
            &&& raw.width % 2 == 0
            &&& raw.height % 2 == 0
        },
    ensures
        (r matches Err(FrameError::InvalidBgraSize)) <==> bytes_contents(raw.data).len() != raw.height
            * raw.width * 4,
        r is Err ==> (r->Err_0 == FrameError::InvalidBgraSize || r->Err_0
            == FrameError::EncodeFailed),
{
    let yuv = match bytes_to_yub(raw) {
        Ok(y) => y,
        Err(e) => {
            return Err(e);
        },
    };
    let (bits, kind) = match encode_frame(encoder, &yuv) {
        Ok(x) => x,
        Err(_) => {
            return Err(FrameError::EncodeFailed);
        },
    };
    let bitstream = bytes_from_vec(bits);
    let timestamp = #[verifier::truncate] (as_millis(&elapsed(&timer)) as u32);
    Ok(EncodedFrame { kind, bitstream, timestamp })
}

} // verus!
