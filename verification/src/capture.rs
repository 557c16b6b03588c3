//! From captured screen frames to datagrams: the raw frame handed to the
//! encoder, its conversion to YUV, and the fragmentation of an encoded
//! frame into datagrams.
pub mod encoder_p;
pub mod udp_connect;

use crate::buf::{bytes_contents, bytes_copy_from_slice};
use bytes::Bytes;
use vstd::prelude::*;

verus! {

/// A captured frame: BGRA pixels, four bytes each, row after row without
/// padding, and the frame's size in pixels.
pub struct RawStreamData {
    pub data: Bytes,
    pub width: usize,
    pub height: usize,
}

impl RawStreamData {
    /// The frame handed over by the capture, with a copy of its pixels.
    pub fn from_frame(pixels: &[u8], width: u32, height: u32) -> (r: RawStreamData)
        ensures
            bytes_contents(r.data) == pixels@,
            r.width == width,
            r.height == height,
    {
        let height = height as usize;
        let width = width as usize;
        let payload = bytes_copy_from_slice(pixels);
        RawStreamData { data: payload, width, height }
    }
}

} // verus!
