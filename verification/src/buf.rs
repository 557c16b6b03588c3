//! The byte buffers of the `bytes` crate, as this library uses them.
//!
//! `Bytes` and `BytesMut` are opaque to the verifier; what they hold is
//! named by `bytes_contents` and `bytes_mut_contents`, and every method the
//! library calls is reached through a wrapper below whose contract says, over
//! those names, what the crate's source does.
use bytes::{Buf, BufMut, Bytes, BytesMut};
use vstd::prelude::*;

verus! {

#[verifier::external_type_specification]
#[verifier::external_body]
pub struct ExBytes(bytes::Bytes);

#[verifier::external_type_specification]
#[verifier::external_body]
pub struct ExBytesMut(bytes::BytesMut);

/// The bytes that a `Bytes` value still holds (from its read position on).
pub uninterp spec fn bytes_contents(b: Bytes) -> Seq<u8>;

/// The bytes written so far into a `BytesMut`.
pub uninterp spec fn bytes_mut_contents(b: BytesMut) -> Seq<u8>;

/// Largest length a `BytesMut` may grow to: the crate panics with
/// "capacity overflow" beyond `isize::MAX`.
pub open spec fn max_buffer_len() -> int {
    isize::MAX as int
}

/// The two bytes of `v`, most significant first.
pub open spec fn be16_bytes(v: u16) -> Seq<u8> {
    seq![(v / 256) as u8, (v % 256) as u8]
}

/// The four bytes of `v`, most significant first.
pub open spec fn be32_bytes(v: u32) -> Seq<u8> {
    seq![
        (v / 0x100_0000) as u8,
        ((v / 0x1_0000) % 256) as u8,
        ((v / 256) % 256) as u8,
        (v % 256) as u8,
    ]
}

/// The `u16` whose big-endian bytes are `b0, b1`.
pub open spec fn be16_value(b0: u8, b1: u8) -> u16 {
    (b0 * 256 + b1) as u16
}

/// The `u32` whose big-endian bytes are `b0, b1, b2, b3`.
pub open spec fn be32_value(b0: u8, b1: u8, b2: u8, b3: u8) -> u32 {
    (b0 * 0x100_0000 + b1 * 0x1_0000 + b2 * 256 + b3) as u32
}

/// `BytesMut::with_capacity`: an empty buffer (its capacity is not modelled).
#[verifier::external_body]
pub(crate) fn bytes_mut_with_capacity(capacity: usize) -> (b: BytesMut)
    requires
        capacity <= max_buffer_len(),
    ensures
        bytes_mut_contents(b) == Seq::<u8>::empty(),
{
    BytesMut::with_capacity(capacity)
}

/// `BytesMut::new`: an empty buffer.
#[verifier::external_body]
pub(crate) fn bytes_mut_new() -> (b: BytesMut)
    ensures
        bytes_mut_contents(b) == Seq::<u8>::empty(),
{
    BytesMut::new()
}

/// `BufMut::put_u8` on a `BytesMut`: appends the byte.
#[verifier::external_body]
pub(crate) fn put_u8(buf: &mut BytesMut, n: u8)
    requires
        bytes_mut_contents(*old(buf)).len() + 1 <= max_buffer_len(),
    ensures
        bytes_mut_contents(*final(buf)) == bytes_mut_contents(*old(buf)).push(n),
{
    buf.put_u8(n)
}

/// `BufMut::put_u16` on a `BytesMut`: appends the two bytes of `n`,
/// big-endian (the crate writes `n.to_be_bytes()`).
#[verifier::external_body]
pub(crate) fn put_u16(buf: &mut BytesMut, n: u16)
    requires
        bytes_mut_contents(*old(buf)).len() + 2 <= max_buffer_len(),
    ensures
        bytes_mut_contents(*final(buf)) == bytes_mut_contents(*old(buf)) + be16_bytes(n),
{
    buf.put_u16(n)
}

/// `BufMut::put_u32` on a `BytesMut`: appends the four bytes of `n`,
/// big-endian (the crate writes `n.to_be_bytes()`).
#[verifier::external_body]
pub(crate) fn put_u32(buf: &mut BytesMut, n: u32)
    requires
        bytes_mut_contents(*old(buf)).len() + 4 <= max_buffer_len(),
    ensures
        bytes_mut_contents(*final(buf)) == bytes_mut_contents(*old(buf)) + be32_bytes(n),
{
    buf.put_u32(n)
}

/// `BufMut::put_slice` on a `BytesMut`: appends the slice.
#[verifier::external_body]
pub(crate) fn put_slice(buf: &mut BytesMut, src: &[u8])
    requires
        bytes_mut_contents(*old(buf)).len() + src@.len() <= max_buffer_len(),
    ensures
        bytes_mut_contents(*final(buf)) == bytes_mut_contents(*old(buf)) + src@,
{
    buf.put_slice(src)
}

/// `BytesMut::resize`: truncates to `new_len`, or extends with copies of
/// `value` up to `new_len`.
#[verifier::external_body]
pub(crate) fn resize(buf: &mut BytesMut, new_len: usize, value: u8)
    requires
        new_len <= max_buffer_len(),
    ensures
        bytes_mut_contents(*final(buf)) == Seq::new(
            new_len as nat,
            |i: int|
                if i < bytes_mut_contents(*old(buf)).len() {
                    bytes_mut_contents(*old(buf))[i]
                } else {
                    value
                },
        ),
{
    buf.resize(new_len, value)
}

/// `BytesMut::freeze`: the same bytes, as an immutable `Bytes`.
#[verifier::external_body]
pub(crate) fn freeze(buf: BytesMut) -> (b: Bytes)
    ensures
        bytes_contents(b) == bytes_mut_contents(buf),
{
    buf.freeze()
}

/// `<BytesMut as Deref>::deref`: the bytes written so far, as a slice.
#[verifier::external_body]
pub(crate) fn bytes_mut_as_slice(buf: &BytesMut) -> (s: &[u8])
    ensures
        s@ == bytes_mut_contents(*buf),
{
    buf
}

/// `<Bytes as Deref>::deref`: the bytes held, as a slice.
#[verifier::external_body]
pub(crate) fn bytes_as_slice(b: &Bytes) -> (s: &[u8])
    ensures
        s@ == bytes_contents(*b),
{
    b
}

/// `Bytes::len`: the number of bytes held.
#[verifier::external_body]
pub(crate) fn bytes_len(b: &Bytes) -> (n: usize)
    ensures
        n == bytes_contents(*b).len(),
{
    b.len()
}

/// `Bytes::copy_from_slice`: a `Bytes` holding a copy of the slice.
#[verifier::external_body]
pub(crate) fn bytes_copy_from_slice(data: &[u8]) -> (b: Bytes)
    ensures
        bytes_contents(b) == data@,
{
    Bytes::copy_from_slice(data)
}

/// `<Bytes as From<Vec<u8>>>::from`: a `Bytes` holding the vector's bytes.
#[verifier::external_body]
pub(crate) fn bytes_from_vec(v: Vec<u8>) -> (b: Bytes)
    ensures
        bytes_contents(b) == v@,
{
    Bytes::from(v)
}

/// `Buf::remaining` on a `Bytes`: the number of bytes left to read.
#[verifier::external_body]
pub(crate) fn remaining(b: &Bytes) -> (n: usize)
    ensures
        n == bytes_contents(*b).len(),
{
    b.remaining()
}

/// `Buf::get_u8` on a `Bytes`: takes the first byte off the front.
#[verifier::external_body]
pub(crate) fn get_u8(b: &mut Bytes) -> (v: u8)
    requires
        bytes_contents(*old(b)).len() >= 1,
    ensures
        v == bytes_contents(*old(b))[0],
        bytes_contents(*final(b)) == bytes_contents(*old(b)).skip(1),
{
    b.get_u8()
}

/// `Buf::get_u16` on a `Bytes`: takes two bytes off the front and reads
/// them big-endian (the crate uses `u16::from_be_bytes`).
#[verifier::external_body]
pub(crate) fn get_u16(b: &mut Bytes) -> (v: u16)
    requires
        bytes_contents(*old(b)).len() >= 2,
    ensures
        v == be16_value(bytes_contents(*old(b))[0], bytes_contents(*old(b))[1]),
        bytes_contents(*final(b)) == bytes_contents(*old(b)).skip(2),
{
    b.get_u16()
}

/// `Buf::get_u32` on a `Bytes`: takes four bytes off the front and reads
/// them big-endian (the crate uses `u32::from_be_bytes`).
#[verifier::external_body]
pub(crate) fn get_u32(b: &mut Bytes) -> (v: u32)
    requires
        bytes_contents(*old(b)).len() >= 4,
    ensures
        v == be32_value(
            bytes_contents(*old(b))[0],
            bytes_contents(*old(b))[1],
            bytes_contents(*old(b))[2],
            bytes_contents(*old(b))[3],
        ),
        bytes_contents(*final(b)) == bytes_contents(*old(b)).skip(4),
{
    b.get_u32()
}

} // verus!
