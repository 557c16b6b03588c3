//! Fragmentation of an encoded frame into datagrams: the frame is cut into
//! pieces of at most `PAYLOADSIZE` bytes, and each piece goes out behind a
//! video header that says where it stands in the frame.
use crate::buf::{
    bytes_as_slice, bytes_contents, bytes_mut_as_slice, bytes_mut_with_capacity, freeze, put_slice,
};
use crate::error::PacketError;
use crate::header::{
    encode_header, lemma_serialize_then_unserialize, parse_header, ChannelType, FragmentType,
    Header, HEADERSIZE,
};
use crate::udp::PAYLOADSIZE;
use bytes::Bytes;
use vstd::prelude::*;
use vstd::slice::slice_subrange;

verus! {

/// How many pieces a frame of `len` bytes is cut into.
pub open spec fn chunk_count(len: nat) -> nat {
    if len % (PAYLOADSIZE as nat) == 0 {
        len / (PAYLOADSIZE as nat)
    } else {
        len / (PAYLOADSIZE as nat) + 1
    }
}

/// The `i`-th piece of frame `p`: `PAYLOADSIZE` bytes from `i * PAYLOADSIZE`
/// on, or what is left of the frame.
pub open spec fn chunk_of(p: Seq<u8>, i: int) -> Seq<u8> {
    let start = i * PAYLOADSIZE;
    let end = if p.len() - start < PAYLOADSIZE {
        p.len() as int
    } else {
        start + PAYLOADSIZE
    };
    p.subrange(start, end)
}

/// Where the `i`-th of `total` pieces stands: a single piece is
/// unfragmented; otherwise the first starts the frame, the last ends it and
/// the others are in the middle.
pub open spec fn fragment_kind(i: int, total: int) -> FragmentType {
    if total == 1 {
        FragmentType::Unfragmented
    } else if i == 0 {
        FragmentType::Start
    } else if i == total - 1 {
        FragmentType::End
    } else {
        FragmentType::Middle
    }
}

/// The header of the `i`-th of `total` pieces, `len` bytes long, of a frame
/// whose first piece has sequence number `seqnum`: version 1, no padding,
/// video channel, ssrc 1, and the frame's key-frame flag and timestamp.
pub open spec fn fragment_header(
    is_keyframe: bool,
    seqnum: u16,
    timestamp: u32,
    i: int,
    total: int,
    len: int,
) -> Header {
    Header {
        fragment: fragment_kind(i, total),
        version: 1,
        padding: false,
        channel: ChannelType::Video,
        frametype: is_keyframe,
        sequence_number: (seqnum + i) as u16,
        size: len as u16,
        timestamp,
        ssrc: 1,
    }
}

/// The `i`-th datagram of frame `p`: its header, then its piece.
pub open spec fn fragment_datagram(
    is_keyframe: bool,
    p: Seq<u8>,
    seqnum: u16,
    timestamp: u32,
    i: int,
) -> Seq<u8> {
    encode_header(
        fragment_header(
            is_keyframe,
            seqnum,
            timestamp,
            i,
            chunk_count(p.len()) as int,
            chunk_of(p, i).len() as int,
        ),
    ) + chunk_of(p, i)
}

/// What the `i`-th datagram of a frame `p` of `n` pieces says, read back
/// with the header reader: the frame's key-frame flag on every datagram;
/// version 1, no padding, the video channel, ssrc 1 and the frame's
/// timestamp; sequence number `seqnum + i`; a lone piece is unfragmented,
/// otherwise the first piece starts the frame, the last ends it and every
/// other is in the middle; after the header come bytes `i * 1180` up to
/// `(i + 1) * 1180` of the frame, or up to its end for the last piece, and
/// the header's size counts them.
pub proof fn lemma_fragment_labels(
    is_keyframe: bool,
    p: Seq<u8>,
    seqnum: u16,
    timestamp: u32,
    i: int,
)
    requires
        0 <= i < chunk_count(p.len()),
        seqnum + chunk_count(p.len()) <= u16::MAX,
    ensures
        ({
            let d = fragment_datagram(is_keyframe, p, seqnum, timestamp, i);
            let n = chunk_count(p.len()) as int;
            let r = parse_header(d).0;
            &&& r is Ok
            &&& r->Ok_0.frametype == is_keyframe
            &&& r->Ok_0.version == 1
            &&& !r->Ok_0.padding
            &&& r->Ok_0.channel == ChannelType::Video
            &&& r->Ok_0.ssrc == 1
            &&& r->Ok_0.timestamp == timestamp
            &&& r->Ok_0.sequence_number == seqnum + i
            &&& (n == 1 ==> r->Ok_0.fragment == FragmentType::Unfragmented)
            &&& (n >= 2 && i == 0 ==> r->Ok_0.fragment == FragmentType::Start)
            &&& (n >= 2 && i == n - 1 ==> r->Ok_0.fragment == FragmentType::End)
            &&& (0 < i < n - 1 ==> r->Ok_0.fragment == FragmentType::Middle)
            &&& i < n - 1 ==> d.skip(HEADERSIZE as int) == p.subrange(i * 1180, (i + 1) * 1180)
            &&& i == n - 1 ==> d.skip(HEADERSIZE as int) == p.subrange(i * 1180, p.len() as int)
            &&& r->Ok_0.size == d.len() - HEADERSIZE
            &&& 0 < d.len() - HEADERSIZE <= 1180
        }),
{
    lemma_fragment_datagram_reads_back(is_keyframe, p, seqnum, timestamp, i);
    lemma_chunk_bounds(p.len(), i);
    let d = fragment_datagram(is_keyframe, p, seqnum, timestamp, i);
    assert(d.len() == HEADERSIZE + chunk_of(p, i).len());
}

/// The pieces `0..k` of frame `p`, one after the other.
pub open spec fn joined_chunks(p: Seq<u8>, k: nat) -> Seq<u8>
    decreases k,
{
    if k == 0 {
        Seq::empty()
    } else {
        joined_chunks(p, (k - 1) as nat) + chunk_of(p, k - 1)
    }
}

/// How many pieces a frame of `len` bytes is cut into.
pub fn fragment_count(len: usize) -> (n: usize)
    ensures
        n == chunk_count(len as nat),
{
    if len % PAYLOADSIZE == 0 {
        len / PAYLOADSIZE
    } else {
        len / PAYLOADSIZE + 1
    }
}

proof fn lemma_chunk_bounds(len: nat, i: int)
    requires
        0 <= i < chunk_count(len),
    ensures
        i * PAYLOADSIZE < len,
        i * PAYLOADSIZE + PAYLOADSIZE <= len || len - i * PAYLOADSIZE < PAYLOADSIZE,
        (i + 1) * PAYLOADSIZE == i * PAYLOADSIZE + PAYLOADSIZE,
        i == chunk_count(len) - 1 ==> len - i * PAYLOADSIZE <= PAYLOADSIZE,
        i < chunk_count(len) - 1 ==> i * PAYLOADSIZE + PAYLOADSIZE < len,
{
    let q = len / (PAYLOADSIZE as nat);
    let r = len % (PAYLOADSIZE as nat);
    assert(len == q * PAYLOADSIZE + r && r < PAYLOADSIZE) by (nonlinear_arith)
        requires
            q == len / (PAYLOADSIZE as nat),
            r == len % (PAYLOADSIZE as nat),
    ;
    assert(i * PAYLOADSIZE < len) by (nonlinear_arith)
        requires
            len == q * PAYLOADSIZE + r,
            r < PAYLOADSIZE,
            0 <= i,
            (r == 0 && i < q) || (r != 0 && i < q + 1),
    ;
    assert((i + 1) * PAYLOADSIZE == i * PAYLOADSIZE + PAYLOADSIZE) by (nonlinear_arith);
    assert(i == chunk_count(len) - 1 ==> len - i * PAYLOADSIZE <= PAYLOADSIZE) by (nonlinear_arith)
        requires
            len == q * PAYLOADSIZE + r,
            r < PAYLOADSIZE,
            chunk_count(len) == (if r == 0 {
                q
            } else {
                q + 1
            }),
    ;
    assert(i < chunk_count(len) - 1 ==> i * PAYLOADSIZE + PAYLOADSIZE < len) by (nonlinear_arith)
        requires
            len == q * PAYLOADSIZE + r,
            r < PAYLOADSIZE,
            0 <= i,
            chunk_count(len) == (if r == 0 {
                q
            } else {
                q + 1
            }),
    ;
}

/// The datagrams that carry frame `payload`, in order; the `i`-th has
/// sequence number `seqnum + i`. An empty frame gives no datagram.
pub fn frame_fragments(is_keyframe: bool, payload: &Bytes, seqnum: u16, timestamp: u32) -> (ds: Vec<
    Bytes,
>)
    requires
        seqnum + chunk_count(bytes_contents(*payload).len()) <= u16::MAX,
    ensures
        ds.len() == chunk_count(bytes_contents(*payload).len()),
        forall|i: int|
            0 <= i < ds.len() ==> #[trigger] bytes_contents(ds[i]) == fragment_datagram(
                is_keyframe,
                bytes_contents(*payload),
                seqnum,
                timestamp,
                i,
            ),
        forall|i: int|
            0 <= i < ds.len() ==> {
                let d = #[trigger] bytes_contents(ds[i]);
                let h = parse_header(d).0->Ok_0;
                &&& parse_header(d).0 is Ok
                &&& h.frametype == is_keyframe
                &&& h.channel == ChannelType::Video
                &&& h.timestamp == timestamp
                &&& h.sequence_number == seqnum + i
                &&& h.size == d.len() - HEADERSIZE
                &&& (ds.len() == 1 ==> h.fragment == FragmentType::Unfragmented)
                &&& (ds.len() >= 2 && i == 0 ==> h.fragment == FragmentType::Start)
                &&& (ds.len() >= 2 && i == ds.len() - 1 ==> h.fragment == FragmentType::End)
                &&& (0 < i < ds.len() - 1 ==> h.fragment == FragmentType::Middle)
                &&& (i < ds.len() - 1 ==> d.skip(HEADERSIZE as int) == bytes_contents(
                    *payload,
                ).subrange(i * 1180, (i + 1) * 1180))
                &&& (i == ds.len() - 1 ==> d.skip(HEADERSIZE as int) == bytes_contents(
                    *payload,
                ).subrange(i * 1180, bytes_contents(*payload).len() as int))
            },
{
    let data = bytes_as_slice(payload);
    let len = data.len();
    let total = fragment_count(len);
    let ghost p = data@;
    let mut ds: Vec<Bytes> = Vec::new();
    let mut i: usize = 0;
    while i < total
        invariant
            p == bytes_contents(*payload),
            data@ == p,
            len == p.len(),
            total == chunk_count(len as nat),
            seqnum + total <= u16::MAX,
            i <= total,
            ds.len() == i,
            forall|j: int|
                0 <= j < i ==> #[trigger] bytes_contents(ds[j]) == fragment_datagram(
                    is_keyframe,
                    p,
                    seqnum,
                    timestamp,
                    j,
                ),
        decreases total - i,
    {
        proof {
            lemma_chunk_bounds(len as nat, i as int);
        }
        let start = i * PAYLOADSIZE;
        let end = if len - start < PAYLOADSIZE {
            len
        } else {
            start + PAYLOADSIZE
        };
        let chunk = slice_subrange(data, start, end);
        let fragment_type = if total == 1 {
            FragmentType::Unfragmented
        } else if i == 0 {
            FragmentType::Start
        } else if i == total - 1 {
            FragmentType::End
        } else {
            FragmentType::Middle
        };
        let fragment_header = Header::new(
            fragment_type,
            1,
            false,
            ChannelType::Video,
            is_keyframe,
            seqnum + i as u16,
            chunk.len() as u16,
            timestamp,
            1,
        ).serialize();
        let header_bytes = bytes_mut_as_slice(&fragment_header);
        let mut combined = bytes_mut_with_capacity(header_bytes.len() + chunk.len());
        put_slice(&mut combined, header_bytes);
        put_slice(&mut combined, chunk);
        let d = freeze(combined);
        proof {
            assert(chunk@ == chunk_of(p, i as int));
            assert(bytes_contents(d) == fragment_datagram(is_keyframe, p, seqnum, timestamp, i as int));
        }
        ds.push(d);
        i = i + 1;
    }
    proof {
        assert forall|j: int| 0 <= j < ds.len() implies {
            let d = #[trigger] bytes_contents(ds[j]);
            let h = parse_header(d).0->Ok_0;
            &&& parse_header(d).0 is Ok
            &&& h.frametype == is_keyframe
            &&& h.channel == ChannelType::Video
            &&& h.timestamp == timestamp
            &&& h.sequence_number == seqnum + j
            &&& h.size == d.len() - HEADERSIZE
            &&& (ds.len() == 1 ==> h.fragment == FragmentType::Unfragmented)
            &&& (ds.len() >= 2 && j == 0 ==> h.fragment == FragmentType::Start)
            &&& (ds.len() >= 2 && j == ds.len() - 1 ==> h.fragment == FragmentType::End)
            &&& (0 < j < ds.len() - 1 ==> h.fragment == FragmentType::Middle)
            &&& (j < ds.len() - 1 ==> d.skip(HEADERSIZE as int) == p.subrange(j * 1180, (j + 1) * 1180))
            &&& (j == ds.len() - 1 ==> d.skip(HEADERSIZE as int) == p.subrange(j * 1180, p.len() as int))
        } by {
            lemma_fragment_labels(is_keyframe, p, seqnum, timestamp, j);
        }
    }
    ds
}

/// Every datagram of a frame reads back as its fragment header, and what
/// follows that header is exactly its piece of the frame, at most
/// `PAYLOADSIZE` bytes and never empty.
pub proof fn lemma_fragment_datagram_reads_back(
    is_keyframe: bool,
    p: Seq<u8>,
    seqnum: u16,
    timestamp: u32,
    i: int,
)
    requires
        0 <= i < chunk_count(p.len()),
    ensures
        ({
            let d = fragment_datagram(is_keyframe, p, seqnum, timestamp, i);
            &&& parse_header(d) == (Ok::<Header, PacketError>(
                fragment_header(
                    is_keyframe,
                    seqnum,
                    timestamp,
                    i,
                    chunk_count(p.len()) as int,
                    chunk_of(p, i).len() as int,
                ),
            ), HEADERSIZE as nat)
            &&& d.skip(HEADERSIZE as int) == chunk_of(p, i)
            &&& 0 < chunk_of(p, i).len() <= PAYLOADSIZE
        }),
{
    lemma_chunk_bounds(p.len(), i);
    let h = fragment_header(
        is_keyframe,
        seqnum,
        timestamp,
        i,
        chunk_count(p.len()) as int,
        chunk_of(p, i).len() as int,
    );
    lemma_serialize_then_unserialize(h, chunk_of(p, i));
    assert((encode_header(h) + chunk_of(p, i)).skip(HEADERSIZE as int) =~= chunk_of(p, i));
}

/// The pieces of a frame, joined in order, give back the frame: nothing is
/// lost, repeated or reordered by fragmentation.
pub proof fn lemma_chunks_rejoin(p: Seq<u8>)
    ensures
        joined_chunks(p, chunk_count(p.len())) == p,
{
    lemma_joined_prefix(p, chunk_count(p.len()));
    let k = chunk_count(p.len());
    if k > 0 {
        lemma_chunk_bounds(p.len(), k - 1);
    }
    assert(p.take(p.len() as int) =~= p);
}

proof fn lemma_joined_prefix(p: Seq<u8>, k: nat)
    requires
        k <= chunk_count(p.len()),
    ensures
        joined_chunks(p, k) == p.take(
            if k == chunk_count(p.len()) {
                p.len() as int
            } else {
                k * PAYLOADSIZE
            },
        ),
    decreases k,
{
    if k == 0 {
        if chunk_count(p.len()) == 0 {
            assert(p.len() == 0) by (nonlinear_arith)
                requires
                    chunk_count(p.len()) == 0,
                    p.len() >= 0,
            ;
        }
        assert(p.take(0) =~= Seq::<u8>::empty());
    } else {
        lemma_joined_prefix(p, (k - 1) as nat);
        lemma_chunk_bounds(p.len(), k - 1);
        let prev = p.take((k - 1) * PAYLOADSIZE);
        assert(joined_chunks(p, (k - 1) as nat) == prev);
        if k == chunk_count(p.len()) {
            assert(prev + chunk_of(p, k - 1) =~= p.take(p.len() as int));
        } else {
            assert(prev + chunk_of(p, k - 1) =~= p.take(k * PAYLOADSIZE));
        }
    }
}

/// The sequence number that follows `delivered` datagrams numbered
/// consecutively from `seqnum`: the sender's counter after it has handed
/// them over.
pub fn next_seqnum(seqnum: u16, delivered: usize) -> (r: u16)
    requires
        seqnum + delivered <= u16::MAX,
    ensures
        r == seqnum + delivered,
{
    seqnum + delivered as u16
}

/// What the sender does after handing one datagram to its channel: a
/// delivered datagram moves the counter on by one and sending goes on
/// (`Some`); a refused one stops the frame's sending with the counter
/// where it stands (`None`).
pub fn after_send(seqnum: u16, delivered: bool) -> (r: Option<u16>)
    requires
        delivered ==> seqnum < u16::MAX,
    ensures
        delivered ==> r == Some((seqnum + 1) as u16),
        !delivered ==> r is None,
{
    if delivered {
        Some(next_seqnum(seqnum, 1))
    } else {
        None
    }
}

/// Numbering runs on from frame to frame: the `i`-th datagram of a frame
/// numbered from `seqnum` carries `seqnum + i`, and a following frame,
/// numbered from where the counter stands after all of the first frame's
/// datagrams were delivered, carries on with `seqnum + n + j` without a gap
/// or a repeat, as long as no number passes the largest.
pub proof fn lemma_numbering_runs_on(
    first: Seq<u8>,
    second: Seq<u8>,
    is_key1: bool,
    is_key2: bool,
    seqnum: u16,
    ts1: u32,
    ts2: u32,
    i: int,
    j: int,
)
    requires
        seqnum + chunk_count(first.len()) + chunk_count(second.len()) <= u16::MAX,
        0 <= i < chunk_count(first.len()),
        0 <= j < chunk_count(second.len()),
    ensures
        fragment_header(
            is_key1,
            seqnum,
            ts1,
            i,
            chunk_count(first.len()) as int,
            chunk_of(first, i).len() as int,
        ).sequence_number == seqnum + i,
        fragment_header(
            is_key2,
            (seqnum + chunk_count(first.len())) as u16,
            ts2,
            j,
            chunk_count(second.len()) as int,
            chunk_of(second, j).len() as int,
        ).sequence_number == seqnum + chunk_count(first.len()) + j,
{
}

} // verus!
