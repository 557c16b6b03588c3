//! Datagram sizes, test traffic, and the decisions taken while connecting
//! to a peer, while sending test traffic and while receiving.
pub mod dummy_gen;

use crate::buf::{bytes_contents, bytes_copy_from_slice, bytes_len};
use crate::error::PacketError;
use crate::header::{encode_header, parse_header, ChannelType, Header, HEADERSIZE};
use crate::udp::dummy_gen::{control_header, encoded_timestamp, generate_control_datagram, generate_fake_datagram};
use bytes::Bytes;
use std::time::Instant;
use vstd::prelude::*;
use vstd::slice::slice_subrange;

verus! {

/// Largest payload carried by one datagram.
pub const PAYLOADSIZE: usize = 1180;

/// Size of the receive buffer while connecting.
pub const MAXDATAGRAMSIZE: usize = 1300;

/// Size of the receive buffer while receiving traffic.
pub const RECEIVEBUFFERSIZE: usize = 1200;

/// Milliseconds between two connection requests.
pub const PUNCH_INTERVAL_MS: u64 = 400;

/// Connection requests are numbered from 1 up to, not including, this.
pub const PUNCH_ROUND_LIMIT: u32 = 20;

/// Control datagrams sent once connected, to keep the path open.
pub const STABILIZE_PACKETS: u32 = 5;

/// Milliseconds between two of those control datagrams.
pub const STABILIZE_INTERVAL_MS: u64 = 100;

/// Milliseconds between two datagrams of test traffic.
pub const FAKE_DATA_INTERVAL_MS: u64 = 1000;

/// Datagrams of test traffic that a sender queues before it waits.
pub const SEND_QUEUE_LEN: usize = 30;

/// Sequence number of the first datagram of test traffic.
pub const FIRST_FAKE_SEQNUM: u16 = 11;

/// Datagrams of test traffic sent in all.
pub const FAKE_DATAGRAMS: u16 = 10;

/// What a reply received while connecting amounts to.
#[derive(Debug, Clone, Copy, PartialEq, Eq, Structural)]
pub enum PunchVerdict {
    /// Fewer bytes than a header: try again.
    TooShort,
    /// A header on the `Sync` channel: the peer is there.
    Connected,
    /// A header on another channel: try again.
    NotControl,
    /// The header reader found too few bytes: try again.
    WrongSize,
    /// The header could not be read for another reason.
    Failed(PacketError),
}

/// The verdict on a reply `s`: its first `HEADERSIZE` bytes are read as a
/// header, and only a `Sync` header connects.
pub open spec fn reply_verdict(s: Seq<u8>) -> PunchVerdict {
    if s.len() < HEADERSIZE {
        PunchVerdict::TooShort
    } else {
        match parse_header(s.take(HEADERSIZE as int)).0 {
            Ok(h) => if h.channel == ChannelType::Sync {
                PunchVerdict::Connected
            } else {
                PunchVerdict::NotControl
            },
            Err(PacketError::WrongBufferSize) => PunchVerdict::WrongSize,
            Err(e) => PunchVerdict::Failed(e),
        }
    }
}

/// Judges a reply received while connecting.
pub fn judge_reply(data: &[u8]) -> (v: PunchVerdict)
    ensures
        v == reply_verdict(data@),
        (v == PunchVerdict::TooShort) <==> data@.len() < HEADERSIZE,
        data@.len() >= HEADERSIZE && parse_header(data@.take(HEADERSIZE as int)).0 is Ok
            && parse_header(data@.take(HEADERSIZE as int)).0->Ok_0.channel != ChannelType::Sync
            ==> v == PunchVerdict::NotControl,
        v == PunchVerdict::NotControl ==> data@.len() >= HEADERSIZE && parse_header(
            data@.take(HEADERSIZE as int),
        ).0 is Ok,
        v matches PunchVerdict::Failed(e) ==> data@.len() >= HEADERSIZE && e
            != PacketError::WrongBufferSize && parse_header(data@.take(HEADERSIZE as int)).0 == Err::<
            Header,
            PacketError,
        >(e),
        data@.len() >= HEADERSIZE ==> (parse_header(data@.take(HEADERSIZE as int)).0 matches Err(e)
            ==> (e != PacketError::WrongBufferSize ==> v == PunchVerdict::Failed(e))),
{
    if data.len() < HEADERSIZE {
        return PunchVerdict::TooShort;
    }
    let mut head = bytes_copy_from_slice(slice_subrange(data, 0, HEADERSIZE));
    assert(data@.subrange(0, HEADERSIZE as int) =~= data@.take(HEADERSIZE as int));
    match Header::unserialize(&mut head) {
        Ok(header) => {
            if header.channel == ChannelType::Sync {
                PunchVerdict::Connected
            } else {
                PunchVerdict::NotControl
            }
        },
        Err(PacketError::WrongBufferSize) => PunchVerdict::WrongSize,
        Err(error) => PunchVerdict::Failed(error),
    }
}

/// What a verdict means, in terms of the header reader: a reply shorter
/// than a header is too short; a reply whose first `HEADERSIZE` bytes read
/// as a header on a channel other than `Sync` is not a control packet; a
/// reply is `Failed(e)` exactly when the reader refuses those bytes with an
/// error `e` other than a short buffer.
pub proof fn lemma_reply_verdict_meaning(s: Seq<u8>)
    ensures
        (reply_verdict(s) == PunchVerdict::TooShort) <==> s.len() < HEADERSIZE,
        s.len() >= HEADERSIZE && parse_header(s.take(HEADERSIZE as int)).0 is Ok && parse_header(
            s.take(HEADERSIZE as int),
        ).0->Ok_0.channel != ChannelType::Sync ==> reply_verdict(s) == PunchVerdict::NotControl,
        reply_verdict(s) matches PunchVerdict::Failed(e) ==> s.len() >= HEADERSIZE && e
            != PacketError::WrongBufferSize && parse_header(s.take(HEADERSIZE as int)).0 == Err::<
            Header,
            PacketError,
        >(e),
        s.len() >= HEADERSIZE ==> (parse_header(s.take(HEADERSIZE as int)).0 matches Err(e) ==> (e
            != PacketError::WrongBufferSize ==> reply_verdict(s) == PunchVerdict::Failed(e))),
{
}

/// No reply connects: a `Sync` header is refused by the header reader, so
/// the `Connected` verdict is never reached and every attempt runs out of
/// rounds.
pub proof fn lemma_no_reply_connects(s: Seq<u8>)
    ensures
        reply_verdict(s) != PunchVerdict::Connected,
{
}

/// The state of an attempt to open a path to a peer through a NAT: each
/// round either sends a control datagram or judges a reply, and the attempt
/// is over once a reply connects or the rounds run out.
pub struct HolePunch {
    round: u32,
    connected: bool,
}

impl HolePunch {
    #[verifier::type_invariant]
    spec fn inv(self) -> bool {
        1 <= self.round <= PUNCH_ROUND_LIMIT
    }

    /// The number of the round to come.
    pub closed spec fn round(self) -> u32 {
        self.round
    }

    /// Whether a reply has connected.
    pub closed spec fn connected(self) -> bool {
        self.connected
    }

    /// Whether the attempt is over.
    pub open spec fn over(self) -> bool {
        self.connected() || self.round() >= PUNCH_ROUND_LIMIT
    }

    /// A fresh attempt, before its first round.
    pub fn new() -> (p: HolePunch)
        ensures
            p.round() == 1,
            !p.connected(),
    {
        HolePunch { round: 1, connected: false }
    }

    /// The number of the round to come.
    pub fn current_round(&self) -> (r: u32)
        ensures
            r == self.round(),
    {
        self.round
    }

    /// Whether a reply has connected.
    pub fn is_connected(&self) -> (c: bool)
        ensures
            c == self.connected(),
    {
        self.connected
    }

    /// Whether the attempt is over: connected, or out of rounds.
    pub fn is_over(&self) -> (o: bool)
        ensures
            o == self.over(),
    {
        self.connected || self.round >= PUNCH_ROUND_LIMIT
    }

    /// A round in which the interval elapsed: the control datagram to send.
    pub fn on_tick(&mut self, timer: Instant) -> (d: Bytes)
        requires
            !old(self).over(),
        ensures
            final(self).round() == old(self).round() + 1,
            final(self).connected() == old(self).connected(),
            bytes_contents(d) == encode_header(control_header(encoded_timestamp(bytes_contents(d)))),
    {
        proof {
            use_type_invariant(&*self);
        }
        let d = generate_control_datagram(timer);
        self.round = self.round + 1;
        d
    }

    /// A round in which a reply arrived: its verdict; a `Connected` verdict
    /// ends the attempt.
    pub fn on_reply(&mut self, data: &[u8]) -> (v: PunchVerdict)
        requires
            !old(self).over(),
        ensures
            v == reply_verdict(data@),
            (v == PunchVerdict::TooShort) <==> data@.len() < HEADERSIZE,
            data@.len() >= HEADERSIZE && parse_header(data@.take(HEADERSIZE as int)).0 is Ok
                && parse_header(data@.take(HEADERSIZE as int)).0->Ok_0.channel != ChannelType::Sync
                ==> v == PunchVerdict::NotControl,
            v == PunchVerdict::NotControl ==> data@.len() >= HEADERSIZE && parse_header(
                data@.take(HEADERSIZE as int),
            ).0 is Ok,
            v matches PunchVerdict::Failed(e) ==> data@.len() >= HEADERSIZE && e
                != PacketError::WrongBufferSize && parse_header(data@.take(HEADERSIZE as int)).0 == Err::<
                Header,
                PacketError,
            >(e),
            data@.len() >= HEADERSIZE ==> (parse_header(data@.take(HEADERSIZE as int)).0 matches Err(e)
                ==> (e != PacketError::WrongBufferSize ==> v == PunchVerdict::Failed(e))),
            final(self).round() == old(self).round() + 1,
            final(self).connected() == (v == PunchVerdict::Connected),
    {
        proof {
            use_type_invariant(&*self);
        }
        let v = judge_reply(data);
        self.round = self.round + 1;
        self.connected = match v {
            PunchVerdict::Connected => true,
            _ => false,
        };
        v
    }
}

/// What a received datagram starts with: its header, and how many bytes
/// follow the header.
#[derive(Debug, Clone, Copy, PartialEq, Eq, Structural)]
pub struct ReceivedHeader {
    pub header: Header,
    pub payload_len: usize,
}

/// Reads the header of a received datagram.
pub fn read_datagram(data: &[u8]) -> (r: Result<ReceivedHeader, PacketError>)
    ensures
        match parse_header(data@).0 {
            Ok(h) => r == Ok::<ReceivedHeader, PacketError>(
                ReceivedHeader { header: h, payload_len: (data@.len() - HEADERSIZE) as usize },
            ),
            Err(e) => r == Err::<ReceivedHeader, PacketError>(e),
        },
{
    let mut received = bytes_copy_from_slice(data);
    match Header::unserialize(&mut received) {
        Ok(header) => Ok(ReceivedHeader { header, payload_len: bytes_len(&received) }),
        Err(e) => Err(e),
    }
}

/// The test traffic still to send: ten datagrams with consecutive sequence
/// numbers from 11 on.
pub struct FakeDataSchedule {
    seqnum: u16,
    remaining: u16,
}

impl FakeDataSchedule {
    #[verifier::type_invariant]
    spec fn inv(self) -> bool {
        &&& self.remaining <= FAKE_DATAGRAMS
        &&& self.seqnum + self.remaining == FIRST_FAKE_SEQNUM + FAKE_DATAGRAMS
    }

    /// Sequence number of the next datagram.
    pub closed spec fn next_seqnum(self) -> u16 {
        self.seqnum
    }

    /// Datagrams still to send.
    pub closed spec fn left(self) -> u16 {
        self.remaining
    }

    /// All of the test traffic, none sent yet.
    pub fn new() -> (s: FakeDataSchedule)
        ensures
            s.next_seqnum() == FIRST_FAKE_SEQNUM,
            s.left() == FAKE_DATAGRAMS,
    {
        FakeDataSchedule { seqnum: FIRST_FAKE_SEQNUM, remaining: FAKE_DATAGRAMS }
    }

    /// Whether a datagram is still to send.
    pub fn has_next(&self) -> (b: bool)
        ensures
            b == (self.left() > 0),
    {
        self.remaining > 0
    }

    /// The next datagram, stamped `timestamp`.
    pub fn next_datagram(&mut self, timestamp: u32) -> (d: Bytes)
        requires
            old(self).left() > 0,
        ensures
            final(self).left() == old(self).left() - 1,
            final(self).next_seqnum() == old(self).next_seqnum() + 1,
            bytes_contents(d).len() == HEADERSIZE + PAYLOADSIZE,
            parse_header(bytes_contents(d)).0 is Ok,
            parse_header(bytes_contents(d)).0->Ok_0.sequence_number == old(self).next_seqnum(),
            parse_header(bytes_contents(d)).0->Ok_0.timestamp == timestamp,
            parse_header(bytes_contents(d)).0->Ok_0.size == PAYLOADSIZE,
            1 <= parse_header(bytes_contents(d)).0->Ok_0.version <= 2,
            parse_header(bytes_contents(d)).0->Ok_0.channel != ChannelType::Sync,
            forall|i: int|
                HEADERSIZE <= i < HEADERSIZE + PAYLOADSIZE ==> #[trigger] bytes_contents(d)[i]
                    == bytes_contents(d)[HEADERSIZE as int],
    {
        proof {
            use_type_invariant(&*self);
        }
        let d = generate_fake_datagram(timestamp, self.seqnum);
        *self = FakeDataSchedule { seqnum: self.seqnum + 1, remaining: self.remaining - 1 };
        d
    }
}

} // verus!
