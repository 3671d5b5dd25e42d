//! Framing of messages on the pipe: every message travels as a four-byte
//! little-endian length, then the payload. A length above
//! `MAX_MESSAGE_SIZE` is refused before any payload is read.

use vstd::prelude::*;
use vstd::string::*;
use crate::broker_protocol::MAX_MESSAGE_SIZE;
use crate::text::{decimal, push_decimal};

verus! {

/// The four little-endian bytes of `v`.
pub open spec fn le_bytes(v: u32) -> Seq<u8> {
    seq![(v & 0xff) as u8, ((v >> 8) & 0xff) as u8, ((v >> 16) & 0xff) as u8, ((v >> 24) & 0xff) as u8]
}

/// The value of four little-endian bytes.
pub open spec fn le_value(b0: u8, b1: u8, b2: u8, b3: u8) -> u32 {
    (b0 as u32) | ((b1 as u32) << 8u32) | ((b2 as u32) << 16u32) | ((b3 as u32) << 24u32)
}

/// The length that a header announces (its first four bytes, little-endian).
pub open spec fn header_value(h: Seq<u8>) -> u32
    recommends
        h.len() == 4,
{
    le_value(h[0], h[1], h[2], h[3])
}

/// The header sent before a payload of `len` bytes; a length beyond
/// `u32::MAX` keeps its low 32 bits.
pub open spec fn frame_header(len: usize) -> Seq<u8> {
    le_bytes(len as u32)
}

/// Why a frame could not be read or written.
#[derive(Debug, Clone, Copy, PartialEq, Eq, Structural)]
pub enum FrameError {
    /// The length prefix did not arrive whole; `received` bytes came.
    IncompleteHeader { received: usize },
    /// The announced length is above `MAX_MESSAGE_SIZE`.
    TooLarge { length: u32 },
    /// A single read of the payload brought `received` of `expected` bytes.
    IncompletePayload { received: usize, expected: usize },
    /// The length prefix was not written whole.
    HeaderNotWritten,
    /// The payload was not written whole.
    PayloadNotWritten,
}

/// What reading a header gives: the payload length, or the reason it is refused.
pub open spec fn header_result(h: Seq<u8>) -> Result<usize, FrameError> {
    if h.len() != 4 {
        Err(FrameError::IncompleteHeader { received: h.len() as usize })
    } else if header_value(h) > MAX_MESSAGE_SIZE {
        Err(FrameError::TooLarge { length: header_value(h) })
    } else {
        Ok(header_value(h) as usize)
    }
}

/// The text of a frame error.
pub open spec fn frame_error_text(e: FrameError) -> Seq<char> {
    match e {
        FrameError::IncompleteHeader { received } => "Failed to read message length (got "@
            + decimal(received as nat) + " bytes)"@,
        FrameError::TooLarge { length } => "Message too large: "@ + decimal(length as nat)
            + " bytes"@,
        FrameError::IncompletePayload { received, expected } => "Failed to read message (got "@
            + decimal(received as nat) + " of "@ + decimal(expected as nat) + " bytes)"@,
        FrameError::HeaderNotWritten => "Failed to write message length"@,
        FrameError::PayloadNotWritten => "Failed to write message"@,
    }
}

impl FrameError {
    /// The text of this error.
    pub fn message(&self) -> (m: String)
        ensures
            m@ == frame_error_text(*self),
    {
        match self {
            FrameError::IncompleteHeader { received } => {
                let mut m = String::from_str("Failed to read message length (got ");
                push_decimal(&mut m, *received as u64);
                m.append(" bytes)");
                m
            },
            FrameError::TooLarge { length } => {
                let mut m = String::from_str("Message too large: ");
                push_decimal(&mut m, *length as u64);
                m.append(" bytes");
                m
            },
            FrameError::IncompletePayload { received, expected } => {
                let mut m = String::from_str("Failed to read message (got ");
                push_decimal(&mut m, *received as u64);
                m.append(" of ");
                push_decimal(&mut m, *expected as u64);
                m.append(" bytes)");
                m
            },
            FrameError::HeaderNotWritten => String::from_str("Failed to write message length"),
            FrameError::PayloadNotWritten => String::from_str("Failed to write message"),
        }
    }
}

/// The four little-endian bytes of `v`.
pub fn u32_le(v: u32) -> (h: [u8; 4])
    ensures
        h@ == le_bytes(v),
{
    let h = [(v & 0xff) as u8, ((v >> 8) & 0xff) as u8, ((v >> 16) & 0xff) as u8, ((v >> 24) & 0xff) as u8];
    assert(h@ =~= le_bytes(v));
    h
}

/// Appends `bytes` to `out`.
pub fn append_bytes(out: &mut Vec<u8>, bytes: &[u8])
    ensures
        final(out)@ == old(out)@ + bytes@,
{
    let ghost start = out@;
    let mut i: usize = 0;
    while i < bytes.len()
        invariant
            i <= bytes@.len(),
            out@ == start + bytes@.subrange(0, i as int),
        decreases bytes@.len() - i,
    {
        out.push(bytes[i]);
        i = i + 1;
        assert(out@ =~= start + bytes@.subrange(0, i as int));
    }
    assert(bytes@.subrange(0, bytes@.len() as int) =~= bytes@);
}

/// The header to send before a payload of `len` bytes.
pub fn encode_length(len: usize) -> (h: [u8; 4])
    ensures
        h@ == frame_header(len),
{
    u32_le(len as u32)
}

/// Reads a header: refuses one that did not arrive whole or that
/// announces more than `MAX_MESSAGE_SIZE` bytes.
pub fn decode_length(received: &[u8]) -> (r: Result<usize, FrameError>)
    ensures
        r == header_result(received@),
{
    if received.len() != 4 {
        return Err(FrameError::IncompleteHeader { received: received.len() });
    }
    let v: u32 = (received[0] as u32) | ((received[1] as u32) << 8u32) | ((received[2] as u32)
        << 16u32) | ((received[3] as u32) << 24u32);
    if v as usize > MAX_MESSAGE_SIZE {
        Err(FrameError::TooLarge { length: v })
    } else {
        Ok(v as usize)
    }
}

/// Four bytes and their value correspond both ways.
pub proof fn lemma_le_roundtrip(v: u32, b0: u8, b1: u8, b2: u8, b3: u8)
    ensures
        header_value(le_bytes(v)) == v,
        le_bytes(le_value(b0, b1, b2, b3)) == seq![b0, b1, b2, b3],
{
    assert(le_value(((v & 0xff) as u8), (((v >> 8) & 0xff) as u8), (((v >> 16) & 0xff) as u8), (((v >> 24) & 0xff) as u8)) == v) by (bit_vector);
    let w = le_value(b0, b1, b2, b3);
    assert(((w & 0xff) as u8) == b0 && (((w >> 8) & 0xff) as u8) == b1 && (((w >> 16) & 0xff) as u8) == b2
        && (((w >> 24) & 0xff) as u8) == b3) by (bit_vector)
        requires
            w == le_value(b0, b1, b2, b3),
    ;
    assert(le_bytes(w) =~= seq![b0, b1, b2, b3]);
}

/// A header that the sender writes for a payload within the limit is read
/// back as that payload's length.
pub proof fn lemma_header_roundtrip(len: usize)
    requires
        len <= MAX_MESSAGE_SIZE,
    ensures
        header_result(frame_header(len)) == Ok::<usize, FrameError>(len),
{
    lemma_le_roundtrip(len as u32, 0, 0, 0, 0);
}

/// Checks that the sender wrote the whole header.
pub fn check_header_written(written: u32) -> (r: Result<(), FrameError>)
    ensures
        r == (if written == 4 { Ok(()) } else { Err(FrameError::HeaderNotWritten) }),
{
    if written == 4 {
        Ok(())
    } else {
        Err(FrameError::HeaderNotWritten)
    }
}

/// Checks that a single write sent the whole payload of `len` bytes (the
/// count is compared with the low 32 bits of `len`, as the pipe reports it).
pub fn check_payload_written(written: u32, len: usize) -> (r: Result<(), FrameError>)
    ensures
        r == (if written == len as u32 {
            Ok(())
        } else {
            Err(FrameError::PayloadNotWritten)
        }),
{
    if written == len as u32 {
        Ok(())
    } else {
        Err(FrameError::PayloadNotWritten)
    }
}

/// Checks that a single read brought the whole payload of `expected` bytes.
pub fn check_payload_read(received: usize, expected: usize) -> (r: Result<(), FrameError>)
    ensures
        r == (if received == expected {
            Ok(())
        } else {
            Err(FrameError::IncompletePayload { received, expected })
        }),
{
    if received == expected {
        Ok(())
    } else {
        Err(FrameError::IncompletePayload { received, expected })
    }
}

/// Gathers the payload of one message from as many reads as it takes.
pub struct FrameReader {
    expected: usize,
    received: Vec<u8>,
}

impl FrameReader {
    /// The payload length that the header announced.
    pub closed spec fn expected(self) -> nat {
        self.expected as nat
    }

    /// The payload bytes gathered so far.
    pub closed spec fn gathered(self) -> Seq<u8> {
        self.received@
    }

    #[verifier::type_invariant]
    spec fn within_announced(self) -> bool {
        &&& self.received@.len() <= self.expected
        &&& self.expected <= MAX_MESSAGE_SIZE
    }

    /// Starts reading a message from its header.
    pub fn from_header(received: &[u8]) -> (r: Result<Self, FrameError>)
        ensures
            match r {
                Ok(reader) => {
                    &&& received@.len() == 4
                    &&& reader.expected() == header_value(received@) as nat
                    &&& header_result(received@) == Ok::<usize, FrameError>(reader.expected() as usize)
                    &&& reader.gathered() == Seq::<u8>::empty()
                },
                Err(e) => header_result(received@) == Err::<usize, FrameError>(e),
            },
    {
        match decode_length(received) {
            Ok(n) => Ok(FrameReader { expected: n, received: Vec::new() }),
            Err(e) => Err(e),
        }
    }

    /// How many payload bytes are still to come.
    pub fn remaining(&self) -> (n: usize)
        ensures
            n == self.expected() - self.gathered().len(),
    {
        proof {
            use_type_invariant(self);
        }
        self.expected - self.received.len()
    }

    /// Whether the whole payload has arrived.
    pub fn is_complete(&self) -> (b: bool)
        ensures
            b == (self.gathered().len() == self.expected()),
    {
        proof {
            use_type_invariant(self);
        }
        self.received.len() == self.expected
    }

    /// Adds the bytes of one read; a read never brings more than remains.
    pub fn accept(&mut self, chunk: &[u8])
        requires
            chunk@.len() <= old(self).expected() - old(self).gathered().len(),
        ensures
            final(self).expected() == old(self).expected(),
            final(self).gathered() == old(self).gathered() + chunk@,
    {
        proof {
            use_type_invariant(&*self);
        }
        let mut buf: Vec<u8> = Vec::new();
        std::mem::swap(&mut buf, &mut self.received);
        append_bytes(&mut buf, chunk);
        self.received = buf;
    }

    /// The payload, once it has arrived whole.
    pub fn into_message(self) -> (m: Vec<u8>)
        requires
            self.gathered().len() == self.expected(),
        ensures
            m@ == self.gathered(),
    {
        self.received
    }
}

/// The bytes of successive reads, in the order they came.
pub open spec fn concat_reads(reads: Seq<Seq<u8>>) -> Seq<u8>
    decreases reads.len(),
{
    if reads.len() == 0 {
        Seq::empty()
    } else {
        concat_reads(reads.drop_last()) + reads.last()
    }
}

/// Each reader is the one before it after `accept` of the next read, as
/// `accept` leaves it.
pub open spec fn readers_follow_reads(reads: Seq<Seq<u8>>, readers: Seq<FrameReader>) -> bool {
    forall|i: int|
        #![trigger reads[i]]
        0 <= i < reads.len() ==> readers[i + 1].expected() == readers[i].expected()
            && readers[i + 1].gathered() == readers[i].gathered() + reads[i]
}

/// The first `k + 1` reads bring what the first `k` brought, then read `k`.
proof fn lemma_concat_reads_step(reads: Seq<Seq<u8>>, k: int)
    requires
        0 <= k < reads.len(),
    ensures
        concat_reads(reads.take(k + 1)) == concat_reads(reads.take(k)) + reads[k],
{
    assert(reads.take(k + 1).drop_last() =~= reads.take(k));
}

/// What the first `k` reads brought begins what all of them brought.
proof fn lemma_concat_reads_prefix(reads: Seq<Seq<u8>>, k: int)
    requires
        0 <= k <= reads.len(),
    ensures
        concat_reads(reads.take(k)).len() <= concat_reads(reads).len(),
        concat_reads(reads).take(concat_reads(reads.take(k)).len() as int) == concat_reads(reads.take(k)),
    decreases reads.len(),
{
    if k == reads.len() {
        assert(reads.take(k) =~= reads);
        assert(concat_reads(reads).take(concat_reads(reads).len() as int) =~= concat_reads(reads));
    } else {
        let rest = reads.drop_last();
        assert(reads.take(k) =~= rest.take(k));
        lemma_concat_reads_prefix(rest, k);
        let n = concat_reads(reads.take(k)).len() as int;
        assert(concat_reads(reads).take(n) =~= concat_reads(rest).take(n));
    }
}

/// Readers that follow one another by `accept` over the reads keep the
/// announced length and hold what the reads brought so far.
proof fn lemma_readers_follow(reads: Seq<Seq<u8>>, readers: Seq<FrameReader>, k: int)
    requires
        readers.len() == reads.len() + 1,
        readers[0].gathered() == Seq::<u8>::empty(),
        readers_follow_reads(reads, readers),
        0 <= k <= reads.len(),
    ensures
        readers[k].expected() == readers[0].expected(),
        readers[k].gathered() == concat_reads(reads.take(k)),
    decreases k,
{
    if k == 0 {
        assert(reads.take(0) =~= Seq::<Seq<u8>>::empty());
    } else {
        lemma_readers_follow(reads, readers, k - 1);
        lemma_concat_reads_step(reads, k - 1);
        let _ = reads[k - 1];
    }
}

/// Reading back a framed message, however its payload is split across
/// reads: the header written for a payload within the limit is accepted
/// with the payload's length; a reader started from it and given the reads
/// in order, as `accept` leaves it after each, can take every read, holds a
/// beginning of the payload all along, and ends complete with the payload.
pub proof fn lemma_frame_read_roundtrip(payload: Seq<u8>, reads: Seq<Seq<u8>>, readers: Seq<FrameReader>)
    requires
        payload.len() <= MAX_MESSAGE_SIZE,
        concat_reads(reads) == payload,
        readers.len() == reads.len() + 1,
        readers[0].expected() == payload.len(),
        readers[0].gathered() == Seq::<u8>::empty(),
        readers_follow_reads(reads, readers),
    ensures
        header_result(frame_header(payload.len() as usize)) == Ok::<usize, FrameError>(payload.len() as usize),
        forall|i: int|
            #![trigger reads[i]]
            0 <= i < reads.len() ==> reads[i].len() <= readers[i].expected() - readers[i].gathered().len(),
        forall|i: int|
            0 <= i <= reads.len() ==> #[trigger] readers[i].gathered() == payload.take(
                readers[i].gathered().len() as int,
            ),
        readers.last().expected() == payload.len(),
        readers.last().gathered() == payload,
{
    lemma_header_roundtrip(payload.len() as usize);
    assert forall|i: int|
        #![trigger reads[i]]
        0 <= i < reads.len() implies reads[i].len() <= readers[i].expected() - readers[i].gathered().len() by {
        lemma_readers_follow(reads, readers, i);
        lemma_concat_reads_step(reads, i);
        lemma_concat_reads_prefix(reads, i + 1);
    }
    assert forall|i: int|
        0 <= i <= reads.len() implies #[trigger] readers[i].gathered() == payload.take(
            readers[i].gathered().len() as int,
        ) by {
        lemma_readers_follow(reads, readers, i);
        lemma_concat_reads_prefix(reads, i);
    }
    lemma_readers_follow(reads, readers, reads.len() as int);
    assert(reads.take(reads.len() as int) =~= reads);
}

} // verus!
