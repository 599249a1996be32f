//! Length-prefixed framing of messages on a byte stream.
//!
//! A message of `n > 0` bytes travels as the eight little-endian bytes of `n`
//! followed by the `n` payload bytes. An empty message is never sent. Both
//! directions move at most [`CHUNK_SIZE`] payload bytes per transfer.
//!
//! The two endpoints here are decision machines: [`FrameWriter`] says which
//! bytes to hand to the next raw write and [`FrameReader`] how many bytes the
//! next raw read may take. Whoever drives them performs the transfers.
use vstd::bytes::{
    lemma_auto_spec_u64_to_from_le_bytes, spec_u64_from_le_bytes, spec_u64_to_le_bytes,
    u64_from_le_bytes, u64_to_le_bytes,
};
use vstd::prelude::*;
use vstd::slice::slice_subrange;

verus! {

/// Number of bytes of the length prefix.
pub const PREFIX_LEN: usize = 8;

/// Largest number of payload bytes moved by one transfer (16 MiB).
pub const CHUNK_SIZE: usize = 16777216;

/// The length prefix of a payload of `n` bytes.
pub open spec fn len_prefix(n: nat) -> Seq<u8> {
    spec_u64_to_le_bytes(n as u64)
}

/// The payload length that a full prefix announces.
pub open spec fn announced_len(prefix: Seq<u8>) -> nat {
    spec_u64_from_le_bytes(prefix) as nat
}

/// The bytes that carry message `m` on the wire; nothing for an empty message.
pub open spec fn frame(m: Seq<u8>) -> Seq<u8> {
    if m.len() == 0 {
        Seq::empty()
    } else {
        len_prefix(m.len()) + m
    }
}

/// The bytes that carry messages `ms`, one after the other.
pub open spec fn frames(ms: Seq<Seq<u8>>) -> Seq<u8>
    decreases ms.len(),
{
    if ms.len() == 0 {
        Seq::empty()
    } else {
        frame(ms[0]) + frames(ms.drop_first())
    }
}

/// One framed read off the front of `stream`: the payload of the first frame
/// and what follows it, or `None` while the frame is not all there.
pub open spec fn read_frame(stream: Seq<u8>) -> Option<(Seq<u8>, Seq<u8>)> {
    if stream.len() < PREFIX_LEN {
        None
    } else {
        let n = announced_len(stream.take(PREFIX_LEN as int)) as int;
        if stream.len() < PREFIX_LEN + n {
            None
        } else {
            Some((stream.subrange(PREFIX_LEN as int, PREFIX_LEN + n), stream.skip(PREFIX_LEN + n)))
        }
    }
}

/// `k` framed reads, one after the other, off the front of `stream`.
pub open spec fn read_frames(stream: Seq<u8>, k: nat) -> Option<(Seq<Seq<u8>>, Seq<u8>)>
    decreases k,
{
    if k == 0 {
        Some((Seq::empty(), stream))
    } else {
        match read_frame(stream) {
            None => None,
            Some((m, rest)) => match read_frames(rest, (k - 1) as nat) {
                None => None,
                Some((ms, tail)) => Some((seq![m] + ms, tail)),
            },
        }
    }
}

/// A prefix is eight bytes long and announces the length it was made from.
pub proof fn lemma_len_prefix(n: nat)
    requires
        n <= u64::MAX,
    ensures
        len_prefix(n).len() == PREFIX_LEN,
        announced_len(len_prefix(n)) == n,
{
    lemma_auto_spec_u64_to_from_le_bytes();
}

/// The frame of a message is its prefix and its bytes, or nothing at all.
pub proof fn lemma_frame_len(m: Seq<u8>)
    requires
        m.len() <= u64::MAX,
    ensures
        frame(m).len() == if m.len() == 0 { 0 } else { PREFIX_LEN + m.len() },
{
    lemma_len_prefix(m.len());
}

pub open spec fn min_nat(a: nat, b: nat) -> nat {
    if a <= b {
        a
    } else {
        b
    }
}

/// How many bytes the writer of a `len`-byte payload hands over next, once
/// `pos` bytes of the frame are gone: the rest of the prefix, else the rest
/// of the payload up to one chunk.
pub open spec fn piece_len(len: nat, pos: nat) -> nat {
    if pos < PREFIX_LEN {
        (PREFIX_LEN - pos) as nat
    } else {
        min_nat((PREFIX_LEN + len - pos) as nat, CHUNK_SIZE as nat)
    }
}

/// Sends one message: yields the pieces of its frame in order.
pub struct FrameWriter<'a> {
    payload: &'a [u8],
    prefix: Vec<u8>,
    pos: usize,
}

impl<'a> FrameWriter<'a> {
    /// The payload being sent.
    pub closed spec fn payload(&self) -> Seq<u8> {
        self.payload@
    }

    /// How many bytes of the frame have been handed over.
    pub closed spec fn position(&self) -> nat {
        self.pos as nat
    }

    /// The whole frame being sent.
    pub open spec fn frame_bytes(&self) -> Seq<u8> {
        frame(self.payload())
    }

    pub open spec fn done(&self) -> bool {
        self.position() == self.frame_bytes().len()
    }

    pub closed spec fn wf(&self) -> bool {
        &&& self.prefix@ == len_prefix(self.payload@.len())
        &&& self.payload@.len() <= u64::MAX
        &&& self.payload@.len() + PREFIX_LEN <= usize::MAX
        &&& self.pos <= frame(self.payload@).len()
    }

    /// Starts sending `payload`. An empty payload leaves nothing to send.
    pub fn new(payload: &'a [u8]) -> (w: FrameWriter<'a>)
        requires
            payload@.len() <= u64::MAX,
            payload@.len() + PREFIX_LEN <= usize::MAX,
        ensures
            w.wf(),
            w.payload() == payload@,
            w.position() == 0,
            w.done() == (payload@.len() == 0),
    {
        proof {
            lemma_frame_len(payload@);
        }
        FrameWriter { payload, prefix: u64_to_le_bytes(payload.len() as u64), pos: 0 }
    }

    /// Whether every byte of the frame has been handed over.
    pub fn is_done(&self) -> (r: bool)
        requires
            self.wf(),
        ensures
            r == self.done(),
    {
        proof {
            lemma_frame_len(self.payload@);
        }
        if self.payload.len() == 0 {
            true
        } else {
            self.pos == PREFIX_LEN + self.payload.len()
        }
    }

    /// The bytes that the next raw write should send.
    pub fn next_piece(&self) -> (r: &[u8])
        requires
            self.wf(),
            !self.done(),
        ensures
            r@.len() == piece_len(self.payload().len(), self.position()),
            r@ == self.frame_bytes().subrange(
                self.position() as int,
                (self.position() + piece_len(self.payload().len(), self.position())) as int,
            ),
    {
        let ghost f = frame(self.payload@);
        proof {
            lemma_frame_len(self.payload@);
            lemma_len_prefix(self.payload@.len());
        }
        if self.pos < PREFIX_LEN {
            let r = slice_subrange(self.prefix.as_slice(), self.pos, PREFIX_LEN);
            assert(r@ =~= f.subrange(self.pos as int, PREFIX_LEN as int));
            r
        } else {
            let start = self.pos - PREFIX_LEN;
            let remaining = self.payload.len() - start;
            let n = if remaining <= CHUNK_SIZE {
                remaining
            } else {
                CHUNK_SIZE
            };
            let r = slice_subrange(self.payload, start, start + n);
            assert(r@ =~= f.subrange(self.pos as int, self.pos + n));
            r
        }
    }

    /// Records that the last raw write sent the first `n` bytes of the piece.
    pub fn advance(&mut self, n: usize)
        requires
            old(self).wf(),
            !old(self).done(),
            n <= piece_len(old(self).payload().len(), old(self).position()),
        ensures
            final(self).wf(),
            final(self).payload() == old(self).payload(),
            final(self).position() == old(self).position() + n,
    {
        proof {
            lemma_frame_len(self.payload@);
        }
        self.pos = self.pos + n;
    }
}

/// Whether a reader that has taken `c` off the stream holds a whole frame.
pub open spec fn frame_complete(c: Seq<u8>) -> bool {
    c.len() >= PREFIX_LEN && c.len() == PREFIX_LEN + announced_len(c.take(PREFIX_LEN as int))
}

/// A reader never takes bytes past the end of the frame it reads.
pub open spec fn within_frame(c: Seq<u8>) -> bool {
    c.len() <= PREFIX_LEN || c.len() <= PREFIX_LEN + announced_len(c.take(PREFIX_LEN as int))
}

/// How many bytes a reader that has taken `c` asks of the next raw read:
/// the rest of the prefix, else the rest of the payload up to one chunk.
pub open spec fn wanted_after(c: Seq<u8>) -> nat {
    if c.len() < PREFIX_LEN {
        (PREFIX_LEN - c.len()) as nat
    } else {
        min_nat(
            (PREFIX_LEN + announced_len(c.take(PREFIX_LEN as int)) - c.len()) as nat,
            CHUNK_SIZE as nat,
        )
    }
}

/// Receives one message, whatever pieces the raw reads deliver it in.
pub struct FrameReader {
    prefix: Vec<u8>,
    len: u64,
    data: Vec<u8>,
    consumed: Ghost<Seq<u8>>,
}

impl FrameReader {
    /// Every byte taken off the stream so far, in order.
    pub closed spec fn consumed(&self) -> Seq<u8> {
        self.consumed@
    }

    pub open spec fn complete(&self) -> bool {
        frame_complete(self.consumed())
    }

    pub closed spec fn wf(&self) -> bool {
        &&& self.prefix@.len() <= PREFIX_LEN
        &&& self.prefix@.len() < PREFIX_LEN ==> self.data@.len() == 0 && self.consumed@
            == self.prefix@
        &&& self.prefix@.len() == PREFIX_LEN ==> {
            &&& self.len == spec_u64_from_le_bytes(self.prefix@)
            &&& self.data@.len() <= self.len
            &&& self.consumed@ == self.prefix@ + self.data@
        }
        &&& within_frame(self.consumed@)
    }

    /// A reader that has taken nothing yet.
    pub fn new() -> (r: FrameReader)
        ensures
            r.wf(),
            r.consumed() == Seq::<u8>::empty(),
    {
        FrameReader { prefix: Vec::new(), len: 0, data: Vec::new(), consumed: Ghost(Seq::empty()) }
    }

    /// How many bytes the next raw read may take; zero once the frame is whole.
    pub fn wanted(&self) -> (r: usize)
        requires
            self.wf(),
        ensures
            r == wanted_after(self.consumed()),
            r == 0 <==> self.complete(),
    {
        proof {
            assert(self.prefix@.len() == PREFIX_LEN ==> self.consumed@.take(PREFIX_LEN as int)
                =~= self.prefix@);
        }
        if self.prefix.len() < PREFIX_LEN {
            PREFIX_LEN - self.prefix.len()
        } else {
            let remaining = self.len - self.data.len() as u64;
            if remaining <= CHUNK_SIZE as u64 {
                remaining as usize
            } else {
                CHUNK_SIZE
            }
        }
    }

    /// Whether the whole frame has been taken.
    pub fn is_complete(&self) -> (r: bool)
        requires
            self.wf(),
        ensures
            r == self.complete(),
    {
        self.wanted() == 0
    }

    /// Takes the bytes that the last raw read delivered.
    pub fn accept(&mut self, bytes: &[u8])
        requires
            old(self).wf(),
            bytes@.len() <= wanted_after(old(self).consumed()),
        ensures
            final(self).wf(),
            final(self).consumed() == old(self).consumed() + bytes@,
    {
        let ghost c0 = self.consumed@;
        proof {
            assert(self.prefix@.len() == PREFIX_LEN ==> c0.take(PREFIX_LEN as int)
                =~= self.prefix@);
        }
        if self.prefix.len() < PREFIX_LEN {
            self.prefix.extend_from_slice(bytes);
            if self.prefix.len() == PREFIX_LEN {
                self.len = u64_from_le_bytes(self.prefix.as_slice());
            }
        } else {
            self.data.extend_from_slice(bytes);
        }
        self.consumed = Ghost(c0 + bytes@);
        proof {
            assert(self.prefix@.len() < PREFIX_LEN ==> self.consumed@ =~= self.prefix@);
            assert(self.prefix@.len() == PREFIX_LEN ==> self.consumed@ =~= self.prefix@
                + self.data@);
            assert(self.prefix@.len() == PREFIX_LEN ==> self.consumed@.take(PREFIX_LEN as int)
                =~= self.prefix@);
        }
    }

    /// The payload of the whole frame.
    pub fn into_message(self) -> (m: Vec<u8>)
        requires
            self.wf(),
            self.complete(),
        ensures
            m@ == self.consumed().skip(PREFIX_LEN as int),
    {
        proof {
            assert(self.consumed@.skip(PREFIX_LEN as int) =~= self.data@);
        }
        self.data
    }
}

/// The first framed read of a stream that starts with the frame of a non-empty
/// message `m` yields `m` and leaves the bytes after the frame.
pub proof fn lemma_frame_round_trip(m: Seq<u8>, rest: Seq<u8>)
    requires
        1 <= m.len() <= u64::MAX,
    ensures
        read_frame(frame(m) + rest) == Some((m, rest)),
{
    lemma_len_prefix(m.len());
    let s = frame(m) + rest;
    assert(s.take(PREFIX_LEN as int) =~= len_prefix(m.len()));
    assert(s.subrange(PREFIX_LEN as int, PREFIX_LEN + m.len()) =~= m);
    assert(s.skip(PREFIX_LEN + m.len()) =~= rest);
}

/// A reader that has taken a whole frame off the front of stream `s` holds
/// exactly the first framed read of `s`, and has taken nothing past it.
pub proof fn lemma_reader_reads_frame(c: Seq<u8>, s: Seq<u8>)
    requires
        c.len() <= s.len(),
        c == s.take(c.len() as int),
        frame_complete(c),
    ensures
        read_frame(s) == Some((c.skip(PREFIX_LEN as int), s.skip(c.len() as int))),
{
    assert(c.take(PREFIX_LEN as int) =~= s.take(PREFIX_LEN as int));
    assert(c.skip(PREFIX_LEN as int) =~= s.subrange(PREFIX_LEN as int, c.len() as int));
}

/// Round trip: whatever pieces a framed write of a non-empty message `m` is
/// read back in, the reader completes holding exactly the frame of `m`, and
/// hands out `m`; the bytes after the frame stay for the next read.
pub proof fn lemma_read_after_write(m: Seq<u8>, rest: Seq<u8>, c: Seq<u8>)
    requires
        1 <= m.len() <= u64::MAX,
        c.len() <= (frame(m) + rest).len(),
        c == (frame(m) + rest).take(c.len() as int),
        frame_complete(c),
    ensures
        c == frame(m),
        c.skip(PREFIX_LEN as int) == m,
{
    let s = frame(m) + rest;
    lemma_frame_round_trip(m, rest);
    lemma_reader_reads_frame(c, s);
    lemma_frame_len(m);
    assert(c =~= frame(m));
}

/// A reader facing the frame of a non-empty message `m` keeps asking for at
/// least one byte, and never for a byte past the frame, until it holds the
/// whole frame; then it is complete.
pub proof fn lemma_reader_progress(m: Seq<u8>, c: Seq<u8>)
    requires
        1 <= m.len() <= u64::MAX,
        c.len() <= frame(m).len(),
        c == frame(m).take(c.len() as int),
    ensures
        c.len() < frame(m).len() ==> !frame_complete(c) && 1 <= wanted_after(c) <= frame(m).len()
            - c.len(),
        c.len() == frame(m).len() ==> frame_complete(c),
{
    lemma_frame_len(m);
    lemma_len_prefix(m.len());
    if c.len() >= PREFIX_LEN {
        assert(c.take(PREFIX_LEN as int) =~= len_prefix(m.len()));
    }
}

/// Successive framed reads of the frames of non-empty messages `ms` return
/// those messages in the order they were written.
pub proof fn lemma_reads_in_order(ms: Seq<Seq<u8>>, rest: Seq<u8>)
    requires
        forall|i: int| 0 <= i < ms.len() ==> 1 <= #[trigger] ms[i].len() <= u64::MAX,
    ensures
        read_frames(frames(ms) + rest, ms.len()) == Some((ms, rest)),
    decreases ms.len(),
{
    if ms.len() > 0 {
        let tail = ms.drop_first();
        assert forall|i: int| 0 <= i < tail.len() implies 1 <= #[trigger] tail[i].len()
            <= u64::MAX by {
            assert(tail[i] == ms[i + 1]);
        }
        lemma_reads_in_order(tail, rest);
        assert(frames(ms) + rest =~= frame(ms[0]) + (frames(tail) + rest));
        lemma_frame_round_trip(ms[0], frames(tail) + rest);
        assert(seq![ms[0]] + tail =~= ms);
    }
}

/// An empty message puts nothing on the wire, so the messages around it are
/// read as if it had never been written, and a reader facing no bytes still
/// waits for a prefix.
pub proof fn lemma_empty_message_sends_nothing(before: Seq<Seq<u8>>, after: Seq<Seq<u8>>)
    ensures
        frame(Seq::<u8>::empty()) == Seq::<u8>::empty(),
        frames(before + seq![Seq::<u8>::empty()] + after) == frames(before + after),
        !frame_complete(Seq::<u8>::empty()),
        wanted_after(Seq::<u8>::empty()) == PREFIX_LEN,
    decreases before.len(),
{
    if before.len() == 0 {
        assert(before + seq![Seq::<u8>::empty()] + after =~= seq![Seq::<u8>::empty()] + after);
        assert((seq![Seq::<u8>::empty()] + after).drop_first() =~= after);
        assert(before + after =~= after);
        assert(frames(before + seq![Seq::<u8>::empty()] + after) =~= frames(after));
    } else {
        let b = before.drop_first();
        lemma_empty_message_sends_nothing(b, after);
        assert((before + seq![Seq::<u8>::empty()] + after).drop_first() =~= b + seq![
            Seq::<u8>::empty(),
        ] + after);
        assert((before + after).drop_first() =~= b + after);
    }
}

/// A payload of at most one chunk leaves the writer as a single piece once the
/// prefix is out, and the reader asks for all of it at once; a larger one
/// takes one full chunk first and at least one more piece after it.
pub proof fn lemma_chunk_boundary(len: nat)
    requires
        1 <= len <= u64::MAX,
    ensures
        (piece_len(len, PREFIX_LEN as nat) == len) == (len <= CHUNK_SIZE),
        wanted_after(len_prefix(len)) == piece_len(len, PREFIX_LEN as nat),
        len > CHUNK_SIZE ==> piece_len(len, PREFIX_LEN as nat) == CHUNK_SIZE && piece_len(
            len,
            (PREFIX_LEN + CHUNK_SIZE) as nat,
        ) >= 1,
{
    lemma_len_prefix(len);
    assert(len_prefix(len).take(PREFIX_LEN as int) =~= len_prefix(len));
}

} // verus!
