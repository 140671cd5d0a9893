//! Chunk-by-chunk assembly of one complete wire frame.
//!
//! A byte-oriented transport may deliver a frame in pieces of any size.
//! The assembler appends each chunk to an accumulation buffer bounded to
//! the largest possible wire frame (522 bytes: twice the 260-byte
//! worst-case body plus the two delimiters) and watches the last byte of
//! the chunk just read for the closing delimiter.  It interprets nothing
//! else: once a boundary is found, the accumulated bytes go to the frame
//! decoder whole.

use vstd::prelude::*;

use crate::frame::FrameError;
use crate::shdlc::lemma_stuff_len;
use crate::shdlc::lemma_stuff_no_delimiter;
use crate::shdlc::wire_encoding;
use crate::shdlc::START_STOP;

verus! {

/// The accumulation buffer may never outgrow the largest possible wire
/// frame.
pub const MAX_FRAME_LEN: usize = 522;

/// What feeding one chunk to the assembler established.
#[derive(Debug, Clone, Copy, PartialEq, Eq, Structural)]
pub enum AssemblerStep {
    /// No frame boundary yet; read another chunk.
    NeedMore,
    /// The chunk just read ended a complete frame.
    Complete,
}

/// True when the bytes accumulated so far end a frame: the chunk just
/// read stopped at a delimiter byte, and at least one byte of content
/// stands between the opening delimiter and it.  The length bound keeps
/// a lone opening delimiter, or an empty exchange, from being taken for
/// a whole frame.
pub open spec fn assembly_complete(buf: Seq<u8>) -> bool {
    buf.len() >= 3 && buf.last() == START_STOP
}

/// Accumulates raw transport bytes until one complete frame has been
/// seen.
pub struct FrameAssembler {
    buf: Vec<u8>,
}

impl FrameAssembler {
    /// The bytes accumulated so far.
    pub closed spec fn spec_buf(self) -> Seq<u8> {
        self.buf@
    }

    /// The buffer stays within the hard frame-size bound.
    pub open spec fn wf(self) -> bool {
        self.spec_buf().len() <= 522
    }

    /// An empty assembler, ready for the first chunk of a frame.
    pub fn new() -> (r: Self)
        ensures
            r.wf(),
            r.spec_buf() == Seq::<u8>::empty(),
    {
        FrameAssembler { buf: Vec::new() }
    }

    /// The number of bytes accumulated so far.
    pub fn len(&self) -> (r: usize)
        ensures
            r == self.spec_buf().len(),
    {
        self.buf.len()
    }

    /// Feeds the chunk a transport read just delivered.  An empty read,
    /// or a chunk that would push the buffer past the frame-size bound,
    /// is a fatal capacity failure and leaves the buffer untouched:
    /// either almost certainly means a missing terminator or a
    /// desynchronized transport, and aborting beats reading forever.
    /// Otherwise the chunk is appended whole, and the result says
    /// whether its last byte closed the frame.
    pub fn push_chunk(&mut self, chunk: &[u8]) -> (r: Result<AssemblerStep, FrameError>)
        requires
            old(self).wf(),
        ensures
            final(self).wf(),
            match r {
                Ok(step) => {
                    &&& chunk@.len() > 0
                    &&& old(self).spec_buf().len() + chunk@.len() <= 522
                    &&& final(self).spec_buf() == old(self).spec_buf() + chunk@
                    &&& step == (if assembly_complete(final(self).spec_buf()) {
                        AssemblerStep::Complete
                    } else {
                        AssemblerStep::NeedMore
                    })
                },
                Err(e) => {
                    &&& e == FrameError::CapacityExceeded
                    &&& chunk@.len() == 0 || old(self).spec_buf().len() + chunk@.len() > 522
                    &&& final(self).spec_buf() == old(self).spec_buf()
                },
            },
    {
        if chunk.len() == 0 {
            return Err(FrameError::CapacityExceeded);
        }
        if chunk.len() > MAX_FRAME_LEN - self.buf.len() {
            return Err(FrameError::CapacityExceeded);
        }

        let mut i: usize = 0;
        while i < chunk.len()
            invariant
                i <= chunk@.len(),
                self.buf@ == old(self).spec_buf() + chunk@.take(i as int),
                self.buf@.len() <= 522,
                old(self).spec_buf().len() + chunk@.len() <= 522,
            decreases chunk@.len() - i,
        {
            self.buf.push(chunk[i]);
            proof {
                assert(chunk@.take(i + 1) =~= chunk@.take(i as int).push(chunk@[i as int]));
                assert(self.buf@ =~= old(self).spec_buf() + chunk@.take(i + 1));
            }
            i = i + 1;
        }
        proof {
            assert(chunk@.take(chunk@.len() as int) =~= chunk@);
        }

        if self.buf.len() >= 3 && self.buf[self.buf.len() - 1] == START_STOP {
            Ok(AssemblerStep::Complete)
        } else {
            Ok(AssemblerStep::NeedMore)
        }
    }

    /// Hands the accumulated frame bytes over, ready for the decoder.
    pub fn into_bytes(self) -> (r: Vec<u8>)
        ensures
            r@ == self.spec_buf(),
    {
        self.buf
    }
}

/// The shape of one whole wire frame as the encoder emits it: a
/// delimiter at each end and none anywhere between.
pub open spec fn wire_frame_shaped(w: Seq<u8>) -> bool {
    &&& w.len() >= 3
    &&& w[0] == START_STOP
    &&& w.last() == START_STOP
    &&& forall|i: int| 1 <= i < w.len() - 1 ==> w[i] != START_STOP
}

/// Everything the frame encoder emits has the shape the assembler's
/// boundary rule counts on: a delimiter at each end, none in the
/// interior, and at least one byte between the two.
pub proof fn lemma_wire_encoding_shaped(body: Seq<u8>)
    ensures
        wire_frame_shaped(wire_encoding(body)),
{
    let stuffed = crate::shdlc::stuff_seq(body.push(crate::shdlc::checksum_spec(body)));
    lemma_stuff_len(body.push(crate::shdlc::checksum_spec(body)));
    lemma_stuff_no_delimiter(body.push(crate::shdlc::checksum_spec(body)));
    assert(wire_encoding(body).len() == stuffed.len() + 2);
    assert forall|i: int| 1 <= i < wire_encoding(body).len() - 1 implies wire_encoding(body)[i]
        != START_STOP by {
        assert(wire_encoding(body)[i] == stuffed[i - 1]);
    }
}

/// Chunking invariance of the assembler: a correctly delimited frame
/// split across three chunks of any sizes completes exactly at the third
/// chunk, never earlier, so the accumulated bytes equal the frame fed in
/// one piece.  This holds even when a split lands in the middle of an
/// escape sequence, since completion looks only at the final byte.
pub proof fn lemma_three_chunk_assembly(c1: Seq<u8>, c2: Seq<u8>, c3: Seq<u8>)
    requires
        wire_frame_shaped(c1 + c2 + c3),
        c1.len() > 0,
        c2.len() > 0,
        c3.len() > 0,
    ensures
        !assembly_complete(c1),
        !assembly_complete(c1 + c2),
        assembly_complete(c1 + c2 + c3),
{
    let w = c1 + c2 + c3;
    assert(c1.last() == w[c1.len() - 1]);
    assert((c1 + c2).last() == w[c1.len() + c2.len() - 1]);
    assert(w.last() == START_STOP);
    if c1.len() >= 3 {
        assert(c1.last() != START_STOP);
    }
    if c1.len() + c2.len() >= 3 {
        assert((c1 + c2).last() != START_STOP);
    }
}

} // verus!
