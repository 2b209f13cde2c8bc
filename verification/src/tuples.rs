//! Parsing the tone-tuple transport stream.
//!
//! The transport is a byte stream holding consecutive pairs of little-endian
//! 32-bit words: first the bit pattern of a frequency, then of a duration.
//! The parser walks a byte buffer — typically everything read from standard
//! input — and hands each pair out as the raw 32-bit patterns; reinterpreting
//! them as IEEE-754 values is the caller's business.  End of input is clean
//! only on a pair boundary; a stream that ends anywhere inside a pair is
//! truncated.

use vstd::prelude::*;

verus! {

/// What one read from the tuple stream yields.
#[derive(Clone, Copy, Debug, PartialEq, Eq, Structural)]
pub enum TupleRead {
    /// A full pair: the frequency word, then the duration word.
    Pair(u32, u32),
    /// The stream ended cleanly on a pair boundary.
    EndOfStream,
    /// The stream ended inside a pair: a malformed transport.
    Truncated,
}

/// The little-endian 32-bit word at offset `off` of a byte sequence.
pub open spec fn spec_le_u32(b: Seq<u8>, off: int) -> int {
    b[off] + 0x100 * b[off + 1] + 0x1_0000 * b[off + 2] + 0x100_0000 * b[off + 3]
}

/// A cursor over a buffered tone-tuple stream, as fed from standard input.
pub struct DualFloatTupleStdin {
    /// The buffered bytes of the stream.
    pub data: Vec<u8>,
    /// How many bytes have been consumed; never past the end.
    pub pos: usize,
}

impl DualFloatTupleStdin {
    /// The cursor stands somewhere inside the buffer.
    pub open spec fn wf(self) -> bool {
        self.pos <= self.data@.len()
    }

    /// A cursor at the start of the given stream bytes.
    pub fn new(data: Vec<u8>) -> (r: DualFloatTupleStdin)
        ensures
            r.wf(),
            r.data@ == data@,
            r.pos == 0,
    {
        DualFloatTupleStdin { data, pos: 0 }
    }

    /// The little-endian word at byte offset `off`.
    fn read_le_u32(&self, off: usize) -> (r: u32)
        requires
            off + 4 <= self.data@.len(),
        ensures
            r as int == spec_le_u32(self.data@, off as int),
    {
        let n: usize = self.data.len();
        assert(off + 4 <= n);
        (self.data[off] as u32) + 0x100 * (self.data[off + 1] as u32) + 0x1_0000 * (self.data[off
            + 2] as u32) + 0x100_0000 * (self.data[off + 3] as u32)
    }

    /// Reads the next (frequency, duration) pair.  With eight or more bytes
    /// left it yields the pair and advances; on a pair boundary at the end it
    /// yields a clean end of stream; with one to seven bytes left the
    /// transport is truncated.  Only a full pair moves the cursor.
    pub fn next(&mut self) -> (r: TupleRead)
        requires
            old(self).wf(),
        ensures
            final(self).wf(),
            final(self).data == old(self).data,
            old(self).data@.len() - old(self).pos >= 8 ==> {
                &&& final(self).pos == old(self).pos + 8
                &&& (r matches TupleRead::Pair(f, d) && f as int == spec_le_u32(
                    old(self).data@,
                    old(self).pos as int,
                ) && d as int == spec_le_u32(old(self).data@, old(self).pos + 4))
            },
            old(self).data@.len() == old(self).pos ==> r == TupleRead::EndOfStream
                && final(self).pos == old(self).pos,
            0 < old(self).data@.len() - old(self).pos < 8 ==> r == TupleRead::Truncated
                && final(self).pos == old(self).pos,
    {
        let remaining: usize = self.data.len() - self.pos;
        if remaining == 0 {
            TupleRead::EndOfStream
        } else if remaining < 8 {
            TupleRead::Truncated
        } else {
            let f = self.read_le_u32(self.pos);
            let d = self.read_le_u32(self.pos + 4);
            self.pos = self.pos + 8;
            TupleRead::Pair(f, d)
        }
    }
}

} // verus!
