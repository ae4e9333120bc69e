//! A readable byte stream: the input that every decoder consumes.
//!
//! The cursor owns the raw bytes of a MIDI file and a read position.
//! Decoders take the cursor by mutable reference and advance the
//! position; running out of bytes is the stream-exhaustion outcome
//! that the decoders report as their IO-kind error.

use vstd::prelude::*;

verus! {

/// A byte buffer with a read position.
pub struct ByteCursor {
    data: Vec<u8>,
    pos: usize,
}

impl ByteCursor {
    /// The whole underlying byte sequence.
    pub closed spec fn data_seq(&self) -> Seq<u8> {
        self.data@
    }

    /// The current read position.
    pub closed spec fn pos_int(&self) -> int {
        self.pos as int
    }

    /// The position never runs past the end of the data.
    pub open spec fn wf(&self) -> bool {
        0 <= self.pos_int() <= self.data_seq().len()
    }

    /// The bytes that remain to be read.
    pub open spec fn remaining(&self) -> Seq<u8> {
        self.data_seq().subrange(self.pos_int(), self.data_seq().len() as int)
    }

    pub fn new(data: Vec<u8>) -> (c: Self)
        ensures
            c.wf(),
            c.data_seq() == data@,
            c.pos_int() == 0,
    {
        ByteCursor { data, pos: 0 }
    }

    /// How many bytes remain to be read.
    pub fn remaining_len(&self) -> (n: usize)
        requires
            self.wf(),
        ensures
            n == self.remaining().len(),
    {
        self.data.len() - self.pos
    }

    /// Read one byte, or report stream exhaustion.
    pub fn read_byte(&mut self) -> (r: Option<u8>)
        requires
            old(self).wf(),
        ensures
            final(self).wf(),
            final(self).data_seq() == old(self).data_seq(),
            match r {
                Some(b) => old(self).remaining().len() > 0 && b == old(self).remaining()[0]
                    && final(self).pos_int() == old(self).pos_int() + 1
                    && final(self).remaining() == old(self).remaining().skip(1),
                None => old(self).remaining().len() == 0 && final(self).pos_int() == old(self).pos_int(),
            },
    {
        if self.pos < self.data.len() {
            let b = self.data[self.pos];
            self.pos = self.pos + 1;
            Some(b)
        } else {
            None
        }
    }

    /// Read exactly `n` bytes, or report stream exhaustion; on exhaustion
    /// the position does not move.
    pub fn read_bytes(&mut self, n: usize) -> (r: Option<Vec<u8>>)
        requires
            old(self).wf(),
        ensures
            final(self).wf(),
            final(self).data_seq() == old(self).data_seq(),
            match r {
                Some(bytes) => old(self).remaining().len() >= n
                    && bytes@ == old(self).remaining().subrange(0, n as int)
                    && final(self).pos_int() == old(self).pos_int() + n
                    && final(self).remaining() == old(self).remaining().skip(n as int),
                None => old(self).remaining().len() < n && final(self).pos_int() == old(self).pos_int(),
            },
    {
        if n > self.data.len() - self.pos {
            return None;
        }
        let mut bytes: Vec<u8> = Vec::new();
        let mut i: usize = 0;
        while i < n
            invariant
                i <= n,
                self.pos + n <= self.data.len(),
                bytes@ == self.data@.subrange(self.pos as int, self.pos + i as int),
            decreases n - i,
        {
            bytes.push(self.data[self.pos + i]);
            assert(bytes@ == self.data@.subrange(self.pos as int, self.pos + (i + 1) as int));
            i = i + 1;
        }
        self.pos = self.pos + n;
        assert(bytes@ == old(self).remaining().subrange(0, n as int));
        Some(bytes)
    }
}

/// An owned copy of a byte vector, element for element.
pub fn copy_bytes(v: &Vec<u8>) -> (r: Vec<u8>)
    ensures
        r@ == v@,
{
    let mut r: Vec<u8> = Vec::new();
    let mut i: usize = 0;
    while i < v.len()
        invariant
            i <= v.len(),
            r@ == v@.subrange(0, i as int),
        decreases v.len() - i,
    {
        r.push(v[i]);
        assert(r@ == v@.subrange(0, (i + 1) as int));
        i = i + 1;
    }
    assert(r@ == v@);
    r
}

} // verus!
