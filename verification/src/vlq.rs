//! Variable Length Quantity: an unsigned integer stored as big-endian
//! 7-bit groups, with the high bit of each byte signalling continuation.
//!
//! Two decoders: a bounded one that fails once the value would exceed
//! `0x0FFFFFFF` (the largest value the MIDI format allows), and an
//! unbounded one that accumulates into a 64-bit word, truncating.

use vstd::prelude::*;

use crate::cursor::ByteCursor;

verus! {

/// How a VLQ decode can end.
#[derive(Debug, PartialEq, Eq, Structural, Clone, Copy)]
pub enum VlqError {
    /// The stream ran out before a terminating byte was seen.
    IOError,
    /// The accumulated value exceeded `0x0FFFFFFF`.
    TooLarge,
}

/// Result of decoding a bounded VLQ from the front of a byte sequence:
/// the value and the number of bytes it occupied, or the failure.
pub enum VlqParse {
    Value { v: nat, n: nat },
    TooLarge,
    Eof,
}

/// Decode a bounded VLQ from the front of `s`, with `acc` the value of the
/// groups already consumed. Each byte contributes its seven low bits; a
/// clear high bit ends the number; the value may never exceed `0x0FFFFFFF`.
pub open spec fn vlq_parse_from(s: Seq<u8>, acc: nat) -> VlqParse
    decreases s.len(),
{
    if s.len() == 0 {
        VlqParse::Eof
    } else {
        let b: u8 = s[0];
        let acc2: nat = acc * 128 + (b & 0x7f) as nat;
        if acc2 > 0x0FFFFFFF {
            VlqParse::TooLarge
        } else if b & 0x80 == 0 {
            VlqParse::Value { v: acc2, n: 1 }
        } else {
            match vlq_parse_from(s.skip(1), acc2) {
                VlqParse::Value { v, n } => VlqParse::Value { v, n: n + 1 },
                r => r,
            }
        }
    }
}

/// Decode a bounded VLQ from the front of `s`.
pub open spec fn vlq_parse(s: Seq<u8>) -> VlqParse {
    vlq_parse_from(s, 0)
}

/// A decoded bounded VLQ occupies between one byte and the whole sequence.
pub proof fn lemma_vlq_parse_bounds(s: Seq<u8>, acc: nat)
    ensures
        match vlq_parse_from(s, acc) {
            VlqParse::Value { v, n } => 1 <= n <= s.len() && v <= 0x0FFFFFFF,
            _ => true,
        },
    decreases s.len(),
{
    if s.len() > 0 {
        let b: u8 = s[0];
        let acc2: nat = acc * 128 + (b & 0x7f) as nat;
        if acc2 <= 0x0FFFFFFF && b & 0x80 != 0 {
            lemma_vlq_parse_bounds(s.skip(1), acc2);
        }
    }
}

/// Read a bounded VLQ from the stream.
pub fn read_vlq(file: &mut ByteCursor) -> (r: Result<usize, VlqError>)
    requires
        old(file).wf(),
    ensures
        final(file).wf(),
        final(file).data_seq() == old(file).data_seq(),
        old(file).pos_int() <= final(file).pos_int(),
        match vlq_parse(old(file).remaining()) {
            VlqParse::Value { v, n } => r == Ok::<usize, VlqError>(v as usize)
                && final(file).pos_int() == old(file).pos_int() + n,
            VlqParse::TooLarge => r == Err::<usize, VlqError>(VlqError::TooLarge),
            VlqParse::Eof => r == Err::<usize, VlqError>(VlqError::IOError),
        },
{
    let mut value: u64 = 0;
    let ghost orig_pos = file.pos_int();
    let ghost orig_rem = file.remaining();
    loop
        invariant
            file.wf(),
            file.data_seq() == old(file).data_seq(),
            orig_pos == old(file).pos_int(),
            orig_rem == old(file).remaining(),
            orig_pos <= file.pos_int() <= file.data_seq().len(),
            value <= 0x0FFFFFFF,
            vlq_parse_from(orig_rem, 0) == (match vlq_parse_from(
                file.remaining(),
                value as nat,
            ) {
                VlqParse::Value { v, n } => VlqParse::Value {
                    v,
                    n: (n + file.pos_int() - orig_pos) as nat,
                },
                r => r,
            }),
        decreases file.data_seq().len() - file.pos_int(),
    {
        let b = match file.read_byte() {
            Some(b) => b,
            None => {
                return Err(VlqError::IOError);
            },
        };
        assert(b & 0x7f <= 0x7f) by (bit_vector);
        let next: u64 = value * 128 + (b & 0x7f) as u64;
        if next > 0x0FFFFFFF {
            return Err(VlqError::TooLarge);
        }
        value = next;
        if b & 0x80 == 0 {
            return Ok(value as usize);
        }
    }
}

/// Result of decoding an unbounded VLQ: the truncated 64-bit value and the
/// number of bytes it occupied, or stream exhaustion.
pub enum VlqWideParse {
    Value { v: u64, n: nat },
    Eof,
}

/// Decode an unbounded VLQ from the front of `s`, with `acc` the 64-bit
/// word accumulated so far. Each byte shifts seven new low bits in; bits
/// beyond the 64th are lost.
pub open spec fn vlq_wide_parse_from(s: Seq<u8>, acc: u64) -> VlqWideParse
    decreases s.len(),
{
    if s.len() == 0 {
        VlqWideParse::Eof
    } else {
        let b: u8 = s[0];
        let acc2: u64 = (acc << 7) | (b & 0x7f) as u64;
        if b & 0x80 == 0 {
            VlqWideParse::Value { v: acc2, n: 1 }
        } else {
            match vlq_wide_parse_from(s.skip(1), acc2) {
                VlqWideParse::Value { v, n } => VlqWideParse::Value { v, n: n + 1 },
                r => r,
            }
        }
    }
}

/// Decode an unbounded VLQ from the front of `s`.
pub open spec fn vlq_wide_parse(s: Seq<u8>) -> VlqWideParse {
    vlq_wide_parse_from(s, 0)
}

/// Read a VLQ with no width limitation; the value is accumulated in a
/// 64-bit word, so groups shifted past its top are lost.
pub fn read_vlq_unchecked(file: &mut ByteCursor) -> (r: Result<usize, VlqError>)
    requires
        old(file).wf(),
    ensures
        final(file).wf(),
        final(file).data_seq() == old(file).data_seq(),
        old(file).pos_int() <= final(file).pos_int(),
        match vlq_wide_parse(old(file).remaining()) {
            VlqWideParse::Value { v, n } => r == Ok::<usize, VlqError>(v as usize)
                && final(file).pos_int() == old(file).pos_int() + n,
            VlqWideParse::Eof => r == Err::<usize, VlqError>(VlqError::IOError),
        },
{
    let mut value: u64 = 0;
    let ghost orig_pos = file.pos_int();
    let ghost orig_rem = file.remaining();
    loop
        invariant
            file.wf(),
            file.data_seq() == old(file).data_seq(),
            orig_pos == old(file).pos_int(),
            orig_rem == old(file).remaining(),
            orig_pos <= file.pos_int() <= file.data_seq().len(),
            vlq_wide_parse_from(orig_rem, 0) == (match vlq_wide_parse_from(
                file.remaining(),
                value,
            ) {
                VlqWideParse::Value { v, n } => VlqWideParse::Value {
                    v,
                    n: (n + file.pos_int() - orig_pos) as nat,
                },
                r => r,
            }),
        decreases file.data_seq().len() - file.pos_int(),
    {
        let b = match file.read_byte() {
            Some(b) => b,
            None => {
                return Err(VlqError::IOError);
            },
        };
        value = (value << 7) | (b & 0x7f) as u64;
        if b & 0x80 == 0 {
            return Ok(value as usize);
        }
    }
}

} // verus!
