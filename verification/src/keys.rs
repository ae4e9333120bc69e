//! MIDI key (note) numbers: seven-bit values, `0` through `127`.

use vstd::prelude::*;

verus! {

/// Rejection of a byte that does not name a key.
#[derive(Debug, Clone, Copy, PartialEq, Eq, Structural)]
pub enum MidiKeyError {
    /// The byte is outside the key range `0..=127`.
    OutOfRange(u8),
}

/// A key (note) number, `0` through `127` when well formed.
#[derive(Debug, Clone, Copy, PartialEq, Eq, Structural)]
pub struct MidiKey(pub u8);

impl MidiKey {
    /// A key number stays within seven bits.
    pub open spec fn wf(self) -> bool {
        self.0 <= 127
    }

    /// Accept a byte as a key number; bytes above `127` are rejected.
    pub fn try_from(v: u8) -> (r: Result<MidiKey, MidiKeyError>)
        ensures
            v <= 127 ==> r == Ok::<MidiKey, MidiKeyError>(MidiKey(v)),
            v > 127 ==> r == Err::<MidiKey, MidiKeyError>(MidiKeyError::OutOfRange(v)),
    {
        if v <= 127 {
            Ok(MidiKey(v))
        } else {
            Err(MidiKeyError::OutOfRange(v))
        }
    }

    /// The key number as a byte.
    pub fn as_byte(self) -> (b: u8)
        ensures
            b == self.0,
    {
        self.0
    }
}

} // verus!
