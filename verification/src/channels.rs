//! The sixteen MIDI channels, and their round trip with the low nibble
//! of a channel-message status byte.

use vstd::prelude::*;

verus! {

/// One of the sixteen MIDI channels.
#[derive(Debug, Clone, Copy, PartialEq, Eq, Structural)]
pub enum MidiChannel {
    Ch1,
    Ch2,
    Ch3,
    Ch4,
    Ch5,
    Ch6,
    Ch7,
    Ch8,
    Ch9,
    Ch10,
    Ch11,
    Ch12,
    Ch13,
    Ch14,
    Ch15,
    Ch16,
}

impl MidiChannel {
    /// The channel selected by the low nibble of a status byte.
    pub open spec fn spec_from_nibble(n: u8) -> MidiChannel {
        if n == 0x0 {
            MidiChannel::Ch1
        } else if n == 0x1 {
            MidiChannel::Ch2
        } else if n == 0x2 {
            MidiChannel::Ch3
        } else if n == 0x3 {
            MidiChannel::Ch4
        } else if n == 0x4 {
            MidiChannel::Ch5
        } else if n == 0x5 {
            MidiChannel::Ch6
        } else if n == 0x6 {
            MidiChannel::Ch7
        } else if n == 0x7 {
            MidiChannel::Ch8
        } else if n == 0x8 {
            MidiChannel::Ch9
        } else if n == 0x9 {
            MidiChannel::Ch10
        } else if n == 0xA {
            MidiChannel::Ch11
        } else if n == 0xB {
            MidiChannel::Ch12
        } else if n == 0xC {
            MidiChannel::Ch13
        } else if n == 0xD {
            MidiChannel::Ch14
        } else if n == 0xE {
            MidiChannel::Ch15
        } else {
            MidiChannel::Ch16
        }
    }

    /// The number of the channel, `0` through `15`.
    pub open spec fn spec_byte(self) -> u8 {
        match self {
            MidiChannel::Ch1 => 0x0,
            MidiChannel::Ch2 => 0x1,
            MidiChannel::Ch3 => 0x2,
            MidiChannel::Ch4 => 0x3,
            MidiChannel::Ch5 => 0x4,
            MidiChannel::Ch6 => 0x5,
            MidiChannel::Ch7 => 0x6,
            MidiChannel::Ch8 => 0x7,
            MidiChannel::Ch9 => 0x8,
            MidiChannel::Ch10 => 0x9,
            MidiChannel::Ch11 => 0xA,
            MidiChannel::Ch12 => 0xB,
            MidiChannel::Ch13 => 0xC,
            MidiChannel::Ch14 => 0xD,
            MidiChannel::Ch15 => 0xE,
            MidiChannel::Ch16 => 0xF,
        }
    }

    /// The channel named by a status byte; the message kind in the high
    /// nibble is ignored.
    pub fn from_status_byte(v: u8) -> (c: MidiChannel)
        ensures
            c == MidiChannel::spec_from_nibble(v & 0x0F),
    {
        let n = v & 0x0F;
        assert(v & 0x0F <= 0xF) by (bit_vector);
        if n == 0x0 {
            MidiChannel::Ch1
        } else if n == 0x1 {
            MidiChannel::Ch2
        } else if n == 0x2 {
            MidiChannel::Ch3
        } else if n == 0x3 {
            MidiChannel::Ch4
        } else if n == 0x4 {
            MidiChannel::Ch5
        } else if n == 0x5 {
            MidiChannel::Ch6
        } else if n == 0x6 {
            MidiChannel::Ch7
        } else if n == 0x7 {
            MidiChannel::Ch8
        } else if n == 0x8 {
            MidiChannel::Ch9
        } else if n == 0x9 {
            MidiChannel::Ch10
        } else if n == 0xA {
            MidiChannel::Ch11
        } else if n == 0xB {
            MidiChannel::Ch12
        } else if n == 0xC {
            MidiChannel::Ch13
        } else if n == 0xD {
            MidiChannel::Ch14
        } else if n == 0xE {
            MidiChannel::Ch15
        } else {
            MidiChannel::Ch16
        }
    }

    /// The channel number as a byte, `0` through `15`.
    pub fn as_byte(self) -> (b: u8)
        ensures
            b == self.spec_byte(),
            b <= 0xF,
    {
        match self {
            MidiChannel::Ch1 => 0x0,
            MidiChannel::Ch2 => 0x1,
            MidiChannel::Ch3 => 0x2,
            MidiChannel::Ch4 => 0x3,
            MidiChannel::Ch5 => 0x4,
            MidiChannel::Ch6 => 0x5,
            MidiChannel::Ch7 => 0x6,
            MidiChannel::Ch8 => 0x7,
            MidiChannel::Ch9 => 0x8,
            MidiChannel::Ch10 => 0x9,
            MidiChannel::Ch11 => 0xA,
            MidiChannel::Ch12 => 0xB,
            MidiChannel::Ch13 => 0xC,
            MidiChannel::Ch14 => 0xD,
            MidiChannel::Ch15 => 0xE,
            MidiChannel::Ch16 => 0xF,
        }
    }
}

/// A channel number below sixteen round-trips through a status byte:
/// decoding the byte and reading the number back gives the nibble again.
pub proof fn lemma_channel_round_trip(n: u8)
    requires
        n <= 0xF,
    ensures
        MidiChannel::spec_from_nibble(n).spec_byte() == n,
{
}

} // verus!
