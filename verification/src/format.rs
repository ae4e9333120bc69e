//! Byte-to-variant round trips for the raw wire values: the channel
//! voice status kinds, the channel numbers, and the note numbers.
//!
//! Out-of-range bytes are rejected rather than silently masked, so each
//! conversion round-trips: encoding a variant and decoding the byte
//! gives the variant back.

use vstd::prelude::*;

verus! {

/// The seven channel voice status kinds, as named by the high nibble of
/// a status byte.
#[derive(Debug, Clone, Copy, PartialEq, Eq, Structural)]
pub enum Status {
    NoteOff,
    NoteOn,
    PolyphonicPressure,
    ControllerChange,
    ProgramChange,
    ChannelPressure,
    PitchBend,
}

impl Status {
    /// The status byte of this kind, channel bits zero.
    pub open spec fn spec_to_byte(self) -> u8 {
        match self {
            Status::NoteOff => 0x80,
            Status::NoteOn => 0x90,
            Status::PolyphonicPressure => 0xA0,
            Status::ControllerChange => 0xB0,
            Status::ProgramChange => 0xC0,
            Status::ChannelPressure => 0xD0,
            Status::PitchBend => 0xE0,
        }
    }

    /// The kind named by a status byte's high nibble, if any.
    pub open spec fn spec_try_from(v: u8) -> Result<Status, ()> {
        let kind: u8 = v & 0xF0;
        if kind == 0x80 {
            Ok(Status::NoteOff)
        } else if kind == 0x90 {
            Ok(Status::NoteOn)
        } else if kind == 0xA0 {
            Ok(Status::PolyphonicPressure)
        } else if kind == 0xB0 {
            Ok(Status::ControllerChange)
        } else if kind == 0xC0 {
            Ok(Status::ProgramChange)
        } else if kind == 0xD0 {
            Ok(Status::ChannelPressure)
        } else if kind == 0xE0 {
            Ok(Status::PitchBend)
        } else {
            Err(())
        }
    }

    /// Classify a status byte by its high nibble.
    pub fn try_from(v: u8) -> (r: Result<Status, ()>)
        ensures
            r == Status::spec_try_from(v),
    {
        let kind = v & 0xF0;
        if kind == 0x80 {
            Ok(Status::NoteOff)
        } else if kind == 0x90 {
            Ok(Status::NoteOn)
        } else if kind == 0xA0 {
            Ok(Status::PolyphonicPressure)
        } else if kind == 0xB0 {
            Ok(Status::ControllerChange)
        } else if kind == 0xC0 {
            Ok(Status::ProgramChange)
        } else if kind == 0xD0 {
            Ok(Status::ChannelPressure)
        } else if kind == 0xE0 {
            Ok(Status::PitchBend)
        } else {
            Err(())
        }
    }

    /// The status byte of this kind, channel bits zero.
    pub fn to_byte(self) -> (b: u8)
        ensures
            b == self.spec_to_byte(),
    {
        match self {
            Status::NoteOff => 0x80,
            Status::NoteOn => 0x90,
            Status::PolyphonicPressure => 0xA0,
            Status::ControllerChange => 0xB0,
            Status::ProgramChange => 0xC0,
            Status::ChannelPressure => 0xD0,
            Status::PitchBend => 0xE0,
        }
    }
}

/// Every status kind round-trips through its byte.
pub proof fn lemma_status_round_trip(s: Status)
    ensures
        Status::spec_try_from(s.spec_to_byte()) == Ok::<Status, ()>(s),
{
    assert(0x80u8 & 0xF0 == 0x80 && 0x90u8 & 0xF0 == 0x90 && 0xA0u8 & 0xF0 == 0xA0 && 0xB0u8
        & 0xF0 == 0xB0 && 0xC0u8 & 0xF0 == 0xC0 && 0xD0u8 & 0xF0 == 0xD0 && 0xE0u8 & 0xF0
        == 0xE0) by (bit_vector);
}

/// The sixteen channel numbers of the wire format.
#[derive(Debug, Clone, Copy, PartialEq, Eq, Structural)]
pub enum Channel {
    Ch1,
    Ch2,
    Ch3,
    Ch4,
    Ch5,
    Ch6,
    Ch7,
    Ch8,
    Ch9,
    Ch10,
    Ch11,
    Ch12,
    Ch13,
    Ch14,
    Ch15,
    Ch16,
}

impl Channel {
    /// The channel's number, `0` through `15`.
    pub open spec fn spec_to_byte(self) -> u8 {
        match self {
            Channel::Ch1 => 0,
            Channel::Ch2 => 1,
            Channel::Ch3 => 2,
            Channel::Ch4 => 3,
            Channel::Ch5 => 4,
            Channel::Ch6 => 5,
            Channel::Ch7 => 6,
            Channel::Ch8 => 7,
            Channel::Ch9 => 8,
            Channel::Ch10 => 9,
            Channel::Ch11 => 10,
            Channel::Ch12 => 11,
            Channel::Ch13 => 12,
            Channel::Ch14 => 13,
            Channel::Ch15 => 14,
            Channel::Ch16 => 15,
        }
    }

    /// The channel named by a number below sixteen, if any.
    pub open spec fn spec_try_from(v: u8) -> Result<Channel, ()> {
        if v == 0 {
            Ok(Channel::Ch1)
        } else if v == 1 {
            Ok(Channel::Ch2)
        } else if v == 2 {
            Ok(Channel::Ch3)
        } else if v == 3 {
            Ok(Channel::Ch4)
        } else if v == 4 {
            Ok(Channel::Ch5)
        } else if v == 5 {
            Ok(Channel::Ch6)
        } else if v == 6 {
            Ok(Channel::Ch7)
        } else if v == 7 {
            Ok(Channel::Ch8)
        } else if v == 8 {
            Ok(Channel::Ch9)
        } else if v == 9 {
            Ok(Channel::Ch10)
        } else if v == 10 {
            Ok(Channel::Ch11)
        } else if v == 11 {
            Ok(Channel::Ch12)
        } else if v == 12 {
            Ok(Channel::Ch13)
        } else if v == 13 {
            Ok(Channel::Ch14)
        } else if v == 14 {
            Ok(Channel::Ch15)
        } else if v == 15 {
            Ok(Channel::Ch16)
        } else {
            Err(())
        }
    }

    /// Accept a channel number below sixteen; larger bytes are rejected
    /// rather than masked.
    pub fn try_from(v: u8) -> (r: Result<Channel, ()>)
        ensures
            r == Channel::spec_try_from(v),
    {
        if v == 0 {
            Ok(Channel::Ch1)
        } else if v == 1 {
            Ok(Channel::Ch2)
        } else if v == 2 {
            Ok(Channel::Ch3)
        } else if v == 3 {
            Ok(Channel::Ch4)
        } else if v == 4 {
            Ok(Channel::Ch5)
        } else if v == 5 {
            Ok(Channel::Ch6)
        } else if v == 6 {
            Ok(Channel::Ch7)
        } else if v == 7 {
            Ok(Channel::Ch8)
        } else if v == 8 {
            Ok(Channel::Ch9)
        } else if v == 9 {
            Ok(Channel::Ch10)
        } else if v == 10 {
            Ok(Channel::Ch11)
        } else if v == 11 {
            Ok(Channel::Ch12)
        } else if v == 12 {
            Ok(Channel::Ch13)
        } else if v == 13 {
            Ok(Channel::Ch14)
        } else if v == 14 {
            Ok(Channel::Ch15)
        } else if v == 15 {
            Ok(Channel::Ch16)
        } else {
            Err(())
        }
    }

    /// The channel's number, `0` through `15`.
    pub fn to_byte(self) -> (b: u8)
        ensures
            b == self.spec_to_byte(),
    {
        match self {
            Channel::Ch1 => 0,
            Channel::Ch2 => 1,
            Channel::Ch3 => 2,
            Channel::Ch4 => 3,
            Channel::Ch5 => 4,
            Channel::Ch6 => 5,
            Channel::Ch7 => 6,
            Channel::Ch8 => 7,
            Channel::Ch9 => 8,
            Channel::Ch10 => 9,
            Channel::Ch11 => 10,
            Channel::Ch12 => 11,
            Channel::Ch13 => 12,
            Channel::Ch14 => 13,
            Channel::Ch15 => 14,
            Channel::Ch16 => 15,
        }
    }
}

/// Every channel round-trips through its number.
pub proof fn lemma_channel_number_round_trip(c: Channel)
    ensures
        Channel::spec_try_from(c.spec_to_byte()) == Ok::<Channel, ()>(c),
{
}

/// The 128 note numbers of the wire format.
#[derive(Debug, Clone, Copy, PartialEq, Eq, Structural)]
pub enum Note {
    C0,
    CS0,
    D0,
    DS0,
    E0,
    F0,
    FS0,
    G0,
    GS0,
    A0,
    AS0,
    B0,
    C1,
    CS1,
    D1,
    DS1,
    E1,
    F1,
    FS1,
    G1,
    GS1,
    A1,
    AS1,
    B1,
    C2,
    CS2,
    D2,
    DS2,
    E2,
    F2,
    FS2,
    G2,
    GS2,
    A2,
    AS2,
    B2,
    C3,
    CS3,
    D3,
    DS3,
    E3,
    F3,
    FS3,
    G3,
    GS3,
    A3,
    AS3,
    B3,
    C4,
    CS4,
    D4,
    DS4,
    E4,
    F4,
    FS4,
    G4,
    GS4,
    A4,
    AS4,
    B4,
    C5,
    CS5,
    D5,
    DS5,
    E5,
    F5,
    FS5,
    G5,
    GS5,
    A5,
    AS5,
    B5,
    C6,
    CS6,
    D6,
    DS6,
    E6,
    F6,
    FS6,
    G6,
    GS6,
    A6,
    AS6,
    B6,
    C7,
    CS7,
    D7,
    DS7,
    E7,
    F7,
    FS7,
    G7,
    GS7,
    A7,
    AS7,
    B7,
    C8,
    CS8,
    D8,
    DS8,
    E8,
    F8,
    FS8,
    G8,
    GS8,
    A8,
    AS8,
    B8,
    C9,
    CS9,
    D9,
    DS9,
    E9,
    F9,
    FS9,
    G9,
    GS9,
    A9,
    AS9,
    B9,
    C21,
    CS21,
    D21,
    DS21,
    E21,
    F21,
    FS21,
    G21,
}

impl Note {
    /// The note's number, `0` through `127`.
    pub open spec fn spec_to_byte(self) -> u8 {
        match self {
            Note::C0 => 0,
            Note::CS0 => 1,
            Note::D0 => 2,
            Note::DS0 => 3,
            Note::E0 => 4,
            Note::F0 => 5,
            Note::FS0 => 6,
            Note::G0 => 7,
            Note::GS0 => 8,
            Note::A0 => 9,
            Note::AS0 => 10,
            Note::B0 => 11,
            Note::C1 => 12,
            Note::CS1 => 13,
            Note::D1 => 14,
            Note::DS1 => 15,
            Note::E1 => 16,
            Note::F1 => 17,
            Note::FS1 => 18,
            Note::G1 => 19,
            Note::GS1 => 20,
            Note::A1 => 21,
            Note::AS1 => 22,
            Note::B1 => 23,
            Note::C2 => 24,
            Note::CS2 => 25,
            Note::D2 => 26,
            Note::DS2 => 27,
            Note::E2 => 28,
            Note::F2 => 29,
            Note::FS2 => 30,
            Note::G2 => 31,
            Note::GS2 => 32,
            Note::A2 => 33,
            Note::AS2 => 34,
            Note::B2 => 35,
            Note::C3 => 36,
            Note::CS3 => 37,
            Note::D3 => 38,
            Note::DS3 => 39,
            Note::E3 => 40,
            Note::F3 => 41,
            Note::FS3 => 42,
            Note::G3 => 43,
            Note::GS3 => 44,
            Note::A3 => 45,
            Note::AS3 => 46,
            Note::B3 => 47,
            Note::C4 => 48,
            Note::CS4 => 49,
            Note::D4 => 50,
            Note::DS4 => 51,
            Note::E4 => 52,
            Note::F4 => 53,
            Note::FS4 => 54,
            Note::G4 => 55,
            Note::GS4 => 56,
            Note::A4 => 57,
            Note::AS4 => 58,
            Note::B4 => 59,
            Note::C5 => 60,
            Note::CS5 => 61,
            Note::D5 => 62,
            Note::DS5 => 63,
            Note::E5 => 64,
            Note::F5 => 65,
            Note::FS5 => 66,
            Note::G5 => 67,
            Note::GS5 => 68,
            Note::A5 => 69,
            Note::AS5 => 70,
            Note::B5 => 71,
            Note::C6 => 72,
            Note::CS6 => 73,
            Note::D6 => 74,
            Note::DS6 => 75,
            Note::E6 => 76,
            Note::F6 => 77,
            Note::FS6 => 78,
            Note::G6 => 79,
            Note::GS6 => 80,
            Note::A6 => 81,
            Note::AS6 => 82,
            Note::B6 => 83,
            Note::C7 => 84,
            Note::CS7 => 85,
            Note::D7 => 86,
            Note::DS7 => 87,
            Note::E7 => 88,
            Note::F7 => 89,
            Note::FS7 => 90,
            Note::G7 => 91,
            Note::GS7 => 92,
            Note::A7 => 93,
            Note::AS7 => 94,
            Note::B7 => 95,
            Note::C8 => 96,
            Note::CS8 => 97,
            Note::D8 => 98,
            Note::DS8 => 99,
            Note::E8 => 100,
            Note::F8 => 101,
            Note::FS8 => 102,
            Note::G8 => 103,
            Note::GS8 => 104,
            Note::A8 => 105,
            Note::AS8 => 106,
            Note::B8 => 107,
            Note::C9 => 108,
            Note::CS9 => 109,
            Note::D9 => 110,
            Note::DS9 => 111,
            Note::E9 => 112,
            Note::F9 => 113,
            Note::FS9 => 114,
            Note::G9 => 115,
            Note::GS9 => 116,
            Note::A9 => 117,
            Note::AS9 => 118,
            Note::B9 => 119,
            Note::C21 => 120,
            Note::CS21 => 121,
            Note::D21 => 122,
            Note::DS21 => 123,
            Note::E21 => 124,
            Note::F21 => 125,
            Note::FS21 => 126,
            Note::G21 => 127,
        }
    }

    /// The note named by a number below 128.
    pub open spec fn spec_from_byte(v: u8) -> Note {
        if v == 0 {
            Note::C0
        } else if v == 1 {
            Note::CS0
        } else if v == 2 {
            Note::D0
        } else if v == 3 {
            Note::DS0
        } else if v == 4 {
            Note::E0
        } else if v == 5 {
            Note::F0
        } else if v == 6 {
            Note::FS0
        } else if v == 7 {
            Note::G0
        } else if v == 8 {
            Note::GS0
        } else if v == 9 {
            Note::A0
        } else if v == 10 {
            Note::AS0
        } else if v == 11 {
            Note::B0
        } else if v == 12 {
            Note::C1
        } else if v == 13 {
            Note::CS1
        } else if v == 14 {
            Note::D1
        } else if v == 15 {
            Note::DS1
        } else if v == 16 {
            Note::E1
        } else if v == 17 {
            Note::F1
        } else if v == 18 {
            Note::FS1
        } else if v == 19 {
            Note::G1
        } else if v == 20 {
            Note::GS1
        } else if v == 21 {
            Note::A1
        } else if v == 22 {
            Note::AS1
        } else if v == 23 {
            Note::B1
        } else if v == 24 {
            Note::C2
        } else if v == 25 {
            Note::CS2
        } else if v == 26 {
            Note::D2
        } else if v == 27 {
            Note::DS2
        } else if v == 28 {
            Note::E2
        } else if v == 29 {
            Note::F2
        } else if v == 30 {
            Note::FS2
        } else if v == 31 {
            Note::G2
        } else if v == 32 {
            Note::GS2
        } else if v == 33 {
            Note::A2
        } else if v == 34 {
            Note::AS2
        } else if v == 35 {
            Note::B2
        } else if v == 36 {
            Note::C3
        } else if v == 37 {
            Note::CS3
        } else if v == 38 {
            Note::D3
        } else if v == 39 {
            Note::DS3
        } else if v == 40 {
            Note::E3
        } else if v == 41 {
            Note::F3
        } else if v == 42 {
            Note::FS3
        } else if v == 43 {
            Note::G3
        } else if v == 44 {
            Note::GS3
        } else if v == 45 {
            Note::A3
        } else if v == 46 {
            Note::AS3
        } else if v == 47 {
            Note::B3
        } else if v == 48 {
            Note::C4
        } else if v == 49 {
            Note::CS4
        } else if v == 50 {
            Note::D4
        } else if v == 51 {
            Note::DS4
        } else if v == 52 {
            Note::E4
        } else if v == 53 {
            Note::F4
        } else if v == 54 {
            Note::FS4
        } else if v == 55 {
            Note::G4
        } else if v == 56 {
            Note::GS4
        } else if v == 57 {
            Note::A4
        } else if v == 58 {
            Note::AS4
        } else if v == 59 {
            Note::B4
        } else if v == 60 {
            Note::C5
        } else if v == 61 {
            Note::CS5
        } else if v == 62 {
            Note::D5
        } else if v == 63 {
            Note::DS5
        } else if v == 64 {
            Note::E5
        } else if v == 65 {
            Note::F5
        } else if v == 66 {
            Note::FS5
        } else if v == 67 {
            Note::G5
        } else if v == 68 {
            Note::GS5
        } else if v == 69 {
            Note::A5
        } else if v == 70 {
            Note::AS5
        } else if v == 71 {
            Note::B5
        } else if v == 72 {
            Note::C6
        } else if v == 73 {
            Note::CS6
        } else if v == 74 {
            Note::D6
        } else if v == 75 {
            Note::DS6
        } else if v == 76 {
            Note::E6
        } else if v == 77 {
            Note::F6
        } else if v == 78 {
            Note::FS6
        } else if v == 79 {
            Note::G6
        } else if v == 80 {
            Note::GS6
        } else if v == 81 {
            Note::A6
        } else if v == 82 {
            Note::AS6
        } else if v == 83 {
            Note::B6
        } else if v == 84 {
            Note::C7
        } else if v == 85 {
            Note::CS7
        } else if v == 86 {
            Note::D7
        } else if v == 87 {
            Note::DS7
        } else if v == 88 {
            Note::E7
        } else if v == 89 {
            Note::F7
        } else if v == 90 {
            Note::FS7
        } else if v == 91 {
            Note::G7
        } else if v == 92 {
            Note::GS7
        } else if v == 93 {
            Note::A7
        } else if v == 94 {
            Note::AS7
        } else if v == 95 {
            Note::B7
        } else if v == 96 {
            Note::C8
        } else if v == 97 {
            Note::CS8
        } else if v == 98 {
            Note::D8
        } else if v == 99 {
            Note::DS8
        } else if v == 100 {
            Note::E8
        } else if v == 101 {
            Note::F8
        } else if v == 102 {
            Note::FS8
        } else if v == 103 {
            Note::G8
        } else if v == 104 {
            Note::GS8
        } else if v == 105 {
            Note::A8
        } else if v == 106 {
            Note::AS8
        } else if v == 107 {
            Note::B8
        } else if v == 108 {
            Note::C9
        } else if v == 109 {
            Note::CS9
        } else if v == 110 {
            Note::D9
        } else if v == 111 {
            Note::DS9
        } else if v == 112 {
            Note::E9
        } else if v == 113 {
            Note::F9
        } else if v == 114 {
            Note::FS9
        } else if v == 115 {
            Note::G9
        } else if v == 116 {
            Note::GS9
        } else if v == 117 {
            Note::A9
        } else if v == 118 {
            Note::AS9
        } else if v == 119 {
            Note::B9
        } else if v == 120 {
            Note::C21
        } else if v == 121 {
            Note::CS21
        } else if v == 122 {
            Note::D21
        } else if v == 123 {
            Note::DS21
        } else if v == 124 {
            Note::E21
        } else if v == 125 {
            Note::F21
        } else if v == 126 {
            Note::FS21
        } else {
            Note::G21
        }
    }

    /// The note named by a number below 128, if any.
    pub open spec fn spec_try_from(v: u8) -> Result<Note, ()> {
        if v <= 127 {
            Ok(Note::spec_from_byte(v))
        } else {
            Err(())
        }
    }

    /// Accept a note number below 128; larger bytes are rejected rather
    /// than masked.
    pub fn try_from(v: u8) -> (r: Result<Note, ()>)
        ensures
            r == Note::spec_try_from(v),
    {
        if v <= 127 {
            Ok(Note::from_byte(v))
        } else {
            Err(())
        }
    }

    /// The note named by a number below 128.
    pub fn from_byte(v: u8) -> (n: Note)
        requires
            v <= 127,
        ensures
            n == Note::spec_from_byte(v),
    {
        if v == 0 {
            Note::C0
        } else if v == 1 {
            Note::CS0
        } else if v == 2 {
            Note::D0
        } else if v == 3 {
            Note::DS0
        } else if v == 4 {
            Note::E0
        } else if v == 5 {
            Note::F0
        } else if v == 6 {
            Note::FS0
        } else if v == 7 {
            Note::G0
        } else if v == 8 {
            Note::GS0
        } else if v == 9 {
            Note::A0
        } else if v == 10 {
            Note::AS0
        } else if v == 11 {
            Note::B0
        } else if v == 12 {
            Note::C1
        } else if v == 13 {
            Note::CS1
        } else if v == 14 {
            Note::D1
        } else if v == 15 {
            Note::DS1
        } else if v == 16 {
            Note::E1
        } else if v == 17 {
            Note::F1
        } else if v == 18 {
            Note::FS1
        } else if v == 19 {
            Note::G1
        } else if v == 20 {
            Note::GS1
        } else if v == 21 {
            Note::A1
        } else if v == 22 {
            Note::AS1
        } else if v == 23 {
            Note::B1
        } else if v == 24 {
            Note::C2
        } else if v == 25 {
            Note::CS2
        } else if v == 26 {
            Note::D2
        } else if v == 27 {
            Note::DS2
        } else if v == 28 {
            Note::E2
        } else if v == 29 {
            Note::F2
        } else if v == 30 {
            Note::FS2
        } else if v == 31 {
            Note::G2
        } else if v == 32 {
            Note::GS2
        } else if v == 33 {
            Note::A2
        } else if v == 34 {
            Note::AS2
        } else if v == 35 {
            Note::B2
        } else if v == 36 {
            Note::C3
        } else if v == 37 {
            Note::CS3
        } else if v == 38 {
            Note::D3
        } else if v == 39 {
            Note::DS3
        } else if v == 40 {
            Note::E3
        } else if v == 41 {
            Note::F3
        } else if v == 42 {
            Note::FS3
        } else if v == 43 {
            Note::G3
        } else if v == 44 {
            Note::GS3
        } else if v == 45 {
            Note::A3
        } else if v == 46 {
            Note::AS3
        } else if v == 47 {
            Note::B3
        } else if v == 48 {
            Note::C4
        } else if v == 49 {
            Note::CS4
        } else if v == 50 {
            Note::D4
        } else if v == 51 {
            Note::DS4
        } else if v == 52 {
            Note::E4
        } else if v == 53 {
            Note::F4
        } else if v == 54 {
            Note::FS4
        } else if v == 55 {
            Note::G4
        } else if v == 56 {
            Note::GS4
        } else if v == 57 {
            Note::A4
        } else if v == 58 {
            Note::AS4
        } else if v == 59 {
            Note::B4
        } else if v == 60 {
            Note::C5
        } else if v == 61 {
            Note::CS5
        } else if v == 62 {
            Note::D5
        } else if v == 63 {
            Note::DS5
        } else if v == 64 {
            Note::E5
        } else if v == 65 {
            Note::F5
        } else if v == 66 {
            Note::FS5
        } else if v == 67 {
            Note::G5
        } else if v == 68 {
            Note::GS5
        } else if v == 69 {
            Note::A5
        } else if v == 70 {
            Note::AS5
        } else if v == 71 {
            Note::B5
        } else if v == 72 {
            Note::C6
        } else if v == 73 {
            Note::CS6
        } else if v == 74 {
            Note::D6
        } else if v == 75 {
            Note::DS6
        } else if v == 76 {
            Note::E6
        } else if v == 77 {
            Note::F6
        } else if v == 78 {
            Note::FS6
        } else if v == 79 {
            Note::G6
        } else if v == 80 {
            Note::GS6
        } else if v == 81 {
            Note::A6
        } else if v == 82 {
            Note::AS6
        } else if v == 83 {
            Note::B6
        } else if v == 84 {
            Note::C7
        } else if v == 85 {
            Note::CS7
        } else if v == 86 {
            Note::D7
        } else if v == 87 {
            Note::DS7
        } else if v == 88 {
            Note::E7
        } else if v == 89 {
            Note::F7
        } else if v == 90 {
            Note::FS7
        } else if v == 91 {
            Note::G7
        } else if v == 92 {
            Note::GS7
        } else if v == 93 {
            Note::A7
        } else if v == 94 {
            Note::AS7
        } else if v == 95 {
            Note::B7
        } else if v == 96 {
            Note::C8
        } else if v == 97 {
            Note::CS8
        } else if v == 98 {
            Note::D8
        } else if v == 99 {
            Note::DS8
        } else if v == 100 {
            Note::E8
        } else if v == 101 {
            Note::F8
        } else if v == 102 {
            Note::FS8
        } else if v == 103 {
            Note::G8
        } else if v == 104 {
            Note::GS8
        } else if v == 105 {
            Note::A8
        } else if v == 106 {
            Note::AS8
        } else if v == 107 {
            Note::B8
        } else if v == 108 {
            Note::C9
        } else if v == 109 {
            Note::CS9
        } else if v == 110 {
            Note::D9
        } else if v == 111 {
            Note::DS9
        } else if v == 112 {
            Note::E9
        } else if v == 113 {
            Note::F9
        } else if v == 114 {
            Note::FS9
        } else if v == 115 {
            Note::G9
        } else if v == 116 {
            Note::GS9
        } else if v == 117 {
            Note::A9
        } else if v == 118 {
            Note::AS9
        } else if v == 119 {
            Note::B9
        } else if v == 120 {
            Note::C21
        } else if v == 121 {
            Note::CS21
        } else if v == 122 {
            Note::D21
        } else if v == 123 {
            Note::DS21
        } else if v == 124 {
            Note::E21
        } else if v == 125 {
            Note::F21
        } else if v == 126 {
            Note::FS21
        } else {
            Note::G21
        }
    }

    /// The note's number, `0` through `127`.
    pub fn to_byte(self) -> (b: u8)
        ensures
            b == self.spec_to_byte(),
    {
        match self {
            Note::C0 => 0,
            Note::CS0 => 1,
            Note::D0 => 2,
            Note::DS0 => 3,
            Note::E0 => 4,
            Note::F0 => 5,
            Note::FS0 => 6,
            Note::G0 => 7,
            Note::GS0 => 8,
            Note::A0 => 9,
            Note::AS0 => 10,
            Note::B0 => 11,
            Note::C1 => 12,
            Note::CS1 => 13,
            Note::D1 => 14,
            Note::DS1 => 15,
            Note::E1 => 16,
            Note::F1 => 17,
            Note::FS1 => 18,
            Note::G1 => 19,
            Note::GS1 => 20,
            Note::A1 => 21,
            Note::AS1 => 22,
            Note::B1 => 23,
            Note::C2 => 24,
            Note::CS2 => 25,
            Note::D2 => 26,
            Note::DS2 => 27,
            Note::E2 => 28,
            Note::F2 => 29,
            Note::FS2 => 30,
            Note::G2 => 31,
            Note::GS2 => 32,
            Note::A2 => 33,
            Note::AS2 => 34,
            Note::B2 => 35,
            Note::C3 => 36,
            Note::CS3 => 37,
            Note::D3 => 38,
            Note::DS3 => 39,
            Note::E3 => 40,
            Note::F3 => 41,
            Note::FS3 => 42,
            Note::G3 => 43,
            Note::GS3 => 44,
            Note::A3 => 45,
            Note::AS3 => 46,
            Note::B3 => 47,
            Note::C4 => 48,
            Note::CS4 => 49,
            Note::D4 => 50,
            Note::DS4 => 51,
            Note::E4 => 52,
            Note::F4 => 53,
            Note::FS4 => 54,
            Note::G4 => 55,
            Note::GS4 => 56,
            Note::A4 => 57,
            Note::AS4 => 58,
            Note::B4 => 59,
            Note::C5 => 60,
            Note::CS5 => 61,
            Note::D5 => 62,
            Note::DS5 => 63,
            Note::E5 => 64,
            Note::F5 => 65,
            Note::FS5 => 66,
            Note::G5 => 67,
            Note::GS5 => 68,
            Note::A5 => 69,
            Note::AS5 => 70,
            Note::B5 => 71,
            Note::C6 => 72,
            Note::CS6 => 73,
            Note::D6 => 74,
            Note::DS6 => 75,
            Note::E6 => 76,
            Note::F6 => 77,
            Note::FS6 => 78,
            Note::G6 => 79,
            Note::GS6 => 80,
            Note::A6 => 81,
            Note::AS6 => 82,
            Note::B6 => 83,
            Note::C7 => 84,
            Note::CS7 => 85,
            Note::D7 => 86,
            Note::DS7 => 87,
            Note::E7 => 88,
            Note::F7 => 89,
            Note::FS7 => 90,
            Note::G7 => 91,
            Note::GS7 => 92,
            Note::A7 => 93,
            Note::AS7 => 94,
            Note::B7 => 95,
            Note::C8 => 96,
            Note::CS8 => 97,
            Note::D8 => 98,
            Note::DS8 => 99,
            Note::E8 => 100,
            Note::F8 => 101,
            Note::FS8 => 102,
            Note::G8 => 103,
            Note::GS8 => 104,
            Note::A8 => 105,
            Note::AS8 => 106,
            Note::B8 => 107,
            Note::C9 => 108,
            Note::CS9 => 109,
            Note::D9 => 110,
            Note::DS9 => 111,
            Note::E9 => 112,
            Note::F9 => 113,
            Note::FS9 => 114,
            Note::G9 => 115,
            Note::GS9 => 116,
            Note::A9 => 117,
            Note::AS9 => 118,
            Note::B9 => 119,
            Note::C21 => 120,
            Note::CS21 => 121,
            Note::D21 => 122,
            Note::DS21 => 123,
            Note::E21 => 124,
            Note::F21 => 125,
            Note::FS21 => 126,
            Note::G21 => 127,
        }
    }
}

/// Every note round-trips through its number.
pub proof fn lemma_note_round_trip(n: Note)
    ensures
        Note::spec_try_from(n.spec_to_byte()) == Ok::<Note, ()>(n),
{
}

} // verus!
