//! Channel voice and system messages: decoding from a byte stream, and
//! the numeric form handed to a synthesizer.
//!
//! A channel message's status byte selects the message kind in its high
//! nibble and the channel in its low nibble; data bytes are masked to
//! seven bits. Controller numbers `120` through `127` name channel-mode
//! operations and are decoded as a distinct variant. A system message's
//! status byte is matched whole; a system-exclusive payload runs until
//! and including the terminating `0xF7` byte.

use vstd::prelude::*;

use crate::channels::MidiChannel;
use crate::cursor::ByteCursor;
use crate::cursor::copy_bytes;
use crate::keys::MidiKey;
use crate::keys::MidiKeyError;

verus! {

/// Why a message could not be decoded.
#[derive(Debug, Clone, Copy, PartialEq, Eq, Structural)]
pub enum MidiMessageError {
    /// The stream ran out in the middle of the message.
    IOError,
    /// The status byte names no known message.
    UnknownCommand(u8),
    /// A key byte was outside `0..=127`.
    InvalidKey { source: MidiKeyError },
}

/// A channel voice message: the work of one MIDI channel.
#[derive(Debug, Clone, Copy, PartialEq, Eq, Structural)]
#[allow(inconsistent_fields)]
pub enum ChannelMessage {
    NoteOff { channel: MidiChannel, key: MidiKey, vel: u8 },
    NoteOn { channel: MidiChannel, key: MidiKey, vel: u8 },
    AfterTouch { channel: MidiChannel, key: MidiKey, pressure: u8 },
    ControlChange { channel: MidiChannel, control: u8, value: u8 },
    ProgramChange { channel: MidiChannel, program: u8 },
    ChannelPressure { channel: MidiChannel, value: u8 },
    PitchBend { channel: MidiChannel, value: u16 },
    ChannelMode { channel: MidiChannel, control: u8, value: u8 },
}

/// A fourteen-bit value split over two data bytes, least significant
/// seven bits first.
pub open spec fn combine14(lsb: u8, msb: u8) -> u16 {
    ((msb & 0x7f) as u16 * 128 + (lsb & 0x7f) as u16) as u16
}

/// Result of decoding a channel message: the message and how many data
/// bytes it took, or the failure.
pub enum ChannelParse {
    Msg { m: ChannelMessage, n: nat },
    Fail { e: MidiMessageError },
}

/// Decode the data bytes of a channel message whose status byte is
/// already known; `s` holds the bytes after the status byte.
pub open spec fn channel_message_parse(status: u8, s: Seq<u8>) -> ChannelParse {
    let kind: u8 = status & 0xF0;
    let ch = MidiChannel::spec_from_nibble(status & 0x0F);
    if kind == 0x80 {
        if s.len() < 2 {
            ChannelParse::Fail { e: MidiMessageError::IOError }
        } else {
            ChannelParse::Msg {
                m: ChannelMessage::NoteOff {
                    channel: ch,
                    key: MidiKey(s[0] & 0x7f),
                    vel: s[1] & 0x7f,
                },
                n: 2,
            }
        }
    } else if kind == 0x90 {
        if s.len() < 2 {
            ChannelParse::Fail { e: MidiMessageError::IOError }
        } else {
            ChannelParse::Msg {
                m: ChannelMessage::NoteOn {
                    channel: ch,
                    key: MidiKey(s[0] & 0x7f),
                    vel: s[1] & 0x7f,
                },
                n: 2,
            }
        }
    } else if kind == 0xA0 {
        if s.len() < 2 {
            ChannelParse::Fail { e: MidiMessageError::IOError }
        } else {
            ChannelParse::Msg {
                m: ChannelMessage::AfterTouch {
                    channel: ch,
                    key: MidiKey(s[0] & 0x7f),
                    pressure: s[1] & 0x7f,
                },
                n: 2,
            }
        }
    } else if kind == 0xB0 {
        if s.len() < 2 {
            ChannelParse::Fail { e: MidiMessageError::IOError }
        } else {
            let control: u8 = s[0] & 0x7f;
            if 120 <= control {
                ChannelParse::Msg {
                    m: ChannelMessage::ChannelMode { channel: ch, control, value: s[1] & 0x7f },
                    n: 2,
                }
            } else {
                ChannelParse::Msg {
                    m: ChannelMessage::ControlChange { channel: ch, control, value: s[1] & 0x7f },
                    n: 2,
                }
            }
        }
    } else if kind == 0xC0 {
        if s.len() < 1 {
            ChannelParse::Fail { e: MidiMessageError::IOError }
        } else {
            ChannelParse::Msg {
                m: ChannelMessage::ProgramChange { channel: ch, program: s[0] & 0x7f },
                n: 1,
            }
        }
    } else if kind == 0xD0 {
        if s.len() < 1 {
            ChannelParse::Fail { e: MidiMessageError::IOError }
        } else {
            ChannelParse::Msg {
                m: ChannelMessage::ChannelPressure { channel: ch, value: s[0] & 0x7f },
                n: 1,
            }
        }
    } else if kind == 0xE0 {
        if s.len() < 2 {
            ChannelParse::Fail { e: MidiMessageError::IOError }
        } else {
            ChannelParse::Msg {
                m: ChannelMessage::PitchBend { channel: ch, value: combine14(s[0], s[1]) },
                n: 2,
            }
        }
    } else {
        ChannelParse::Fail { e: MidiMessageError::UnknownCommand(status) }
    }
}

/// Decode a whole channel message, status byte included.
pub open spec fn channel_read_parse(s: Seq<u8>) -> ChannelParse {
    if s.len() == 0 {
        ChannelParse::Fail { e: MidiMessageError::IOError }
    } else {
        match channel_message_parse(s[0], s.skip(1)) {
            ChannelParse::Msg { m, n } => ChannelParse::Msg { m, n: n + 1 },
            f => f,
        }
    }
}

impl ChannelMessage {
    /// Read the entire message, status byte first.
    pub fn read(file: &mut ByteCursor) -> (r: Result<ChannelMessage, MidiMessageError>)
        requires
            old(file).wf(),
        ensures
            final(file).wf(),
            final(file).data_seq() == old(file).data_seq(),
            old(file).pos_int() <= final(file).pos_int(),
            match channel_read_parse(old(file).remaining()) {
                ChannelParse::Msg { m, n } => r == Ok::<ChannelMessage, MidiMessageError>(m)
                    && final(file).pos_int() == old(file).pos_int() + n,
                ChannelParse::Fail { e } => r == Err::<ChannelMessage, MidiMessageError>(e),
            },
    {
        let status_byte = match file.read_byte() {
            Some(b) => b,
            None => {
                return Err(MidiMessageError::IOError);
            },
        };
        Self::read_with_status(status_byte, file)
    }

    /// Read the data bytes of a message whose status byte is already known.
    pub fn read_with_status(status_byte: u8, file: &mut ByteCursor) -> (r: Result<
        ChannelMessage,
        MidiMessageError,
    >)
        requires
            old(file).wf(),
        ensures
            final(file).wf(),
            final(file).data_seq() == old(file).data_seq(),
            old(file).pos_int() <= final(file).pos_int(),
            match channel_message_parse(status_byte, old(file).remaining()) {
                ChannelParse::Msg { m, n } => r == Ok::<ChannelMessage, MidiMessageError>(m)
                    && final(file).pos_int() == old(file).pos_int() + n,
                ChannelParse::Fail { e } => r == Err::<ChannelMessage, MidiMessageError>(e),
            },
    {
        let kind = status_byte & 0xF0;
        if kind == 0x80 || kind == 0x90 || kind == 0xA0 {
            let buf = match file.read_bytes(2) {
                Some(buf) => buf,
                None => {
                    return Err(MidiMessageError::IOError);
                },
            };
            let b0 = buf[0];
            let kb = b0 & 0x7F;
            assert(b0 & 0x7F <= 0x7f) by (bit_vector);
            let key = match MidiKey::try_from(kb) {
                Ok(key) => key,
                Err(e) => {
                    return Err(MidiMessageError::InvalidKey { source: e });
                },
            };
            let channel = MidiChannel::from_status_byte(status_byte);
            if kind == 0x80 {
                Ok(ChannelMessage::NoteOff { channel, key, vel: buf[1] & 0x7F })
            } else if kind == 0x90 {
                Ok(ChannelMessage::NoteOn { channel, key, vel: buf[1] & 0x7F })
            } else {
                Ok(ChannelMessage::AfterTouch { channel, key, pressure: buf[1] & 0x7F })
            }
        } else if kind == 0xB0 {
            let buf = match file.read_bytes(2) {
                Some(buf) => buf,
                None => {
                    return Err(MidiMessageError::IOError);
                },
            };
            let channel = MidiChannel::from_status_byte(status_byte);
            let control = buf[0] & 0x7F;
            if 120 <= control {
                Ok(ChannelMessage::ChannelMode { channel, control, value: buf[1] & 0x7F })
            } else {
                Ok(ChannelMessage::ControlChange { channel, control, value: buf[1] & 0x7F })
            }
        } else if kind == 0xC0 {
            let buf = match file.read_bytes(1) {
                Some(buf) => buf,
                None => {
                    return Err(MidiMessageError::IOError);
                },
            };
            let channel = MidiChannel::from_status_byte(status_byte);
            Ok(ChannelMessage::ProgramChange { channel, program: buf[0] & 0x7F })
        } else if kind == 0xD0 {
            let buf = match file.read_bytes(1) {
                Some(buf) => buf,
                None => {
                    return Err(MidiMessageError::IOError);
                },
            };
            let channel = MidiChannel::from_status_byte(status_byte);
            Ok(ChannelMessage::ChannelPressure { channel, value: buf[0] & 0x7F })
        } else if kind == 0xE0 {
            let buf = match file.read_bytes(2) {
                Some(buf) => buf,
                None => {
                    return Err(MidiMessageError::IOError);
                },
            };
            let channel = MidiChannel::from_status_byte(status_byte);
            let lsb = buf[0];
            let msb = buf[1];
            assert(msb as u8 & 0x7f <= 0x7f && lsb as u8 & 0x7f <= 0x7f) by (bit_vector);
            let value: u16 = (msb & 0x7F) as u16 * 128 + (lsb & 0x7F) as u16;
            Ok(ChannelMessage::PitchBend { channel, value })
        } else {
            Err(MidiMessageError::UnknownCommand(status_byte))
        }
    }

    /// The status-byte kind of this message, channel bits zero.
    pub open spec fn spec_command(self) -> u8 {
        match self {
            ChannelMessage::NoteOff { .. } => 0x80,
            ChannelMessage::NoteOn { .. } => 0x90,
            ChannelMessage::AfterTouch { .. } => 0xA0,
            ChannelMessage::ControlChange { .. } => 0xB0,
            ChannelMessage::ProgramChange { .. } => 0xC0,
            ChannelMessage::ChannelPressure { .. } => 0xD0,
            ChannelMessage::PitchBend { .. } => 0xE0,
            ChannelMessage::ChannelMode { .. } => 0xB0,
        }
    }

    pub fn get_command(&self) -> (b: u8)
        ensures
            b == self.spec_command(),
    {
        match self {
            ChannelMessage::NoteOff { .. } => 0x80,
            ChannelMessage::NoteOn { .. } => 0x90,
            ChannelMessage::AfterTouch { .. } => 0xA0,
            ChannelMessage::ControlChange { .. } => 0xB0,
            ChannelMessage::ProgramChange { .. } => 0xC0,
            ChannelMessage::ChannelPressure { .. } => 0xD0,
            ChannelMessage::PitchBend { .. } => 0xE0,
            ChannelMessage::ChannelMode { .. } => 0xB0,
        }
    }

    /// The numeric form handed to a synthesizer:
    /// channel, command, and two data words.
    pub open spec fn spec_dispatch_args(self) -> (u8, u8, u16, u16) {
        match self {
            ChannelMessage::NoteOff { channel, key, vel } => (
                channel.spec_byte(),
                0x80,
                key.0 as u16,
                vel as u16,
            ),
            ChannelMessage::NoteOn { channel, key, vel } => (
                channel.spec_byte(),
                0x90,
                key.0 as u16,
                vel as u16,
            ),
            ChannelMessage::AfterTouch { channel, key, pressure } => (
                channel.spec_byte(),
                0xA0,
                key.0 as u16,
                pressure as u16,
            ),
            ChannelMessage::ControlChange { channel, control, value } => (
                channel.spec_byte(),
                0xB0,
                control as u16,
                value as u16,
            ),
            ChannelMessage::ProgramChange { channel, program } => (
                channel.spec_byte(),
                0xC0,
                program as u16,
                0,
            ),
            ChannelMessage::ChannelPressure { channel, value } => (
                channel.spec_byte(),
                0xD0,
                value as u16,
                0,
            ),
            ChannelMessage::PitchBend { channel, value } => (channel.spec_byte(), 0xE0, value, 0),
            ChannelMessage::ChannelMode { channel, control, value } => (
                channel.spec_byte(),
                0xB0,
                control as u16,
                value as u16,
            ),
        }
    }

    /// Translate the message into the numeric `(channel, command, data1,
    /// data2)` form that a synthesizer consumes.
    pub fn dispatch_args(&self) -> (r: (u8, u8, u16, u16))
        ensures
            r == self.spec_dispatch_args(),
    {
        match self {
            ChannelMessage::NoteOff { channel, key, vel } => (
                channel.as_byte(),
                0x80,
                key.as_byte() as u16,
                *vel as u16,
            ),
            ChannelMessage::NoteOn { channel, key, vel } => (
                channel.as_byte(),
                0x90,
                key.as_byte() as u16,
                *vel as u16,
            ),
            ChannelMessage::AfterTouch { channel, key, pressure } => (
                channel.as_byte(),
                0xA0,
                key.as_byte() as u16,
                *pressure as u16,
            ),
            ChannelMessage::ControlChange { channel, control, value } => (
                channel.as_byte(),
                0xB0,
                *control as u16,
                *value as u16,
            ),
            ChannelMessage::ProgramChange { channel, program } => (
                channel.as_byte(),
                0xC0,
                *program as u16,
                0,
            ),
            ChannelMessage::ChannelPressure { channel, value } => (
                channel.as_byte(),
                0xD0,
                *value as u16,
                0,
            ),
            ChannelMessage::PitchBend { channel, value } => (channel.as_byte(), 0xE0, *value, 0),
            ChannelMessage::ChannelMode { channel, control, value } => (
                channel.as_byte(),
                0xB0,
                *control as u16,
                *value as u16,
            ),
        }
    }
}

/// A system common or realtime message.
#[derive(Debug, PartialEq, Eq)]
pub enum SystemMessage {
    SysEx { id: u8, data: Vec<u8> },
    SongPositionPointer { position: u16 },
    SongSelect { song: u8 },
    TuneRequest,
    EndOfExclusive,
    TimingClock,
    Start,
    Continue,
    Stop,
    ActiveSensing,
    Reset,
}

/// The mathematical shape of a system message: a system-exclusive
/// payload is a byte sequence.
pub enum SystemModel {
    SysEx { id: u8, data: Seq<u8> },
    SongPositionPointer { position: u16 },
    SongSelect { song: u8 },
    TuneRequest,
    EndOfExclusive,
    TimingClock,
    Start,
    Continue,
    Stop,
    ActiveSensing,
    Reset,
}

impl View for SystemMessage {
    type V = SystemModel;

    open spec fn view(&self) -> SystemModel {
        match self {
            SystemMessage::SysEx { id, data } => SystemModel::SysEx { id: *id, data: data@ },
            SystemMessage::SongPositionPointer { position } => SystemModel::SongPositionPointer {
                position: *position,
            },
            SystemMessage::SongSelect { song } => SystemModel::SongSelect { song: *song },
            SystemMessage::TuneRequest => SystemModel::TuneRequest,
            SystemMessage::EndOfExclusive => SystemModel::EndOfExclusive,
            SystemMessage::TimingClock => SystemModel::TimingClock,
            SystemMessage::Start => SystemModel::Start,
            SystemMessage::Continue => SystemModel::Continue,
            SystemMessage::Stop => SystemModel::Stop,
            SystemMessage::ActiveSensing => SystemModel::ActiveSensing,
            SystemMessage::Reset => SystemModel::Reset,
        }
    }
}

impl Clone for SystemMessage {
    fn clone(&self) -> (res: Self)
        ensures
            res@ == self@,
    {
        match self {
            SystemMessage::SysEx { id, data } => SystemMessage::SysEx {
                id: *id,
                data: copy_bytes(data),
            },
            SystemMessage::SongPositionPointer { position } => SystemMessage::SongPositionPointer {
                position: *position,
            },
            SystemMessage::SongSelect { song } => SystemMessage::SongSelect { song: *song },
            SystemMessage::TuneRequest => SystemMessage::TuneRequest,
            SystemMessage::EndOfExclusive => SystemMessage::EndOfExclusive,
            SystemMessage::TimingClock => SystemMessage::TimingClock,
            SystemMessage::Start => SystemMessage::Start,
            SystemMessage::Continue => SystemMessage::Continue,
            SystemMessage::Stop => SystemMessage::Stop,
            SystemMessage::ActiveSensing => SystemMessage::ActiveSensing,
            SystemMessage::Reset => SystemMessage::Reset,
        }
    }
}

/// The system-exclusive payload at the front of `s`: every byte up to and
/// including the first `0xF7`, or nothing if the terminator never comes.
pub open spec fn sysex_payload(s: Seq<u8>) -> Option<Seq<u8>>
    decreases s.len(),
{
    if s.len() == 0 {
        None
    } else if s[0] == 0xF7 {
        Some(seq![0xF7u8])
    } else {
        match sysex_payload(s.skip(1)) {
            Some(d) => Some(seq![s[0]] + d),
            None => None,
        }
    }
}

/// A system-exclusive payload is never empty and never longer than the
/// bytes it was taken from.
pub proof fn lemma_sysex_payload_bounds(s: Seq<u8>)
    ensures
        match sysex_payload(s) {
            Some(d) => 1 <= d.len() <= s.len(),
            None => true,
        },
    decreases s.len(),
{
    if s.len() > 0 && s[0] != 0xF7 {
        lemma_sysex_payload_bounds(s.skip(1));
    }
}

/// Result of decoding a system message: the message and how many data
/// bytes it took, or the failure.
pub enum SystemParse {
    Msg { m: SystemModel, n: nat },
    Fail { e: MidiMessageError },
}

/// Decode the data bytes of a system message whose status byte is
/// already known; `s` holds the bytes after the status byte.
pub open spec fn system_message_parse(status: u8, s: Seq<u8>) -> SystemParse {
    if status == 0xF0 {
        if s.len() == 0 {
            SystemParse::Fail { e: MidiMessageError::IOError }
        } else {
            match sysex_payload(s.skip(1)) {
                Some(d) => SystemParse::Msg {
                    m: SystemModel::SysEx { id: s[0] & 0x7f, data: d },
                    n: 1 + d.len(),
                },
                None => SystemParse::Fail { e: MidiMessageError::IOError },
            }
        }
    } else if status == 0xF2 {
        if s.len() < 2 {
            SystemParse::Fail { e: MidiMessageError::IOError }
        } else {
            SystemParse::Msg {
                m: SystemModel::SongPositionPointer { position: combine14(s[0], s[1]) },
                n: 2,
            }
        }
    } else if status == 0xF3 {
        if s.len() < 1 {
            SystemParse::Fail { e: MidiMessageError::IOError }
        } else {
            SystemParse::Msg { m: SystemModel::SongSelect { song: s[0] & 0x7f }, n: 1 }
        }
    } else if status == 0xF6 {
        SystemParse::Msg { m: SystemModel::TuneRequest, n: 0 }
    } else if status == 0xF7 {
        SystemParse::Msg { m: SystemModel::EndOfExclusive, n: 0 }
    } else if status == 0xF8 {
        SystemParse::Msg { m: SystemModel::TimingClock, n: 0 }
    } else if status == 0xFA {
        SystemParse::Msg { m: SystemModel::Start, n: 0 }
    } else if status == 0xFB {
        SystemParse::Msg { m: SystemModel::Continue, n: 0 }
    } else if status == 0xFC {
        SystemParse::Msg { m: SystemModel::Stop, n: 0 }
    } else if status == 0xFE {
        SystemParse::Msg { m: SystemModel::ActiveSensing, n: 0 }
    } else if status == 0xFF {
        SystemParse::Msg { m: SystemModel::Reset, n: 0 }
    } else {
        SystemParse::Fail { e: MidiMessageError::UnknownCommand(status) }
    }
}

/// Decode a whole system message, status byte included.
pub open spec fn system_read_parse(s: Seq<u8>) -> SystemParse {
    if s.len() == 0 {
        SystemParse::Fail { e: MidiMessageError::IOError }
    } else {
        match system_message_parse(s[0], s.skip(1)) {
            SystemParse::Msg { m, n } => SystemParse::Msg { m, n: n + 1 },
            f => f,
        }
    }
}

impl SystemMessage {
    /// Read the entire message, status byte first.
    pub fn read(file: &mut ByteCursor) -> (r: Result<SystemMessage, MidiMessageError>)
        requires
            old(file).wf(),
        ensures
            final(file).wf(),
            final(file).data_seq() == old(file).data_seq(),
            old(file).pos_int() <= final(file).pos_int(),
            match system_read_parse(old(file).remaining()) {
                SystemParse::Msg { m, n } => (match r {
                    Ok(msg) => msg@ == m && final(file).pos_int() == old(file).pos_int() + n,
                    Err(_) => false,
                }),
                SystemParse::Fail { e } => r == Err::<SystemMessage, MidiMessageError>(e),
            },
    {
        let status_byte = match file.read_byte() {
            Some(b) => b,
            None => {
                return Err(MidiMessageError::IOError);
            },
        };
        Self::read_with_status(status_byte, file)
    }

    /// Read the data bytes of a message whose status byte is already known.
    pub fn read_with_status(status_byte: u8, file: &mut ByteCursor) -> (r: Result<
        SystemMessage,
        MidiMessageError,
    >)
        requires
            old(file).wf(),
        ensures
            final(file).wf(),
            final(file).data_seq() == old(file).data_seq(),
            old(file).pos_int() <= final(file).pos_int(),
            match system_message_parse(status_byte, old(file).remaining()) {
                SystemParse::Msg { m, n } => (match r {
                    Ok(msg) => msg@ == m && final(file).pos_int() == old(file).pos_int() + n,
                    Err(_) => false,
                }),
                SystemParse::Fail { e } => r == Err::<SystemMessage, MidiMessageError>(e),
            },
    {
        if status_byte == 0xF0 {
            let id_byte = match file.read_byte() {
                Some(b) => b,
                None => {
                    return Err(MidiMessageError::IOError);
                },
            };
            let id = id_byte & 0x7F;
            let ghost tail = file.remaining();
            let ghost start_pos = file.pos_int();
            let mut data: Vec<u8> = Vec::new();
            loop
                invariant
                    file.wf(),
                    file.data_seq() == old(file).data_seq(),
                    status_byte == 0xF0,
                    old(file).wf(),
                    old(file).remaining().len() > 0,
                    id == old(file).remaining()[0] & 0x7f,
                    tail == old(file).remaining().skip(1),
                    start_pos == old(file).pos_int() + 1,
                    start_pos <= file.pos_int() <= file.data_seq().len(),
                    file.pos_int() == start_pos + data@.len(),
                    sysex_payload(tail) == (match sysex_payload(file.remaining()) {
                        Some(d) => Some(data@ + d),
                        None => None::<Seq<u8>>,
                    }),
                decreases file.data_seq().len() - file.pos_int(),
            {
                let ghost rem_pre = file.remaining();
                let ghost data_pre = data@;
                let b = match file.read_byte() {
                    Some(b) => b,
                    None => {
                        return Err(MidiMessageError::IOError);
                    },
                };
                data.push(b);
                if b == 0xF7 {
                    proof {
                        assert(sysex_payload(rem_pre) == Some(seq![0xF7u8]));
                        assert(data@ =~= data_pre + seq![0xF7u8]);
                        assert(sysex_payload(tail) == Some(data@));
                    }
                    return Ok(SystemMessage::SysEx { id, data });
                }
            }
        } else if status_byte == 0xF2 {
            let buf = match file.read_bytes(2) {
                Some(buf) => buf,
                None => {
                    return Err(MidiMessageError::IOError);
                },
            };
            let lsb = buf[0];
            let msb = buf[1];
            assert(msb as u8 & 0x7f <= 0x7f && lsb as u8 & 0x7f <= 0x7f) by (bit_vector);
            let position: u16 = (msb & 0x7F) as u16 * 128 + (lsb & 0x7F) as u16;
            Ok(SystemMessage::SongPositionPointer { position })
        } else if status_byte == 0xF3 {
            let buf = match file.read_bytes(1) {
                Some(buf) => buf,
                None => {
                    return Err(MidiMessageError::IOError);
                },
            };
            Ok(SystemMessage::SongSelect { song: buf[0] & 0x7F })
        } else if status_byte == 0xF6 {
            Ok(SystemMessage::TuneRequest)
        } else if status_byte == 0xF7 {
            Ok(SystemMessage::EndOfExclusive)
        } else if status_byte == 0xF8 {
            Ok(SystemMessage::TimingClock)
        } else if status_byte == 0xFA {
            Ok(SystemMessage::Start)
        } else if status_byte == 0xFB {
            Ok(SystemMessage::Continue)
        } else if status_byte == 0xFC {
            Ok(SystemMessage::Stop)
        } else if status_byte == 0xFE {
            Ok(SystemMessage::ActiveSensing)
        } else if status_byte == 0xFF {
            Ok(SystemMessage::Reset)
        } else {
            Err(MidiMessageError::UnknownCommand(status_byte))
        }
    }

    /// The status byte of this message.
    pub open spec fn spec_command(self) -> u8 {
        match self {
            SystemMessage::SysEx { .. } => 0xF0,
            SystemMessage::SongPositionPointer { .. } => 0xF2,
            SystemMessage::SongSelect { .. } => 0xF3,
            SystemMessage::TuneRequest => 0xF6,
            SystemMessage::EndOfExclusive => 0xF7,
            SystemMessage::TimingClock => 0xF8,
            SystemMessage::Start => 0xFA,
            SystemMessage::Continue => 0xFB,
            SystemMessage::Stop => 0xFC,
            SystemMessage::ActiveSensing => 0xFE,
            SystemMessage::Reset => 0xFF,
        }
    }

    pub fn get_command(&self) -> (b: u8)
        ensures
            b == self.spec_command(),
    {
        match self {
            SystemMessage::SysEx { .. } => 0xF0,
            SystemMessage::SongPositionPointer { .. } => 0xF2,
            SystemMessage::SongSelect { .. } => 0xF3,
            SystemMessage::TuneRequest => 0xF6,
            SystemMessage::EndOfExclusive => 0xF7,
            SystemMessage::TimingClock => 0xF8,
            SystemMessage::Start => 0xFA,
            SystemMessage::Continue => 0xFB,
            SystemMessage::Stop => 0xFC,
            SystemMessage::ActiveSensing => 0xFE,
            SystemMessage::Reset => 0xFF,
        }
    }
}

} // verus!
