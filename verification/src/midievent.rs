//! Track events: channel messages, system messages, and meta events,
//! dispatched on the leading status byte.
//!
//! Status bytes `0x80` through `0xEF` open a channel message, `0xF0`
//! through `0xFE` a system message, and `0xFF` a meta event: a type
//! byte, a VLQ length, then exactly that many raw bytes.

use vstd::prelude::*;

use crate::cursor::ByteCursor;
use crate::cursor::copy_bytes;
use crate::messages::ChannelMessage;
use crate::messages::ChannelParse;
use crate::messages::MidiMessageError;
use crate::messages::SystemMessage;
use crate::messages::SystemModel;
use crate::messages::SystemParse;
use crate::messages::channel_message_parse;
use crate::messages::lemma_sysex_payload_bounds;
use crate::messages::system_message_parse;
use crate::vlq::VlqError;
use crate::vlq::VlqParse;
use crate::vlq::lemma_vlq_parse_bounds;
use crate::vlq::read_vlq;
use crate::vlq::vlq_parse;

verus! {

/// Why an event could not be decoded.
#[derive(Debug, Clone, Copy, PartialEq, Eq, Structural)]
#[allow(inconsistent_fields)]
pub enum MidiEventError {
    /// The stream ran out in the middle of the event.
    IOError,
    /// The length of a meta event was not a readable VLQ.
    VlqError { source: VlqError },
    /// The event's message could not be decoded.
    MessageError { source: MidiMessageError },
}

/// One event inside a track.
#[derive(Debug, PartialEq, Eq)]
pub enum MidiEvent {
    Channel(ChannelMessage),
    System(SystemMessage),
    Meta { meta_type: u8, data: Vec<u8> },
}

/// The mathematical shape of an event.
pub enum EventModel {
    Channel(ChannelMessage),
    System(SystemModel),
    Meta { meta_type: u8, data: Seq<u8> },
}

impl View for MidiEvent {
    type V = EventModel;

    open spec fn view(&self) -> EventModel {
        match self {
            MidiEvent::Channel(m) => EventModel::Channel(*m),
            MidiEvent::System(m) => EventModel::System(m@),
            MidiEvent::Meta { meta_type, data } => EventModel::Meta {
                meta_type: *meta_type,
                data: data@,
            },
        }
    }
}

impl Clone for MidiEvent {
    fn clone(&self) -> (res: Self)
        ensures
            res@ == self@,
    {
        match self {
            MidiEvent::Channel(m) => MidiEvent::Channel(*m),
            MidiEvent::System(m) => MidiEvent::System(m.clone()),
            MidiEvent::Meta { meta_type, data } => MidiEvent::Meta {
                meta_type: *meta_type,
                data: copy_bytes(data),
            },
        }
    }
}

/// Result of decoding an event: the event and the bytes it took,
/// status byte included, or the failure.
#[allow(inconsistent_fields)]
pub enum EventParse {
    Ev { e: EventModel, n: nat },
    Fail { e: MidiEventError },
}

/// Decode a meta event after its `0xFF` status byte: a type byte, a
/// bounded VLQ length, then exactly that many bytes of raw data.
pub open spec fn meta_parse(s: Seq<u8>) -> EventParse {
    if s.len() == 0 {
        EventParse::Fail { e: MidiEventError::IOError }
    } else {
        let mt: u8 = s[0] & 0x7f;
        match vlq_parse(s.skip(1)) {
            VlqParse::Value { v, n } => {
                let body = s.skip(1).skip(n as int);
                if body.len() < v {
                    EventParse::Fail { e: MidiEventError::IOError }
                } else {
                    EventParse::Ev {
                        e: EventModel::Meta { meta_type: mt, data: body.subrange(0, v as int) },
                        n: 1 + n + v,
                    }
                }
            },
            VlqParse::TooLarge => EventParse::Fail {
                e: MidiEventError::VlqError { source: VlqError::TooLarge },
            },
            VlqParse::Eof => EventParse::Fail {
                e: MidiEventError::VlqError { source: VlqError::IOError },
            },
        }
    }
}

/// Decode one event from the front of `s`, status byte first.
pub open spec fn event_parse(s: Seq<u8>) -> EventParse {
    if s.len() == 0 {
        EventParse::Fail { e: MidiEventError::IOError }
    } else {
        let st: u8 = s[0];
        let rest = s.skip(1);
        if 0x80 <= st && st <= 0xEF {
            match channel_message_parse(st, rest) {
                ChannelParse::Msg { m, n } => EventParse::Ev {
                    e: EventModel::Channel(m),
                    n: n + 1,
                },
                ChannelParse::Fail { e } => EventParse::Fail {
                    e: MidiEventError::MessageError { source: e },
                },
            }
        } else if 0xF0 <= st && st <= 0xFE {
            match system_message_parse(st, rest) {
                SystemParse::Msg { m, n } => EventParse::Ev { e: EventModel::System(m), n: n + 1 },
                SystemParse::Fail { e } => EventParse::Fail {
                    e: MidiEventError::MessageError { source: e },
                },
            }
        } else if st == 0xFF {
            match meta_parse(rest) {
                EventParse::Ev { e, n } => EventParse::Ev { e, n: n + 1 },
                f => f,
            }
        } else {
            EventParse::Fail {
                e: MidiEventError::MessageError { source: MidiMessageError::UnknownCommand(st) },
            }
        }
    }
}

/// A decoded event occupies between one byte and the whole sequence.
pub proof fn lemma_event_parse_bounds(s: Seq<u8>)
    ensures
        match event_parse(s) {
            EventParse::Ev { e, n } => 1 <= n <= s.len(),
            _ => true,
        },
{
    if s.len() > 0 {
        let st: u8 = s[0];
        let rest = s.skip(1);
        if 0xF0 <= st && st <= 0xFE {
            if rest.len() > 0 {
                lemma_sysex_payload_bounds(rest.skip(1));
            }
        } else if st == 0xFF {
            if rest.len() > 0 {
                lemma_vlq_parse_bounds(rest.skip(1), 0);
            }
        }
    }
}

impl MidiEvent {
    /// Read one event, status byte first.
    pub fn read(file: &mut ByteCursor) -> (r: Result<MidiEvent, MidiEventError>)
        requires
            old(file).wf(),
        ensures
            final(file).wf(),
            final(file).data_seq() == old(file).data_seq(),
            old(file).pos_int() <= final(file).pos_int(),
            match event_parse(old(file).remaining()) {
                EventParse::Ev { e, n } => (match r {
                    Ok(ev) => ev@ == e && final(file).pos_int() == old(file).pos_int() + n,
                    Err(_) => false,
                }),
                EventParse::Fail { e } => r == Err::<MidiEvent, MidiEventError>(e),
            },
    {
        let status_byte = match file.read_byte() {
            Some(b) => b,
            None => {
                return Err(MidiEventError::IOError);
            },
        };
        if 0x80 <= status_byte && status_byte <= 0xEF {
            match ChannelMessage::read_with_status(status_byte, file) {
                Ok(m) => Ok(MidiEvent::Channel(m)),
                Err(e) => Err(MidiEventError::MessageError { source: e }),
            }
        } else if 0xF0 <= status_byte && status_byte <= 0xFE {
            match SystemMessage::read_with_status(status_byte, file) {
                Ok(m) => Ok(MidiEvent::System(m)),
                Err(e) => Err(MidiEventError::MessageError { source: e }),
            }
        } else if status_byte == 0xFF {
            let type_byte = match file.read_byte() {
                Some(b) => b,
                None => {
                    return Err(MidiEventError::IOError);
                },
            };
            let meta_type = type_byte & 0x7F;
            let ghost rem_at_len = file.remaining();
            let ghost pos_at_len = file.pos_int();
            let len = match read_vlq(file) {
                Ok(len) => len,
                Err(e) => {
                    return Err(MidiEventError::VlqError { source: e });
                },
            };
            proof {
                lemma_vlq_parse_bounds(rem_at_len, 0);
                assert(file.remaining() =~= rem_at_len.skip(file.pos_int() - pos_at_len));
            }
            let data = match file.read_bytes(len) {
                Some(data) => data,
                None => {
                    return Err(MidiEventError::IOError);
                },
            };
            Ok(MidiEvent::Meta { meta_type, data })
        } else {
            Err(MidiEventError::MessageError {
                source: MidiMessageError::UnknownCommand(status_byte),
            })
        }
    }

    /// The status byte of the event's message; `0xFF` for a meta event.
    pub open spec fn spec_command(self) -> u8 {
        match self {
            MidiEvent::Channel(m) => m.spec_command(),
            MidiEvent::System(m) => m.spec_command(),
            MidiEvent::Meta { .. } => 0xFF,
        }
    }

    pub fn get_command(&self) -> (b: u8)
        ensures
            b == self.spec_command(),
    {
        match self {
            MidiEvent::Channel(m) => m.get_command(),
            MidiEvent::System(m) => m.get_command(),
            MidiEvent::Meta { .. } => 0xFF,
        }
    }
}

} // verus!
