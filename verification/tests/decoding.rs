use crustysynth::channels::MidiChannel;
use crustysynth::chunks::{MidiChunk, MidiChunkError, MidiChunkType};
use crustysynth::cursor::ByteCursor;
use crustysynth::keys::{MidiKey, MidiKeyError};
use crustysynth::messages::{ChannelMessage, MidiMessageError, SystemMessage};
use crustysynth::midievent::{MidiEvent, MidiEventError};
use crustysynth::track::{MidiTrack, MidiTrackError};
use crustysynth::vlq::VlqError;

#[test]
fn test_channel_message_note_on() {
    let mut cursor = ByteCursor::new(vec![0x93, 0x3C, 0x64]);
    let msg = ChannelMessage::read(&mut cursor).unwrap();
    assert_eq!(
        msg,
        ChannelMessage::NoteOn {
            channel: MidiChannel::Ch4,
            key: MidiKey(60),
            vel: 100,
        }
    );
    assert_eq!(msg.get_command(), 0x90);
}

#[test]
fn test_channel_message_note_off_masks_seven_bits() {
    // Data bytes with their high bit set are masked to seven bits.
    let mut cursor = ByteCursor::new(vec![0x80, 0xBC, 0xE4]);
    let msg = ChannelMessage::read(&mut cursor).unwrap();
    assert_eq!(
        msg,
        ChannelMessage::NoteOff {
            channel: MidiChannel::Ch1,
            key: MidiKey(0x3C),
            vel: 0x64,
        }
    );
}

#[test]
fn test_controller_numbers_reclassified_as_channel_mode() {
    // Controller numbers 120 through 127 select channel-mode operations.
    let mut cursor = ByteCursor::new(vec![120, 0]);
    let msg = ChannelMessage::read_with_status(0xB2, &mut cursor).unwrap();
    assert_eq!(
        msg,
        ChannelMessage::ChannelMode {
            channel: MidiChannel::Ch3,
            control: 120,
            value: 0,
        }
    );
    assert_eq!(msg.get_command(), 0xB0);

    let mut cursor = ByteCursor::new(vec![119, 7]);
    let msg = ChannelMessage::read_with_status(0xB2, &mut cursor).unwrap();
    assert_eq!(
        msg,
        ChannelMessage::ControlChange {
            channel: MidiChannel::Ch3,
            control: 119,
            value: 7,
        }
    );
}

#[test]
fn test_pitch_bend_combines_fourteen_bits() {
    // LSB first: value = (MSB << 7) + LSB.
    let mut cursor = ByteCursor::new(vec![0x01, 0x02]);
    let msg = ChannelMessage::read_with_status(0xE0, &mut cursor).unwrap();
    assert_eq!(
        msg,
        ChannelMessage::PitchBend {
            channel: MidiChannel::Ch1,
            value: 0x101,
        }
    );
    assert_eq!(msg.dispatch_args(), (0, 0xE0, 0x101, 0));
}

#[test]
fn test_dispatch_args_note_on() {
    let msg = ChannelMessage::NoteOn {
        channel: MidiChannel::Ch10,
        key: MidiKey(60),
        vel: 100,
    };
    assert_eq!(msg.dispatch_args(), (9, 0x90, 60, 100));
}

#[test]
fn test_channel_message_unknown_command() {
    let mut cursor = ByteCursor::new(vec![1, 2]);
    assert_eq!(
        ChannelMessage::read_with_status(0x70, &mut cursor),
        Err(MidiMessageError::UnknownCommand(0x70))
    );
    let mut cursor = ByteCursor::new(vec![1, 2]);
    assert_eq!(
        ChannelMessage::read_with_status(0xF0, &mut cursor),
        Err(MidiMessageError::UnknownCommand(0xF0))
    );
}

#[test]
fn test_channel_message_exhausted_stream() {
    let mut cursor = ByteCursor::new(vec![0x90, 0x3C]);
    assert_eq!(
        ChannelMessage::read(&mut cursor),
        Err(MidiMessageError::IOError)
    );
}

#[test]
fn test_key_out_of_range() {
    assert_eq!(MidiKey::try_from(60), Ok(MidiKey(60)));
    assert_eq!(MidiKey::try_from(127).unwrap().as_byte(), 127);
    assert_eq!(MidiKey::try_from(200), Err(MidiKeyError::OutOfRange(200)));
}

#[test]
fn test_system_message_sysex() {
    let mut cursor = ByteCursor::new(vec![0xF0, 0x41, 0x01, 0x02, 0xF7, 0x99]);
    let msg = SystemMessage::read(&mut cursor).unwrap();
    assert_eq!(
        msg,
        SystemMessage::SysEx {
            id: 0x41,
            data: vec![0x01, 0x02, 0xF7],
        }
    );
    assert_eq!(msg.get_command(), 0xF0);
    // The terminator is consumed; the next byte is the one after it.
    assert_eq!(cursor.read_byte(), Some(0x99));
}

#[test]
fn test_system_message_sysex_unterminated() {
    let mut cursor = ByteCursor::new(vec![0xF0, 0x41, 0x01, 0x02]);
    assert_eq!(
        SystemMessage::read(&mut cursor),
        Err(MidiMessageError::IOError)
    );
}

#[test]
fn test_system_message_song_position_pointer() {
    let mut cursor = ByteCursor::new(vec![0xF2, 0x05, 0x01]);
    let msg = SystemMessage::read(&mut cursor).unwrap();
    assert_eq!(msg, SystemMessage::SongPositionPointer { position: 0x85 });
}

#[test]
fn test_system_message_realtime() {
    let mut cursor = ByteCursor::new(vec![0xF8]);
    assert_eq!(
        SystemMessage::read(&mut cursor).unwrap(),
        SystemMessage::TimingClock
    );
    let mut cursor = ByteCursor::new(vec![]);
    assert_eq!(
        SystemMessage::read_with_status(0xFF, &mut cursor).unwrap(),
        SystemMessage::Reset
    );
    let mut cursor = ByteCursor::new(vec![]);
    assert_eq!(
        SystemMessage::read_with_status(0xF4, &mut cursor),
        Err(MidiMessageError::UnknownCommand(0xF4))
    );
}

#[test]
fn test_event_meta() {
    let mut cursor = ByteCursor::new(vec![0xFF, 0x51, 0x03, 0x07, 0xA1, 0x20]);
    let event = MidiEvent::read(&mut cursor).unwrap();
    assert_eq!(
        event,
        MidiEvent::Meta {
            meta_type: 0x51,
            data: vec![0x07, 0xA1, 0x20],
        }
    );
    assert_eq!(event.get_command(), 0xFF);
}

#[test]
fn test_event_meta_truncated_data() {
    let mut cursor = ByteCursor::new(vec![0xFF, 0x01, 0x05, 0x01]);
    assert_eq!(MidiEvent::read(&mut cursor), Err(MidiEventError::IOError));
}

#[test]
fn test_event_meta_length_too_large() {
    let mut cursor = ByteCursor::new(vec![0xFF, 0x01, 0xFF, 0xFF, 0xFF, 0xFF, 0x7F]);
    assert_eq!(
        MidiEvent::read(&mut cursor),
        Err(MidiEventError::VlqError {
            source: VlqError::TooLarge
        })
    );
}

#[test]
fn test_event_families() {
    let mut cursor = ByteCursor::new(vec![0x90, 0x3C, 0x64]);
    let event = MidiEvent::read(&mut cursor).unwrap();
    assert_eq!(event.get_command(), 0x90);

    let mut cursor = ByteCursor::new(vec![0xF6]);
    let event = MidiEvent::read(&mut cursor).unwrap();
    assert_eq!(event, MidiEvent::System(SystemMessage::TuneRequest));

    let mut cursor = ByteCursor::new(vec![0x42]);
    assert_eq!(
        MidiEvent::read(&mut cursor),
        Err(MidiEventError::MessageError {
            source: MidiMessageError::UnknownCommand(0x42)
        })
    );
}

#[test]
fn test_chunk_read_track() {
    let mut cursor = ByteCursor::new(vec![
        b'M', b'T', b'r', b'k', 0, 0, 0, 3, 0xAA, 0xBB, 0xCC, 0xDD,
    ]);
    let chunk = MidiChunk::read(&mut cursor).unwrap();
    assert_eq!(chunk.get_type(), MidiChunkType::MTrk);
    assert_eq!(chunk.get_length(), 3);
    assert_eq!(chunk.get_data(), &vec![0xAA, 0xBB, 0xCC]);
    // Only the declared payload is consumed.
    assert_eq!(cursor.read_byte(), Some(0xDD));
}

#[test]
fn test_chunk_header_length_must_be_six() {
    let mut cursor = ByteCursor::new(vec![b'M', b'T', b'h', b'd', 0, 0, 0, 5, 1, 2, 3, 4, 5]);
    assert_eq!(
        MidiChunk::read(&mut cursor),
        Err(MidiChunkError::UnexpectedHeaderLength(5))
    );
}

#[test]
fn test_chunk_unknown_type_is_consumed_whole() {
    let mut cursor = ByteCursor::new(vec![b'X', b'F', b'I', b'H', 0, 0, 0, 2, 9, 9, 0x55]);
    assert_eq!(
        MidiChunk::read(&mut cursor),
        Err(MidiChunkError::UnknownChunkType)
    );
    // The unknown chunk's length and payload were skipped.
    assert_eq!(cursor.read_byte(), Some(0x55));
}

#[test]
fn test_chunk_exhausted_stream() {
    let mut cursor = ByteCursor::new(vec![b'M', b'T', b'r', b'k', 0, 0, 0, 9, 1]);
    assert_eq!(MidiChunk::read(&mut cursor), Err(MidiChunkError::IOError));
}

#[test]
fn test_chunk_type_try_from() {
    assert_eq!(
        MidiChunkType::try_from([b'M', b'T', b'h', b'd']),
        Ok(MidiChunkType::MThd)
    );
    assert_eq!(
        MidiChunkType::try_from([b'M', b'T', b'r', b'k']),
        Ok(MidiChunkType::MTrk)
    );
    assert_eq!(
        MidiChunkType::try_from([b'R', b'I', b'F', b'F']),
        Err(MidiChunkError::UnknownChunkType)
    );
}

#[test]
fn test_track_decodes_pairs_until_exhausted() {
    let mut cursor = ByteCursor::new(vec![
        b'M', b'T', b'r', b'k', 0, 0, 0, 9, //
        0x00, 0x90, 0x3C, 0x64, // delta 0, note on
        0x8A, 0x00, 0x80, 0x3C, 0x00, // delta 0x500, note off
    ]);
    let chunk = MidiChunk::read(&mut cursor).unwrap();
    let track = MidiTrack::try_from(chunk).unwrap();
    let events = track.get_events();
    assert_eq!(events.len(), 2);
    assert_eq!(events[0].get_delta_time(), 0);
    assert_eq!(
        events[0].get_event(),
        &MidiEvent::Channel(ChannelMessage::NoteOn {
            channel: MidiChannel::Ch1,
            key: MidiKey(60),
            vel: 100,
        })
    );
    assert_eq!(events[1].get_delta_time(), 0x500);
    assert_eq!(
        events[1].get_event(),
        &MidiEvent::Channel(ChannelMessage::NoteOff {
            channel: MidiChannel::Ch1,
            key: MidiKey(60),
            vel: 0,
        })
    );
}

#[test]
fn test_track_rejects_header_chunk() {
    let mut cursor = ByteCursor::new(vec![b'M', b'T', b'h', b'd', 0, 0, 0, 6, 0, 0, 0, 1, 0, 96]);
    let chunk = MidiChunk::read(&mut cursor).unwrap();
    assert_eq!(
        MidiTrack::try_from(chunk),
        Err(MidiTrackError::InvalidChunkType(MidiChunkType::MThd))
    );
}

#[test]
fn test_track_wraps_event_error() {
    let mut cursor = ByteCursor::new(vec![b'M', b'T', b'r', b'k', 0, 0, 0, 2, 0x00, 0x42]);
    let chunk = MidiChunk::read(&mut cursor).unwrap();
    assert_eq!(
        MidiTrack::try_from(chunk),
        Err(MidiTrackError::Event {
            source: MidiEventError::MessageError {
                source: MidiMessageError::UnknownCommand(0x42)
            }
        })
    );
}

#[test]
fn test_track_truncated_pair() {
    let mut cursor = ByteCursor::new(vec![b'M', b'T', b'r', b'k', 0, 0, 0, 1, 0x81]);
    let chunk = MidiChunk::read(&mut cursor).unwrap();
    assert_eq!(MidiTrack::try_from(chunk), Err(MidiTrackError::IOError));
}

#[test]
fn test_channel_round_trip() {
    for n in 0..16_u8 {
        let channel = MidiChannel::from_status_byte(0x90 | n);
        assert_eq!(channel.as_byte(), n);
    }
    assert_eq!(MidiChannel::from_status_byte(0x95), MidiChannel::Ch6);
}
