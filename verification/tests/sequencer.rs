use crustysynth::channels::MidiChannel;
use crustysynth::chunks::MidiChunk;
use crustysynth::cursor::ByteCursor;
use crustysynth::keys::MidiKey;
use crustysynth::messages::{ChannelMessage, SystemMessage};
use crustysynth::midievent::MidiEvent;
use crustysynth::midifile::MidiFile;
use crustysynth::sequencer::{MidiSequencer, TrackSequencer};
use crustysynth::track::{MidiTrack, MidiTrackEvent};

fn header(format: u16, ntrks: u16, division: u16) -> Vec<u8> {
    let mut bytes = vec![b'M', b'T', b'h', b'd', 0, 0, 0, 6];
    bytes.extend_from_slice(&format.to_be_bytes());
    bytes.extend_from_slice(&ntrks.to_be_bytes());
    bytes.extend_from_slice(&division.to_be_bytes());
    bytes
}

fn track_chunk(payload: &[u8]) -> Vec<u8> {
    let mut bytes = vec![b'M', b'T', b'r', b'k'];
    bytes.extend_from_slice(&(payload.len() as u32).to_be_bytes());
    bytes.extend_from_slice(payload);
    bytes
}

fn track_from_payload(payload: &[u8]) -> MidiTrack {
    let mut cursor = ByteCursor::new(track_chunk(payload));
    let chunk = MidiChunk::read(&mut cursor).unwrap();
    MidiTrack::try_from(chunk).unwrap()
}

fn note_on(key: u8) -> MidiEvent {
    MidiEvent::Channel(ChannelMessage::NoteOn {
        channel: MidiChannel::Ch1,
        key: MidiKey(key),
        vel: 100,
    })
}

fn note_off(key: u8) -> MidiEvent {
    MidiEvent::Channel(ChannelMessage::NoteOff {
        channel: MidiChannel::Ch1,
        key: MidiKey(key),
        vel: 0,
    })
}

/// Drive one track cursor a tick at a time and collect what it emits.
fn drain(cursor: &mut TrackSequencer, max_ticks: usize) -> Vec<Vec<MidiTrackEvent>> {
    let mut ticks = Vec::new();
    for _ in 0..max_ticks {
        ticks.push(cursor.get_events());
    }
    ticks
}

#[test]
fn test_track_sequencer_emits_each_event_once_in_order() {
    // Deltas [0, 0, 2, 1]: two simultaneous events, one two ticks later,
    // one more on the following tick.
    let track = track_from_payload(&[
        0x00, 0x90, 60, 100, //
        0x00, 0x90, 62, 100, //
        0x02, 0x80, 60, 0, //
        0x01, 0x80, 62, 0,
    ]);
    let mut cursor = TrackSequencer::new(track);
    assert!(!cursor.is_finished());

    let ticks = drain(&mut cursor, 8);
    let emitted: Vec<&MidiTrackEvent> = ticks.iter().flatten().collect();
    assert_eq!(emitted.len(), 4);
    assert_eq!(emitted[0].get_event(), &note_on(60));
    assert_eq!(emitted[1].get_event(), &note_on(62));
    assert_eq!(emitted[2].get_event(), &note_off(60));
    assert_eq!(emitted[3].get_event(), &note_off(62));

    // The first tick carries both simultaneous events, in file order.
    assert_eq!(ticks[0].len(), 2);
    assert!(cursor.is_finished());
    // A finished cursor emits nothing more.
    assert_eq!(cursor.get_events().len(), 0);
    assert!(cursor.is_finished());
}

#[test]
fn test_sequencer_unloaded_reports_exhaustion() {
    let mut sequencer = MidiSequencer::new(44100);
    assert!(sequencer.advance().is_none());
}

#[test]
fn test_sequencer_merges_tracks_in_index_order() {
    // Two tracks with events on the same ticks: at a shared boundary the
    // lower track index is emitted first.
    let mut bytes = header(1, 2, 60);
    bytes.extend_from_slice(&track_chunk(&[0x00, 0x90, 60, 100, 0x01, 0x80, 60, 0]));
    bytes.extend_from_slice(&track_chunk(&[0x00, 0x90, 72, 100, 0x01, 0x80, 72, 0]));
    let file = MidiFile::parse(bytes).unwrap();

    // 60 ticks per beat at 120 beats per minute is 1/120 s per tick;
    // at 120 samples per second one tick spans one sample.
    let mut sequencer = MidiSequencer::new(120);
    sequencer.play_midi_file(file);

    let mut emitted: Vec<MidiTrackEvent> = Vec::new();
    let mut samples: usize = 0;
    while let Some(mut events) = sequencer.advance() {
        emitted.append(&mut events);
        samples += 1;
        assert!(samples < 100, "sequencer failed to finish");
    }
    let events: Vec<&MidiEvent> = emitted.iter().map(|e| e.get_event()).collect();
    assert_eq!(
        events,
        vec![&note_on(60), &note_on(72), &note_off(60), &note_off(72)]
    );
    // Exhaustion is permanent.
    assert!(sequencer.advance().is_none());
}

#[test]
fn test_sequencer_liveness_every_event_exactly_once() {
    // Unequal track lengths: playback ends exactly when the longest
    // track runs out, and each track contributed each of its events
    // exactly once.
    let mut bytes = header(1, 2, 60);
    bytes.extend_from_slice(&track_chunk(&[0x00, 0x90, 60, 100]));
    bytes.extend_from_slice(&track_chunk(&[
        0x05, 0x90, 72, 100, //
        0x00, 0x90, 74, 100, //
        0x03, 0x80, 72, 0,
    ]));
    let file = MidiFile::parse(bytes).unwrap();
    let mut sequencer = MidiSequencer::new(120);
    sequencer.play_midi_file(file);

    let mut emitted: Vec<MidiTrackEvent> = Vec::new();
    let mut samples: usize = 0;
    while let Some(mut events) = sequencer.advance() {
        emitted.append(&mut events);
        samples += 1;
        assert!(samples < 1000, "sequencer failed to finish");
    }
    let events: Vec<&MidiEvent> = emitted.iter().map(|e| e.get_event()).collect();
    assert_eq!(
        events,
        vec![&note_on(60), &note_on(72), &note_on(74), &note_off(72)]
    );
}

#[test]
fn test_end_to_end_single_track_schedule() {
    // A single-track file with events at delta times [0, 0, 10, 20]:
    // two simultaneous note-ons at position zero, a note-off ten ticks
    // later, and a final system event twenty ticks after that. (A bare
    // reset status byte inside a track would introduce a meta event, so
    // the closing event is active sensing, which rides in a track.)
    let mut bytes = header(0, 1, 60);
    bytes.extend_from_slice(&track_chunk(&[
        0x00, 0x90, 60, 100, //
        0x00, 0x90, 62, 100, //
        0x0A, 0x80, 60, 0, //
        0x14, 0xFE,
    ]));
    let file = MidiFile::parse(bytes).unwrap();

    // Tick duration 1/120 s at 120 samples per second: one tick per
    // sample, so a tick boundary falls on every second call.
    let mut sequencer = MidiSequencer::new(120);
    sequencer.play_midi_file(file);

    let mut emissions: Vec<(usize, Vec<MidiTrackEvent>)> = Vec::new();
    let mut boundaries: usize = 0;
    let mut calls: usize = 0;
    loop {
        calls += 1;
        assert!(calls < 1000, "sequencer failed to finish");
        match sequencer.advance() {
            None => break,
            Some(events) => {
                // With a one-sample tick, boundaries land on every
                // second call.
                if calls % 2 == 0 {
                    boundaries += 1;
                }
                if !events.is_empty() {
                    emissions.push((boundaries, events));
                }
            }
        }
    }

    assert_eq!(emissions.len(), 3);

    // Both position-zero events arrive on the first tick boundary, in
    // file order.
    let (first_boundary, first_events) = &emissions[0];
    assert_eq!(*first_boundary, 1);
    assert_eq!(first_events.len(), 2);
    assert_eq!(first_events[0].get_event(), &note_on(60));
    assert_eq!(first_events[1].get_event(), &note_on(62));

    // The note-off follows after exactly ten further tick boundaries.
    let (off_boundary, off_events) = &emissions[1];
    assert_eq!(*off_boundary, first_boundary + 10 + 1);
    assert_eq!(off_events.len(), 1);
    assert_eq!(off_events[0].get_event(), &note_off(60));
    assert_eq!(off_events[0].get_delta_time(), 10);

    // The closing event follows after twenty more.
    let (last_boundary, last_events) = &emissions[2];
    assert_eq!(*last_boundary, off_boundary + 20 + 1);
    assert_eq!(last_events.len(), 1);
    assert_eq!(
        last_events[0].get_event(),
        &MidiEvent::System(SystemMessage::ActiveSensing)
    );
    assert_eq!(last_events[0].get_delta_time(), 20);
}

#[test]
fn test_sequencer_counts_samples_between_ticks() {
    // 60 ticks per beat at 120 beats per minute and 1200 samples per
    // second: one tick spans ten samples.
    let mut bytes = header(0, 1, 60);
    bytes.extend_from_slice(&track_chunk(&[0x00, 0x90, 60, 100]));
    let file = MidiFile::parse(bytes).unwrap();
    let mut sequencer = MidiSequencer::new(1200);
    sequencer.play_midi_file(file);

    // The first ten calls only count samples; the eleventh reaches the
    // tick width and emits.
    for _ in 0..10 {
        assert_eq!(sequencer.advance().unwrap().len(), 0);
    }
    let events = sequencer.advance().unwrap();
    assert_eq!(events.len(), 1);
    assert_eq!(events[0].get_event(), &note_on(60));
    assert!(sequencer.advance().is_none());
}
