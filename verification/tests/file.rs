use crustysynth::division::Division;
use crustysynth::midifile::{MidiFile, MidiFileError, MidiFileFormat};

fn header(format: u16, ntrks: u16, division: u16) -> Vec<u8> {
    let mut bytes = vec![b'M', b'T', b'h', b'd', 0, 0, 0, 6];
    bytes.extend_from_slice(&format.to_be_bytes());
    bytes.extend_from_slice(&ntrks.to_be_bytes());
    bytes.extend_from_slice(&division.to_be_bytes());
    bytes
}

fn track_chunk(payload: &[u8]) -> Vec<u8> {
    let mut bytes = vec![b'M', b'T', b'r', b'k'];
    bytes.extend_from_slice(&(payload.len() as u32).to_be_bytes());
    bytes.extend_from_slice(payload);
    bytes
}

const NOTE_ON: [u8; 4] = [0x00, 0x90, 0x3C, 0x64];

#[test]
fn test_file_format_try_from() {
    assert_eq!(
        MidiFileFormat::try_from(0_u16).unwrap(),
        MidiFileFormat::SingleTrack
    );
    assert_eq!(
        MidiFileFormat::try_from(1_u16).unwrap(),
        MidiFileFormat::MultiTrack
    );
    assert_eq!(
        MidiFileFormat::try_from(2_u16).unwrap(),
        MidiFileFormat::MultiTrackAsync
    );
    assert_eq!(
        MidiFileFormat::try_from(3_u16),
        Err(MidiFileError::UnknownFormat(3))
    );
}

#[test]
fn test_file_single_track() {
    let mut bytes = header(0, 1, 96);
    bytes.extend_from_slice(&track_chunk(&NOTE_ON));
    let file = MidiFile::parse(bytes).unwrap();
    assert_eq!(file.get_format(), MidiFileFormat::SingleTrack);
    assert_eq!(file.get_division(), Division::Metrical(96));
    assert_eq!(file.get_tracks().len(), 1);
    assert_eq!(file.get_tracks()[0].get_events().len(), 1);
}

#[test]
fn test_file_single_track_declaring_two_tracks_fails() {
    let mut bytes = header(0, 2, 96);
    bytes.extend_from_slice(&track_chunk(&NOTE_ON));
    bytes.extend_from_slice(&track_chunk(&NOTE_ON));
    assert_eq!(
        MidiFile::parse(bytes),
        Err(MidiFileError::Type0TooManyTracks)
    );
}

#[test]
fn test_file_without_tracks_fails() {
    let bytes = header(1, 0, 96);
    assert_eq!(MidiFile::parse(bytes), Err(MidiFileError::NoTracks));
}

#[test]
fn test_file_second_header_fails() {
    let mut bytes = header(1, 2, 96);
    bytes.extend_from_slice(&track_chunk(&NOTE_ON));
    bytes.extend_from_slice(&header(1, 1, 96));
    assert_eq!(MidiFile::parse(bytes), Err(MidiFileError::MultipleHeaders));
}

#[test]
fn test_file_unknown_chunk_is_skipped() {
    // An unrecognized chunk between the header and the first track chunk
    // is skipped silently and does not affect the track count.
    let mut bytes = header(1, 2, 96);
    bytes.extend_from_slice(&[b'X', b'F', b'I', b'H', 0, 0, 0, 3, 9, 9, 9]);
    bytes.extend_from_slice(&track_chunk(&NOTE_ON));
    bytes.extend_from_slice(&[b'J', b'U', b'N', b'K', 0, 0, 0, 1, 7]);
    bytes.extend_from_slice(&track_chunk(&NOTE_ON));
    let file = MidiFile::parse(bytes).unwrap();
    assert_eq!(file.get_tracks().len(), 2);
}

#[test]
fn test_file_must_start_with_header() {
    let bytes = track_chunk(&NOTE_ON);
    assert_eq!(MidiFile::parse(bytes), Err(MidiFileError::NoHeader));

    let mut unknown_first = vec![b'N', b'O', b'P', b'E', 0, 0, 0, 0];
    unknown_first.extend_from_slice(&track_chunk(&NOTE_ON));
    assert_eq!(
        MidiFile::parse(unknown_first),
        Err(MidiFileError::NoHeader)
    );
}

#[test]
fn test_file_unknown_format_fails() {
    let mut bytes = header(7, 1, 96);
    bytes.extend_from_slice(&track_chunk(&NOTE_ON));
    assert_eq!(MidiFile::parse(bytes), Err(MidiFileError::UnknownFormat(7)));
}

#[test]
fn test_file_bad_division_fails() {
    let mut bytes = header(1, 1, 0);
    bytes.extend_from_slice(&track_chunk(&NOTE_ON));
    assert!(matches!(
        MidiFile::parse(bytes),
        Err(MidiFileError::DivisionError { .. })
    ));
}

#[test]
fn test_file_truncated_fails() {
    let mut bytes = header(1, 1, 96);
    bytes.extend_from_slice(&[b'M', b'T', b'r', b'k', 0, 0, 0, 9, 0x00]);
    assert!(matches!(
        MidiFile::parse(bytes),
        Err(MidiFileError::ChunkError { .. })
    ));
}
