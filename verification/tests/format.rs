use crustysynth::format::{Channel, Note, Status};

#[test]
fn test_status_round_trip() {
    assert_eq!(Status::try_from(0x93), Ok(Status::NoteOn));
    assert_eq!(Status::try_from(0x80), Ok(Status::NoteOff));
    assert_eq!(Status::try_from(0xE7), Ok(Status::PitchBend));
    assert_eq!(Status::try_from(0x42), Err(()));
    assert_eq!(Status::try_from(0xF0), Err(()));
    assert_eq!(Status::NoteOn.to_byte(), 0x90);
    assert_eq!(Status::ControllerChange.to_byte(), 0xB0);
    assert_eq!(
        Status::try_from(Status::ChannelPressure.to_byte()),
        Ok(Status::ChannelPressure)
    );
}

#[test]
fn test_channel_number_round_trip() {
    assert_eq!(Channel::try_from(0), Ok(Channel::Ch1));
    assert_eq!(Channel::try_from(15), Ok(Channel::Ch16));
    assert_eq!(Channel::try_from(16), Err(()));
    assert_eq!(Channel::try_from(0x90), Err(()));
    assert_eq!(Channel::Ch10.to_byte(), 9);
    assert_eq!(Channel::try_from(Channel::Ch7.to_byte()), Ok(Channel::Ch7));
}

#[test]
fn test_note_round_trip() {
    assert_eq!(Note::try_from(0), Ok(Note::C0));
    assert_eq!(Note::try_from(60), Ok(Note::C5));
    assert_eq!(Note::try_from(127), Ok(Note::G21));
    assert_eq!(Note::try_from(128), Err(()));
    assert_eq!(Note::try_from(255), Err(()));
    assert_eq!(Note::A5.to_byte(), 69);
    assert_eq!(Note::try_from(Note::DS3.to_byte()), Ok(Note::DS3));
}
