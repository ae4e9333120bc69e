//! Decoder and sequencing engine for Standard MIDI File (SMF) data.
//!
//! The decoder turns raw bytes into a structured, validated file model:
//! chunk framing, variable-length-quantity integers, timing division,
//! and channel/system/meta events. The sequencer advances that model
//! tick by tick against a caller-driven sample clock, emitting events
//! in a deterministic order. Audio synthesis and file input are left to
//! the embedding application.

pub mod channels;
pub mod chunks;
pub mod cursor;
pub mod division;
pub mod format;
pub mod keys;
pub mod messages;
pub mod midievent;
pub mod midifile;
pub mod sequencer;
pub mod track;
pub mod vlq;

pub use cursor::ByteCursor;
