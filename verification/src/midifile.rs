//! The whole-file decoder: header chunk, timing division, and tracks.
//!
//! The first chunk must be a header; its six-byte payload declares the
//! format, the track count and the division. Chunks are then read until
//! that many track chunks have been decoded; unknown chunk types in
//! between are skipped without being counted, and a second header is an
//! error. A single-track file may declare at most one track, and a file
//! without tracks is rejected.

use vstd::prelude::*;

use crate::chunks::ChunkParse;
use crate::chunks::MidiChunk;
use crate::chunks::MidiChunkError;
use crate::chunks::MidiChunkType;
use crate::chunks::chunk_parse;
use crate::chunks::lemma_chunk_parse_bounds;
use crate::cursor::ByteCursor;
use crate::division::Division;
use crate::division::DivisionError;
use crate::division::spec_division_try_from;
use crate::division::spec_frame_duration;
use crate::track::MidiTrack;
use crate::track::TrackEventModel;
use crate::track::TrackParse;
use crate::track::MidiTrackError;
use crate::track::track_events_parse;

verus! {

/// Why a file could not be decoded.
#[derive(Debug, Clone, Copy, PartialEq, Eq, Structural)]
#[allow(inconsistent_fields)]
pub enum MidiFileError {
    /// The stream ran out in the middle of the file.
    IOError,
    /// A chunk could not be framed.
    ChunkError { source: MidiChunkError },
    /// A track chunk's payload could not be decoded.
    TrackError { source: MidiTrackError },
    /// The header's division field could not be decoded.
    DivisionError { source: DivisionError },
    /// The file did not start with a header chunk.
    NoHeader,
    /// The file declared no track chunks.
    NoTracks,
    /// A single-track file declared more than one track.
    Type0TooManyTracks,
    /// A second header chunk appeared among the tracks.
    MultipleHeaders,
    /// The header named a format other than 0, 1 or 2.
    UnknownFormat(u16),
}

/// The three file formats of the header.
#[derive(Debug, PartialEq, Eq, Structural, Clone, Copy)]
pub enum MidiFileFormat {
    /// Type 0: a single track.
    SingleTrack,
    /// Type 1: several tracks that play simultaneously.
    MultiTrack,
    /// Type 2: several independent tracks.
    MultiTrackAsync,
}

/// Decode the header's format word.
pub open spec fn spec_format_try_from(buffer: u16) -> Result<MidiFileFormat, MidiFileError> {
    if buffer == 0 {
        Ok(MidiFileFormat::SingleTrack)
    } else if buffer == 1 {
        Ok(MidiFileFormat::MultiTrack)
    } else if buffer == 2 {
        Ok(MidiFileFormat::MultiTrackAsync)
    } else {
        Err(MidiFileError::UnknownFormat(buffer))
    }
}

impl MidiFileFormat {
    /// Decode the header's format word: 0, 1 or 2.
    pub fn try_from(buffer: u16) -> (r: Result<MidiFileFormat, MidiFileError>)
        ensures
            r == spec_format_try_from(buffer),
    {
        if buffer == 0 {
            Ok(MidiFileFormat::SingleTrack)
        } else if buffer == 1 {
            Ok(MidiFileFormat::MultiTrack)
        } else if buffer == 2 {
            Ok(MidiFileFormat::MultiTrackAsync)
        } else {
            Err(MidiFileError::UnknownFormat(buffer))
        }
    }
}

/// Two bytes read as a big-endian 16-bit integer.
pub open spec fn be_u16(s: Seq<u8>) -> u16 {
    (s[0] as u16 * 256 + s[1] as u16) as u16
}

/// Result of collecting `need` track chunks from the front of `s`.
pub enum TracksParse {
    Done { tracks: Seq<Seq<TrackEventModel>> },
    Fail { e: MidiFileError },
}

/// Collect `need` track chunks from the front of `s`, decoding each
/// payload; unknown chunks are skipped without being counted, and a
/// second header is an error.
pub open spec fn tracks_parse(s: Seq<u8>, need: nat) -> TracksParse
    decreases s.len(),
{
    if need == 0 {
        TracksParse::Done { tracks: Seq::empty() }
    } else {
        match chunk_parse(s) {
            ChunkParse::Chunk { c, n } => {
                if c.kind == MidiChunkType::MThd {
                    TracksParse::Fail { e: MidiFileError::MultipleHeaders }
                } else {
                    match track_events_parse(c.data) {
                        TrackParse::Evts { evts } => {
                            proof {
                                lemma_chunk_parse_bounds(s);
                            }
                            match tracks_parse(s.skip(n as int), (need - 1) as nat) {
                                TracksParse::Done { tracks } => TracksParse::Done {
                                    tracks: seq![evts] + tracks,
                                },
                                f => f,
                            }
                        },
                        TrackParse::Fail { e } => TracksParse::Fail {
                            e: MidiFileError::TrackError { source: e },
                        },
                    }
                }
            },
            ChunkParse::Unknown { n } => {
                proof {
                    lemma_chunk_parse_bounds(s);
                }
                tracks_parse(s.skip(n as int), need)
            },
            ChunkParse::Fail { e } => TracksParse::Fail {
                e: MidiFileError::ChunkError { source: e },
            },
        }
    }
}

/// Collecting `need` track chunks yields exactly `need` tracks.
pub proof fn lemma_tracks_parse_count(s: Seq<u8>, need: nat)
    ensures
        match tracks_parse(s, need) {
            TracksParse::Done { tracks } => tracks.len() == need,
            TracksParse::Fail { e } => true,
        },
    decreases s.len(),
{
    if need > 0 {
        match chunk_parse(s) {
            ChunkParse::Chunk { c, n } => {
                if c.kind != MidiChunkType::MThd {
                    if let TrackParse::Evts { evts } = track_events_parse(c.data) {
                        lemma_chunk_parse_bounds(s);
                        lemma_tracks_parse_count(s.skip(n as int), (need - 1) as nat);
                    }
                }
            },
            ChunkParse::Unknown { n } => {
                lemma_chunk_parse_bounds(s);
                lemma_tracks_parse_count(s.skip(n as int), need);
            },
            ChunkParse::Fail { e } => {},
        }
    }
}

/// The mathematical shape of a decoded file.
pub struct FileModel {
    pub format: MidiFileFormat,
    pub ntrks: u16,
    pub division: Division,
    pub tracks: Seq<Seq<TrackEventModel>>,
}

impl FileModel {
    /// The structural invariants of a decoded file: a real division, as
    /// many tracks as the header declared, at least one of them, and a
    /// single-track file holding exactly one.
    pub open spec fn wf(self) -> bool {
        &&& self.division.wf()
        &&& self.tracks.len() == self.ntrks
        &&& 1 <= self.ntrks
        &&& (self.format == MidiFileFormat::SingleTrack ==> self.ntrks == 1)
    }
}

/// Result of decoding a whole file.
pub enum FileParse {
    File { f: FileModel },
    Fail { e: MidiFileError },
}

/// Decode a whole file: a header chunk first — any other first chunk,
/// unknown ones included, is `NoHeader` — then its format, track count
/// and division, then exactly `ntrks` track chunks.
pub open spec fn file_parse(s: Seq<u8>) -> FileParse {
    match chunk_parse(s) {
        ChunkParse::Chunk { c, n } => {
            if c.kind != MidiChunkType::MThd {
                FileParse::Fail { e: MidiFileError::NoHeader }
            } else {
                match spec_format_try_from(be_u16(c.data.subrange(0, 2))) {
                    Err(e) => FileParse::Fail { e },
                    Ok(format) => {
                        let ntrks = be_u16(c.data.subrange(2, 4));
                        if format == MidiFileFormat::SingleTrack && ntrks > 1 {
                            FileParse::Fail { e: MidiFileError::Type0TooManyTracks }
                        } else {
                            match spec_division_try_from(be_u16(c.data.subrange(4, 6))) {
                                Err(e) => FileParse::Fail {
                                    e: MidiFileError::DivisionError { source: e },
                                },
                                Ok(division) => match tracks_parse(s.skip(n as int), ntrks as nat) {
                                    TracksParse::Done { tracks } => {
                                        if tracks.len() == 0 {
                                            FileParse::Fail { e: MidiFileError::NoTracks }
                                        } else {
                                            FileParse::File {
                                                f: FileModel { format, ntrks, division, tracks },
                                            }
                                        }
                                    },
                                    TracksParse::Fail { e } => FileParse::Fail { e },
                                },
                            }
                        }
                    },
                }
            }
        },
        ChunkParse::Unknown { n } => FileParse::Fail { e: MidiFileError::NoHeader },
        ChunkParse::Fail { e } => FileParse::Fail { e: MidiFileError::ChunkError { source: e } },
    }
}

/// A division field that decodes at all decodes to a well-formed
/// division.
pub proof fn lemma_division_decode_wf(value: u16)
    ensures
        match spec_division_try_from(value) {
            Ok(d) => d.wf(),
            Err(e) => true,
        },
{
    assert(value & 0x8000 == 0 && value != 0 ==> 1 <= value <= 0x7FFF) by (bit_vector);
    if value != 0 && value & 0x8000 != 0 {
        let frame: i8 = (value >> 8) as i8;
        let ticks_per_frame: u8 = (value & 0xFF) as u8;
        if let Some(fd) = spec_frame_duration(frame) {
            if ticks_per_frame != 0 {
                assert(1 <= fd.den * ticks_per_frame <= 2997 * 255) by (nonlinear_arith)
                    requires
                        1 <= fd.den <= 2997,
                        1 <= ticks_per_frame <= 255,
                ;
            }
        }
    }
}

/// File structural invariants: whatever file the decoder accepts is
/// well formed — its division is real, its track count matches the
/// header and is at least one, and a single-track file holds exactly
/// one track.
pub proof fn lemma_file_parse_wf(s: Seq<u8>)
    ensures
        match file_parse(s) {
            FileParse::File { f } => f.wf(),
            FileParse::Fail { e } => true,
        },
{
    if let ChunkParse::Chunk { c, n } = chunk_parse(s) {
        if c.kind == MidiChunkType::MThd {
            if let Ok(format) = spec_format_try_from(be_u16(c.data.subrange(0, 2))) {
                let ntrks = be_u16(c.data.subrange(2, 4));
                lemma_division_decode_wf(be_u16(c.data.subrange(4, 6)));
                lemma_tracks_parse_count(s.skip(n as int), ntrks as nat);
            }
        }
    }
}

/// The contents of a MIDI file.
#[derive(Debug, PartialEq, Eq)]
pub struct MidiFile {
    format: MidiFileFormat,
    ntrks: u16,
    division: Division,
    tracks: Vec<MidiTrack>,
}

impl View for MidiFile {
    type V = FileModel;

    closed spec fn view(&self) -> FileModel {
        FileModel {
            format: self.format,
            ntrks: self.ntrks,
            division: self.division,
            tracks: self.tracks@.map_values(|t: MidiTrack| t@),
        }
    }
}

impl MidiFile {
    /// The structural invariants, read off the model.
    pub open spec fn wf(self) -> bool {
        self@.wf()
    }

    /// Decode a whole file from its raw bytes.
    pub fn parse(data: Vec<u8>) -> (r: Result<MidiFile, MidiFileError>)
        ensures
            match file_parse(data@) {
                FileParse::File { f } => (match r {
                    Ok(file) => file@ == f && file.wf(),
                    Err(_) => false,
                }),
                FileParse::Fail { e } => r == Err::<MidiFile, MidiFileError>(e),
            },
    {
        let ghost whole = data@;
        let mut reader = ByteCursor::new(data);
        proof {
            assert(reader.remaining() =~= whole);
            lemma_chunk_parse_bounds(whole);
        }
        let header_chunk = match MidiChunk::read(&mut reader) {
            Ok(header_chunk) => header_chunk,
            Err(MidiChunkError::UnknownChunkType) => {
                return Err(MidiFileError::NoHeader);
            },
            Err(e) => {
                return Err(MidiFileError::ChunkError { source: e });
            },
        };
        if header_chunk.get_type() != MidiChunkType::MThd {
            return Err(MidiFileError::NoHeader);
        }
        let header_data = header_chunk.get_data();
        let format_raw: u16 = header_data[0] as u16 * 256 + header_data[1] as u16;
        let format = match MidiFileFormat::try_from(format_raw) {
            Ok(format) => format,
            Err(e) => {
                return Err(e);
            },
        };
        let ntrks: u16 = header_data[2] as u16 * 256 + header_data[3] as u16;
        if format == MidiFileFormat::SingleTrack && ntrks > 1 {
            return Err(MidiFileError::Type0TooManyTracks);
        }
        let division_raw: u16 = header_data[4] as u16 * 256 + header_data[5] as u16;
        let division = match Division::try_from(division_raw) {
            Ok(division) => division,
            Err(e) => {
                return Err(MidiFileError::DivisionError { source: e });
            },
        };
        let ghost rem_tracks = reader.remaining();
        let mut tracks: Vec<MidiTrack> = Vec::new();
        proof {
            assert(rem_tracks =~= whole.skip(reader.pos_int()));
            if let TracksParse::Done { tracks: ts } = tracks_parse(rem_tracks, ntrks as nat) {
                assert(tracks@.map_values(|t: MidiTrack| t@) + ts =~= ts);
            }
            assert(file_parse(whole) == (match tracks_parse(rem_tracks, ntrks as nat) {
                TracksParse::Done { tracks: ts } => (if ts.len() == 0 {
                    FileParse::Fail { e: MidiFileError::NoTracks }
                } else {
                    FileParse::File { f: FileModel { format, ntrks, division, tracks: ts } }
                }),
                TracksParse::Fail { e } => FileParse::Fail { e },
            }));
        }
        while tracks.len() < ntrks as usize
            invariant
                reader.wf(),
                reader.data_seq() == whole,
                whole == data@,
                tracks.len() <= ntrks,
                division.wf(),
                tracks_parse(rem_tracks, ntrks as nat) == (match tracks_parse(
                    reader.remaining(),
                    (ntrks - tracks.len()) as nat,
                ) {
                    TracksParse::Done { tracks: ts } => TracksParse::Done {
                        tracks: tracks@.map_values(|t: MidiTrack| t@) + ts,
                    },
                    f => f,
                }),
                file_parse(whole) == (match tracks_parse(rem_tracks, ntrks as nat) {
                    TracksParse::Done { tracks: ts } => (if ts.len() == 0 {
                        FileParse::Fail { e: MidiFileError::NoTracks }
                    } else {
                        FileParse::File { f: FileModel { format, ntrks, division, tracks: ts } }
                    }),
                    TracksParse::Fail { e } => FileParse::Fail { e },
                }),
            decreases reader.remaining().len(),
        {
            let ghost rem_pre = reader.remaining();
            let ghost pos_pre = reader.pos_int();
            let ghost tracks_pre = tracks@;
            match MidiChunk::read(&mut reader) {
                Ok(chunk) => {
                    if chunk.get_type() == MidiChunkType::MThd {
                        proof {
                            assert(tracks_parse(rem_pre, (ntrks - tracks.len()) as nat)
                                == (TracksParse::Fail { e: MidiFileError::MultipleHeaders }));
                        }
                        return Err(MidiFileError::MultipleHeaders);
                    }
                    proof {
                        lemma_chunk_parse_bounds(rem_pre);
                        assert(reader.remaining() =~= rem_pre.skip(reader.pos_int() - pos_pre));
                    }
                    match MidiTrack::try_from(chunk) {
                        Ok(track) => {
                            tracks.push(track);
                            proof {
                                assert(tracks@.map_values(|t: MidiTrack| t@)
                                    =~= tracks_pre.map_values(|t: MidiTrack| t@) + seq![track@]);
                                if let TracksParse::Done { tracks: ts } = tracks_parse(
                                    reader.remaining(),
                                    (ntrks - tracks.len()) as nat,
                                ) {
                                    assert(tracks_pre.map_values(|t: MidiTrack| t@) + (seq![track@]
                                        + ts) =~= tracks@.map_values(|t: MidiTrack| t@) + ts);
                                }
                            }
                        },
                        Err(e) => {
                            return Err(MidiFileError::TrackError { source: e });
                        },
                    }
                },
                Err(MidiChunkError::UnknownChunkType) => {
                    proof {
                        lemma_chunk_parse_bounds(rem_pre);
                        assert(reader.remaining() =~= rem_pre.skip(reader.pos_int() - pos_pre));
                    }
                },
                Err(e) => {
                    proof {
                        assert(tracks_parse(rem_pre, (ntrks - tracks.len()) as nat)
                            == (TracksParse::Fail { e: MidiFileError::ChunkError { source: e } }));
                    }
                    return Err(MidiFileError::ChunkError { source: e });
                },
            }
        }
        if tracks.len() == 0 {
            return Err(MidiFileError::NoTracks);
        }
        proof {
            assert(tracks@.map_values(|t: MidiTrack| t@) + Seq::<Seq<TrackEventModel>>::empty()
                =~= tracks@.map_values(|t: MidiTrack| t@));
        }
        Ok(MidiFile { format, ntrks, division, tracks })
    }

    /// The file's format.
    pub fn get_format(&self) -> (f: MidiFileFormat)
        ensures
            f == self@.format,
    {
        self.format
    }

    /// The file's timing division.
    pub fn get_division(&self) -> (d: Division)
        ensures
            d == self@.division,
    {
        self.division
    }

    /// The file's tracks, in file order.
    pub fn get_tracks(&self) -> (tracks: &Vec<MidiTrack>)
        ensures
            tracks@.map_values(|t: MidiTrack| t@) == self@.tracks,
    {
        &self.tracks
    }

    /// The file's tracks, taken out of the file.
    pub fn into_tracks(self) -> (tracks: Vec<MidiTrack>)
        ensures
            tracks@.map_values(|t: MidiTrack| t@) == self@.tracks,
    {
        self.tracks
    }
}

} // verus!
