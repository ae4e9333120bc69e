//! Chunk framing: a four-byte tag, a four-byte big-endian length, then
//! exactly that many payload bytes.
//!
//! Two tags are recognized, the header `MThd` and the track `MTrk`. Any
//! other tag is an unknown chunk: not a stream failure, but a distinct
//! outcome. The reader consumes an unknown chunk whole — tag, length and
//! payload — so that a caller can skip it and carry on. A header chunk
//! must declare a length of exactly six bytes.

use vstd::prelude::*;

use crate::cursor::ByteCursor;

verus! {

/// Why a chunk could not be framed.
#[derive(Debug, Clone, Copy, PartialEq, Eq, Structural)]
pub enum MidiChunkError {
    /// The stream ran out inside the tag, the length, or the payload.
    IOError,
    /// The tag is neither `MThd` nor `MTrk`; the whole chunk was consumed.
    UnknownChunkType,
    /// A header chunk declared a length other than six.
    UnexpectedHeaderLength(u32),
}

/// The two recognized chunk tags.
#[derive(Debug, PartialEq, Eq, Structural, Clone, Copy)]
pub enum MidiChunkType {
    MThd,
    MTrk,
}

/// Does `s` begin with the four header-tag bytes `MThd`?
pub open spec fn is_mthd_tag(s: Seq<u8>) -> bool {
    s.len() >= 4 && s[0] == 0x4Du8 && s[1] == 0x54u8 && s[2] == 0x68u8 && s[3] == 0x64u8
}

/// Does `s` begin with the four track-tag bytes `MTrk`?
pub open spec fn is_mtrk_tag(s: Seq<u8>) -> bool {
    s.len() >= 4 && s[0] == 0x4Du8 && s[1] == 0x54u8 && s[2] == 0x72u8 && s[3] == 0x6Bu8
}

/// Four bytes read as a big-endian 32-bit integer.
pub open spec fn be_u32(s: Seq<u8>) -> u32 {
    (s[0] as u32 * 0x1000000 + s[1] as u32 * 0x10000 + s[2] as u32 * 0x100 + s[3] as u32) as u32
}

impl MidiChunkType {
    /// Classify a four-byte tag.
    pub fn try_from(buffer: [u8; 4]) -> (r: Result<MidiChunkType, MidiChunkError>)
        ensures
            is_mthd_tag(buffer@) ==> r == Ok::<MidiChunkType, MidiChunkError>(MidiChunkType::MThd),
            is_mtrk_tag(buffer@) ==> r == Ok::<MidiChunkType, MidiChunkError>(MidiChunkType::MTrk),
            !is_mthd_tag(buffer@) && !is_mtrk_tag(buffer@) ==> r == Err::<
                MidiChunkType,
                MidiChunkError,
            >(MidiChunkError::UnknownChunkType),
    {
        if buffer[0] == 0x4D && buffer[1] == 0x54 && buffer[2] == 0x68 && buffer[3] == 0x64 {
            Ok(MidiChunkType::MThd)
        } else if buffer[0] == 0x4D && buffer[1] == 0x54 && buffer[2] == 0x72 && buffer[3] == 0x6B {
            Ok(MidiChunkType::MTrk)
        } else {
            Err(MidiChunkError::UnknownChunkType)
        }
    }
}

/// A framed chunk: its tag, declared length, and payload.
#[derive(Debug, PartialEq, Eq)]
pub struct MidiChunk {
    chunk_type: MidiChunkType,
    chunk_length: u32,
    chunk_data: Vec<u8>,
}

/// The mathematical shape of a framed chunk.
pub struct ChunkModel {
    pub kind: MidiChunkType,
    pub length: u32,
    pub data: Seq<u8>,
}

impl View for MidiChunk {
    type V = ChunkModel;

    closed spec fn view(&self) -> ChunkModel {
        ChunkModel { kind: self.chunk_type, length: self.chunk_length, data: self.chunk_data@ }
    }
}

/// Result of framing one chunk at the front of `s`: a recognized chunk
/// and the bytes it occupied, an unknown chunk's width, or the failure.
pub enum ChunkParse {
    Chunk { c: ChunkModel, n: nat },
    Unknown { n: nat },
    Fail { e: MidiChunkError },
}

/// Frame one chunk at the front of `s`: tag, big-endian length, payload.
/// An unknown tag yields `Unknown` spanning the whole chunk; a header
/// whose length is not six is rejected before its payload is read.
pub open spec fn chunk_parse(s: Seq<u8>) -> ChunkParse {
    if s.len() < 4 {
        ChunkParse::Fail { e: MidiChunkError::IOError }
    } else {
        let rest = s.skip(4);
        if rest.len() < 4 {
            ChunkParse::Fail { e: MidiChunkError::IOError }
        } else {
            let length = be_u32(rest.subrange(0, 4));
            let body = rest.skip(4);
            if !is_mthd_tag(s) && !is_mtrk_tag(s) {
                if body.len() < length as nat {
                    ChunkParse::Fail { e: MidiChunkError::IOError }
                } else {
                    ChunkParse::Unknown { n: 8 + length as nat }
                }
            } else if is_mthd_tag(s) && length != 6 {
                ChunkParse::Fail { e: MidiChunkError::UnexpectedHeaderLength(length) }
            } else if body.len() < length as nat {
                ChunkParse::Fail { e: MidiChunkError::IOError }
            } else {
                let kind = if is_mthd_tag(s) {
                    MidiChunkType::MThd
                } else {
                    MidiChunkType::MTrk
                };
                ChunkParse::Chunk {
                    c: ChunkModel { kind, length, data: body.subrange(0, length as int) },
                    n: 8 + length as nat,
                }
            }
        }
    }
}

/// A framed chunk spans at least its eight tag and length bytes, its
/// payload is as long as its declared length, and a header's length is
/// always six.
pub proof fn lemma_chunk_parse_bounds(s: Seq<u8>)
    ensures
        match chunk_parse(s) {
            ChunkParse::Chunk { c, n } => 8 <= n <= s.len() && c.data.len() == c.length && n == 8
                + c.length && (c.kind == MidiChunkType::MThd ==> c.length == 6),
            ChunkParse::Unknown { n } => 8 <= n <= s.len(),
            ChunkParse::Fail { e } => true,
        },
{
}

impl MidiChunk {
    /// Frame one chunk from the stream. An unknown chunk is consumed
    /// whole and reported as `UnknownChunkType`, leaving the stream at
    /// the next chunk so the caller can skip it.
    pub fn read(reader: &mut ByteCursor) -> (r: Result<MidiChunk, MidiChunkError>)
        requires
            old(reader).wf(),
        ensures
            final(reader).wf(),
            final(reader).data_seq() == old(reader).data_seq(),
            old(reader).pos_int() <= final(reader).pos_int(),
            match chunk_parse(old(reader).remaining()) {
                ChunkParse::Chunk { c, n } => (match r {
                    Ok(chunk) => chunk@ == c && final(reader).pos_int() == old(reader).pos_int()
                        + n,
                    Err(_) => false,
                }),
                ChunkParse::Unknown { n } => r == Err::<MidiChunk, MidiChunkError>(
                    MidiChunkError::UnknownChunkType,
                ) && final(reader).pos_int() == old(reader).pos_int() + n,
                ChunkParse::Fail { e } => r == Err::<MidiChunk, MidiChunkError>(e),
            },
    {
        let tag = match reader.read_bytes(4) {
            Some(tag) => tag,
            None => {
                return Err(MidiChunkError::IOError);
            },
        };
        let header = tag[0] == 0x4D && tag[1] == 0x54 && tag[2] == 0x68 && tag[3] == 0x64;
        let track = tag[0] == 0x4D && tag[1] == 0x54 && tag[2] == 0x72 && tag[3] == 0x6B;
        let len_buf = match reader.read_bytes(4) {
            Some(len_buf) => len_buf,
            None => {
                return Err(MidiChunkError::IOError);
            },
        };
        let chunk_length: u32 = len_buf[0] as u32 * 0x1000000 + len_buf[1] as u32 * 0x10000
            + len_buf[2] as u32 * 0x100 + len_buf[3] as u32;
        if !header && !track {
            match reader.read_bytes(chunk_length as usize) {
                Some(_) => {
                    return Err(MidiChunkError::UnknownChunkType);
                },
                None => {
                    return Err(MidiChunkError::IOError);
                },
            }
        }
        if header && chunk_length != 6 {
            return Err(MidiChunkError::UnexpectedHeaderLength(chunk_length));
        }
        let chunk_data = match reader.read_bytes(chunk_length as usize) {
            Some(chunk_data) => chunk_data,
            None => {
                return Err(MidiChunkError::IOError);
            },
        };
        let chunk_type = if header {
            MidiChunkType::MThd
        } else {
            MidiChunkType::MTrk
        };
        Ok(MidiChunk { chunk_type, chunk_length, chunk_data })
    }

    /// The chunk's tag.
    pub fn get_type(&self) -> (t: MidiChunkType)
        ensures
            t == self@.kind,
    {
        self.chunk_type
    }

    /// The chunk's declared payload length.
    pub fn get_length(&self) -> (n: usize)
        ensures
            n == self@.length,
    {
        self.chunk_length as usize
    }

    /// The chunk's payload, taken out of the chunk.
    pub fn into_data(self) -> (d: Vec<u8>)
        ensures
            d@ == self@.data,
    {
        self.chunk_data
    }

    /// The chunk's payload.
    pub fn get_data(&self) -> (d: &Vec<u8>)
        ensures
            d@ == self@.data,
    {
        &self.chunk_data
    }
}

} // verus!
