//! The timing division: how a tick maps to real time.
//!
//! The header's sixteen-bit division field selects one of two models.
//! With bit fifteen clear, the low fifteen bits are ticks per beat and
//! the tick duration depends on the tempo. With bit fifteen set, the
//! high byte, read as a signed number, names an SMPTE frame rate — only
//! −24, −25, −29 (meaning 29.97) and −30 are valid — and the low byte is
//! ticks per frame; the tick duration is then absolute. Durations are
//! kept exact, as a rational number of seconds.

use vstd::prelude::*;

verus! {

/// Why a division field could not be decoded.
#[derive(Debug, Clone, Copy, PartialEq, Eq, Structural)]
pub enum DivisionError {
    /// The SMPTE frame byte is not one of −24, −25, −29, −30.
    InvalidFrameFormat(i8),
    /// The field, or its ticks-per-frame byte, is zero.
    ZeroDivision,
}

/// An exact span of time: `num / den` seconds.
#[derive(Debug, Clone, Copy, PartialEq, Eq, Structural)]
pub struct TickDuration {
    pub num: u32,
    pub den: u32,
}

impl TickDuration {
    /// A duration's denominator is never zero, and it spans real time.
    pub open spec fn wf(self) -> bool {
        1 <= self.num && 1 <= self.den
    }
}

/// How long one tick takes.
#[derive(Debug, Clone, Copy, PartialEq, Eq, Structural)]
pub enum Division {
    /// Ticks per beat (quarter note); real time depends on the tempo.
    Metrical(usize),
    /// An absolute tick duration, independent of tempo.
    TimeCode(TickDuration),
}

/// The frame duration of one SMPTE frame-rate byte, in seconds, or
/// nothing if the byte names no valid rate. 29.97 frames per second is
/// kept exact as 100/2997.
pub open spec fn spec_frame_duration(frame: i8) -> Option<TickDuration> {
    if frame == -24 {
        Some(TickDuration { num: 1, den: 24 })
    } else if frame == -25 {
        Some(TickDuration { num: 1, den: 25 })
    } else if frame == -29 {
        Some(TickDuration { num: 100, den: 2997 })
    } else if frame == -30 {
        Some(TickDuration { num: 1, den: 30 })
    } else {
        None
    }
}

/// Decode the sixteen-bit division field.
pub open spec fn spec_division_try_from(value: u16) -> Result<Division, DivisionError> {
    if value == 0 {
        Err(DivisionError::ZeroDivision)
    } else if value & 0x8000 == 0 {
        Ok(Division::Metrical(value as usize))
    } else {
        let frame: i8 = (value >> 8) as i8;
        let ticks_per_frame: u8 = (value & 0xFF) as u8;
        match spec_frame_duration(frame) {
            None => Err(DivisionError::InvalidFrameFormat(frame)),
            Some(fd) => {
                if ticks_per_frame == 0 {
                    Err(DivisionError::ZeroDivision)
                } else {
                    Ok(
                        Division::TimeCode(
                            TickDuration {
                                num: fd.num,
                                den: (fd.den * ticks_per_frame) as u32,
                            },
                        ),
                    )
                }
            },
        }
    }
}

impl Division {
    /// A metrical division keeps its ticks per beat in fifteen bits and
    /// nonzero; a timecode division holds a real span of time.
    pub open spec fn wf(self) -> bool {
        match self {
            Division::Metrical(ticks_per_beat) => 1 <= ticks_per_beat <= 0x7FFF,
            Division::TimeCode(d) => d.wf(),
        }
    }

    /// Decode the sixteen-bit division field of a header.
    pub fn try_from(value: u16) -> (r: Result<Division, DivisionError>)
        ensures
            r == spec_division_try_from(value),
            r matches Ok(d) ==> d.wf(),
    {
        if value == 0 {
            return Err(DivisionError::ZeroDivision);
        }
        if value & 0x8000 == 0 {
            assert(value & 0x8000 == 0 && value != 0 ==> 1 <= value <= 0x7FFF) by (bit_vector);
            return Ok(Division::Metrical(value as usize));
        }
        let negative_smpte_format = #[verifier::truncate] ((value >> 8) as i8);
        let base: u32 = if negative_smpte_format == -24 {
            24
        } else if negative_smpte_format == -25 {
            25
        } else if negative_smpte_format == -29 {
            2997
        } else if negative_smpte_format == -30 {
            30
        } else {
            return Err(DivisionError::InvalidFrameFormat(negative_smpte_format));
        };
        let num: u32 = if negative_smpte_format == -29 {
            100
        } else {
            1
        };
        let ticks_per_frame = #[verifier::truncate] ((value & 0xFF) as u8);
        assert((value & 0xFF) < 256) by (bit_vector);
        if ticks_per_frame == 0 {
            return Err(DivisionError::ZeroDivision);
        }
        let den: u32 = base * ticks_per_frame as u32;
        Ok(Division::TimeCode(TickDuration { num, den }))
    }

    /// The duration of one tick at the given tempo: for a timecode
    /// division the stored duration, tempo ignored; for a metrical
    /// division, `60 / (ticks_per_beat * tempo)` seconds.
    pub open spec fn spec_tick_duration(self, tempo: u16) -> TickDuration {
        match self {
            Division::TimeCode(d) => d,
            Division::Metrical(ticks_per_beat) => TickDuration {
                num: 60,
                den: (ticks_per_beat * tempo) as u32,
            },
        }
    }

    /// Get an absolute duration from any kind of division. The tempo is
    /// in beats per minute and has no effect on a timecode division.
    pub fn get_tick_duration(&self, tempo: u16) -> (d: TickDuration)
        requires
            self.wf(),
            1 <= tempo,
        ensures
            d == self.spec_tick_duration(tempo),
            d.wf(),
    {
        match self {
            Division::TimeCode(duration) => *duration,
            Division::Metrical(ticks_per_beat) => {
                let tpb: u32 = *ticks_per_beat as u32;
                let bpm: u32 = tempo as u32;
                assert(1 <= (tpb as int) * (bpm as int) <= 0x7FFF * 0xFFFF) by (nonlinear_arith)
                    requires
                        1 <= tpb <= 0x7FFF,
                        1 <= bpm <= 0xFFFF,
                ;
                let den: u32 = tpb * bpm;
                TickDuration { num: 60, den }
            },
        }
    }
}

/// A timecode division's tick duration is invariant to tempo changes:
/// any two tempos give the same duration.
pub proof fn lemma_timecode_tempo_invariant(d: TickDuration, tempo_a: u16, tempo_b: u16)
    ensures
        Division::TimeCode(d).spec_tick_duration(tempo_a) == Division::TimeCode(
            d,
        ).spec_tick_duration(tempo_b),
{
}

} // verus!
