//! Track chunks: a payload of `(delta-time, event)` pairs, decoded until
//! the payload is exhausted.
//!
//! Every event carries its own status byte; a delta time is a bounded
//! VLQ. Event order is significant and is never changed: together with
//! the delta times it defines each event's place on the tick timeline.

use vstd::prelude::*;

use crate::chunks::MidiChunk;
use crate::chunks::MidiChunkType;
use crate::cursor::ByteCursor;
use crate::midievent::EventModel;
use crate::midievent::EventParse;
use crate::midievent::MidiEvent;
use crate::midievent::MidiEventError;
use crate::midievent::event_parse;
use crate::midievent::lemma_event_parse_bounds;
use crate::vlq::VlqError;
use crate::vlq::VlqParse;
use crate::vlq::lemma_vlq_parse_bounds;
use crate::vlq::read_vlq;
use crate::vlq::vlq_parse;

verus! {

/// Why a track could not be decoded.
#[derive(Debug, Clone, Copy, PartialEq, Eq, Structural)]
#[allow(inconsistent_fields)]
pub enum MidiTrackError {
    /// The payload ran out in the middle of a pair.
    IOError,
    /// The chunk handed in was not a track chunk.
    InvalidChunkType(MidiChunkType),
    /// A delta time was not a readable bounded VLQ.
    Vlq { source: VlqError },
    /// An event could not be decoded.
    Event { source: MidiEventError },
}

/// One `(delta-time, event)` pair of a track.
#[derive(Debug, PartialEq, Eq)]
pub struct MidiTrackEvent {
    delta_time: usize,
    event: MidiEvent,
}

/// The mathematical shape of a track event: ticks since the previous
/// event on the same track, and the event itself.
pub struct TrackEventModel {
    pub delta: nat,
    pub event: EventModel,
}

impl View for MidiTrackEvent {
    type V = TrackEventModel;

    closed spec fn view(&self) -> TrackEventModel {
        TrackEventModel { delta: self.delta_time as nat, event: self.event@ }
    }
}

impl Clone for MidiTrackEvent {
    fn clone(&self) -> (res: Self)
        ensures
            res@ == self@,
    {
        MidiTrackEvent { delta_time: self.delta_time, event: self.event.clone() }
    }
}

/// Result of decoding one `(delta-time, event)` pair: the pair and the
/// bytes it took, or the failure.
#[allow(inconsistent_fields)]
pub enum TrackEventParse {
    Ev { e: TrackEventModel, n: nat },
    Fail { e: MidiTrackError },
}

/// Decode one `(delta-time, event)` pair from the front of `s`.
pub open spec fn track_event_parse(s: Seq<u8>) -> TrackEventParse {
    match vlq_parse(s) {
        VlqParse::Value { v, n } => match event_parse(s.skip(n as int)) {
            EventParse::Ev { e, n: m } => TrackEventParse::Ev {
                e: TrackEventModel { delta: v, event: e },
                n: n + m,
            },
            EventParse::Fail { e } => TrackEventParse::Fail {
                e: MidiTrackError::Event { source: e },
            },
        },
        VlqParse::TooLarge => TrackEventParse::Fail {
            e: MidiTrackError::Vlq { source: VlqError::TooLarge },
        },
        VlqParse::Eof => TrackEventParse::Fail { e: MidiTrackError::IOError },
    }
}

/// A decoded pair occupies at least two bytes and at most the whole
/// sequence.
pub proof fn lemma_track_event_parse_bounds(s: Seq<u8>)
    ensures
        match track_event_parse(s) {
            TrackEventParse::Ev { e, n } => 2 <= n <= s.len(),
            _ => true,
        },
{
    lemma_vlq_parse_bounds(s, 0);
    if let VlqParse::Value { v, n } = vlq_parse(s) {
        lemma_event_parse_bounds(s.skip(n as int));
    }
}

/// Result of decoding a whole track payload.
pub enum TrackParse {
    Evts { evts: Seq<TrackEventModel> },
    Fail { e: MidiTrackError },
}

/// Decode `(delta-time, event)` pairs until the payload is exhausted.
pub open spec fn track_events_parse(s: Seq<u8>) -> TrackParse
    decreases s.len(),
{
    if s.len() == 0 {
        TrackParse::Evts { evts: Seq::empty() }
    } else {
        match track_event_parse(s) {
            TrackEventParse::Ev { e, n } => {
                proof {
                    lemma_track_event_parse_bounds(s);
                }
                match track_events_parse(s.skip(n as int)) {
                    TrackParse::Evts { evts } => TrackParse::Evts { evts: seq![e] + evts },
                    f => f,
                }
            },
            TrackEventParse::Fail { e } => TrackParse::Fail { e },
        }
    }
}

impl MidiTrackEvent {
    /// Read one `(delta-time, event)` pair from the stream.
    pub fn read(file: &mut ByteCursor) -> (r: Result<MidiTrackEvent, MidiTrackError>)
        requires
            old(file).wf(),
        ensures
            final(file).wf(),
            final(file).data_seq() == old(file).data_seq(),
            old(file).pos_int() <= final(file).pos_int(),
            match track_event_parse(old(file).remaining()) {
                TrackEventParse::Ev { e, n } => (match r {
                    Ok(ev) => ev@ == e && final(file).pos_int() == old(file).pos_int() + n,
                    Err(_) => false,
                }),
                TrackEventParse::Fail { e } => r == Err::<MidiTrackEvent, MidiTrackError>(e),
            },
    {
        let ghost rem0 = file.remaining();
        let ghost pos0 = file.pos_int();
        let delta_time = match read_vlq(file) {
            Ok(delta_time) => delta_time,
            Err(VlqError::IOError) => {
                return Err(MidiTrackError::IOError);
            },
            Err(e) => {
                return Err(MidiTrackError::Vlq { source: e });
            },
        };
        proof {
            lemma_vlq_parse_bounds(rem0, 0);
            assert(file.remaining() =~= rem0.skip(file.pos_int() - pos0));
        }
        let event = match MidiEvent::read(file) {
            Ok(event) => event,
            Err(e) => {
                return Err(MidiTrackError::Event { source: e });
            },
        };
        Ok(MidiTrackEvent { delta_time, event })
    }

    /// Ticks since the previous event on this track.
    pub fn get_delta_time(&self) -> (d: usize)
        ensures
            d == self@.delta,
    {
        self.delta_time
    }

    /// The event itself.
    pub fn get_event(&self) -> (e: &MidiEvent)
        ensures
            e@ == self@.event,
    {
        &self.event
    }
}

/// A decoded track: its events, in file order.
#[derive(Debug, PartialEq, Eq)]
pub struct MidiTrack {
    track_events: Vec<MidiTrackEvent>,
}

impl View for MidiTrack {
    type V = Seq<TrackEventModel>;

    closed spec fn view(&self) -> Seq<TrackEventModel> {
        self.track_events@.map_values(|e: MidiTrackEvent| e@)
    }
}

impl MidiTrack {
    /// Decode a track chunk's payload into its event list. A chunk of
    /// any other type is rejected.
    pub fn try_from(chunk: MidiChunk) -> (r: Result<MidiTrack, MidiTrackError>)
        ensures
            match r {
                Ok(track) => chunk@.kind == MidiChunkType::MTrk && track_events_parse(chunk@.data)
                    == (TrackParse::Evts { evts: track@ }),
                Err(e) => (if chunk@.kind != MidiChunkType::MTrk {
                    e == MidiTrackError::InvalidChunkType(chunk@.kind)
                } else {
                    track_events_parse(chunk@.data) == (TrackParse::Fail { e })
                }),
            },
    {
        if chunk.get_type() != MidiChunkType::MTrk {
            return Err(MidiTrackError::InvalidChunkType(chunk.get_type()));
        }
        let data = chunk.into_data();
        let ghost whole = data@;
        let mut cursor = ByteCursor::new(data);
        let mut track_events: Vec<MidiTrackEvent> = Vec::new();
        proof {
            assert(cursor.remaining() =~= whole);
            assert(track_events@.map_values(|e: MidiTrackEvent| e@) =~= Seq::<
                TrackEventModel,
            >::empty());
            if let TrackParse::Evts { evts } = track_events_parse(whole) {
                assert(track_events@.map_values(|e: MidiTrackEvent| e@) + evts =~= evts);
            }
        }
        loop
            invariant
                cursor.wf(),
                cursor.data_seq() == whole,
                whole == chunk@.data,
                chunk@.kind == MidiChunkType::MTrk,
                track_events_parse(whole) == (match track_events_parse(cursor.remaining()) {
                    TrackParse::Evts { evts } => TrackParse::Evts {
                        evts: track_events@.map_values(|e: MidiTrackEvent| e@) + evts,
                    },
                    f => f,
                }),
            decreases cursor.remaining().len(),
        {
            if cursor.remaining_len() == 0 {
                proof {
                    assert(track_events@.map_values(|e: MidiTrackEvent| e@) + Seq::<
                        TrackEventModel,
                    >::empty() =~= track_events@.map_values(|e: MidiTrackEvent| e@));
                }
                return Ok(MidiTrack { track_events });
            }
            let ghost pre_events = track_events@;
            let ghost rem_pre = cursor.remaining();
            let ghost pos_pre = cursor.pos_int();
            let ev = match MidiTrackEvent::read(&mut cursor) {
                Ok(ev) => ev,
                Err(e) => {
                    return Err(e);
                },
            };
            track_events.push(ev);
            proof {
                lemma_track_event_parse_bounds(rem_pre);
                assert(cursor.remaining() =~= rem_pre.skip(cursor.pos_int() - pos_pre));
                assert(track_events@.map_values(|e: MidiTrackEvent| e@) =~= pre_events.map_values(
                    |e: MidiTrackEvent| e@,
                ) + seq![ev@]);
                if let TrackParse::Evts { evts } = track_events_parse(cursor.remaining()) {
                    assert(pre_events.map_values(|e: MidiTrackEvent| e@) + (seq![ev@] + evts)
                        =~= track_events@.map_values(|e: MidiTrackEvent| e@) + evts);
                }
            }
        }
    }

    /// The track's events, in file order.
    pub fn get_events(&self) -> (evts: &Vec<MidiTrackEvent>)
        ensures
            evts@.map_values(|e: MidiTrackEvent| e@) == self@,
    {
        &self.track_events
    }
}

} // verus!
