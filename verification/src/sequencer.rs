//! The sequencing engine: per-track cursors advanced against a shared
//! sample clock, merging due events across tracks in track order.
//!
//! Each call to `advance` accounts for exactly one output sample. When
//! the elapsed-sample counter reaches the tick width, a tick boundary
//! has occurred: every track cursor drains the events whose cumulative
//! delta time falls on the current tick, in file order; otherwise the
//! counter is incremented and nothing is emitted. Playback is over
//! exactly when every track cursor has run out of events.

use vstd::prelude::*;

use crate::division::Division;
use crate::midifile::MidiFile;
use crate::track::MidiTrack;
use crate::track::MidiTrackEvent;
use crate::track::TrackEventModel;

verus! {

/// The mathematical state of one track cursor: the track's events, the
/// index of the next event, and the ticks counted since the previous
/// emission on this track.
pub struct TrackSeqModel {
    pub events: Seq<TrackEventModel>,
    pub next: int,
    pub ticks: int,
}

impl TrackSeqModel {
    /// The cursor stays inside the track, and never counts past the
    /// next event's delta time.
    pub open spec fn wf(self) -> bool {
        &&& 0 <= self.next <= self.events.len()
        &&& 0 <= self.ticks
        &&& (self.next < self.events.len() ==> self.ticks <= self.events[self.next].delta)
    }

    /// A track is finished once its cursor has passed every event.
    pub open spec fn finished(self) -> bool {
        self.next == self.events.len()
    }
}

/// Where the emission run beginning at `i` ends: the first index after
/// `i` whose event has a nonzero delta time, or the end of the track.
pub open spec fn run_end(events: Seq<TrackEventModel>, i: int) -> int
    decreases events.len() - i,
{
    if i + 1 >= events.len() {
        events.len() as int
    } else if events[i + 1].delta != 0 {
        i + 1
    } else {
        run_end(events, i + 1)
    }
}

/// An emission run reaches past its first event, stays inside the
/// track, spans only zero-delta events after the first, and stops at
/// the first nonzero delta.
pub proof fn lemma_run_end_bounds(events: Seq<TrackEventModel>, i: int)
    requires
        0 <= i < events.len(),
    ensures
        i < run_end(events, i) <= events.len(),
        forall|k: int| i < k < run_end(events, i) ==> events[k].delta == 0,
        run_end(events, i) < events.len() ==> events[run_end(events, i)].delta != 0,
    decreases events.len() - i,
{
    if i + 1 < events.len() && events[i + 1].delta == 0 {
        lemma_run_end_bounds(events, i + 1);
    }
}

/// The events one tick emits: nothing while the cursor still counts
/// toward the next event's delta time; otherwise the whole run of
/// events due on this tick, in file order.
pub open spec fn tick_emit(t: TrackSeqModel) -> Seq<TrackEventModel> {
    if t.next >= t.events.len() {
        Seq::empty()
    } else if t.ticks < t.events[t.next].delta {
        Seq::empty()
    } else {
        t.events.subrange(t.next, run_end(t.events, t.next))
    }
}

/// The cursor after one tick: unchanged when finished; counting one
/// more tick while short of the next delta time; past the emitted run,
/// with the tick count reset, on emission.
pub open spec fn tick_next(t: TrackSeqModel) -> TrackSeqModel {
    if t.next >= t.events.len() {
        t
    } else if t.ticks < t.events[t.next].delta {
        TrackSeqModel { events: t.events, next: t.next, ticks: t.ticks + 1 }
    } else {
        TrackSeqModel { events: t.events, next: run_end(t.events, t.next), ticks: 0 }
    }
}

/// One tick preserves the cursor's well-formedness and its track.
pub proof fn lemma_tick_next_wf(t: TrackSeqModel)
    requires
        t.wf(),
    ensures
        tick_next(t).wf(),
        tick_next(t).events == t.events,
{
    if t.next < t.events.len() && t.ticks >= t.events[t.next].delta {
        lemma_run_end_bounds(t.events, t.next);
    }
}

/// The cursor after `k` ticks.
pub open spec fn ticks_after(t: TrackSeqModel, k: nat) -> TrackSeqModel
    decreases k,
{
    if k == 0 {
        t
    } else {
        ticks_after(tick_next(t), (k - 1) as nat)
    }
}

/// Everything emitted over `k` ticks, in order.
pub open spec fn emitted_within(t: TrackSeqModel, k: nat) -> Seq<TrackEventModel>
    decreases k,
{
    if k == 0 {
        Seq::empty()
    } else {
        tick_emit(t) + emitted_within(tick_next(t), (k - 1) as nat)
    }
}

/// How many ticks until the cursor is exhausted.
pub open spec fn ticks_to_finish(t: TrackSeqModel) -> nat
    decreases t.events.len() - t.next, t.events[t.next].delta - t.ticks
        when t.wf()
{
    if t.finished() {
        0
    } else {
        proof {
            if t.ticks >= t.events[t.next].delta {
                lemma_run_end_bounds(t.events, t.next);
            }
            lemma_tick_next_wf(t);
        }
        1 + ticks_to_finish(tick_next(t))
    }
}

/// Sequencer liveness, for one track: driving a well-formed cursor for
/// `ticks_to_finish` ticks emits every remaining event exactly once, in
/// original order; the cursor is exhausted after exactly that many
/// ticks, and never earlier.
pub proof fn lemma_track_liveness(t: TrackSeqModel)
    requires
        t.wf(),
    ensures
        emitted_within(t, ticks_to_finish(t)) == t.events.subrange(t.next, t.events.len() as int),
        ticks_after(t, ticks_to_finish(t)).finished(),
        forall|k: nat| k < ticks_to_finish(t) ==> !ticks_after(t, k).finished(),
    decreases ticks_to_finish(t),
{
    if t.finished() {
        assert(emitted_within(t, 0) =~= t.events.subrange(t.next, t.events.len() as int));
    } else {
        let t2 = tick_next(t);
        lemma_tick_next_wf(t);
        lemma_track_liveness(t2);
        if t.ticks < t.events[t.next].delta {
            assert(tick_emit(t) + emitted_within(t2, ticks_to_finish(t2)) =~= t.events.subrange(
                t.next,
                t.events.len() as int,
            ));
        } else {
            lemma_run_end_bounds(t.events, t.next);
            assert(tick_emit(t) + emitted_within(t2, ticks_to_finish(t2)) =~= t.events.subrange(
                t.next,
                t.events.len() as int,
            ));
        }
        assert forall|k: nat| k < ticks_to_finish(t) implies !ticks_after(t, k).finished() by {
            if k > 0 {
                assert(ticks_after(t, k) == ticks_after(t2, (k - 1) as nat));
            }
        }
    }
}

/// A track started at its beginning plays back every one of its events,
/// exactly once and in original order, before it reports exhaustion.
pub proof fn lemma_track_plays_all_events(events: Seq<TrackEventModel>)
    ensures
        ({
            let t = TrackSeqModel { events, next: 0, ticks: 0 };
            emitted_within(t, ticks_to_finish(t)) == events && ticks_after(
                t,
                ticks_to_finish(t),
            ).finished() && (forall|k: nat|
                k < ticks_to_finish(t) ==> !ticks_after(t, k).finished())
        }),
{
    let t = TrackSeqModel { events, next: 0, ticks: 0 };
    lemma_track_liveness(t);
    assert(events.subrange(0, events.len() as int) =~= events);
}

/// One track's cursor, counting ticks against the track's delta times.
pub struct TrackSequencer {
    track: MidiTrack,
    next_event_index: usize,
    ticks_since_last: usize,
}

impl View for TrackSequencer {
    type V = TrackSeqModel;

    closed spec fn view(&self) -> TrackSeqModel {
        TrackSeqModel {
            events: self.track@,
            next: self.next_event_index as int,
            ticks: self.ticks_since_last as int,
        }
    }
}

impl TrackSequencer {
    /// The model's well-formedness, read off the view.
    pub open spec fn wf(self) -> bool {
        self@.wf()
    }

    /// A cursor at the start of the track.
    pub fn new(track: MidiTrack) -> (s: TrackSequencer)
        ensures
            s.wf(),
            s@ == (TrackSeqModel { events: track@, next: 0, ticks: 0 }),
    {
        TrackSequencer { track, next_event_index: 0, ticks_since_last: 0 }
    }

    /// Has the cursor passed every event of its track?
    pub fn is_finished(&self) -> (b: bool)
        ensures
            b == self@.finished(),
    {
        self.next_event_index == self.track.get_events().len()
    }

    /// Count one tick, and hand back the events due on it: call this
    /// exactly once per tick. Events sharing the current tick come out
    /// together, in file order.
    pub fn get_events(&mut self) -> (events: Vec<MidiTrackEvent>)
        requires
            old(self).wf(),
        ensures
            final(self).wf(),
            final(self)@ == tick_next(old(self)@),
            events@.map_values(|e: MidiTrackEvent| e@) == tick_emit(old(self)@),
    {
        proof {
            assert(Seq::<MidiTrackEvent>::empty().map_values(|e: MidiTrackEvent| e@) =~= Seq::<
                TrackEventModel,
            >::empty());
        }
        if self.next_event_index == self.track.get_events().len() {
            return Vec::new();
        }
        let delta = self.track.get_events()[self.next_event_index].get_delta_time();
        if self.ticks_since_last < delta {
            self.ticks_since_last = self.ticks_since_last + 1;
            return Vec::new();
        }
        let ghost evts = self@.events;
        let ghost start = self@.next;
        let ghost stop = run_end(evts, start);
        let track_len = self.track.get_events().len();
        proof {
            lemma_run_end_bounds(evts, start);
            assert(evts.len() == track_len);
        }
        let mut events: Vec<MidiTrackEvent> = Vec::new();
        self.ticks_since_last = 0;
        loop
            invariant_except_break
                self.wf(),
                self@.events == evts,
                start <= self@.next < stop,
                self@.ticks == 0,
                events@.map_values(|e: MidiTrackEvent| e@) == evts.subrange(start, self@.next),
            invariant
                0 <= start < evts.len(),
                start < stop <= evts.len(),
                evts.len() == track_len,
                forall|k: int| start < k < stop ==> evts[k].delta == 0,
                stop < evts.len() ==> evts[stop].delta != 0,
            ensures
                self.wf(),
                self@.events == evts,
                self@.next == stop,
                self@.ticks == 0,
                events@.map_values(|e: MidiTrackEvent| e@) == evts.subrange(start, stop),
            decreases stop - self@.next,
        {
            let ghost events_pre = events@;
            let ghost next_pre = self@.next;
            let ev = self.track.get_events()[self.next_event_index].clone();
            events.push(ev);
            self.next_event_index = self.next_event_index + 1;
            proof {
                assert(events@.map_values(|e: MidiTrackEvent| e@) =~= events_pre.map_values(
                    |e: MidiTrackEvent| e@,
                ).push(ev@));
                assert(events@.map_values(|e: MidiTrackEvent| e@) =~= evts.subrange(
                    start,
                    self@.next,
                ));
            }
            if self.next_event_index == self.track.get_events().len() {
                break;
            }
            if self.track.get_events()[self.next_event_index].get_delta_time() != 0 {
                break;
            }
        }
        proof {
            assert(tick_emit(old(self)@) == evts.subrange(start, stop));
        }
        events
    }
}

/// The mathematical state of the engine.
pub struct SequencerModel {
    pub loaded: bool,
    pub division: Division,
    pub sample_rate: u32,
    pub bpm: u16,
    pub delta_samples: u64,
    pub tracks: Seq<TrackSeqModel>,
}

/// How many samples one tick spans: the tick duration times the sample
/// rate, truncated.
pub open spec fn tick_samples_of(m: SequencerModel) -> int {
    let d = m.division.spec_tick_duration(m.bpm);
    (d.num * m.sample_rate) / (d.den as int)
}

impl SequencerModel {
    /// The engine keeps a real division and tempo, never counts past a
    /// tick boundary, and every track cursor is well formed.
    pub open spec fn wf(self) -> bool {
        &&& self.division.wf()
        &&& 1 <= self.bpm
        &&& self.delta_samples <= tick_samples_of(self)
        &&& forall|i: int| 0 <= i < self.tracks.len() ==> (#[trigger] self.tracks[i]).wf()
    }

    /// Is every track cursor exhausted?
    pub open spec fn all_finished(self) -> bool {
        forall|i: int| 0 <= i < self.tracks.len() ==> (#[trigger] self.tracks[i]).finished()
    }
}

/// A tick's width in samples never reaches two to the sixty-fourth.
pub proof fn lemma_tick_samples_bound(m: SequencerModel)
    requires
        m.division.wf(),
        1 <= m.bpm,
    ensures
        0 <= tick_samples_of(m) < 0x1_0000_0000_0000_0000,
{
    let d = m.division.spec_tick_duration(m.bpm);
    if let Division::Metrical(ticks_per_beat) = m.division {
        assert(1 <= ticks_per_beat * m.bpm <= 0x7FFF * 0xFFFF) by (nonlinear_arith)
            requires
                1 <= ticks_per_beat <= 0x7FFF,
                1 <= m.bpm <= 0xFFFF,
        ;
    }
    assert(0 <= d.num * m.sample_rate <= 0xFFFF_FFFFu32 * 0xFFFF_FFFFu32) by (nonlinear_arith)
        requires
            0 <= d.num <= 0xFFFF_FFFFu32,
            0 <= m.sample_rate <= 0xFFFF_FFFFu32,
    ;
    vstd::arithmetic::div_mod::lemma_div_nonincreasing(d.num * m.sample_rate, d.den as int);
    vstd::arithmetic::div_mod::lemma_div_pos_is_pos(d.num * m.sample_rate, d.den as int);
}

/// Everything the first `i` track cursors emit on one tick, track by
/// track, in track order.
pub open spec fn seq_emit_upto(tracks: Seq<TrackSeqModel>, i: int) -> Seq<TrackEventModel>
    decreases i,
{
    if i <= 0 {
        Seq::empty()
    } else {
        seq_emit_upto(tracks, i - 1) + tick_emit(tracks[i - 1])
    }
}

/// Everything the track cursors emit on one tick, in track order.
pub open spec fn seq_emit(tracks: Seq<TrackSeqModel>) -> Seq<TrackEventModel> {
    seq_emit_upto(tracks, tracks.len() as int)
}

/// Every track cursor after one shared tick.
pub open spec fn step_tracks(tracks: Seq<TrackSeqModel>) -> Seq<TrackSeqModel> {
    Seq::new(tracks.len(), |i: int| tick_next(tracks[i]))
}

/// The engine: one cursor per track, a shared sample counter, and the
/// timing parameters, advanced one sample per call.
pub struct MidiSequencer {
    loaded: bool,
    division: Division,
    sample_rate: u32,
    bpm: u16,
    delta_samples: u64,
    tracks: Vec<TrackSequencer>,
}

impl View for MidiSequencer {
    type V = SequencerModel;

    closed spec fn view(&self) -> SequencerModel {
        SequencerModel {
            loaded: self.loaded,
            division: self.division,
            sample_rate: self.sample_rate,
            bpm: self.bpm,
            delta_samples: self.delta_samples,
            tracks: self.tracks@.map_values(|t: TrackSequencer| t@),
        }
    }
}

impl MidiSequencer {
    /// The model's well-formedness, read off the view.
    pub open spec fn wf(self) -> bool {
        self@.wf()
    }

    /// An engine with no file loaded, at the default tempo of 120
    /// beats per minute. The sample rate is that of the synthesizer the
    /// caller will drive.
    pub fn new(sample_rate: u32) -> (s: MidiSequencer)
        ensures
            s.wf(),
            !s@.loaded,
            s@.sample_rate == sample_rate,
            s@.bpm == 120,
            s@.delta_samples == 0,
            s@.tracks.len() == 0,
    {
        MidiSequencer {
            loaded: false,
            division: Division::Metrical(96),
            sample_rate,
            bpm: 120,
            delta_samples: 0,
            tracks: Vec::new(),
        }
    }

    /// Load a file and stand every track cursor at its start. The
    /// caller should also reset its synthesizer, so that no voice of an
    /// earlier file keeps sounding.
    pub fn play_midi_file(&mut self, midi_file: MidiFile)
        requires
            old(self).wf(),
            midi_file.wf(),
        ensures
            final(self).wf(),
            final(self)@.loaded,
            final(self)@.division == midi_file@.division,
            final(self)@.sample_rate == old(self)@.sample_rate,
            final(self)@.bpm == old(self)@.bpm,
            final(self)@.delta_samples == 0,
            final(self)@.tracks.len() == midi_file@.tracks.len(),
            forall|i: int|
                0 <= i < midi_file@.tracks.len() ==> #[trigger] final(self)@.tracks[i]
                    == (TrackSeqModel { events: midi_file@.tracks[i], next: 0, ticks: 0 }),
    {
        self.division = midi_file.get_division();
        self.delta_samples = 0;
        self.loaded = true;
        self.tracks = Vec::new();
        let ghost file_tracks = midi_file@.tracks;
        let mut remaining = midi_file.into_tracks();
        let ghost total = remaining@.len();
        proof {
            assert(remaining@.map_values(|t: MidiTrack| t@) =~= file_tracks);
        }
        while remaining.len() > 0
            invariant
                self.tracks@.len() + remaining@.len() == total,
                total == file_tracks.len(),
                self@.loaded,
                self@.division == midi_file@.division,
                self@.division.wf(),
                self@.sample_rate == old(self)@.sample_rate,
                self@.bpm == old(self)@.bpm,
                1 <= self@.bpm,
                self@.delta_samples == 0,
                forall|i: int|
                    0 <= i < self.tracks@.len() ==> #[trigger] self.tracks@[i]@ == (TrackSeqModel {
                        events: file_tracks[i],
                        next: 0,
                        ticks: 0,
                    }),
                forall|i: int|
                    0 <= i < remaining@.len() ==> #[trigger] remaining@[i]@ == file_tracks[
                        self.tracks@.len() + i
                    ],
            decreases remaining@.len(),
        {
            let ghost rem_pre = remaining@;
            let track = remaining.remove(0);
            let ghost pre = self.tracks@;
            self.tracks.push(TrackSequencer::new(track));
            proof {
                assert(remaining@ =~= rem_pre.skip(1));
                assert(forall|i: int|
                    0 <= i < remaining@.len() ==> #[trigger] remaining@[i] == rem_pre[i + 1]);
            }
        }
        proof {
            lemma_tick_samples_bound(self@);
        }
    }

    /// Account for one output sample. Nothing comes back once no file
    /// is loaded or every track cursor is exhausted — and only then.
    /// Otherwise the events due on this sample come back, in track
    /// order: the whole tick's worth when the sample counter has
    /// reached the tick width, none while it is still counting.
    pub fn advance(&mut self) -> (r: Option<Vec<MidiTrackEvent>>)
        requires
            old(self).wf(),
        ensures
            final(self).wf(),
            match r {
                None => (!old(self)@.loaded || old(self)@.all_finished())
                    && final(self)@ == old(self)@,
                Some(events) => old(self)@.loaded && !old(self)@.all_finished()
                    && final(self)@.loaded == old(self)@.loaded
                    && final(self)@.division == old(self)@.division
                    && final(self)@.sample_rate == old(self)@.sample_rate
                    && final(self)@.bpm == old(self)@.bpm
                    && (if old(self)@.delta_samples == tick_samples_of(old(self)@) {
                    final(self)@.delta_samples == 0
                        && final(self)@.tracks == step_tracks(old(self)@.tracks)
                        && events@.map_values(|e: MidiTrackEvent| e@) == seq_emit(old(self)@.tracks)
                } else {
                    final(self)@.delta_samples == old(self)@.delta_samples + 1
                        && final(self)@.tracks == old(self)@.tracks
                        && events@.len() == 0
                }),
            },
    {
        if !self.loaded {
            return None;
        }
        let n = self.tracks.len();
        let mut finished = true;
        let mut i: usize = 0;
        while i < n
            invariant
                i <= n,
                self@ == old(self)@,
                self@.wf(),
                n == self.tracks@.len(),
                finished == (forall|j: int| 0 <= j < i ==> (#[trigger] self@.tracks[j]).finished()),
            decreases n - i,
        {
            let ghost finished_pre = finished;
            finished = finished && self.tracks[i].is_finished();
            proof {
                assert(self@.tracks[i as int] == self.tracks@[i as int]@);
                if finished {
                    assert(forall|j: int|
                        0 <= j < i + 1 ==> (#[trigger] self@.tracks[j]).finished());
                }
            }
            i = i + 1;
        }
        if finished {
            return None;
        }
        let duration = self.division.get_tick_duration(self.bpm);
        let num64: u64 = duration.num as u64;
        let rate64: u64 = self.sample_rate as u64;
        assert(num64 * rate64 <= 0xFFFF_FFFFu64 * 0xFFFF_FFFFu64) by (nonlinear_arith)
            requires
                0 <= num64 <= 0xFFFF_FFFFu64,
                0 <= rate64 <= 0xFFFF_FFFFu64,
        ;
        let tick_samples: u64 = num64 * rate64 / (duration.den as u64);
        let mut events: Vec<MidiTrackEvent> = Vec::new();
        if self.delta_samples == tick_samples {
            self.delta_samples = 0;
            let ghost models = old(self)@.tracks;
            let mut i: usize = 0;
            while i < n
                invariant
                    i <= n,
                    n == self.tracks@.len(),
                    self@.loaded == old(self)@.loaded,
                    self@.division == old(self)@.division,
                    self@.division.wf(),
                    self@.sample_rate == old(self)@.sample_rate,
                    self@.bpm == old(self)@.bpm,
                    1 <= self@.bpm,
                    self@.delta_samples == 0,
                    models == old(self)@.tracks,
                    models.len() == n,
                    forall|j: int| 0 <= j < models.len() ==> (#[trigger] models[j]).wf(),
                    forall|j: int|
                        0 <= j < i ==> #[trigger] self@.tracks[j] == tick_next(models[j]),
                    forall|j: int| i <= j < n ==> #[trigger] self@.tracks[j] == models[j],
                    events@.map_values(|e: MidiTrackEvent| e@) == seq_emit_upto(models, i as int),
                decreases n - i,
            {
                let ghost events_pre = events@;
                let ghost vecs_pre = self.tracks@;
                let ghost model_pre = self@;
                proof {
                    assert(self@.tracks[i as int] == self.tracks@[i as int]@);
                    assert(self.tracks@[i as int]@ == models[i as int]);
                }
                let tr = &mut self.tracks[i];
                let mut due = tr.get_events();
                events.append(&mut due);
                proof {
                    assert(events@.map_values(|e: MidiTrackEvent| e@) =~= events_pre.map_values(
                        |e: MidiTrackEvent| e@,
                    ) + tick_emit(models[i as int]));
                    assert(events@.map_values(|e: MidiTrackEvent| e@) =~= seq_emit_upto(
                        models,
                        i + 1,
                    ));
                    lemma_tick_next_wf(models[i as int]);
                    assert(self@.tracks[i as int] == tick_next(models[i as int]));
                    assert forall|j: int| 0 <= j < n && j != i implies #[trigger] self@.tracks[j]
                        == model_pre.tracks[j] by {
                        assert(self.tracks@[j] == vecs_pre[j]);
                        assert(self@.tracks[j] == self.tracks@[j]@);
                        assert(model_pre.tracks[j] == vecs_pre[j]@);
                    }
                }
                i = i + 1;
            }
            proof {
                assert(self@.tracks =~= step_tracks(models));
                assert forall|j: int| 0 <= j < n implies (#[trigger] self@.tracks[j]).wf() by {
                    lemma_tick_next_wf(models[j]);
                }
                lemma_tick_samples_bound(self@);
            }
        } else {
            proof {
                lemma_tick_samples_bound(old(self)@);
            }
            self.delta_samples = self.delta_samples + 1;
            proof {
                assert(Seq::<MidiTrackEvent>::empty().map_values(|e: MidiTrackEvent| e@) =~= Seq::<
                    TrackEventModel,
                >::empty());
            }
        }
        Some(events)
    }
}

} // verus!
