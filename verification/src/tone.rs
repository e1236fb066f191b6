//! Tone extraction: one pass over a track's events that keeps a single active
//! note and writes down a tone each time the active note changes.
//!
//! The rules are those of a monophonic voice. A note that starts replaces
//! whatever was sounding. A note that stops matters only if it is the one that
//! is sounding. Two changes at the same tick leave no tone between them. What
//! still sounds when the track ends is dropped.

use vstd::prelude::*;
use crate::event::{Event, EventKind, total_ticks};
use crate::types::{Pitch, Tone, ToneModel, tones_fit};

verus! {

/// The state of an extraction, as mathematics sees it.
pub struct ExtractorModel {
    /// Ticks elapsed since the start of the track.
    pub current_tick: nat,
    /// What is sounding.
    pub active: Pitch,
    /// The tick at which `active` became active.
    pub started_at_tick: nat,
    /// The tones written so far.
    pub output: Seq<ToneModel>,
}

impl ExtractorModel {
    /// Silence since tick 0, and nothing written.
    pub open spec fn initial() -> ExtractorModel {
        ExtractorModel {
            current_tick: 0,
            active: Pitch::Silence,
            started_at_tick: 0,
            output: Seq::empty(),
        }
    }

    /// The active note did not start in the future.
    pub open spec fn wf(self) -> bool {
        self.started_at_tick <= self.current_tick
    }

    /// Time moves on to tick `now` and nothing else happens.
    pub open spec fn pass(self, now: nat) -> ExtractorModel {
        ExtractorModel { current_tick: now, ..self }
    }

    /// At tick `now` the active note gives way to `next`. If it was active for
    /// any time at all, a tone of that length is written.
    pub open spec fn switch_to(self, now: nat, next: Pitch, us_per_tick: nat) -> ExtractorModel {
        ExtractorModel {
            current_tick: now,
            active: next,
            started_at_tick: now,
            output: if now > self.started_at_tick {
                self.output.push(
                    ToneModel {
                        pitch: self.active,
                        length_microseconds: ((now - self.started_at_tick) * us_per_tick) as nat,
                    },
                )
            } else {
                self.output
            },
        }
    }

    /// The state after one more event.
    pub open spec fn step(self, event: Event, us_per_tick: nat) -> ExtractorModel {
        let now = self.current_tick + event.delta_ticks as nat;
        match event.kind {
            EventKind::PitchOn { note } => self.switch_to(now, Pitch::Note(note), us_per_tick),
            EventKind::PitchOff { note } => if self.active == Pitch::Note(note) {
                self.switch_to(now, Pitch::Silence, us_per_tick)
            } else {
                self.pass(now)
            },
            _ => self.pass(now),
        }
    }

    /// The state after a run of events, taken in order.
    pub open spec fn run(self, events: Seq<Event>, us_per_tick: nat) -> ExtractorModel
        decreases events.len(),
    {
        if events.len() == 0 {
            self
        } else {
            self.run(events.drop_last(), us_per_tick).step(events.last(), us_per_tick)
        }
    }
}

/// The tones of a whole track.
pub open spec fn tones_of(events: Seq<Event>, us_per_tick: nat) -> Seq<ToneModel> {
    ExtractorModel::initial().run(events, us_per_tick).output
}

/// The note that is sounding, and since when.
#[derive(Clone, Copy, Debug, PartialEq, Eq, Structural)]
pub struct ActiveNote {
    pub pitch: Pitch,
    pub started_at_tick: u64,
}

/// The state of an extraction. It is handed from step to step by value.
#[derive(Clone, Debug, PartialEq, Eq)]
pub struct ToneExtractor {
    pub current_tick: u64,
    pub active: ActiveNote,
    pub output: Vec<Tone>,
}

impl View for ToneExtractor {
    type V = ExtractorModel;

    open spec fn view(&self) -> ExtractorModel {
        ExtractorModel {
            current_tick: self.current_tick as nat,
            active: self.active.pitch,
            started_at_tick: self.active.started_at_tick as nat,
            output: self.output.deep_view(),
        }
    }
}

impl ToneExtractor {
    /// The state before the first event.
    pub fn new() -> (state: ToneExtractor)
        ensures
            state@ == ExtractorModel::initial(),
            state@.wf(),
    {
        let state = ToneExtractor {
            current_tick: 0,
            active: ActiveNote { pitch: Pitch::Silence, started_at_tick: 0 },
            output: Vec::new(),
        };
        assert(state.output.deep_view() =~= Seq::<ToneModel>::empty());
        state
    }

    fn pass(self, now: u64) -> (next: ToneExtractor)
        ensures
            next@ == self@.pass(now as nat),
    {
        ToneExtractor { current_tick: now, active: self.active, output: self.output }
    }

    fn switch_to(self, now: u64, pitch: Pitch, us_per_tick: u64) -> (next: ToneExtractor)
        requires
            tones_fit(self@.switch_to(now as nat, pitch, us_per_tick as nat).output),
        ensures
            next@ == self@.switch_to(now as nat, pitch, us_per_tick as nat),
    {
        let ghost before = self@;
        let ghost after = before.switch_to(now as nat, pitch, us_per_tick as nat);
        let mut output = self.output;
        if now > self.active.started_at_tick {
            let elapsed: u64 = now - self.active.started_at_tick;
            assert(elapsed * us_per_tick <= u64::MAX) by {
                assert(after.output[before.output.len() as int].fits());
            }
            let tone = Tone { pitch: self.active.pitch, length_microseconds: elapsed * us_per_tick };
            output.push(tone);
            assert(output.deep_view() =~= before.output.push(tone@));
        }
        ToneExtractor {
            current_tick: now,
            active: ActiveNote { pitch, started_at_tick: now },
            output,
        }
    }

    /// Takes one event: time moves on by the event's delta, and the active
    /// note changes as the event says.
    pub fn step(self, event: &Event, us_per_tick: u64) -> (next: ToneExtractor)
        requires
            self.current_tick + event.delta_ticks <= u64::MAX,
            tones_fit(self@.step(*event, us_per_tick as nat).output),
        ensures
            next@ == self@.step(*event, us_per_tick as nat),
            self@.wf() ==> next@.wf(),
    {
        let now: u64 = self.current_tick + event.delta_ticks as u64;
        match event.kind {
            EventKind::PitchOn { note } => self.switch_to(now, Pitch::Note(note), us_per_tick),
            EventKind::PitchOff { note } => {
                if self.active.pitch == Pitch::Note(note) {
                    self.switch_to(now, Pitch::Silence, us_per_tick)
                } else {
                    self.pass(now)
                }
            },
            _ => self.pass(now),
        }
    }

    /// Ends the extraction. Whatever is still sounding is dropped.
    pub fn finish(self) -> (tones: Vec<Tone>)
        ensures
            tones.deep_view() == self@.output,
    {
        self.output
    }
}

/// Taking the first `n + 1` events is taking the first `n` and then one more.
proof fn lemma_run_take_step(state: ExtractorModel, events: Seq<Event>, us_per_tick: nat, n: int)
    requires
        0 <= n < events.len(),
    ensures
        state.run(events.take(n + 1), us_per_tick) == state.run(events.take(n), us_per_tick).step(
            events[n],
            us_per_tick,
        ),
{
    assert(events.take(n + 1).drop_last() =~= events.take(n));
}

/// The ticks of the first `n` events are among the ticks of all of them.
pub proof fn lemma_total_ticks_take(events: Seq<Event>, n: int)
    requires
        0 <= n <= events.len(),
    ensures
        total_ticks(events.take(n)) <= total_ticks(events),
    decreases events.len() - n,
{
    if n == events.len() {
        assert(events.take(n) =~= events);
    } else {
        lemma_total_ticks_take(events, n + 1);
        assert(events.take(n + 1).drop_last() =~= events.take(n));
    }
}

/// A run moves time on by the ticks of its events, and a state that is well
/// formed stays so.
pub proof fn lemma_run_current_tick(state: ExtractorModel, events: Seq<Event>, us_per_tick: nat)
    ensures
        state.run(events, us_per_tick).current_tick == state.current_tick + total_ticks(events),
        state.wf() ==> state.run(events, us_per_tick).wf(),
    decreases events.len(),
{
    if events.len() > 0 {
        lemma_run_current_tick(state, events.drop_last(), us_per_tick);
    }
}

/// Tones are only ever appended: what the first `n` events wrote is the start
/// of what all of them write.
pub proof fn lemma_run_output_grows(
    state: ExtractorModel,
    events: Seq<Event>,
    us_per_tick: nat,
    n: int,
)
    requires
        0 <= n <= events.len(),
    ensures
        state.run(events.take(n), us_per_tick).output.is_prefix_of(
            state.run(events, us_per_tick).output,
        ),
    decreases events.len() - n,
{
    if n == events.len() {
        assert(events.take(n) =~= events);
    } else {
        lemma_run_output_grows(state, events, us_per_tick, n + 1);
        lemma_run_take_step(state, events, us_per_tick, n);
    }
}

/// Whether a track can be extracted within `u64`: its ticks add up within
/// it, and so does the length of each tone that is written.
pub open spec fn extraction_fits(events: Seq<Event>, us_per_tick: nat) -> bool {
    &&& total_ticks(events) <= u64::MAX
    &&& tones_fit(tones_of(events, us_per_tick))
}

/// Extracts the tones of a track: every event is taken in order, starting from
/// silence at tick 0.
///
/// The ticks of the track must add up within `u64`, and so must the length of
/// each tone that is written.
pub fn extract_tones(events: &Vec<Event>, us_per_tick: u64) -> (tones: Vec<Tone>)
    requires
        extraction_fits(events@, us_per_tick as nat),
    ensures
        tones.deep_view() == tones_of(events@, us_per_tick as nat),
{
    let mut state = ToneExtractor::new();
    let mut index: usize = 0;
    while index < events.len()
        invariant
            index <= events.len(),
            state@ == ExtractorModel::initial().run(events@.take(index as int), us_per_tick as nat),
            extraction_fits(events@, us_per_tick as nat),
        decreases events.len() - index,
    {
        proof {
            let start = ExtractorModel::initial();
            let rate = us_per_tick as nat;
            lemma_run_take_step(start, events@, rate, index as int);
            lemma_run_current_tick(start, events@.take(index as int), rate);
            lemma_run_current_tick(start, events@.take(index + 1), rate);
            lemma_total_ticks_take(events@, index + 1);
            lemma_run_output_grows(start, events@, rate, index + 1);
        }
        state = state.step(&events[index], us_per_tick);
        index += 1;
    }
    assert(events@.take(index as int) =~= events@);
    state.finish()
}

/// Tells whether a track can be extracted within `u64`, by going through its
/// events once without writing anything down.
pub fn check_extraction_fits(events: &Vec<Event>, us_per_tick: u64) -> (fits: bool)
    ensures
        fits == extraction_fits(events@, us_per_tick as nat),
{
    let ghost start = ExtractorModel::initial();
    let ghost rate = us_per_tick as nat;
    let mut current_tick: u64 = 0;
    let mut active = ActiveNote { pitch: Pitch::Silence, started_at_tick: 0 };
    let mut index: usize = 0;
    while index < events.len()
        invariant
            index <= events.len(),
            start == ExtractorModel::initial(),
            rate == us_per_tick as nat,
            start.run(events@.take(index as int), rate).current_tick == current_tick,
            start.run(events@.take(index as int), rate).active == active.pitch,
            start.run(events@.take(index as int), rate).started_at_tick == active.started_at_tick,
            tones_fit(start.run(events@.take(index as int), rate).output),
        decreases events.len() - index,
    {
        let event = &events[index];
        let ghost before = start.run(events@.take(index as int), rate);
        let ghost after = before.step(*event, rate);
        proof {
            lemma_run_take_step(start, events@, rate, index as int);
            lemma_run_current_tick(start, events@.take(index + 1), rate);
            lemma_total_ticks_take(events@, index + 1);
            lemma_run_output_grows(start, events@, rate, index + 1);
        }
        let now: u64 = match current_tick.checked_add(event.delta_ticks as u64) {
            Some(now) => now,
            None => {
                return false;
            },
        };
        let next: Option<Pitch> = match event.kind {
            EventKind::PitchOn { note } => Some(Pitch::Note(note)),
            EventKind::PitchOff { note } => if active.pitch == Pitch::Note(note) {
                Some(Pitch::Silence)
            } else {
                None
            },
            _ => None,
        };
        if let Some(pitch) = next {
            if now > active.started_at_tick {
                let elapsed: u64 = now - active.started_at_tick;
                if elapsed.checked_mul(us_per_tick).is_none() {
                    proof {
                        let last = before.output.len() as int;
                        assert(!after.output[last].fits());
                        assert(tones_of(events@, rate)[last] == after.output[last]);
                    }
                    return false;
                }
            }
            active = ActiveNote { pitch, started_at_tick: now };
        }
        current_tick = now;
        index += 1;
    }
    proof {
        assert(events@.take(index as int) =~= events@);
        lemma_run_current_tick(start, events@, rate);
    }
    true
}

/// Extracts the tones of a track where that can be done within `u64`, and
/// gives nothing where it cannot.
pub fn try_extract_tones(events: &Vec<Event>, us_per_tick: u64) -> (tones: Option<Vec<Tone>>)
    ensures
        match tones {
            Some(tones) => extraction_fits(events@, us_per_tick as nat) && tones.deep_view()
                == tones_of(events@, us_per_tick as nat),
            None => !extraction_fits(events@, us_per_tick as nat),
        },
{
    if check_extraction_fits(events, us_per_tick) {
        Some(extract_tones(events, us_per_tick))
    } else {
        None
    }
}

} // verus!
