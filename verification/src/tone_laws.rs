//! What holds of every extraction, whatever the track.

use vstd::prelude::*;
use crate::event::{Event, EventKind, total_ticks};
use crate::tone::{ExtractorModel, tones_of, lemma_run_current_tick};
use crate::types::{Pitch, ToneModel, total_length};

verus! {

/// Every tone written so far has a length above zero.
pub open spec fn all_positive(tones: Seq<ToneModel>) -> bool {
    forall|i: int| 0 <= i < tones.len() ==> (#[trigger] tones[i]).length_microseconds > 0
}

proof fn lemma_step_keeps_positive(state: ExtractorModel, event: Event, us_per_tick: nat)
    requires
        us_per_tick > 0,
        all_positive(state.output),
    ensures
        all_positive(state.step(event, us_per_tick).output),
{
    let now = state.current_tick + event.delta_ticks as nat;
    if now > state.started_at_tick {
        assert((now - state.started_at_tick) * us_per_tick > 0) by (nonlinear_arith)
            requires
                now - state.started_at_tick > 0,
                us_per_tick > 0,
        ;
    }
}

proof fn lemma_run_keeps_positive(state: ExtractorModel, events: Seq<Event>, us_per_tick: nat)
    requires
        us_per_tick > 0,
        all_positive(state.output),
    ensures
        all_positive(state.run(events, us_per_tick).output),
    decreases events.len(),
{
    if events.len() > 0 {
        lemma_run_keeps_positive(state, events.drop_last(), us_per_tick);
        lemma_step_keeps_positive(
            state.run(events.drop_last(), us_per_tick),
            events.last(),
            us_per_tick,
        );
    }
}

/// No tone is empty: as long as a tick takes any time at all, every tone that
/// is written lasts at least one microsecond.
pub proof fn lemma_tones_are_never_empty(events: Seq<Event>, us_per_tick: nat)
    requires
        us_per_tick > 0,
    ensures
        all_positive(tones_of(events, us_per_tick)),
{
    lemma_run_keeps_positive(ExtractorModel::initial(), events, us_per_tick);
}

/// The tones written so far end where the active note started.
spec fn covered(state: ExtractorModel, us_per_tick: nat) -> bool {
    &&& state.wf()
    &&& total_length(state.output) <= state.started_at_tick * us_per_tick
}

proof fn lemma_step_keeps_covered(state: ExtractorModel, event: Event, us_per_tick: nat)
    requires
        covered(state, us_per_tick),
    ensures
        covered(state.step(event, us_per_tick), us_per_tick),
{
    let now = state.current_tick + event.delta_ticks as nat;
    let next = state.step(event, us_per_tick);
    let started = state.started_at_tick;
    assert(started * us_per_tick + (now - started) * us_per_tick == now * us_per_tick)
        by (nonlinear_arith);
    assert((now - started) * us_per_tick >= 0) by (nonlinear_arith)
        requires
            now >= started,
    ;
    if next.output.len() > state.output.len() {
        assert(next.output.drop_last() =~= state.output);
    }
}

proof fn lemma_run_keeps_covered(state: ExtractorModel, events: Seq<Event>, us_per_tick: nat)
    requires
        covered(state, us_per_tick),
    ensures
        covered(state.run(events, us_per_tick), us_per_tick),
    decreases events.len(),
{
    if events.len() > 0 {
        lemma_run_keeps_covered(state, events.drop_last(), us_per_tick);
        lemma_step_keeps_covered(
            state.run(events.drop_last(), us_per_tick),
            events.last(),
            us_per_tick,
        );
    }
}

/// The tones of a track never last longer, taken together, than the track
/// itself: the ticks of all its events, each at `us_per_tick` microseconds.
pub proof fn lemma_total_length_within_track(events: Seq<Event>, us_per_tick: nat)
    ensures
        total_length(tones_of(events, us_per_tick)) <= total_ticks(events) * us_per_tick,
{
    let start = ExtractorModel::initial();
    let end = start.run(events, us_per_tick);
    assert(start.output.len() == 0);
    assert(0 * us_per_tick == 0) by (nonlinear_arith);
    lemma_run_keeps_covered(start, events, us_per_tick);
    lemma_run_current_tick(start, events, us_per_tick);
    assert(end.started_at_tick * us_per_tick <= end.current_tick * us_per_tick)
        by (nonlinear_arith)
        requires
            end.started_at_tick <= end.current_tick,
    ;
}

/// A note-off for a note that is not the one sounding is ignored: time moves
/// on by the event's delta, no tone is written, and what was sounding goes on
/// sounding from where it started.
pub proof fn lemma_stray_pitch_off_is_ignored(
    state: ExtractorModel,
    delta_ticks: u32,
    note: u8,
    us_per_tick: nat,
)
    requires
        state.active != Pitch::Note(note),
    ensures
        ({
            let event = Event { delta_ticks, kind: EventKind::PitchOff { note } };
            let next = state.step(event, us_per_tick);
            &&& next.output == state.output
            &&& next.active == state.active
            &&& next.started_at_tick == state.started_at_tick
            &&& next.current_tick == state.current_tick + delta_ticks
        }),
{
}

/// A note-off at the end of a track, for a note that is not the one sounding
/// there, leaves the tones of the track as they were.
pub proof fn lemma_stray_pitch_off_writes_nothing(
    events: Seq<Event>,
    delta_ticks: u32,
    note: u8,
    us_per_tick: nat,
)
    requires
        ExtractorModel::initial().run(events, us_per_tick).active != Pitch::Note(note),
    ensures
        tones_of(
            events.push(Event { delta_ticks, kind: EventKind::PitchOff { note } }),
            us_per_tick,
        ) == tones_of(events, us_per_tick),
{
    let event = Event { delta_ticks, kind: EventKind::PitchOff { note } };
    assert(events.push(event).drop_last() =~= events);
}

/// A track of one note, which starts at tick `start` and stops at the later
/// tick `stop`, gives that note for the ticks between the two, after a silence
/// of `start` ticks unless the note starts at tick 0.
pub proof fn lemma_single_note(note: u8, start: u32, stop: u64, us_per_tick: nat)
    requires
        start < stop,
        stop - start <= u32::MAX,
    ensures
        ({
            let on = Event { delta_ticks: start, kind: EventKind::PitchOn { note } };
            let off = Event {
                delta_ticks: (stop - start) as u32,
                kind: EventKind::PitchOff { note },
            };
            let sounding = ToneModel {
                pitch: Pitch::Note(note),
                length_microseconds: ((stop - start) * us_per_tick) as nat,
            };
            let silence = ToneModel {
                pitch: Pitch::Silence,
                length_microseconds: (start * us_per_tick) as nat,
            };
            tones_of(seq![on, off], us_per_tick) == if start > 0 {
                seq![silence, sounding]
            } else {
                seq![sounding]
            }
        }),
{
    let on = Event { delta_ticks: start, kind: EventKind::PitchOn { note } };
    let off = Event { delta_ticks: (stop - start) as u32, kind: EventKind::PitchOff { note } };
    let begin = ExtractorModel::initial();
    assert(seq![on, off].drop_last() =~= seq![on]);
    assert(seq![on].drop_last() =~= Seq::<Event>::empty());
    assert(begin.run(Seq::<Event>::empty(), us_per_tick) == begin);
    assert(begin.run(seq![on], us_per_tick) == begin.step(on, us_per_tick));
    let sounding = ToneModel {
        pitch: Pitch::Note(note),
        length_microseconds: ((stop - start) * us_per_tick) as nat,
    };
    let silence = ToneModel {
        pitch: Pitch::Silence,
        length_microseconds: (start * us_per_tick) as nat,
    };
    assert(tones_of(seq![on, off], us_per_tick) =~= if start > 0 {
        seq![silence, sounding]
    } else {
        seq![sounding]
    });
}

} // verus!
