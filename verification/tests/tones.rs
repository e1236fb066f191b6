use asset_encoder::event::{Event, EventKind};
use asset_encoder::tone::{
    check_extraction_fits, extract_tones, try_extract_tones, ActiveNote, ToneExtractor,
};
use asset_encoder::types::{Pitch, Tone};

fn on(delta_ticks: u32, note: u8) -> Event {
    Event { delta_ticks, kind: EventKind::PitchOn { note } }
}

fn off(delta_ticks: u32, note: u8) -> Event {
    Event { delta_ticks, kind: EventKind::PitchOff { note } }
}

fn other(delta_ticks: u32) -> Event {
    Event { delta_ticks, kind: EventKind::Other }
}

fn silence(length_microseconds: u64) -> Tone {
    Tone { pitch: Pitch::Silence, length_microseconds }
}

fn note(note: u8, length_microseconds: u64) -> Tone {
    Tone { pitch: Pitch::Note(note), length_microseconds }
}

#[test]
fn empty_track_gives_no_tones() {
    assert_eq!(extract_tones(&vec![], 1041), vec![]);
}

#[test]
fn note_from_tick_zero_has_no_leading_silence() {
    let track = vec![on(0, 69), off(480, 69)];
    assert_eq!(extract_tones(&track, 1041), vec![note(69, 499_680)]);
}

#[test]
fn note_after_a_pause_follows_a_silence() {
    let track = vec![on(10, 60), off(20, 60)];
    assert_eq!(extract_tones(&track, 7), vec![silence(70), note(60, 140)]);
}

#[test]
fn second_note_on_replaces_the_first() {
    let rate = 1041;
    let track = vec![on(480, 69), on(480, 81)];
    assert_eq!(
        extract_tones(&track, rate),
        vec![silence(480 * rate), note(69, 480 * rate)]
    );
}

#[test]
fn trailing_note_is_dropped() {
    let track = vec![on(0, 72), other(1000)];
    assert_eq!(extract_tones(&track, 3), vec![]);
}

#[test]
fn stray_note_off_is_ignored() {
    let track = vec![on(5, 60), off(5, 61), off(5, 60)];
    assert_eq!(extract_tones(&track, 2), vec![silence(10), note(60, 20)]);
}

#[test]
fn note_off_during_silence_is_ignored() {
    let track = vec![off(5, 60), on(5, 60), off(1, 60)];
    assert_eq!(extract_tones(&track, 3), vec![silence(30), note(60, 3)]);
}

#[test]
fn note_off_for_a_superseded_note_is_ignored() {
    let track = vec![on(0, 60), on(4, 64), off(2, 60), off(2, 64)];
    assert_eq!(extract_tones(&track, 10), vec![note(60, 40), note(64, 40)]);
}

#[test]
fn changes_at_the_same_tick_leave_no_tone() {
    let track = vec![on(0, 60), on(0, 62), off(4, 62), on(0, 65), off(0, 65), on(6, 67)];
    assert_eq!(extract_tones(&track, 5), vec![note(62, 20), silence(30)]);
}

#[test]
fn other_events_only_let_time_pass() {
    let tempo = Event { delta_ticks: 2, kind: EventKind::Tempo { microseconds_per_quarter: 1 } };
    let track = vec![other(3), tempo, on(1, 50), other(4), off(4, 50)];
    assert_eq!(extract_tones(&track, 100), vec![silence(600), note(50, 800)]);
}

#[test]
fn a_tick_of_no_length_gives_tones_of_no_length() {
    let track = vec![on(5, 60), off(5, 60)];
    assert_eq!(extract_tones(&track, 0), vec![silence(0), note(60, 0)]);
}

#[test]
fn no_tone_is_empty_when_a_tick_takes_time() {
    let track = vec![on(0, 1), on(0, 2), off(0, 2), on(1, 3), off(0, 3), on(0, 4), off(9, 4)];
    let tones = extract_tones(&track, 1);
    assert_eq!(tones, vec![silence(1), note(4, 9)]);
    assert!(tones.iter().all(|tone| tone.length_microseconds > 0));
}

#[test]
fn tones_never_outlast_the_track() {
    let track = vec![other(7), on(3, 40), on(5, 41), off(2, 40), off(6, 41), on(1, 42), other(11)];
    let rate: u64 = 13;
    let tones = extract_tones(&track, rate);
    assert_eq!(tones, vec![silence(130), note(40, 65), note(41, 104), silence(13)]);
    let total: u64 = tones.iter().map(|tone| tone.length_microseconds).sum();
    let ticks: u64 = track.iter().map(|event| event.delta_ticks as u64).sum();
    assert_eq!(total, 312);
    assert_eq!(ticks * rate, 455);
    assert!(total <= ticks * rate);
}

#[test]
fn extractor_starts_silent_at_tick_zero() {
    let state = ToneExtractor::new();
    assert_eq!(state.current_tick, 0);
    assert_eq!(state.active, ActiveNote { pitch: Pitch::Silence, started_at_tick: 0 });
    assert_eq!(state.output, vec![]);
}

#[test]
fn step_by_step() {
    let state = ToneExtractor::new().step(&on(4, 69), 10);
    assert_eq!(state.current_tick, 4);
    assert_eq!(state.active, ActiveNote { pitch: Pitch::Note(69), started_at_tick: 4 });
    assert_eq!(state.output, vec![silence(40)]);

    let state = state.step(&other(6), 10);
    assert_eq!(state.current_tick, 10);
    assert_eq!(state.active, ActiveNote { pitch: Pitch::Note(69), started_at_tick: 4 });
    assert_eq!(state.output, vec![silence(40)]);

    let state = state.step(&off(1, 69), 10);
    assert_eq!(state.current_tick, 11);
    assert_eq!(state.active, ActiveNote { pitch: Pitch::Silence, started_at_tick: 11 });
    assert_eq!(state.output, vec![silence(40), note(69, 70)]);
    assert_eq!(state.finish(), vec![silence(40), note(69, 70)]);
}

#[test]
fn stray_note_off_changes_nothing_but_the_time() {
    let before = ToneExtractor::new().step(&on(3, 69), 10);
    let after = before.clone().step(&off(8, 70), 10);
    assert_eq!(after.current_tick, before.current_tick + 8);
    assert_eq!(after.active, before.active);
    assert_eq!(after.output, before.output);
}

#[test]
fn longest_tone_that_fits() {
    let rate: u64 = (1 << 24) - 1;
    let mut track = vec![other(u32::MAX); 255];
    track.push(on(u32::MAX, 69));
    assert!(check_extraction_fits(&track, rate));
    let expected = 256 * (u32::MAX as u64) * rate;
    assert_eq!(expected, 18_446_742_969_902_956_800);
    assert_eq!(try_extract_tones(&track, rate), Some(vec![silence(expected)]));
    assert_eq!(extract_tones(&track, rate), vec![silence(expected)]);
}

#[test]
fn tone_too_long_for_its_length_field() {
    let rate: u64 = (1 << 24) - 1;
    let mut track = vec![other(u32::MAX); 256];
    track.push(on(u32::MAX, 69));
    assert!(!check_extraction_fits(&track, rate));
    assert_eq!(try_extract_tones(&track, rate), None);
}

#[test]
fn overlong_time_without_a_tone_still_fits() {
    let rate: u64 = (1 << 24) - 1;
    let mut track = vec![on(1, 69), off(1, 69)];
    track.extend(vec![other(u32::MAX); 300]);
    assert!(check_extraction_fits(&track, rate));
    assert_eq!(try_extract_tones(&track, rate), Some(vec![silence(rate), note(69, rate)]));
}

#[test]
fn counter_can_reach_its_maximum() {
    let state = ToneExtractor {
        current_tick: u64::MAX - 10,
        active: ActiveNote { pitch: Pitch::Silence, started_at_tick: u64::MAX - 10 },
        output: vec![],
    };
    let state = state.step(&on(10, 69), 3);
    assert_eq!(state.current_tick, u64::MAX);
    assert_eq!(state.active, ActiveNote { pitch: Pitch::Note(69), started_at_tick: u64::MAX });
    assert_eq!(state.output, vec![silence(30)]);
}
