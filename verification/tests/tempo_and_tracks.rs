use asset_encoder::error::SoundError;
use asset_encoder::event::{Event, EventKind, MidiFile, TimeBase};
use asset_encoder::midi::{check_sound_computable, encode_sound, try_encode_sound};
use asset_encoder::tempo::{find_tempo, resolve_tempo, DEFAULT_MICROSECONDS_PER_QUARTER};
use asset_encoder::track::{select_tracks, DEFAULT_TRACK};
use asset_encoder::types::{Pitch, Tone};

fn tempo(delta_ticks: u32, microseconds_per_quarter: u32) -> Event {
    Event { delta_ticks, kind: EventKind::Tempo { microseconds_per_quarter } }
}

fn on(delta_ticks: u32, note: u8) -> Event {
    Event { delta_ticks, kind: EventKind::PitchOn { note } }
}

fn off(delta_ticks: u32, note: u8) -> Event {
    Event { delta_ticks, kind: EventKind::PitchOff { note } }
}

fn other(delta_ticks: u32) -> Event {
    Event { delta_ticks, kind: EventKind::Other }
}

fn metrical(ticks_per_quarter_note: u16) -> TimeBase {
    TimeBase::Metrical { ticks_per_quarter_note }
}

fn timecode() -> TimeBase {
    TimeBase::Timecode { frames_per_second: 25, ticks_per_frame: 40 }
}

#[test]
fn default_tempo_is_120_beats_per_minute() {
    assert_eq!(DEFAULT_MICROSECONDS_PER_QUARTER, 500_000);
    assert_eq!(60_000_000 / DEFAULT_MICROSECONDS_PER_QUARTER, 120);
}

#[test]
fn tempo_event_sets_the_tick_length() {
    let track = vec![tempo(0, 500_000)];
    assert_eq!(resolve_tempo(&track, metrical(480)), Ok(1041));
}

#[test]
fn tick_length_is_rounded_down() {
    let track = vec![tempo(0, 1_000_000)];
    assert_eq!(resolve_tempo(&track, metrical(3)), Ok(333_333));
    assert_eq!(resolve_tempo(&track, metrical(1)), Ok(1_000_000));
    assert_eq!(resolve_tempo(&track, metrical(32767)), Ok(30));
}

#[test]
fn missing_tempo_means_the_default() {
    assert_eq!(resolve_tempo(&vec![], metrical(480)), Ok(1041));
    assert_eq!(resolve_tempo(&vec![other(5), on(0, 60), off(9, 60)], metrical(96)), Ok(5208));
    assert_eq!(find_tempo(&vec![other(5), on(0, 60)]), None);
}

#[test]
fn only_the_first_tempo_counts() {
    let track = vec![other(10), tempo(100, 600_000), tempo(0, 300_000), tempo(50, 1)];
    assert_eq!(find_tempo(&track), Some(600_000));
    assert_eq!(resolve_tempo(&track, metrical(100)), Ok(6000));
}

#[test]
fn tempo_shorter_than_a_tick_count_gives_zero() {
    let track = vec![tempo(0, 100)];
    assert_eq!(resolve_tempo(&track, metrical(480)), Ok(0));
}

#[test]
fn timecode_is_not_supported() {
    assert_eq!(resolve_tempo(&vec![], timecode()), Err(SoundError::UnsupportedTimeBase));
    assert_eq!(
        resolve_tempo(&vec![tempo(0, 500_000)], timecode()),
        Err(SoundError::UnsupportedTimeBase)
    );
}

#[test]
fn default_track_is_one() {
    assert_eq!(DEFAULT_TRACK, 1);
}

#[test]
fn selection_of_tempo_and_target_track() {
    let file = MidiFile {
        time_base: metrical(480),
        tracks: vec![vec![tempo(0, 1)], vec![on(0, 1)], vec![on(0, 2)]],
    };
    assert_eq!(select_tracks(&file, 0), Ok((&file.tracks[0], &file.tracks[0])));
    assert_eq!(select_tracks(&file, 1), Ok((&file.tracks[0], &file.tracks[1])));
    assert_eq!(select_tracks(&file, 2), Ok((&file.tracks[0], &file.tracks[2])));
}

#[test]
fn selection_from_a_file_without_tracks() {
    let file = MidiFile { time_base: metrical(480), tracks: vec![] };
    assert_eq!(select_tracks(&file, 0), Err(SoundError::NoTracks));
    assert_eq!(select_tracks(&file, 1), Err(SoundError::NoTracks));
}

#[test]
fn selection_of_a_track_that_is_not_there() {
    let file = MidiFile { time_base: metrical(480), tracks: vec![vec![], vec![]] };
    assert_eq!(
        select_tracks(&file, 2),
        Err(SoundError::TrackNotFound { requested: 2, available: 2 })
    );
    assert_eq!(
        select_tracks(&file, 255),
        Err(SoundError::TrackNotFound { requested: 255, available: 2 })
    );
}

#[test]
fn sound_of_a_two_track_file() {
    let file = MidiFile {
        time_base: metrical(480),
        tracks: vec![vec![tempo(0, 500_000)], vec![on(0, 69), off(480, 69)]],
    };
    assert_eq!(
        encode_sound(1, &file),
        Ok(vec![Tone { pitch: Pitch::Note(69), length_microseconds: 499_680 }])
    );
    assert_eq!(encode_sound(0, &file), Ok(vec![]));
}

#[test]
fn sound_of_a_single_track_file() {
    let file = MidiFile {
        time_base: metrical(100),
        tracks: vec![vec![on(10, 60), tempo(0, 200_000), off(5, 60)]],
    };
    assert_eq!(
        encode_sound(0, &file),
        Ok(vec![
            Tone { pitch: Pitch::Silence, length_microseconds: 20_000 },
            Tone { pitch: Pitch::Note(60), length_microseconds: 10_000 },
        ])
    );
    assert_eq!(
        encode_sound(1, &file),
        Err(SoundError::TrackNotFound { requested: 1, available: 1 })
    );
}

#[test]
fn sound_without_a_tempo_event() {
    let file = MidiFile {
        time_base: metrical(480),
        tracks: vec![vec![], vec![on(480, 69), on(480, 81)]],
    };
    assert_eq!(
        encode_sound(1, &file),
        Ok(vec![
            Tone { pitch: Pitch::Silence, length_microseconds: 499_680 },
            Tone { pitch: Pitch::Note(69), length_microseconds: 499_680 },
        ])
    );
}

#[test]
fn failures_come_in_order() {
    let empty = MidiFile { time_base: timecode(), tracks: vec![] };
    assert_eq!(encode_sound(1, &empty), Err(SoundError::NoTracks));

    let short = MidiFile { time_base: timecode(), tracks: vec![vec![on(0, 1)]] };
    assert_eq!(
        encode_sound(1, &short),
        Err(SoundError::TrackNotFound { requested: 1, available: 1 })
    );
    assert_eq!(encode_sound(0, &short), Err(SoundError::UnsupportedTimeBase));
}

#[test]
fn timecode_file_gives_no_tones() {
    let file = MidiFile {
        time_base: timecode(),
        tracks: vec![vec![tempo(0, 500_000)], vec![on(0, 69), off(480, 69)]],
    };
    assert_eq!(encode_sound(1, &file), Err(SoundError::UnsupportedTimeBase));
    assert_eq!(try_encode_sound(1, &file), Some(Err(SoundError::UnsupportedTimeBase)));
}

#[test]
fn no_ticks_per_quarter_note_cannot_be_computed() {
    let file = MidiFile { time_base: metrical(0), tracks: vec![vec![], vec![]] };
    assert!(!check_sound_computable(1, &file));
    assert_eq!(try_encode_sound(1, &file), None);
    // The tracks are looked at first.
    assert!(check_sound_computable(2, &file));
    assert_eq!(
        try_encode_sound(2, &file),
        Some(Err(SoundError::TrackNotFound { requested: 2, available: 2 }))
    );
}

#[test]
fn overlong_tone_cannot_be_computed() {
    let mut target = vec![other(u32::MAX); 256];
    target.push(on(u32::MAX, 69));
    let file = MidiFile {
        time_base: metrical(1),
        tracks: vec![vec![tempo(0, (1 << 24) - 1)], target],
    };
    assert!(!check_sound_computable(1, &file));
    assert_eq!(try_encode_sound(1, &file), None);
    assert!(check_sound_computable(0, &file));
    assert_eq!(try_encode_sound(0, &file), Some(Ok(vec![])));
}

#[test]
fn try_encode_agrees_with_encode() {
    let file = MidiFile {
        time_base: metrical(480),
        tracks: vec![vec![tempo(0, 500_000)], vec![on(0, 69), off(480, 69)]],
    };
    assert!(check_sound_computable(1, &file));
    assert_eq!(try_encode_sound(1, &file), Some(encode_sound(1, &file)));
}
