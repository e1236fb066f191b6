//! Sound encoding: from a decoded music file to the tones of one of its
//! tracks.
//!
//! The tracks are selected first, the length of a tick is resolved next, and
//! only then are tones extracted: whatever fails, fails before the first tone
//! is written.

use vstd::prelude::*;
use crate::error::SoundError;
use crate::event::{MidiFile, MidiModel, TimeBase};
use crate::tempo::{divisible, resolve_tempo, resolved_tempo};
use crate::tone::{check_extraction_fits, extract_tones, extraction_fits, tones_of};
use crate::track::{select_tracks, selected_tracks};
use crate::types::{Tone, ToneModel};

verus! {

/// The tones of the requested track of a file, or the reason why there are
/// none.
pub open spec fn sound_of(file: MidiModel, requested: u8) -> Result<Seq<ToneModel>, SoundError> {
    match selected_tracks(file.tracks, requested) {
        Err(error) => Err(error),
        Ok((tempo_track, target_track)) => match resolved_tempo(tempo_track, file.time_base) {
            Err(error) => Err(error),
            Ok(us_per_tick) => Ok(tones_of(target_track, us_per_tick as nat)),
        },
    }
}

/// Whether the sound of a file can be worked out within the machine's
/// numbers. Where the tracks are there and the time base is metrical, the
/// time base must count at least one tick per quarter note, and the
/// requested track must be one that can be extracted within `u64`.
pub open spec fn sound_computable(file: MidiModel, requested: u8) -> bool {
    selected_tracks(file.tracks, requested) matches Ok((tempo_track, target_track)) ==> {
        &&& divisible(file.time_base)
        &&& resolved_tempo(tempo_track, file.time_base) matches Ok(us_per_tick)
            ==> extraction_fits(target_track, us_per_tick as nat)
    }
}

/// Encodes the sound of one track of a decoded file.
pub fn encode_sound(track: u8, file: &MidiFile) -> (sound: Result<Vec<Tone>, SoundError>)
    requires
        sound_computable(file@, track),
    ensures
        match sound {
            Ok(tones) => sound_of(file@, track) == Ok::<Seq<ToneModel>, SoundError>(
                tones.deep_view(),
            ),
            Err(error) => sound_of(file@, track) == Err::<Seq<ToneModel>, SoundError>(error),
        },
{
    let (tempo_track, target_track) = match select_tracks(file, track) {
        Ok(selection) => selection,
        Err(error) => {
            return Err(error);
        },
    };
    let us_per_tick = match resolve_tempo(tempo_track, file.time_base) {
        Ok(us_per_tick) => us_per_tick,
        Err(error) => {
            return Err(error);
        },
    };
    Ok(extract_tones(target_track, us_per_tick))
}

/// Tells whether the sound of one track of a decoded file can be worked out
/// within the machine's numbers.
pub fn check_sound_computable(track: u8, file: &MidiFile) -> (computable: bool)
    ensures
        computable == sound_computable(file@, track),
{
    let (tempo_track, target_track) = match select_tracks(file, track) {
        Ok(selection) => selection,
        Err(_) => {
            return true;
        },
    };
    match file.time_base {
        TimeBase::Metrical { ticks_per_quarter_note } => {
            if ticks_per_quarter_note == 0 {
                return false;
            }
        },
        TimeBase::Timecode { .. } => {},
    }
    match resolve_tempo(tempo_track, file.time_base) {
        Ok(us_per_tick) => check_extraction_fits(target_track, us_per_tick),
        Err(_) => true,
    }
}

/// Encodes the sound of one track of a decoded file where that can be done
/// within the machine's numbers, and gives nothing where it cannot.
pub fn try_encode_sound(track: u8, file: &MidiFile) -> (sound: Option<
    Result<Vec<Tone>, SoundError>,
>)
    ensures
        sound is Some == sound_computable(file@, track),
        match sound {
            Some(Ok(tones)) => sound_of(file@, track) == Ok::<Seq<ToneModel>, SoundError>(
                tones.deep_view(),
            ),
            Some(Err(error)) => sound_of(file@, track) == Err::<Seq<ToneModel>, SoundError>(error),
            None => true,
        },
{
    if check_sound_computable(track, file) {
        Some(encode_sound(track, file))
    } else {
        None
    }
}

/// A file whose time base is not metrical gives no sound at all: once its
/// tracks are found, the answer is that its time base is not supported.
pub proof fn lemma_timecode_gives_no_sound(file: MidiModel, requested: u8)
    requires
        file.time_base is Timecode,
        requested < file.tracks.len(),
    ensures
        sound_of(file, requested) == Err::<Seq<ToneModel>, SoundError>(
            SoundError::UnsupportedTimeBase,
        ),
{
}

} // verus!
