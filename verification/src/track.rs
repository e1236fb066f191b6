//! Track selection: the track that carries the tempo and the track whose
//! notes are wanted.
//!
//! The tempo is looked up in track 0. In a file of several tracks the notes
//! are elsewhere, by convention in track 1; in a file of a single track they
//! are in track 0 as well, and that is the index to ask for.

use vstd::prelude::*;
use crate::error::SoundError;
use crate::event::{Event, MidiFile};

verus! {

/// The track that callers ask for when they have no other wish.
pub const DEFAULT_TRACK: u8 = 1;

/// The tempo track and the requested track of a list of tracks, or why there
/// is none.
pub open spec fn selected_tracks(tracks: Seq<Seq<Event>>, requested: u8) -> Result<
    (Seq<Event>, Seq<Event>),
    SoundError,
> {
    if tracks.len() == 0 {
        Err(SoundError::NoTracks)
    } else if requested >= tracks.len() {
        Err(SoundError::TrackNotFound { requested, available: tracks.len() as usize })
    } else {
        Ok((tracks[0], tracks[requested as int]))
    }
}

/// Picks the tempo track and the requested track of a file.
pub fn select_tracks(file: &MidiFile, requested: u8) -> (selection: Result<
    (&Vec<Event>, &Vec<Event>),
    SoundError,
>)
    ensures
        match selection {
            Ok((tempo_track, target_track)) => selected_tracks(file@.tracks, requested) == Ok::<
                (Seq<Event>, Seq<Event>),
                SoundError,
            >((tempo_track@, target_track@)),
            Err(error) => selected_tracks(file@.tracks, requested) == Err::<
                (Seq<Event>, Seq<Event>),
                SoundError,
            >(error),
        },
{
    let available = file.tracks.len();
    if available == 0 {
        Err(SoundError::NoTracks)
    } else if requested as usize >= available {
        Err(SoundError::TrackNotFound { requested, available })
    } else {
        Ok((&file.tracks[0], &file.tracks[requested as usize]))
    }
}

} // verus!
