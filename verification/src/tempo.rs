//! Tempo resolution: how many microseconds one tick lasts.

use vstd::prelude::*;
use crate::error::SoundError;
use crate::event::{Event, EventKind, TimeBase};

verus! {

/// The length of a quarter note where a file sets no tempo: 120 beats per
/// minute.
pub const DEFAULT_MICROSECONDS_PER_QUARTER: u32 = 500_000;

/// The tempo that the first tempo event of a track sets, if there is one.
pub open spec fn first_tempo(events: Seq<Event>) -> Option<u32>
    decreases events.len(),
{
    if events.len() == 0 {
        None
    } else {
        match events.first().kind {
            EventKind::Tempo { microseconds_per_quarter } => Some(microseconds_per_quarter),
            _ => first_tempo(events.drop_first()),
        }
    }
}

/// The length of a quarter note, in microseconds, that a tempo track asks
/// for. Only its first tempo event counts.
pub open spec fn microseconds_per_quarter(tempo_track: Seq<Event>) -> u32 {
    match first_tempo(tempo_track) {
        Some(tempo) => tempo,
        None => DEFAULT_MICROSECONDS_PER_QUARTER,
    }
}

/// The length of a tick in whole microseconds, rounded down, or the reason
/// why it cannot be told.
pub open spec fn resolved_tempo(tempo_track: Seq<Event>, time_base: TimeBase) -> Result<
    u64,
    SoundError,
> {
    match time_base {
        TimeBase::Metrical { ticks_per_quarter_note } => Ok(
            (microseconds_per_quarter(tempo_track) / ticks_per_quarter_note as u32) as u64,
        ),
        TimeBase::Timecode { .. } => Err(SoundError::UnsupportedTimeBase),
    }
}

/// Whether a time base can be resolved by a division: a metrical one must
/// count at least one tick per quarter note.
pub open spec fn divisible(time_base: TimeBase) -> bool {
    time_base matches TimeBase::Metrical { ticks_per_quarter_note } ==> ticks_per_quarter_note > 0
}

/// Finds the first tempo event of a track.
pub fn find_tempo(events: &Vec<Event>) -> (tempo: Option<u32>)
    ensures
        tempo == first_tempo(events@),
{
    let mut index: usize = 0;
    assert(events@.skip(0) =~= events@);
    while index < events.len()
        invariant
            index <= events.len(),
            first_tempo(events@) == first_tempo(events@.skip(index as int)),
        decreases events.len() - index,
    {
        assert(events@.skip(index as int).drop_first() =~= events@.skip(index + 1));
        match events[index].kind {
            EventKind::Tempo { microseconds_per_quarter } => {
                return Some(microseconds_per_quarter);
            },
            _ => {},
        }
        index += 1;
    }
    None
}

/// Resolves the length of a tick from the tempo track and the time base of a
/// file.
pub fn resolve_tempo(tempo_track: &Vec<Event>, time_base: TimeBase) -> (us_per_tick: Result<
    u64,
    SoundError,
>)
    requires
        divisible(time_base),
    ensures
        us_per_tick == resolved_tempo(tempo_track@, time_base),
{
    let tempo = match find_tempo(tempo_track) {
        Some(tempo) => tempo,
        None => DEFAULT_MICROSECONDS_PER_QUARTER,
    };
    match time_base {
        TimeBase::Metrical { ticks_per_quarter_note } => Ok(
            (tempo / ticks_per_quarter_note as u32) as u64,
        ),
        TimeBase::Timecode { .. } => Err(SoundError::UnsupportedTimeBase),
    }
}

/// A tempo track without a tempo event is played at 120 beats per minute: a
/// tick lasts 500,000 microseconds divided by the ticks of a quarter note.
pub proof fn lemma_missing_tempo_means_default(tempo_track: Seq<Event>, ticks_per_quarter_note: u16)
    requires
        forall|i: int| 0 <= i < tempo_track.len() ==> !(#[trigger] tempo_track[i].kind is Tempo),
    ensures
        first_tempo(tempo_track) is None,
        resolved_tempo(tempo_track, TimeBase::Metrical { ticks_per_quarter_note }) == Ok::<
            u64,
            SoundError,
        >((500_000int / ticks_per_quarter_note as int) as u64),
    decreases tempo_track.len(),
{
    if tempo_track.len() > 0 {
        assert(!(tempo_track[0].kind is Tempo));
        assert forall|i: int| 0 <= i < tempo_track.drop_first().len() implies !(
        #[trigger] tempo_track.drop_first()[i].kind is Tempo) by {
            assert(tempo_track.drop_first()[i] == tempo_track[i + 1]);
        }
        lemma_missing_tempo_means_default(tempo_track.drop_first(), ticks_per_quarter_note);
    }
}

/// A time base that does not count ticks per quarter note is refused,
/// whatever the tempo track holds.
pub proof fn lemma_timecode_is_refused(
    tempo_track: Seq<Event>,
    frames_per_second: u8,
    ticks_per_frame: u8,
)
    ensures
        resolved_tempo(tempo_track, TimeBase::Timecode { frames_per_second, ticks_per_frame })
            == Err::<u64, SoundError>(SoundError::UnsupportedTimeBase),
{
}

} // verus!
