//! The decoded form of a sequenced-music file: events with relative tick
//! deltas, grouped into tracks, under one time base.

use vstd::prelude::*;

verus! {

/// What an event does, as far as tone extraction is concerned.
#[derive(Clone, Copy, Debug, PartialEq, Eq, Structural)]
pub enum EventKind {
    /// A note starts to sound.
    PitchOn { note: u8 },
    /// A note stops sounding.
    PitchOff { note: u8 },
    /// The length of a quarter note, in microseconds.
    Tempo { microseconds_per_quarter: u32 },
    /// Any other event; it only lets time pass.
    Other,
}

/// One event of a track.
#[derive(Clone, Copy, Debug, PartialEq, Eq, Structural)]
pub struct Event {
    /// Ticks elapsed since the previous event of the same track.
    pub delta_ticks: u32,
    pub kind: EventKind,
}

/// How a file measures time.
#[derive(Clone, Copy, Debug, PartialEq, Eq, Structural)]
pub enum TimeBase {
    /// Ticks are fractions of a quarter note.
    Metrical { ticks_per_quarter_note: u16 },
    /// Ticks are fractions of a video frame.
    Timecode { frames_per_second: u8, ticks_per_frame: u8 },
}

/// A decoded file, as mathematics sees it.
pub struct MidiModel {
    pub time_base: TimeBase,
    pub tracks: Seq<Seq<Event>>,
}

/// A decoded file.
#[derive(Clone, Debug, PartialEq, Eq)]
pub struct MidiFile {
    pub time_base: TimeBase,
    /// The tracks in file order; track 0 carries the tempo.
    pub tracks: Vec<Vec<Event>>,
}

impl View for MidiFile {
    type V = MidiModel;

    open spec fn view(&self) -> MidiModel {
        MidiModel {
            time_base: self.time_base,
            tracks: Seq::new(self.tracks@.len(), |i: int| self.tracks@[i]@),
        }
    }
}

/// The ticks that pass over a whole track: the sum of its deltas.
pub open spec fn total_ticks(events: Seq<Event>) -> nat
    decreases events.len(),
{
    if events.len() == 0 {
        0
    } else {
        total_ticks(events.drop_last()) + events.last().delta_ticks as nat
    }
}

} // verus!
