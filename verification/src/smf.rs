//! Decoding of Standard MIDI Files. The container format is read by the
//! `midly` crate; this module carries what it found over into the crate's own
//! data model.
//!
//! Nothing here is proved about `midly` itself. Each function marked
//! `external_body` states what is taken on trust of one of its items, over
//! three names: what `midly` makes of given bytes, and what a file that it
//! has parsed holds.

use vstd::prelude::*;
use midly::{MetaMessage, MidiMessage, Smf, Timing, TrackEventKind};
use crate::error::SoundError;
use crate::event::{Event, EventKind, MidiFile, MidiModel, TimeBase};

verus! {

/// `midly::Smf`: a parsed file. Verus does not look inside it.
#[verifier::external_type_specification]
#[verifier::external_body]
pub struct ExSmf<'a>(midly::Smf<'a>);

/// `midly::Error`: why a file could not be parsed.
#[verifier::external_type_specification]
#[verifier::external_body]
pub struct ExMidlyError(midly::Error);

/// What `midly` makes of the bytes of a file: the time base and the tracks
/// that it finds, or nothing where it gives up.
pub uninterp spec fn parsed_midi(bytes: Seq<u8>) -> Option<MidiModel>;

/// The time base in the header of a parsed file.
pub uninterp spec fn smf_time_base(smf: Smf) -> TimeBase;

/// The tracks of a parsed file, each event reduced to what tone extraction
/// reads: its delta and, for a note-on, a note-off or a tempo event, its kind
/// and its value.
pub uninterp spec fn smf_tracks(smf: Smf) -> Seq<Seq<Event>>;

/// Whether the four bytes from place `at` on are the mark of a header chunk,
/// `MThd`.
pub open spec fn header_mark_at(bytes: Seq<u8>, at: int) -> bool {
    &&& 0 <= at
    &&& at + 4 <= bytes.len()
    &&& bytes[at] == 0x4D
    &&& bytes[at + 1] == 0x54
    &&& bytes[at + 2] == 0x68
    &&& bytes[at + 3] == 0x64
}

/// Whether `midly` can be trusted to come back from parsing the bytes.
///
/// Twelve bytes after the mark of a header chunk stands the byte that holds,
/// for a time base in timecode, the frame rate as a negative number. `midly`
/// negates it in eight bits, and stops the program on the one value that has
/// no counterpart there, -128. So that value must not stand twelve bytes
/// after any such mark, wherever in the bytes the mark is found.
pub open spec fn decodable(bytes: Seq<u8>) -> bool {
    forall|at: int| #[trigger]
        header_mark_at(bytes, at) && at + 12 < bytes.len() ==> bytes[at + 12] != 0x80
}

/// `midly::Smf::parse`. It panics where it negates a frame rate of -128, which
/// `decodable` rules out. The result depends on the bytes alone: where it is
/// a file, the file holds what `parsed_midi` says of the bytes, and where it
/// is an error, `parsed_midi` has nothing for them.
#[verifier::external_body]
fn parse_smf<'a>(bytes: &'a [u8]) -> (parsed: Result<Smf<'a>, midly::Error>)
    requires
        decodable(bytes@),
    ensures
        match parsed {
            Ok(smf) => parsed_midi(bytes@) == Some(
                MidiModel { time_base: smf_time_base(smf), tracks: smf_tracks(smf) },
            ),
            Err(_) => parsed_midi(bytes@) is None,
        },
{
    Smf::parse(bytes)
}

/// The field `header.timing` of `midly::Smf`, with `as_int` of `midly::num::u15`
/// and of `midly::Fps` for the numbers in it.
#[verifier::external_body]
fn time_base_of(smf: &Smf) -> (time_base: TimeBase)
    ensures
        time_base == smf_time_base(*smf),
{
    match smf.header.timing {
        Timing::Metrical(ticks) => TimeBase::Metrical { ticks_per_quarter_note: ticks.as_int() },
        Timing::Timecode(fps, ticks) => TimeBase::Timecode {
            frames_per_second: fps.as_int(),
            ticks_per_frame: ticks,
        },
    }
}

/// The length of the field `tracks` of `midly::Smf`.
#[verifier::external_body]
fn track_count(smf: &Smf) -> (count: usize)
    ensures
        count == smf_tracks(*smf).len(),
{
    smf.tracks.len()
}

/// The length of one track of `midly::Smf`.
#[verifier::external_body]
fn track_len(smf: &Smf, track: usize) -> (len: usize)
    requires
        track < smf_tracks(*smf).len(),
    ensures
        len == smf_tracks(*smf)[track as int].len(),
{
    smf.tracks[track].len()
}

/// One `midly::TrackEvent` of a parsed file, with `as_int` of `midly::num::u28`,
/// `u7` and `u24` for the numbers in it. A note-on, a note-off and a tempo
/// event keep their kind; every other event is `Other`.
#[verifier::external_body]
fn event_at(smf: &Smf, track: usize, index: usize) -> (event: Event)
    requires
        track < smf_tracks(*smf).len(),
        index < smf_tracks(*smf)[track as int].len(),
    ensures
        event == smf_tracks(*smf)[track as int][index as int],
{
    let event = &smf.tracks[track][index];
    let kind = match event.kind {
        TrackEventKind::Midi { message: MidiMessage::NoteOn { key, .. }, .. } => {
            EventKind::PitchOn { note: key.as_int() }
        },
        TrackEventKind::Midi { message: MidiMessage::NoteOff { key, .. }, .. } => {
            EventKind::PitchOff { note: key.as_int() }
        },
        TrackEventKind::Meta(MetaMessage::Tempo(tempo)) => {
            EventKind::Tempo { microseconds_per_quarter: tempo.as_int() }
        },
        _ => EventKind::Other,
    };
    Event { delta_ticks: event.delta.as_int(), kind }
}

/// Copies one track out of a parsed file.
fn copy_track(smf: &Smf, track: usize) -> (events: Vec<Event>)
    requires
        track < smf_tracks(*smf).len(),
    ensures
        events@ == smf_tracks(*smf)[track as int],
{
    let len = track_len(smf, track);
    let mut events: Vec<Event> = Vec::new();
    let mut index: usize = 0;
    while index < len
        invariant
            track < smf_tracks(*smf).len(),
            len == smf_tracks(*smf)[track as int].len(),
            index <= len,
            events@ == smf_tracks(*smf)[track as int].take(index as int),
        decreases len - index,
    {
        events.push(event_at(smf, track, index));
        index += 1;
        assert(events@ =~= smf_tracks(*smf)[track as int].take(index as int));
    }
    assert(events@ =~= smf_tracks(*smf)[track as int]);
    events
}

/// Tells whether bytes can be handed to the decoder: whether they are free of
/// the one frame rate that it cannot take.
pub fn check_decodable(bytes: &[u8]) -> (fine: bool)
    ensures
        fine == decodable(bytes@),
{
    let len = bytes.len();
    if len <= 12 {
        return true;
    }
    let mut at: usize = 0;
    while at < len - 12
        invariant
            len == bytes@.len(),
            len > 12,
            at <= len - 12,
            forall|i: int|
                0 <= i < at && #[trigger] header_mark_at(bytes@, i) ==> bytes@[i + 12] != 0x80,
        decreases len - at,
    {
        if bytes[at] == 0x4D && bytes[at + 1] == 0x54 && bytes[at + 2] == 0x68 && bytes[at + 3]
            == 0x64 && bytes[at + 12] == 0x80 {
            assert(header_mark_at(bytes@, at as int));
            return false;
        }
        at += 1;
    }
    true
}

/// Decodes the bytes of a Standard MIDI File.
///
/// The outcome is the one that `midly` reaches: the file that it finds in the
/// bytes, or `MalformedContainer` where it finds none.
pub fn decode_midi(bytes: &[u8]) -> (decoded: Result<MidiFile, SoundError>)
    requires
        decodable(bytes@),
    ensures
        match decoded {
            Ok(file) => parsed_midi(bytes@) == Some(file@),
            Err(error) => error == SoundError::MalformedContainer && parsed_midi(bytes@) is None,
        },
{
    let smf = match parse_smf(bytes) {
        Ok(smf) => smf,
        Err(_) => {
            return Err(SoundError::MalformedContainer);
        },
    };
    let time_base = time_base_of(&smf);
    let count = track_count(&smf);
    let mut tracks: Vec<Vec<Event>> = Vec::new();
    let mut track: usize = 0;
    while track < count
        invariant
            count == smf_tracks(smf).len(),
            track <= count,
            tracks@.len() == track,
            forall|i: int| 0 <= i < track ==> (#[trigger] tracks@[i])@ == smf_tracks(smf)[i],
        decreases count - track,
    {
        tracks.push(copy_track(&smf, track));
        track += 1;
    }
    let file = MidiFile { time_base, tracks };
    assert(file@.tracks =~= smf_tracks(smf));
    Ok(file)
}

/// Decodes the bytes of a Standard MIDI File where they can be handed to the
/// decoder, and gives nothing where they cannot.
pub fn try_decode_midi(bytes: &[u8]) -> (decoded: Option<Result<MidiFile, SoundError>>)
    ensures
        decoded is Some == decodable(bytes@),
        match decoded {
            Some(Ok(file)) => parsed_midi(bytes@) == Some(file@),
            Some(Err(error)) => error == SoundError::MalformedContainer && parsed_midi(bytes@)
                is None,
            None => true,
        },
{
    if check_decodable(bytes) {
        Some(decode_midi(bytes))
    } else {
        None
    }
}

} // verus!
