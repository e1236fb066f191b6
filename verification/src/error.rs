//! What can go wrong, and how each failure reads to a person.

use vstd::prelude::*;
use vstd::string::*;
use crate::decimal::{decimal_string, decimal_text};

verus! {

/// The failures of sound encoding. Those that concern reading the input and
/// writing the output are raised around this library, not inside it.
#[derive(Clone, Copy, Debug, PartialEq, Eq, Structural)]
pub enum SoundError {
    /// The raw input could not be obtained from its source.
    InputUnreadable,
    /// The bytes are not a music file that can be decoded.
    MalformedContainer,
    /// The file holds no track at all, so there is nowhere to look for a tempo.
    NoTracks,
    /// The file has fewer tracks than the requested index asks for.
    TrackNotFound { requested: u8, available: usize },
    /// The file does not count time in ticks per quarter note.
    UnsupportedTimeBase,
    /// The tones could not be turned into bytes.
    SerializationFailure,
    /// The output could not be written.
    OutputUnwritable,
}

impl SoundError {
    /// The message of a failure.
    pub open spec fn message_text(self) -> Seq<char> {
        match self {
            SoundError::InputUnreadable => "failed to open input file"@,
            SoundError::MalformedContainer =>
                "failed to parse input file, file seems to be invalid or corrupted"@,
            SoundError::NoTracks => "midi file doesn't have any tracks"@,
            SoundError::TrackNotFound { requested, available } =>
                "midi file doesn't have track "@ + decimal_text(requested as nat)
                    + ", use --track 0 if this is a type-0 MIDI file"@,
            SoundError::UnsupportedTimeBase =>
                "midi file uses timecode-based timing, only metrical timing is supported"@,
            SoundError::SerializationFailure => "failed to serialize sound data"@,
            SoundError::OutputUnwritable => "failed to write to output file"@,
        }
    }

    /// A message for the person who asked. For a track that is not there it
    /// names the track and points to track 0, where a file of a single track
    /// keeps its notes.
    pub fn message(&self) -> (text: String)
        ensures
            text@ == self.message_text(),
    {
        match self {
            SoundError::InputUnreadable => String::from_str("failed to open input file"),
            SoundError::MalformedContainer => String::from_str(
                "failed to parse input file, file seems to be invalid or corrupted",
            ),
            SoundError::NoTracks => String::from_str("midi file doesn't have any tracks"),
            SoundError::TrackNotFound { requested, available } => {
                let number = decimal_string(*requested as u64);
                String::from_str("midi file doesn't have track ").concat(number.as_str()).concat(
                    ", use --track 0 if this is a type-0 MIDI file",
                )
            },
            SoundError::UnsupportedTimeBase => String::from_str(
                "midi file uses timecode-based timing, only metrical timing is supported",
            ),
            SoundError::SerializationFailure => String::from_str("failed to serialize sound data"),
            SoundError::OutputUnwritable => String::from_str("failed to write to output file"),
        }
    }
}

/// The failures of sprite slicing.
#[derive(Clone, Copy, Debug, PartialEq, Eq, Structural)]
pub enum SpriteError {
    /// The image is not a whole number of sprites tall: `excess` rows are left
    /// over below the last whole sprite.
    HeightNotMultiple { excess: u32 },
    /// A pixel is neither transparent nor black nor white. `x` counts from the
    /// left of the image, `y` from the top of the sprite that holds the pixel.
    InvalidPixel { x: u32, y: u32 },
}

impl SpriteError {
    /// The message of a failure.
    pub open spec fn message_text(self) -> Seq<char> {
        match self {
            SpriteError::HeightNotMultiple { excess } =>
                "invalid image: height must be a multiple of sprite height, is "@ + decimal_text(
                    excess as nat,
                ) + " pixel(s) too tall"@,
            SpriteError::InvalidPixel { x, y } => "invalid pixel (coordinate "@ + decimal_text(
                x as nat,
            ) + ", "@ + decimal_text(y as nat)
                + "): pixels must be either transparent, black or white"@,
        }
    }

    /// A message for the person who asked.
    pub fn message(&self) -> (text: String)
        ensures
            text@ == self.message_text(),
    {
        match self {
            SpriteError::HeightNotMultiple { excess } => {
                let number = decimal_string(*excess as u64);
                String::from_str(
                    "invalid image: height must be a multiple of sprite height, is ",
                ).concat(number.as_str()).concat(" pixel(s) too tall")
            },
            SpriteError::InvalidPixel { x, y } => {
                let column = decimal_string(*x as u64);
                let row = decimal_string(*y as u64);
                String::from_str("invalid pixel (coordinate ").concat(column.as_str()).concat(
                    ", ",
                ).concat(row.as_str()).concat(
                    "): pixels must be either transparent, black or white",
                )
            },
        }
    }
}

} // verus!
