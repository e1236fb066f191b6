//! The values that the encoders hand out: tones and sprites.

use vstd::prelude::*;

verus! {

/// What sounds during a tone. It stands for the frequency that the sound
/// driver plays: silence for none, a note number for its pitch in twelve-tone
/// equal temperament, note 69 being the A above middle C.
#[derive(Clone, Copy, Debug, PartialEq, Eq, Structural)]
pub enum Pitch {
    Silence,
    Note(u8),
}

/// One entry of the monophonic output: one pitch, or silence, held for a
/// length of time.
#[derive(Clone, Copy, Debug, PartialEq, Eq, Structural)]
pub struct Tone {
    pub pitch: Pitch,
    pub length_microseconds: u64,
}

/// A tone whose length is an unbounded natural number.
pub struct ToneModel {
    pub pitch: Pitch,
    pub length_microseconds: nat,
}

impl View for Tone {
    type V = ToneModel;

    open spec fn view(&self) -> ToneModel {
        ToneModel { pitch: self.pitch, length_microseconds: self.length_microseconds as nat }
    }
}

impl DeepView for Tone {
    type V = ToneModel;

    open spec fn deep_view(&self) -> ToneModel {
        self@
    }
}

impl ToneModel {
    /// Whether the length can be held in a `Tone`.
    pub open spec fn fits(self) -> bool {
        self.length_microseconds <= u64::MAX
    }
}

/// Whether every tone of a sequence can be held in a `Tone`.
pub open spec fn tones_fit(tones: Seq<ToneModel>) -> bool {
    forall|i: int| 0 <= i < tones.len() ==> (#[trigger] tones[i]).fits()
}

/// The summed length of a sequence of tones.
pub open spec fn total_length(tones: Seq<ToneModel>) -> nat
    decreases tones.len(),
{
    if tones.len() == 0 {
        0
    } else {
        total_length(tones.drop_last()) + tones.last().length_microseconds
    }
}

/// A pixel of a sprite.
#[derive(Clone, Copy, Debug, PartialEq, Eq, Structural)]
pub enum SpritePixel {
    Black,
    White,
    Transparent,
}

/// A sprite, as mathematics sees it.
pub struct SpriteModel {
    pub width: u32,
    pub height: u32,
    pub pixels: Seq<SpritePixel>,
}

/// One sprite: `width * height` pixels, row by row from the top.
#[derive(Clone, Debug, PartialEq, Eq)]
pub struct Sprite {
    pub width: u32,
    pub height: u32,
    pub pixels: Vec<SpritePixel>,
}

impl View for Sprite {
    type V = SpriteModel;

    open spec fn view(&self) -> SpriteModel {
        SpriteModel { width: self.width, height: self.height, pixels: self.pixels@ }
    }
}

impl DeepView for Sprite {
    type V = SpriteModel;

    open spec fn deep_view(&self) -> SpriteModel {
        self@
    }
}

impl SpriteModel {
    /// A sprite holds exactly one pixel for each place of its grid.
    pub open spec fn wf(self) -> bool {
        self.pixels.len() == self.width * self.height
    }
}

/// The sprites cut from one image, from the top down.
#[derive(Clone, Debug, PartialEq, Eq)]
pub struct SpritesheetInitial {
    pub sprites: Vec<Sprite>,
}

impl View for SpritesheetInitial {
    type V = Seq<SpriteModel>;

    open spec fn view(&self) -> Seq<SpriteModel> {
        self.sprites.deep_view()
    }
}

} // verus!
