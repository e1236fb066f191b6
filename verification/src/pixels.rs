//! Decoded images. The `image` crate holds them; this module reads their
//! size and their pixels, one at a time, as red, green, blue and alpha.
//!
//! Nothing here is proved about `image` itself. Each function marked
//! `external_body` states what is taken on trust of one of its methods, over
//! two names for what an image holds.

use vstd::prelude::*;
use image::{DynamicImage, GenericImageView, Rgba};

verus! {

/// A colour with its opacity, eight bits to the channel.
#[derive(Clone, Copy, Debug, PartialEq, Eq, Structural)]
pub struct Color {
    pub red: u8,
    pub green: u8,
    pub blue: u8,
    pub alpha: u8,
}

/// `image::DynamicImage`: a decoded image. Verus does not look inside it.
#[verifier::external_type_specification]
#[verifier::external_body]
pub struct ExDynamicImage(image::DynamicImage);

/// The width and the height of an image, in pixels.
pub uninterp spec fn image_dimensions(image: DynamicImage) -> (u32, u32);

/// The pixels of an image by column and row, counted from the top left, as
/// `image` turns them into eight-bit RGBA.
pub uninterp spec fn image_pixels(image: DynamicImage) -> Map<(u32, u32), Color>;

/// `image::GenericImageView::dimensions` of `image::DynamicImage`: the width,
/// then the height.
#[verifier::external_body]
pub(crate) fn dimensions_of(image: &DynamicImage) -> (size: (u32, u32))
    ensures
        size == image_dimensions(*image),
{
    image.dimensions()
}

/// `image::GenericImageView::get_pixel` of `image::DynamicImage`, which
/// panics outside the image: the column must be below the width and the row
/// below the height.
#[verifier::external_body]
pub(crate) fn pixel_at(image: &DynamicImage, x: u32, y: u32) -> (color: Color)
    requires
        x < image_dimensions(*image).0,
        y < image_dimensions(*image).1,
    ensures
        color == image_pixels(*image)[(x, y)],
{
    let Rgba([red, green, blue, alpha]) = image.get_pixel(x, y);
    Color { red, green, blue, alpha }
}

} // verus!
