//! Sprite encoding: an image that holds sprites one below the other is cut
//! into sprites of a fixed height, and each pixel is reduced to one of three
//! values.

use vstd::prelude::*;
use vstd::string::*;
use image::DynamicImage;
use crate::decimal::{parse_u32, parsed_u32};
use crate::error::SpriteError;
use crate::pixels::{dimensions_of, image_dimensions, image_pixels, pixel_at, Color};
use crate::types::{Sprite, SpriteModel, SpritePixel, SpritesheetInitial};

verus! {

/// What a sprite height given as text is worth: the number that the text
/// reads as, if it is at least 1, or else what is wrong with it.
pub open spec fn validated_height(text: Seq<char>) -> Result<u32, Seq<char>> {
    match parsed_u32(text) {
        None => Err("'"@ + text + "' is not a valid unsigned integer"@),
        Some(height) => if height > 0 {
            Ok(height)
        } else {
            Err("height must be at least 1"@)
        },
    }
}

/// Reads a sprite height from text. It must be an unsigned decimal number
/// and at least 1.
pub fn validate_height(text: &str) -> (height: Result<u32, String>)
    ensures
        match height {
            Ok(height) => validated_height(text@) == Ok::<u32, Seq<char>>(height),
            Err(message) => validated_height(text@) == Err::<u32, Seq<char>>(message@),
        },
{
    match parse_u32(text) {
        None => Err(String::from_str("'").concat(text).concat("' is not a valid unsigned integer")),
        Some(height) => if height > 0 {
            Ok(height)
        } else {
            Err(String::from_str("height must be at least 1"))
        },
    }
}

/// The sprite pixel that a colour stands for: anything fully transparent is
/// transparent, and besides that only opaque black and opaque white count.
pub open spec fn classified(color: Color) -> Option<SpritePixel> {
    if color.alpha == 0 {
        Some(SpritePixel::Transparent)
    } else if color == (Color { red: 0, green: 0, blue: 0, alpha: 255 }) {
        Some(SpritePixel::Black)
    } else if color == (Color { red: 255, green: 255, blue: 255, alpha: 255 }) {
        Some(SpritePixel::White)
    } else {
        None
    }
}

/// Reduces a colour to a sprite pixel, if it stands for one.
pub fn classify(color: Color) -> (pixel: Option<SpritePixel>)
    ensures
        pixel == classified(color),
{
    if color.alpha == 0 {
        Some(SpritePixel::Transparent)
    } else if color.red == 0 && color.green == 0 && color.blue == 0 && color.alpha == 255 {
        Some(SpritePixel::Black)
    } else if color.red == 255 && color.green == 255 && color.blue == 255 && color.alpha == 255 {
        Some(SpritePixel::White)
    } else {
        None
    }
}

/// Whether the pixel in column `x` of row `row` stands for a sprite pixel.
pub open spec fn valid_at(pixels: Map<(u32, u32), Color>, x: u32, row: u32) -> bool {
    classified(pixels[(x, row)]) is Some
}

/// Whether every pixel that comes before column `x` of row `row` stands for a
/// sprite pixel, going through the image row by row from the top and through
/// each row from the left.
pub open spec fn valid_before(width: u32, pixels: Map<(u32, u32), Color>, x: u32, row: u32) -> bool {
    forall|x2: u32, row2: u32|
        x2 < width && (row2 < row || (row2 == row && x2 < x)) ==> #[trigger] valid_at(
            pixels,
            x2,
            row2,
        )
}

/// Whether the pixel in column `x` of row `row` is the first of an image that
/// stands for no sprite pixel.
pub open spec fn is_first_invalid(
    size: (u32, u32),
    pixels: Map<(u32, u32), Color>,
    x: u32,
    row: u32,
) -> bool {
    &&& x < size.0
    &&& row < size.1
    &&& !valid_at(pixels, x, row)
    &&& valid_before(size.0, pixels, x, row)
}

/// Whether `x` and `y` say where the first pixel is that stands for no sprite
/// pixel: `x` is its column, and `y` its row within the sprite that holds it.
pub open spec fn reports_first_invalid(
    height: u32,
    size: (u32, u32),
    pixels: Map<(u32, u32), Color>,
    x: u32,
    y: u32,
) -> bool {
    exists|row: u32| #[trigger] is_first_invalid(size, pixels, x, row) && y == row % height
}

/// One row of an image as sprite pixels, from the left.
pub open spec fn row_pixels(width: u32, pixels: Map<(u32, u32), Color>, row: u32) -> Seq<
    SpritePixel,
> {
    Seq::new(width as nat, |x: int| classified(pixels[(x as u32, row)]).unwrap())
}

/// The `rows` rows of an image from row `top` downwards as sprite pixels, one
/// row after the other.
pub open spec fn rows_pixels(
    width: u32,
    pixels: Map<(u32, u32), Color>,
    top: u32,
    rows: nat,
) -> Seq<SpritePixel>
    decreases rows,
{
    if rows == 0 {
        Seq::empty()
    } else {
        rows_pixels(width, pixels, top, (rows - 1) as nat) + row_pixels(
            width,
            pixels,
            (top + rows - 1) as u32,
        )
    }
}

/// The sprite with the given number, counted from 0 at the top of the image.
pub open spec fn sprite_of(
    height: u32,
    width: u32,
    pixels: Map<(u32, u32), Color>,
    number: int,
) -> SpriteModel {
    SpriteModel {
        width,
        height,
        pixels: rows_pixels(width, pixels, (number * height) as u32, height as nat),
    }
}

/// The sprites of an image whose height is a multiple of the sprite height.
pub open spec fn sprites_of(
    height: u32,
    size: (u32, u32),
    pixels: Map<(u32, u32), Color>,
) -> Seq<SpriteModel> {
    Seq::new((size.1 / height) as nat, |number: int| sprite_of(height, size.0, pixels, number))
}

/// What comes of cutting an image of the given size and pixels into sprites
/// of the given height.
///
/// An image that is not a whole number of sprites tall is refused, with the
/// rows that it has too many. Otherwise the pixels are gone through row by
/// row from the top, and the first that stands for no sprite pixel is
/// reported, with its column and its row within its sprite. If there is none,
/// the outcome is the sprites.
pub open spec fn is_spritesheet_of(
    outcome: Result<Seq<SpriteModel>, SpriteError>,
    height: u32,
    size: (u32, u32),
    pixels: Map<(u32, u32), Color>,
) -> bool {
    match outcome {
        Err(SpriteError::HeightNotMultiple { excess }) => {
            &&& excess != 0
            &&& excess == size.1 % height
        },
        Err(SpriteError::InvalidPixel { x, y }) => {
            &&& size.1 % height == 0
            &&& reports_first_invalid(height, size, pixels, x, y)
        },
        Ok(sprites) => {
            &&& size.1 % height == 0
            &&& valid_before(size.0, pixels, 0, size.1)
            &&& sprites == sprites_of(height, size, pixels)
        },
    }
}

/// The view of an outcome of sprite encoding.
pub open spec fn outcome_view(outcome: Result<SpritesheetInitial, SpriteError>) -> Result<
    Seq<SpriteModel>,
    SpriteError,
> {
    match outcome {
        Ok(sheet) => Ok(sheet@),
        Err(error) => Err(error),
    }
}

/// Rows of pixels hold one pixel for each column of each row.
pub proof fn lemma_rows_pixels_len(
    width: u32,
    pixels: Map<(u32, u32), Color>,
    top: u32,
    rows: nat,
)
    ensures
        rows_pixels(width, pixels, top, rows).len() == rows * width,
    decreases rows,
{
    if rows > 0 {
        lemma_rows_pixels_len(width, pixels, top, (rows - 1) as nat);
        assert((rows - 1) * width + width == rows * width) by (nonlinear_arith);
    } else {
        assert(0 * width == 0) by (nonlinear_arith);
    }
}

/// Rows of pixels are laid out row by row: the pixel in column `x` of the row
/// `y` rows below the top one is found `y * width + x` places from the start.
pub proof fn lemma_rows_pixels_index(
    width: u32,
    pixels: Map<(u32, u32), Color>,
    top: u32,
    rows: nat,
    x: u32,
    y: nat,
)
    requires
        x < width,
        y < rows,
    ensures
        y * width + x < rows_pixels(width, pixels, top, rows).len(),
        rows_pixels(width, pixels, top, rows)[y * width + x] == classified(
            pixels[(x, (top + y) as u32)],
        ).unwrap(),
    decreases rows,
{
    let above = rows_pixels(width, pixels, top, (rows - 1) as nat);
    lemma_rows_pixels_len(width, pixels, top, rows);
    lemma_rows_pixels_len(width, pixels, top, (rows - 1) as nat);
    assert((rows - 1) * width + width == rows * width) by (nonlinear_arith);
    if y == rows - 1 {
        assert(row_pixels(width, pixels, (top + rows - 1) as u32)[x as int] == classified(
            pixels[(x, (top + y) as u32)],
        ).unwrap());
    } else {
        lemma_rows_pixels_index(width, pixels, top, (rows - 1) as nat, x, y);
    }
}

/// Every sprite that is cut from an image holds one pixel for each place of
/// its grid.
pub proof fn lemma_sprite_is_well_formed(
    height: u32,
    width: u32,
    pixels: Map<(u32, u32), Color>,
    number: int,
)
    ensures
        sprite_of(height, width, pixels, number).wf(),
{
    lemma_rows_pixels_len(width, pixels, (number * height) as u32, height as nat);
    assert(height * width == width * height) by (nonlinear_arith);
}

/// The rows of a sprite lie within the image, and a row's place within its
/// sprite is what is left of its place in the image after whole sprites.
proof fn lemma_sprite_rows(height: u32, rows: u32, number: u32, y: u32)
    requires
        height > 0,
        rows % height == 0,
        number < rows / height,
        y < height,
    ensures
        number * height + height <= rows,
        (number * height + y) % (height as int) == y,
{
    let h = height as int;
    let n = number as int;
    let c = (rows / height) as int;
    assert(rows == h * c) by {
        vstd::arithmetic::div_mod::lemma_fundamental_div_mod(rows as int, h);
    }
    assert(n * h + h <= h * c) by (nonlinear_arith)
        requires
            n + 1 <= c,
            h > 0,
    ;
    assert((n * h + y) % h == y) by {
        vstd::arithmetic::div_mod::lemma_fundamental_div_mod_converse(n * h + y, h, n, y as int);
        assert(h * n == n * h) by (nonlinear_arith);
    }
}

/// Cuts an image into sprites of the given height, from the top down, and
/// reduces each pixel to black, white or transparent.
///
/// The width of a sprite is the width of the image.
pub fn encode_spritesheet(height: u32, image: &DynamicImage) -> (sheet: Result<
    SpritesheetInitial,
    SpriteError,
>)
    requires
        height > 0,
    ensures
        is_spritesheet_of(
            outcome_view(sheet),
            height,
            image_dimensions(*image),
            image_pixels(*image),
        ),
        sheet matches Ok(sheet) ==> forall|n: int| 0 <= n < sheet@.len() ==> (#[trigger] sheet@[n]).wf(),
{
    let (width, rows) = dimensions_of(image);
    let ghost pixels = image_pixels(*image);
    let excess = rows % height;
    if excess != 0 {
        return Err(SpriteError::HeightNotMultiple { excess });
    }
    let count = rows / height;
    assert(rows == count * height) by {
        vstd::arithmetic::div_mod::lemma_fundamental_div_mod(rows as int, height as int);
        assert(height * count == count * height) by (nonlinear_arith);
    }
    let mut sprites: Vec<Sprite> = Vec::new();
    let mut number: u32 = 0;
    let mut top: u32 = 0;
    assert(sprites.deep_view() =~= Seq::new(0, |n: int| sprite_of(height, width, pixels, n)));
    while number < count
        invariant
            height > 0,
            rows % height == 0,
            count == rows / height,
            rows == count * height,
            number <= count,
            top == number * height,
            (width, rows) == image_dimensions(*image),
            pixels == image_pixels(*image),
            sprites.deep_view() == Seq::new(
                number as nat,
                |n: int| sprite_of(height, width, pixels, n),
            ),
            valid_before(width, pixels, 0, top),
        decreases count - number,
    {
        proof {
            lemma_sprite_rows(height, rows, number, 0);
        }
        let mut sprite_pixels: Vec<SpritePixel> = Vec::new();
        let mut y: u32 = 0;
        while y < height
            invariant
                height > 0,
                rows % height == 0,
                number < rows / height,
                top == number * height,
                top + height <= rows,
                y <= height,
                (width, rows) == image_dimensions(*image),
                pixels == image_pixels(*image),
                sprite_pixels@ == rows_pixels(width, pixels, top, y as nat),
                valid_before(width, pixels, 0, (top + y) as u32),
            decreases height - y,
        {
            let row: u32 = top + y;
            let mut x: u32 = 0;
            while x < width
                invariant
                    height > 0,
                    rows % height == 0,
                    number < rows / height,
                    top == number * height,
                    y < height,
                    row == top + y,
                    row < rows,
                    x <= width,
                    (width, rows) == image_dimensions(*image),
                    pixels == image_pixels(*image),
                    sprite_pixels@ == rows_pixels(width, pixels, top, y as nat) + row_pixels(
                        width,
                        pixels,
                        row,
                    ).take(x as int),
                    valid_before(width, pixels, x, row),
                decreases width - x,
            {
                match classify(pixel_at(image, x, row)) {
                    Some(pixel) => {
                        sprite_pixels.push(pixel);
                    },
                    None => {
                        proof {
                            lemma_sprite_rows(height, rows, number, y);
                            assert(is_first_invalid((width, rows), pixels, x, row));
                        }
                        return Err(SpriteError::InvalidPixel { x, y });
                    },
                }
                assert(valid_at(pixels, x, row));
                x += 1;
                assert(sprite_pixels@ =~= rows_pixels(width, pixels, top, y as nat) + row_pixels(
                    width,
                    pixels,
                    row,
                ).take(x as int));
            }
            y += 1;
            assert(sprite_pixels@ =~= rows_pixels(width, pixels, top, y as nat)) by {
                assert(row_pixels(width, pixels, row).take(width as int) =~= row_pixels(
                    width,
                    pixels,
                    row,
                ));
            }
        }
        let sprite = Sprite { width, height, pixels: sprite_pixels };
        let ghost before = sprites.deep_view();
        sprites.push(sprite);
        assert(sprites.deep_view() =~= before.push(sprite@));
        number += 1;
        top += height;
        assert(top == number * height) by (nonlinear_arith)
            requires
                top - height == (number - 1) * height,
        ;
    }
    let sheet = SpritesheetInitial { sprites };
    assert(sheet@ =~= sprites_of(height, (width, rows), pixels));
    assert forall|n: int| 0 <= n < sheet@.len() implies (#[trigger] sheet@[n]).wf() by {
        lemma_sprite_is_well_formed(height, width, pixels, n);
    }
    Ok(sheet)
}

} // verus!
