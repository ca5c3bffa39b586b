//! The text compositor: case transform, text composition, layout math,
//! frame-by-frame drawing and format-dependent encoding.
//!
//! Everything here is deterministic in its inputs: the contract
//! `render_post` pins the whole pipeline down as a function of the
//! template, the font and the location string, and
//! `lemma_render_deterministic` states the resulting law.

use vstd::prelude::*;
use ab_glyph::FontVec;
use ab_glyph::PxScale;
use image::ImageError;
use crate::advert::Advert;
use crate::advert::Align;
use crate::advert::Case;
use crate::advert::ImageOutput;
use crate::imaging::clone_image;
use crate::imaging::color_has_alpha;
use crate::imaging::draw_text;
use crate::imaging::drawn;
use crate::imaging::drop_alpha;
use crate::imaging::encode_jpeg;
use crate::imaging::encode_png;
use crate::imaging::image_has_alpha;
use crate::imaging::image_repr;
use crate::imaging::jpeg_encoding;
use crate::imaging::measure_text;
use crate::imaging::png_encoding;
use crate::imaging::rgb_repr;
use crate::imaging::text_extent_of;

verus! {

/// Why one render request failed.  Neither failure harms the process
/// or any other request.
#[derive(Debug)]
pub enum RenderError {
    /// The measured text width cannot be held by the signed
    /// pixel-coordinate type.
    TextTooWide,
    /// The codec rejected the composited buffer.
    EncodeFailed(ImageError),
}

/// What uppercasing a string yields.
pub uninterp spec fn upper_of(s: Seq<char>) -> Seq<char>;

/// A lowercase ASCII letter.
pub open spec fn is_lower_ascii(c: char) -> bool {
    'a' <= c && c <= 'z'
}

/// Relies on str::to_uppercase: the result is the Unicode uppercase
/// mapping of the input, a function of the characters alone, and no
/// character's uppercase mapping contains a lowercase ASCII letter.
#[verifier::external_body]
fn to_uppercase(s: &str) -> (r: String)
    ensures
        r@ == upper_of(s@),
        forall|i: int| 0 <= i < r@.len() ==> !is_lower_ascii(#[trigger] r@[i]),
{
    s.to_uppercase()
}

/// The location string after the template's case transform.
pub open spec fn cased(case: Case, location: Seq<char>) -> Seq<char> {
    match case {
        Case::Default => location,
        Case::Upper => upper_of(location),
    }
}

/// The final display string: the template's prefix, then the
/// case-transformed location.
pub open spec fn composed(prefix: Seq<char>, case: Case, location: Seq<char>) -> Seq<char> {
    prefix + cased(case, location)
}

/// Apply the template's case transform to the resolved location.
pub fn apply_case(case: &Case, location: &str) -> (r: String)
    ensures
        r@ == cased(*case, location@),
        *case is Upper ==> forall|i: int| 0 <= i < r@.len() ==> !is_lower_ascii(#[trigger] r@[i]),
{
    match case {
        Case::Default => String::from_str(location),
        Case::Upper => to_uppercase(location),
    }
}

/// Concatenate the template's prefix and the case-transformed location
/// into the final display string.  Under `Case::Upper` the part drawn
/// from the location contains no lowercase ASCII letter.
pub fn compose_text(prefix: &str, case: &Case, location: &str) -> (r: String)
    ensures
        r@ == composed(prefix@, *case, location@),
        *case is Upper ==> forall|i: int|
            prefix@.len() <= i < r@.len() ==> !is_lower_ascii(#[trigger] r@[i]),
{
    let cased_location = apply_case(case, location);
    let r = String::from_str(prefix).concat(cased_location.as_str());
    proof {
        if *case is Upper {
            assert forall|i: int| prefix@.len() <= i < r@.len() implies !is_lower_ascii(
                r@[i],
            ) by {
                assert(r@[i] == cased_location@[i - prefix@.len()]);
            }
        }
    }
    r
}

/// The draw x-coordinate: `Left` keeps the anchor; `Center` moves it
/// left by half the text width, clamped at zero.
pub open spec fn draw_x_spec(align: Align, text_x: int, text_width: int) -> int {
    match align {
        Align::Left => text_x,
        Align::Center => if text_x - text_width / 2 >= 0 {
            text_x - text_width / 2
        } else {
            0
        },
    }
}

/// Compute the draw x-coordinate.  With a non-negative anchor it is
/// never negative, whatever the measured width.
pub fn draw_x(align: &Align, text_x: i32, text_width: i32) -> (r: i32)
    requires
        text_x >= 0,
        text_width >= 0,
    ensures
        r == draw_x_spec(*align, text_x as int, text_width as int),
        r >= 0,
{
    match align {
        Align::Left => text_x,
        Align::Center => {
            let half: i32 = text_width / 2;
            if text_x >= half {
                text_x - half
            } else {
                0
            }
        },
    }
}

/// The overflow diagnostic: how many pixels the text sticks out past
/// the right edge of the image, or `None` when it fits.  For logging
/// alone; no drawing decision depends on it.
pub fn overflow_px(x: i32, text_width: i32, image_width: i32) -> (r: Option<i64>)
    requires
        x >= 0,
        text_width >= 0,
    ensures
        x + text_width > image_width <==> r is Some,
        x + text_width > image_width ==> r is Some && r->Some_0 == x + text_width - image_width,
{
    let end: i64 = x as i64 + text_width as i64;
    if end > image_width as i64 {
        Some(end - image_width as i64)
    } else {
        None
    }
}

/// The sprite sheet's contents after the display string is drawn onto
/// the first `count` frames, each one `frame_height` below the last.
pub open spec fn drawn_frames(
    base: Seq<u8>,
    color: Seq<u8>,
    x: int,
    text_y: int,
    frame_height: int,
    scale: PxScale,
    font: FontVec,
    text: Seq<char>,
    count: int,
) -> Seq<u8>
    decreases count,
{
    if count <= 0 {
        base
    } else {
        drawn(
            drawn_frames(base, color, x, text_y, frame_height, scale, font, text, count - 1),
            color,
            x,
            text_y + (count - 1) * frame_height,
            scale,
            font,
            text,
        )
    }
}

/// Everything `render_location_to_image_sync` promises: the result is a
/// function of the template, the font and the location.  Either the
/// measured width does not fit the signed pixel-coordinate type and the
/// request fails with `TextTooWide`; or the final string is drawn onto a
/// fresh copy of the base image once per frame, the alpha channel is
/// dropped when the output format cannot carry it, and the bytes are the
/// format's encoding of that sheet, with `EncodeFailed` exactly when the
/// encoder rejects it.
pub open spec fn render_post(
    a: Advert,
    font: FontVec,
    location: Seq<char>,
    r: Result<Vec<u8>, RenderError>,
) -> bool {
    let text = composed(a.text_prefix@, a.text_case, location);
    let extent = text_extent_of(a.text_scale, font, text);
    if extent.0 > i32::MAX {
        r is Err && r->Err_0 is TextTooWide
    } else {
        let x = draw_x_spec(a.text_align, a.text_x as int, extent.0 as int);
        let sheet = drawn_frames(
            image_repr(a.image),
            a.text_color@,
            x,
            a.text_y as int,
            a.image_height as int,
            a.text_scale,
            font,
            text,
            a.frames as int,
        );
        let out = if image_has_alpha(a.image) && !(a.output_format is Png) {
            rgb_repr(sheet)
        } else {
            sheet
        };
        let enc = if a.output_format is Png {
            png_encoding(out)
        } else {
            jpeg_encoding(out)
        };
        match enc {
            Some(bytes) => r is Ok && r->Ok_0@ == bytes,
            None => r is Err && r->Err_0 is EncodeFailed,
        }
    }
}

/// Render the display string for `location` over a fresh copy of the
/// template's base image, once per frame, and encode the result in the
/// template's output format.
pub fn render_location_to_image_sync(advert: &Advert, font: &FontVec, location: String) -> (r:
    Result<Vec<u8>, RenderError>)
    requires
        advert.wf(),
    ensures
        render_post(*advert, *font, location@, r),
{
    let text = compose_text(advert.text_prefix.as_str(), &advert.text_case, location.as_str());

    // figure out how wide the text is
    let (text_width_raw, _text_height) = measure_text(&advert.text_scale, font, text.as_str());
    if text_width_raw > i32::MAX as u32 {
        return Err(RenderError::TextTooWide);
    }
    let text_width = text_width_raw as i32;

    // calculate the x coordinate if we're centering the text
    let x = draw_x(&advert.text_align, advert.text_x, text_width);

    // we need a fresh copy of the image to render to
    let mut image = clone_image(&advert.image);

    // render the text, one frame at a time
    let mut frame: i32 = 0;
    while frame < advert.frames
        invariant
            advert.wf(),
            0 <= frame <= advert.frames,
            text@ == composed(advert.text_prefix@, advert.text_case, location@),
            image_repr(image) == drawn_frames(
                image_repr(advert.image),
                advert.text_color@,
                x as int,
                advert.text_y as int,
                advert.image_height as int,
                advert.text_scale,
                *font,
                text@,
                frame as int,
            ),
            image_has_alpha(image) == image_has_alpha(advert.image),
        decreases advert.frames - frame,
    {
        proof {
            assert((frame as int) * (advert.image_height as int) <= (advert.frames as int) * (
            advert.image_height as int)) by (nonlinear_arith)
                requires
                    0 <= frame < advert.frames,
                    advert.image_height >= 0,
            ;
            assert((frame as int) * (advert.image_height as int) >= 0) by (nonlinear_arith)
                requires
                    frame >= 0,
                    advert.image_height >= 0,
            ;
        }
        let y: i32 = advert.text_y + frame * advert.image_height;
        draw_text(&mut image, &advert.text_color, x, y, &advert.text_scale, font, text.as_str());
        frame = frame + 1;
    }

    // encode the image, dropping the alpha channel when the output
    // format cannot carry it
    let image = if color_has_alpha(&image) && !advert.output_format.has_alpha() {
        drop_alpha(image)
    } else {
        image
    };
    let encoded = match advert.output_format {
        ImageOutput::Png => encode_png(&image),
        ImageOutput::Jpeg => encode_jpeg(&image),
    };
    match encoded {
        Ok(bytes) => Ok(bytes),
        Err(e) => Err(RenderError::EncodeFailed(e)),
    }
}

/// When the output format is JPEG and the base image carries an alpha
/// channel, a successful render returns the JPEG encoding of the
/// composited sheet with its alpha channel dropped, never an encoding
/// of the four-channel sheet itself.
pub proof fn lemma_jpeg_output_strips_alpha(
    a: Advert,
    font: FontVec,
    location: Seq<char>,
    r: Result<Vec<u8>, RenderError>,
)
    requires
        render_post(a, font, location, r),
        a.output_format is Jpeg,
        image_has_alpha(a.image),
        r is Ok,
    ensures
        ({
            let text = composed(a.text_prefix@, a.text_case, location);
            let sheet = drawn_frames(
                image_repr(a.image),
                a.text_color@,
                draw_x_spec(
                    a.text_align,
                    a.text_x as int,
                    text_extent_of(a.text_scale, font, text).0 as int,
                ),
                a.text_y as int,
                a.image_height as int,
                a.text_scale,
                font,
                text,
                a.frames as int,
            );
            r->Ok_0@ == jpeg_encoding(rgb_repr(sheet))->Some_0
        }),
{
}

/// Rendering is deterministic: any two results that the compositor's
/// contract allows for identical (template, font, location) inputs
/// agree — byte-identical output on success, and the same failure kind
/// otherwise.
pub proof fn lemma_render_deterministic(
    a: Advert,
    font: FontVec,
    location: Seq<char>,
    r1: Result<Vec<u8>, RenderError>,
    r2: Result<Vec<u8>, RenderError>,
)
    requires
        render_post(a, font, location, r1),
        render_post(a, font, location, r2),
    ensures
        r1 is Ok <==> r2 is Ok,
        r1 is Ok ==> r1->Ok_0@ == r2->Ok_0@,
        r1 is Err ==> (r1->Err_0 is TextTooWide <==> r2->Err_0 is TextTooWide),
{
}

} // verus!
