//! Trusted boundary to the image codec and the glyph rasterizer.
//!
//! The pixel buffer of a template, its glyph layout and its encoded forms
//! are opaque to the verifier.  Each is given an abstract name here
//! (`image_repr`, `text_extent_of`, ...) and every wrapper states its
//! effect over those names, so that the compositor's contract can pin its
//! result down as a function of its inputs alone.

use vstd::prelude::*;
use ab_glyph::FontVec;
use ab_glyph::PxScale;
use image::DynamicImage;
use image::ImageError;
use image::ImageFormat;
use std::io::Cursor;

verus! {

#[verifier::external_type_specification]
#[verifier::external_body]
pub struct ExDynamicImage(DynamicImage);

#[verifier::external_type_specification]
#[verifier::external_body]
pub struct ExImageError(ImageError);

#[verifier::external_type_specification]
#[verifier::external_body]
pub struct ExImageFormat(ImageFormat);

#[verifier::external_type_specification]
#[verifier::external_body]
pub struct ExPxScale(PxScale);

#[verifier::external_type_specification]
#[verifier::external_body]
pub struct ExFontVec(FontVec);

/// The full abstract contents of a decoded image: its colour layout,
/// dimensions and pixel samples, as one opaque byte sequence.
pub uninterp spec fn image_repr(img: DynamicImage) -> Seq<u8>;

/// Whether the image's colour type carries an alpha channel.
pub uninterp spec fn image_has_alpha(img: DynamicImage) -> bool;

/// What decoding a byte string as PNG yields: `None` when the bytes are
/// rejected, otherwise the decoded contents and its alpha flag.
pub uninterp spec fn png_decoded(data: Seq<u8>) -> Option<(Seq<u8>, bool)>;

/// The pixel extent (width, height) of a string laid out with a font at
/// a scale.
pub uninterp spec fn text_extent_of(scale: PxScale, font: FontVec, text: Seq<char>) -> (u32, u32);

/// The contents of an image after a string is drawn onto it at (x, y)
/// with the given colour, font and scale.
pub uninterp spec fn drawn(
    repr: Seq<u8>,
    color: Seq<u8>,
    x: int,
    y: int,
    scale: PxScale,
    font: FontVec,
    text: Seq<char>,
) -> Seq<u8>;

/// The contents of an image after its alpha channel is dropped and it is
/// held as three channels per pixel.
pub uninterp spec fn rgb_repr(repr: Seq<u8>) -> Seq<u8>;

/// What encoding image contents as PNG yields: `None` on an encoder
/// error, otherwise the encoded bytes.
pub uninterp spec fn png_encoding(repr: Seq<u8>) -> Option<Seq<u8>>;

/// What encoding image contents as JPEG yields: `None` on an encoder
/// error, otherwise the encoded bytes.
pub uninterp spec fn jpeg_encoding(repr: Seq<u8>) -> Option<Seq<u8>>;

/// Relies on image::load_from_memory_with_format with ImageFormat::Png:
/// decoding reads the input bytes alone, so success and contents are a
/// function of them.
#[verifier::external_body]
pub fn decode_png(data: &[u8]) -> (r: Result<DynamicImage, ImageError>)
    ensures
        r is Ok <==> png_decoded(data@) is Some,
        r is Ok ==> image_repr(r->Ok_0) == png_decoded(data@)->Some_0.0,
        r is Ok ==> image_has_alpha(r->Ok_0) == png_decoded(data@)->Some_0.1,
{
    image::load_from_memory_with_format(data, ImageFormat::Png)
}

/// Relies on DynamicImage's Clone impl: it clones the inner pixel buffer
/// of the same variant, changing nothing.
#[verifier::external_body]
pub fn clone_image(img: &DynamicImage) -> (r: DynamicImage)
    ensures
        image_repr(r) == image_repr(*img),
        image_has_alpha(r) == image_has_alpha(*img),
{
    img.clone()
}

/// Relies on DynamicImage::color and ColorType::has_alpha: whether the
/// image's colour type has an alpha channel.
#[verifier::external_body]
pub fn color_has_alpha(img: &DynamicImage) -> (r: bool)
    ensures
        r == image_has_alpha(*img),
{
    img.color().has_alpha()
}

/// Relies on imageproc::drawing::text_size: the extent is computed from
/// the scaled font's glyph metrics and the text alone.
#[verifier::external_body]
pub fn measure_text(scale: &PxScale, font: &FontVec, text: &str) -> (r: (u32, u32))
    ensures
        r == text_extent_of(*scale, *font, text@),
{
    imageproc::drawing::text_size(*scale, font, text)
}

/// Relies on imageproc::drawing::draw_text_mut: it blends glyph
/// coverage into the pixel buffer in place, clipped at the buffer
/// edge; it never changes the buffer's dimensions or colour type.
#[verifier::external_body]
pub fn draw_text(
    img: &mut DynamicImage,
    color: &[u8; 4],
    x: i32,
    y: i32,
    scale: &PxScale,
    font: &FontVec,
    text: &str,
)
    ensures
        image_repr(*final(img)) == drawn(
            image_repr(*old(img)),
            color@,
            x as int,
            y as int,
            *scale,
            *font,
            text@,
        ),
        image_has_alpha(*final(img)) == image_has_alpha(*old(img)),
{
    imageproc::drawing::draw_text_mut(img, image::Rgba(*color), x, y, *scale, font, text);
}

/// Relies on DynamicImage::into_rgb8: it converts the buffer to three
/// eight-bit channels per pixel, discarding any alpha channel.
#[verifier::external_body]
pub fn drop_alpha(img: DynamicImage) -> (r: DynamicImage)
    ensures
        image_repr(r) == rgb_repr(image_repr(img)),
        !image_has_alpha(r),
{
    DynamicImage::ImageRgb8(img.into_rgb8())
}

/// Relies on DynamicImage::write_to with ImageFormat::Png: the encoder
/// writes a function of the image contents into the buffer.
#[verifier::external_body]
pub fn encode_png(img: &DynamicImage) -> (r: Result<Vec<u8>, ImageError>)
    ensures
        r is Ok <==> png_encoding(image_repr(*img)) is Some,
        r is Ok ==> r->Ok_0@ == png_encoding(image_repr(*img))->Some_0,
{
    let mut buffer: Vec<u8> = Vec::new();
    img.write_to(&mut Cursor::new(&mut buffer), ImageFormat::Png)?;
    Ok(buffer)
}

/// Relies on DynamicImage::write_to with ImageFormat::Jpeg: the encoder
/// writes a function of the image contents into the buffer.
#[verifier::external_body]
pub fn encode_jpeg(img: &DynamicImage) -> (r: Result<Vec<u8>, ImageError>)
    ensures
        r is Ok <==> jpeg_encoding(image_repr(*img)) is Some,
        r is Ok ==> r->Ok_0@ == jpeg_encoding(image_repr(*img))->Some_0,
{
    let mut buffer: Vec<u8> = Vec::new();
    img.write_to(&mut Cursor::new(&mut buffer), ImageFormat::Jpeg)?;
    Ok(buffer)
}

} // verus!
