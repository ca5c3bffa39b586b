//! The advert template model: the raw definition read from configuration,
//! the validated resident template, and the output format, alignment and
//! case options shared by the whole pipeline.

use vstd::prelude::*;
use ab_glyph::PxScale;
use image::DynamicImage;
use image::ImageError;
use image::ImageFormat;
use crate::imaging::decode_png;
use crate::imaging::image_has_alpha;
use crate::imaging::image_repr;
use crate::imaging::png_decoded;

verus! {

/// All the output formats the pipeline supports.
#[derive(Clone, Copy, Debug, PartialEq, Eq, Structural)]
pub enum ImageOutput {
    Jpeg,
    Png,
}

impl ImageOutput {
    /// The MIME type a web server should declare for this format.
    pub fn mime_type(&self) -> (r: &'static str)
        ensures
            *self is Jpeg ==> r@ == "image/jpeg"@,
            *self is Png ==> r@ == "image/png"@,
    {
        match self {
            ImageOutput::Jpeg => "image/jpeg",
            ImageOutput::Png => "image/png",
        }
    }

    /// The codec identifier of this format.  Relies on the variants of
    /// image::ImageFormat, which the verifier does not look into:
    /// nothing is stated of the returned value.
    #[verifier::external_body]
    pub fn format(&self) -> ImageFormat {
        match self {
            ImageOutput::Jpeg => ImageFormat::Jpeg,
            ImageOutput::Png => ImageFormat::Png,
        }
    }

    /// Whether the encoded form can carry an alpha channel
    /// (PNG can, JPEG cannot).
    pub fn has_alpha(&self) -> (r: bool)
        ensures
            r == (*self is Png),
    {
        match self {
            ImageOutput::Jpeg => false,
            ImageOutput::Png => true,
        }
    }
}

/// A raw template entry, as a configuration file states it.  Numeric
/// fields are still unsigned and the base image is still a file path;
/// `Advert::open` validates and resolves both.
pub struct AdvertDefinition {
    /// Path of the base image, resolved by the caller to PNG bytes.
    pub image: String,
    pub image_width: u32,
    pub image_height: u32,
    /// Number of frames, used for animation sprite sheets (currently only
    /// vertical stacking is supported).
    pub frames: u32,
    pub text_align: Align,
    /// Left edge OR center of the text, depending on text_align.
    pub text_x: u32,
    /// Top of the text.
    pub text_y: u32,
    /// RGBA values.
    pub text_color: [u8; 4],
    pub text_scale: PxScale,
    pub text_case: Case,
    pub output_format: ImageOutput,
    /// Prefix put before the resolved location.
    pub text_prefix: String,
}

/// Why a template failed to load.  The process treats any of these at
/// startup as a reason not to come up at all.
#[derive(Debug)]
pub enum AdvertLoadError {
    /// The base image bytes were rejected by the PNG decoder.
    DecodeFailed(ImageError),
    /// A numeric field cannot be held by the signed pixel-coordinate
    /// type, or the topmost frame's text row lies beyond it.
    ValueOutOfRange,
}

/// A validated template, kept for as long as the process lives: the
/// base image is decoded and every numeric field is held by the signed
/// pixel-coordinate type that all later arithmetic works in.
pub struct Advert {
    pub image: DynamicImage,
    pub image_width: i32,
    pub image_height: i32,
    /// Number of frames, used for animation sprite sheets (currently only
    /// vertical stacking is supported).
    pub frames: i32,
    pub text_align: Align,
    /// Left edge OR center of the text, depending on text_align.
    pub text_x: i32,
    /// Top of the text.
    pub text_y: i32,
    /// RGBA values.
    pub text_color: [u8; 4],
    pub text_scale: PxScale,
    pub text_case: Case,
    pub output_format: ImageOutput,
    /// Prefix put before the resolved location.
    pub text_prefix: String,
}

/// Whether every numeric field of a raw definition fits the validated
/// template: each one within the signed pixel-coordinate range, and the
/// text row of the topmost frame as well.
pub open spec fn definition_fits(d: AdvertDefinition) -> bool {
    &&& d.image_width <= i32::MAX
    &&& d.image_height <= i32::MAX
    &&& d.frames <= i32::MAX
    &&& d.text_x <= i32::MAX
    &&& d.text_y <= i32::MAX
    &&& d.text_y + d.frames * d.image_height <= i32::MAX
}

impl Advert {
    /// Numeric well-formedness, established at load time and relied on
    /// by the compositor: coordinates are non-negative and the text row
    /// of every frame stays within the signed pixel-coordinate range.
    pub open spec fn wf(&self) -> bool {
        &&& self.image_width >= 0
        &&& self.image_height >= 0
        &&& self.frames >= 0
        &&& self.text_x >= 0
        &&& self.text_y >= 0
        &&& self.text_y + self.frames * self.image_height <= i32::MAX
    }

    /// Load an Advert from its definition and the bytes of its base
    /// image file: decode the bytes as PNG, then narrow every numeric
    /// field.  Either failure is fatal for the template.
    pub fn open(definition: AdvertDefinition, image_data: &[u8]) -> (r: Result<Advert, AdvertLoadError>)
        ensures
            r is Ok <==> png_decoded(image_data@) is Some && definition_fits(definition),
            r is Ok ==> {
                let a = r->Ok_0;
                &&& a.wf()
                &&& image_repr(a.image) == png_decoded(image_data@)->Some_0.0
                &&& image_has_alpha(a.image) == png_decoded(image_data@)->Some_0.1
                &&& a.image_width == definition.image_width as i32
                &&& a.image_height == definition.image_height as i32
                &&& a.frames == definition.frames as i32
                &&& a.text_align == definition.text_align
                &&& a.text_x == definition.text_x as i32
                &&& a.text_y == definition.text_y as i32
                &&& a.text_color == definition.text_color
                &&& a.text_scale == definition.text_scale
                &&& a.text_case == definition.text_case
                &&& a.output_format == definition.output_format
                &&& a.text_prefix == definition.text_prefix
            },
            r is Err && png_decoded(image_data@) is None ==> r->Err_0 is DecodeFailed,
            r is Err && png_decoded(image_data@) is Some ==> r->Err_0 is ValueOutOfRange,
    {
        let image = match decode_png(image_data) {
            Ok(image) => image,
            Err(e) => {
                return Err(AdvertLoadError::DecodeFailed(e));
            },
        };
        if definition.image_width > i32::MAX as u32
            || definition.image_height > i32::MAX as u32
            || definition.frames > i32::MAX as u32
            || definition.text_x > i32::MAX as u32
            || definition.text_y > i32::MAX as u32
        {
            return Err(AdvertLoadError::ValueOutOfRange);
        }
        proof {
            assert((definition.frames as int) * (definition.image_height as int)
                <= 0x7fffffff * 0x7fffffff) by (nonlinear_arith)
                requires
                    definition.frames <= 0x7fffffff,
                    definition.image_height <= 0x7fffffff,
            ;
        }
        let span: i64 = definition.text_y as i64
            + (definition.frames as i64) * (definition.image_height as i64);
        if span > i32::MAX as i64 {
            return Err(AdvertLoadError::ValueOutOfRange);
        }
        Ok(Advert {
            image,
            image_width: definition.image_width as i32,
            image_height: definition.image_height as i32,
            frames: definition.frames as i32,
            text_align: definition.text_align,
            text_x: definition.text_x as i32,
            text_y: definition.text_y as i32,
            text_color: definition.text_color,
            text_scale: definition.text_scale,
            text_case: definition.text_case,
            output_format: definition.output_format,
            text_prefix: definition.text_prefix,
        })
    }
}

/// Supported text alignment options.
#[derive(Clone, Copy, Debug, PartialEq, Eq, Structural)]
pub enum Align {
    Left,
    Center,
}

/// Supported text case options.
#[derive(Clone, Copy, Debug, PartialEq, Eq, Structural)]
pub enum Case {
    /// The exact string the location lookup gives us.
    Default,
    /// Forced uppercase.
    Upper,
}

} // verus!
