//! The decoded image and its channel composition.
//!
//! A decoded image is an opaque pixel buffer owned by the `image` crate; the
//! library tracks beside it a [`ColorKind`] that models which channels the
//! buffer has. The one transformation the converter ever applies is
//! flattening to three 8-bit color channels before a JPEG encode, since JPEG
//! cannot represent an alpha channel; every other target format receives the
//! image exactly as it was decoded.

use vstd::prelude::*;
use crate::format::strips_alpha;
use crate::format::format_strips_alpha;
use crate::format::TargetFormat;

verus! {

/// Declares `image::DynamicImage`, the `image` crate's decoded pixel
/// buffer, as an opaque type: the library carries it through unread.
#[verifier::external_type_specification]
#[verifier::external_body]
pub struct ExDynamicImage(image::DynamicImage);

/// The channel composition of a decoded image, mirroring the pixel layouts
/// the `image` crate can decode to: luma or color, with or without alpha, at
/// 8-bit, 16-bit, or floating-point depth.
#[derive(Clone, Copy, PartialEq, Eq, Structural, Debug)]
pub enum ColorKind {
    L8,
    La8,
    Rgb8,
    Rgba8,
    L16,
    La16,
    Rgb16,
    Rgba16,
    Rgb32F,
    Rgba32F,
}

/// Whether this channel composition includes an alpha channel.
pub open spec fn color_has_alpha(c: ColorKind) -> bool {
    match c {
        ColorKind::La8 => true,
        ColorKind::Rgba8 => true,
        ColorKind::La16 => true,
        ColorKind::Rgba16 => true,
        ColorKind::Rgba32F => true,
        _ => false,
    }
}

/// A decoded image together with the [`ColorKind`] that models its channel
/// composition. Construct it with the kind that matches the image's own
/// color type; [`normalize_for_format`] keeps the two in step.
pub struct Picture {
    pub img: image::DynamicImage,
    pub color: ColorKind,
}

/// The channel composition an image has after being prepared for the given
/// target format: three 8-bit color channels when the format strips alpha,
/// the original composition otherwise.
pub open spec fn normalized_color(c: ColorKind, f: TargetFormat) -> ColorKind {
    if strips_alpha(f) {
        ColorKind::Rgb8
    } else {
        c
    }
}

/// The 8-bit RGB flattening of a decoded image, as
/// `image::DynamicImage::into_rgb8` computes it: a function of the image
/// alone.
pub uninterp spec fn rgb8_of(img: image::DynamicImage) -> image::DynamicImage;

/// Relies on `image::DynamicImage::into_rgb8`: the result is an 8-bit RGB
/// image — three color channels, no alpha — converted from the input's
/// pixels, or the input itself when it already had that layout. The result
/// depends on the image alone, so it is named [`rgb8_of`].
#[verifier::external_body]
fn flatten_to_rgb8(img: image::DynamicImage) -> (r: image::DynamicImage)
    ensures
        r == rgb8_of(img),
{
    image::DynamicImage::ImageRgb8(img.into_rgb8())
}

/// Returns whether this channel composition includes an alpha channel.
pub fn has_alpha(c: ColorKind) -> (b: bool)
    ensures
        b == color_has_alpha(c),
{
    match c {
        ColorKind::La8 => true,
        ColorKind::Rgba8 => true,
        ColorKind::La16 => true,
        ColorKind::Rgba16 => true,
        ColorKind::Rgba32F => true,
        _ => false,
    }
}

/// Prepares a decoded picture for encoding in the given target format:
/// flattens it to three 8-bit color channels when the format cannot
/// represent an alpha channel, and returns it untouched otherwise.
pub fn normalize_for_format(p: Picture, f: TargetFormat) -> (r: Picture)
    ensures
        r.color == normalized_color(p.color, f),
        strips_alpha(f) ==> r.img == rgb8_of(p.img),
        !strips_alpha(f) ==> r == p,
{
    if format_strips_alpha(f) {
        Picture { img: flatten_to_rgb8(p.img), color: ColorKind::Rgb8 }
    } else {
        p
    }
}

/// Preparing any picture for a format that strips alpha leaves no alpha
/// channel in its composition, whatever the source composition was.
pub proof fn lemma_alpha_stripped(c: ColorKind, f: TargetFormat)
    requires
        strips_alpha(f),
    ensures
        !color_has_alpha(normalized_color(c, f)),
{
}

/// Preparing any picture for a format that keeps alpha leaves its channel
/// composition exactly as it was.
pub proof fn lemma_composition_preserved(c: ColorKind, f: TargetFormat)
    requires
        !strips_alpha(f),
    ensures
        normalized_color(c, f) == c,
{
}

} // verus!
