//! The table of supported target formats.
//!
//! A format token is matched case-insensitively against a fixed table; any
//! token outside the table is a fatal input error that names the token.

use vstd::prelude::*;
use vstd::string::*;
use crate::casing::lower_seq;
use crate::casing::to_lowercase;
use crate::errors::ConvertError;

verus! {

/// A supported target format.
#[derive(Clone, Copy, PartialEq, Eq, Structural, Debug)]
pub enum TargetFormat {
    Jpeg,
    Png,
    WebP,
    Bmp,
    Gif,
    Pnm,
}

/// The format named by an already-lowercased token, or `None` when the
/// token is not in the table.
pub open spec fn parse_format(s: Seq<char>) -> Option<TargetFormat> {
    if s == "jpg"@ || s == "jpeg"@ {
        Some(TargetFormat::Jpeg)
    } else if s == "png"@ {
        Some(TargetFormat::Png)
    } else if s == "webp"@ {
        Some(TargetFormat::WebP)
    } else if s == "bmp"@ {
        Some(TargetFormat::Bmp)
    } else if s == "gif"@ {
        Some(TargetFormat::Gif)
    } else if s == "pnm"@ {
        Some(TargetFormat::Pnm)
    } else {
        None
    }
}

/// Whether encoding to `f` discards the alpha channel: only JPEG cannot
/// represent one.
pub open spec fn strips_alpha(f: TargetFormat) -> bool {
    f == TargetFormat::Jpeg
}

/// Maps a format token, case-insensitively, to the target format it names.
/// An unrecognized token yields the error that names it.
pub fn format_to_image_format(format: &String) -> (r: Result<TargetFormat, ConvertError>)
    ensures
        match parse_format(lower_seq(format@)) {
            Some(f) => r == Ok::<TargetFormat, ConvertError>(f),
            None => (r matches Err(e) && e matches ConvertError::UnsupportedFormat { token }
                && token@ == format@),
        },
{
    let lowered = to_lowercase(format);
    if lowered == String::from_str("jpg") || lowered == String::from_str("jpeg") {
        Ok(TargetFormat::Jpeg)
    } else if lowered == String::from_str("png") {
        Ok(TargetFormat::Png)
    } else if lowered == String::from_str("webp") {
        Ok(TargetFormat::WebP)
    } else if lowered == String::from_str("bmp") {
        Ok(TargetFormat::Bmp)
    } else if lowered == String::from_str("gif") {
        Ok(TargetFormat::Gif)
    } else if lowered == String::from_str("pnm") {
        Ok(TargetFormat::Pnm)
    } else {
        Err(ConvertError::UnsupportedFormat { token: format.clone() })
    }
}

/// Two tokens with the same lowercased spelling have the same outcome:
/// recognition and mapping depend only on the lowercased token, so
/// [`format_to_image_format`] returns the same format — or rejects both —
/// for every spelling of a token, and the lowercased extension the output
/// filename carries is the same as well.
pub proof fn lemma_match_is_case_insensitive(a: Seq<char>, b: Seq<char>)
    requires
        lower_seq(a) == lower_seq(b),
    ensures
        parse_format(lower_seq(a)) == parse_format(lower_seq(b)),
{
}

/// Returns whether the given target format discards the alpha channel.
pub fn format_strips_alpha(f: TargetFormat) -> (b: bool)
    ensures
        b == strips_alpha(f),
{
    f == TargetFormat::Jpeg
}

} // verus!
