//! The conversion plan.
//!
//! A whole conversion is decided up front from the two user inputs alone:
//! where the output goes, which format it is encoded in, and whether the
//! pixel layout must be flattened first. Decoding, transforming, and
//! encoding then follow the plan without further decisions.

use vstd::prelude::*;
use crate::casing::lower_seq;
use crate::errors::ConvertError;
use crate::filename::basename;
use crate::filename::output_file_name;
use crate::format::format_to_image_format;
use crate::format::parse_format;
use crate::format::format_strips_alpha;
use crate::format::strips_alpha;
use crate::format::TargetFormat;

verus! {

/// Everything a conversion will do, decided from the source path and the
/// format token: the derived output filename, the target format, and
/// whether the alpha channel must be stripped before encoding.
#[derive(Debug)]
pub struct ConversionPlan {
    pub output_path: String,
    pub format: TargetFormat,
    pub strip_alpha: bool,
}

/// Decides a whole conversion from the source path and the format token.
///
/// Succeeds exactly when the token, lowercased, is in the format table; the
/// plan then names the output file `<basename>.<lowercased token>`, carries
/// the format the token names, and strips alpha exactly for the format that
/// cannot represent it. An unrecognized token yields the error naming it,
/// and nothing is decided.
pub fn plan_conversion(path: &String, format: &String) -> (r: Result<
    ConversionPlan,
    ConvertError,
>)
    ensures
        match parse_format(lower_seq(format@)) {
            Some(f) => (r matches Ok(p) && p.output_path@ == basename(path@) + seq!['.']
                + lower_seq(format@) && p.format == f && p.strip_alpha == strips_alpha(f)),
            None => (r matches Err(e) && e matches ConvertError::UnsupportedFormat { token }
                && token@ == format@),
        },
{
    let target = match format_to_image_format(format) {
        Ok(f) => f,
        Err(e) => {
            return Err(e);
        },
    };
    let output_path = output_file_name(path, format);
    let strip = format_strips_alpha(target);
    Ok(ConversionPlan { output_path, format: target, strip_alpha: strip })
}

} // verus!
