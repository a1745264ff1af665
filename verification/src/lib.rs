//! Verified planning logic of a small image converter.
//!
//! The library derives the output filename from the source path, maps the
//! user's format token to a supported target format, decides whether the
//! pixel layout must be flattened to three channels before encoding, and
//! tracks the effect of that decision on the image's channel composition.
//! Decoding and encoding the pixels themselves are the work of the `image`
//! crate; reading the command line and touching the file system live with
//! the caller.

pub mod casing;
pub mod errors;
pub mod filename;
pub mod format;
pub mod picture;
pub mod plan;

pub use casing::to_lowercase;
pub use errors::ConvertError;
pub use filename::get_filename_from_path;
pub use filename::output_file_name;
pub use format::format_to_image_format;
pub use format::TargetFormat;
pub use picture::has_alpha;
pub use picture::normalize_for_format;
pub use picture::ColorKind;
pub use picture::Picture;
pub use plan::plan_conversion;
pub use plan::ConversionPlan;
