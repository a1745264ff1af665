//! Error values of the converter.
//!
//! Every failure is fatal to a conversion: an unrecognized format token, a
//! source file that cannot be decoded, or an output file that cannot be
//! written. Each error carries the text needed for its user-facing message;
//! the caller maps any error to a message and a non-zero exit.

use vstd::prelude::*;
use vstd::string::*;

verus! {

/// A fatal conversion failure.
#[derive(Debug)]
pub enum ConvertError {
    /// The format token named no supported target format.
    UnsupportedFormat { token: String },
    /// The source file could not be read or decoded.
    DecodeFailed { detail: String },
    /// The output file could not be encoded or written.
    EncodeFailed { detail: String },
}

impl ConvertError {
    /// The user-facing message of this error, naming the offending token or
    /// the underlying cause.
    pub open spec fn message_spec(self) -> Seq<char> {
        match self {
            ConvertError::UnsupportedFormat { token } => "Unsupported format: "@ + token@,
            ConvertError::DecodeFailed { detail } => "Couldn't open image: "@ + detail@,
            ConvertError::EncodeFailed { detail } => "Couldn't save image: "@ + detail@,
        }
    }

    /// Returns the user-facing message of this error.
    pub fn message(&self) -> (m: String)
        ensures
            m@ == self.message_spec(),
    {
        match self {
            ConvertError::UnsupportedFormat { token } => {
                "Unsupported format: ".to_owned().concat(token.as_str())
            },
            ConvertError::DecodeFailed { detail } => {
                "Couldn't open image: ".to_owned().concat(detail.as_str())
            },
            ConvertError::EncodeFailed { detail } => {
                "Couldn't save image: ".to_owned().concat(detail.as_str())
            },
        }
    }
}

} // verus!
