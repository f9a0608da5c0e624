//! The unified error taxonomy for a conversion run.

use vstd::prelude::*;

verus! {

/// Everything that can go wrong in one conversion run. Every kind is
/// terminal: nothing is retried.
#[derive(Debug)]
pub enum ConversionError {
    /// The path had no `.`-delimited suffix; carries the path itself.
    NoExtension(String),
    /// A suffix was present but is not a supported token; carries the token.
    UnsupportedExtension(String),
    /// The codec library could not read or interpret the input as an image.
    DecodeFailure(String),
    /// The codec library could not write the output in the target format.
    EncodeFailure(String),
    /// A filesystem-level failure not otherwise classified.
    IoFailure(String),
}

/// The exact human-readable rendering of each error kind.
pub open spec fn message_of(e: ConversionError) -> Seq<char> {
    match e {
        ConversionError::NoExtension(p) => "File format error: The file "@ + p@
            + " has no extension, please specify one"@,
        ConversionError::UnsupportedExtension(t) => "File format error: The extension "@ + t@
            + " is not supported"@,
        ConversionError::DecodeFailure(d) => "Image conversion error: "@ + d@,
        ConversionError::EncodeFailure(d) => "Image conversion error: "@ + d@,
        ConversionError::IoFailure(d) => "IO error: "@ + d@,
    }
}

impl ConversionError {
    /// Renders the error as the text that is surfaced to the caller.
    pub fn message(&self) -> (r: String)
        ensures
            r@ == message_of(*self),
    {
        match self {
            ConversionError::NoExtension(p) => {
                let mut s = String::from_str("File format error: The file ");
                s.append(p.as_str());
                s.append(" has no extension, please specify one");
                s
            },
            ConversionError::UnsupportedExtension(t) => {
                let mut s = String::from_str("File format error: The extension ");
                s.append(t.as_str());
                s.append(" is not supported");
                s
            },
            ConversionError::DecodeFailure(d) => {
                let mut s = String::from_str("Image conversion error: ");
                s.append(d.as_str());
                s
            },
            ConversionError::EncodeFailure(d) => {
                let mut s = String::from_str("Image conversion error: ");
                s.append(d.as_str());
                s
            },
            ConversionError::IoFailure(d) => {
                let mut s = String::from_str("IO error: ");
                s.append(d.as_str());
                s
            },
        }
    }
}

} // verus!
