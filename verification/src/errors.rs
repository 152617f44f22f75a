//! The closed error taxonomy.  Every failure of the library is one of
//! these variants; no error is ever downgraded to a default value.

use vstd::prelude::*;

verus! {

/// Everything that can go wrong while opening, editing or saving an
/// image document.  The `String` payloads carry the diagnostic text of
/// the underlying codec or I/O failure.
#[derive(Debug, Clone, PartialEq)]
pub enum RusimgError {
    FailedToOpenFile(String),
    FailedToReadFile(String),
    FailedToGetMetadata(String),
    FailedToOpenImage(String),
    FailedToSaveImage(String),
    FailedToCopyBinaryData(String),
    FailedToGetFilename(String),
    FailedToCreateFile(String),
    FailedToWriteFIle(String),
    FailedToDecodeWebp,
    FailedToEncodeWebp(String),
    FailedToCompressImage(Option<String>),
    FailedToConvertPathToString,
    InvalidCompressionLevel,
    InvalidTrimXY,
    InvalidResizeRatio,
    ImageFormatCannotBeCompressed,
    UnsupportedFileExtension,
    UnsupportedFeature,
    ImageNotSpecified,
    SourcePathMustBeSpecified,
}

impl RusimgError {
    /// The descriptive text of each error variant.
    pub open spec fn spec_message(&self) -> Seq<char> {
        match self {
            RusimgError::FailedToOpenFile(s) => "Failed to open file: "@ + s@,
            RusimgError::FailedToReadFile(s) => "Failed to read file: "@ + s@,
            RusimgError::FailedToGetMetadata(s) => "Failed to get metadata: "@ + s@,
            RusimgError::FailedToOpenImage(s) => "Failed to open image: "@ + s@,
            RusimgError::FailedToSaveImage(s) => "Failed to save image: "@ + s@,
            RusimgError::FailedToCopyBinaryData(s) => "Failed to copy binary data to memory: "@
                + s@,
            RusimgError::FailedToGetFilename(s) => "Failed to get filename: "@ + s@,
            RusimgError::FailedToCreateFile(s) => "Failed to create file: "@ + s@,
            RusimgError::FailedToWriteFIle(s) => "Failed to write file: "@ + s@,
            RusimgError::FailedToDecodeWebp => "Failed to decode webp"@,
            RusimgError::FailedToEncodeWebp(s) => "Failed to encode webp: "@ + s@,
            RusimgError::FailedToCompressImage(s) => match s {
                Some(s) => "Failed to compress image: "@ + s@,
                None => "Failed to compress image"@,
            },
            RusimgError::FailedToConvertPathToString => "Failed to convert path to string"@,
            RusimgError::InvalidCompressionLevel => "Invalid compression level"@,
            RusimgError::InvalidTrimXY => "Invalid trim XY"@,
            RusimgError::InvalidResizeRatio => "Invalid resize ratio"@,
            RusimgError::ImageFormatCannotBeCompressed => "this image format cannot be compressed"@,
            RusimgError::UnsupportedFileExtension => "Unsupported file extension"@,
            RusimgError::UnsupportedFeature => "Unsupported feature"@,
            RusimgError::ImageNotSpecified => "Image not specified"@,
            RusimgError::SourcePathMustBeSpecified => "Source path must be specified"@,
        }
    }

    /// A human-readable description of the error.
    pub fn message(&self) -> (r: String)
        ensures
            r@ == self.spec_message(),
    {
        match self {
            RusimgError::FailedToOpenFile(s) => String::from_str("Failed to open file: ").concat(
                s.as_str(),
            ),
            RusimgError::FailedToReadFile(s) => String::from_str("Failed to read file: ").concat(
                s.as_str(),
            ),
            RusimgError::FailedToGetMetadata(s) => String::from_str(
                "Failed to get metadata: ",
            ).concat(s.as_str()),
            RusimgError::FailedToOpenImage(s) => String::from_str("Failed to open image: ").concat(
                s.as_str(),
            ),
            RusimgError::FailedToSaveImage(s) => String::from_str("Failed to save image: ").concat(
                s.as_str(),
            ),
            RusimgError::FailedToCopyBinaryData(s) => String::from_str(
                "Failed to copy binary data to memory: ",
            ).concat(s.as_str()),
            RusimgError::FailedToGetFilename(s) => String::from_str(
                "Failed to get filename: ",
            ).concat(s.as_str()),
            RusimgError::FailedToCreateFile(s) => String::from_str(
                "Failed to create file: ",
            ).concat(s.as_str()),
            RusimgError::FailedToWriteFIle(s) => String::from_str("Failed to write file: ").concat(
                s.as_str(),
            ),
            RusimgError::FailedToDecodeWebp => String::from_str("Failed to decode webp"),
            RusimgError::FailedToEncodeWebp(s) => String::from_str(
                "Failed to encode webp: ",
            ).concat(s.as_str()),
            RusimgError::FailedToCompressImage(s) => match s {
                Some(s) => String::from_str("Failed to compress image: ").concat(s.as_str()),
                None => String::from_str("Failed to compress image"),
            },
            RusimgError::FailedToConvertPathToString => String::from_str(
                "Failed to convert path to string",
            ),
            RusimgError::InvalidCompressionLevel => String::from_str("Invalid compression level"),
            RusimgError::InvalidTrimXY => String::from_str("Invalid trim XY"),
            RusimgError::InvalidResizeRatio => String::from_str("Invalid resize ratio"),
            RusimgError::ImageFormatCannotBeCompressed => String::from_str(
                "this image format cannot be compressed",
            ),
            RusimgError::UnsupportedFileExtension => String::from_str(
                "Unsupported file extension",
            ),
            RusimgError::UnsupportedFeature => String::from_str("Unsupported feature"),
            RusimgError::ImageNotSpecified => String::from_str("Image not specified"),
            RusimgError::SourcePathMustBeSpecified => String::from_str(
                "Source path must be specified",
            ),
        }
    }
}

} // verus!
