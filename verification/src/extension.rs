//! The closed set of format tags a document can carry.

use vstd::prelude::*;

verus! {

/// Format tag of an image document.
///
/// `Jpg` and `Jpeg` are two spellings of the same encoding family and
/// are served by the same backend.  `Empty` tags a placeholder document
/// that holds no encoded image yet.  `ExternalFormat` is reserved for
/// future extension: it is accepted as a value but every conversion or
/// dispatch on it fails with `UnsupportedFileExtension`.
#[derive(Debug, Clone, PartialEq)]
pub enum Extension {
    Bmp,
    Jpg,
    Jpeg,
    Png,
    Webp,
    Empty,
    ExternalFormat(String),
}

impl Extension {
    /// The file-extension text of each tag.
    pub open spec fn spec_name(&self) -> Seq<char> {
        match self {
            Extension::Bmp => "bmp"@,
            Extension::Jpg => "jpg"@,
            Extension::Jpeg => "jpeg"@,
            Extension::Png => "png"@,
            Extension::Webp => "webp"@,
            Extension::Empty => "empty"@,
            Extension::ExternalFormat(s) => s@,
        }
    }

    /// An independent copy of the tag.
    pub fn duplicate(&self) -> (r: Self)
        ensures
            r == *self,
    {
        match self {
            Extension::Bmp => Extension::Bmp,
            Extension::Jpg => Extension::Jpg,
            Extension::Jpeg => Extension::Jpeg,
            Extension::Png => Extension::Png,
            Extension::Webp => Extension::Webp,
            Extension::Empty => Extension::Empty,
            Extension::ExternalFormat(s) => Extension::ExternalFormat(s.clone()),
        }
    }

    /// The file-extension text of the tag, e.g. `"png"`.
    pub fn name(&self) -> (r: String)
        ensures
            r@ == self.spec_name(),
    {
        match self {
            Extension::Bmp => String::from_str("bmp"),
            Extension::Jpg => String::from_str("jpg"),
            Extension::Jpeg => String::from_str("jpeg"),
            Extension::Png => String::from_str("png"),
            Extension::Webp => String::from_str("webp"),
            Extension::Empty => String::from_str("empty"),
            Extension::ExternalFormat(s) => s.clone(),
        }
    }
}

} // verus!
