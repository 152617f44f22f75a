//! The format backends and the dispatch between them.
//!
//! Each submodule implements the capability contract for one encoding
//! family; `ImageBackend` is the closed union a document holds exactly
//! one of, and the free functions here construct the right backend for
//! a sniffed or requested format tag.

use vstd::prelude::*;

pub mod bmp;
pub mod empty;
pub mod jpeg;
pub mod png;
pub mod webp;

use crate::backend::bmp::{bmp_encoding, spec_bmp_encodable, BmpImage};
use crate::backend::empty::EmptyImage;
use crate::backend::jpeg::{jpeg_encoding, JpegImage, DEFAULT_JPEG_QUALITY, JPEG_MAX_DIMENSION};
use crate::backend::png::{png_encoding, PngImage};
use crate::backend::webp::{
    webp_decoded_dims, webp_encoding, WebpImage, DEFAULT_WEBP_QUALITY, WEBP_MAX_DIMENSION,
};
use crate::errors::RusimgError;
use crate::extension::Extension;
use crate::pixels::{decoded_dims, spec_fits_decode_budget, PixelImage};
use crate::sniff::{is_foreign_format, is_foreign_magic, sniff_format, spec_sniff};

verus! {

/// An edit counter one step further on, saturating instead of
/// wrapping.
pub open spec fn spec_bump(c: u64) -> u64 {
    if c == u64::MAX {
        c
    } else {
        (c + 1) as u64
    }
}

/// Count one more edit.
pub fn bump(c: u64) -> (r: u64)
    ensures
        r == spec_bump(c),
{
    if c < u64::MAX {
        c + 1
    } else {
        c
    }
}

/// An independent copy of an optional path.
pub fn clone_opt_string(o: &Option<String>) -> (r: Option<String>)
    ensures
        r == o,
{
    match o {
        Some(s) => Some(s.clone()),
        None => None,
    }
}

/// The runtime registration table: which format backends are enabled.
/// A disabled format is still sniffed, but dispatching to it reports
/// an unsupported file extension instead of attempting a decode.
#[derive(Debug, Clone, Copy, PartialEq, Eq, Structural)]
pub struct BackendConfig {
    pub bmp: bool,
    pub jpeg: bool,
    pub png: bool,
    pub webp: bool,
}

impl BackendConfig {
    /// Whether the backend serving this tag is enabled.  `Empty` and
    /// `ExternalFormat` have no backend to enable.
    pub open spec fn spec_enabled(&self, ext: Extension) -> bool {
        match ext {
            Extension::Bmp => self.bmp,
            Extension::Jpg => self.jpeg,
            Extension::Jpeg => self.jpeg,
            Extension::Png => self.png,
            Extension::Webp => self.webp,
            Extension::Empty => false,
            Extension::ExternalFormat(_) => false,
        }
    }
}

impl Default for BackendConfig {
    /// Every format backend is enabled.
    fn default() -> (r: Self)
        ensures
            r.bmp && r.jpeg && r.png && r.webp,
    {
        BackendConfig { bmp: true, jpeg: true, png: true, webp: true }
    }
}

/// The one active backend of a document: a closed union, replaced
/// wholesale on a format conversion.
#[derive(Debug)]
pub enum ImageBackend {
    Bmp(BmpImage),
    Jpeg(JpegImage),
    Png(PngImage),
    Webp(WebpImage),
    Empty(EmptyImage),
}

impl ImageBackend {
    /// The active backend is well-formed.
    pub open spec fn wf(&self) -> bool {
        match self {
            ImageBackend::Bmp(b) => b.wf(),
            ImageBackend::Jpeg(b) => b.wf(),
            ImageBackend::Png(b) => b.wf(),
            ImageBackend::Webp(b) => b.wf(),
            ImageBackend::Empty(b) => b.wf(),
        }
    }

    /// The document's geometry, absent for a pixel-less placeholder.
    pub open spec fn spec_dims(&self) -> Option<(u32, u32)> {
        match self {
            ImageBackend::Bmp(b) => Some((b.image.width, b.image.height)),
            ImageBackend::Jpeg(b) => Some((b.image.width, b.image.height)),
            ImageBackend::Png(b) => Some((b.image.width, b.image.height)),
            ImageBackend::Webp(b) => Some((b.image.width, b.image.height)),
            ImageBackend::Empty(b) => match b.image {
                Some(p) => Some((p.width, p.height)),
                None => None,
            },
        }
    }

    /// The document's pixel buffer, absent for a pixel-less
    /// placeholder.
    pub open spec fn spec_pixels(&self) -> Option<PixelImage> {
        match self {
            ImageBackend::Bmp(b) => Some(b.image),
            ImageBackend::Jpeg(b) => Some(b.image),
            ImageBackend::Png(b) => Some(b.image),
            ImageBackend::Webp(b) => Some(b.image),
            ImageBackend::Empty(b) => b.image,
        }
    }

    /// The path the document was opened from, if any.
    pub open spec fn spec_source_path(&self) -> Option<String> {
        match self {
            ImageBackend::Bmp(b) => b.filepath_input,
            ImageBackend::Jpeg(b) => b.filepath_input,
            ImageBackend::Png(b) => b.filepath_input,
            ImageBackend::Webp(b) => b.filepath_input,
            ImageBackend::Empty(b) => b.source_path,
        }
    }

    /// The path the document was last saved to, if any; a placeholder
    /// supports none.
    pub open spec fn spec_dest_path(&self) -> Option<Option<String>> {
        match self {
            ImageBackend::Bmp(b) => Some(b.filepath_output),
            ImageBackend::Jpeg(b) => Some(b.filepath_output),
            ImageBackend::Png(b) => Some(b.filepath_output),
            ImageBackend::Webp(b) => Some(b.filepath_output),
            ImageBackend::Empty(_) => None,
        }
    }

    /// The source file's byte count, if the document came from a file.
    pub open spec fn spec_metadata_src(&self) -> Option<u64> {
        match self {
            ImageBackend::Bmp(b) => b.metadata_input,
            ImageBackend::Jpeg(b) => b.metadata_input,
            ImageBackend::Png(b) => b.metadata_input,
            ImageBackend::Webp(b) => b.metadata_input,
            ImageBackend::Empty(_) => None,
        }
    }

    /// The written file's byte count, if the document has been saved.
    pub open spec fn spec_metadata_dest(&self) -> Option<u64> {
        match self {
            ImageBackend::Bmp(b) => b.metadata_output,
            ImageBackend::Jpeg(b) => b.metadata_output,
            ImageBackend::Png(b) => b.metadata_output,
            ImageBackend::Webp(b) => b.metadata_output,
            ImageBackend::Empty(_) => None,
        }
    }

    /// The backend's count of edits applied since open or import; a
    /// placeholder keeps no counter.
    pub open spec fn spec_ops(&self) -> u64 {
        match self {
            ImageBackend::Bmp(b) => b.operations_count,
            ImageBackend::Jpeg(b) => b.operations_count,
            ImageBackend::Png(b) => b.operations_count,
            ImageBackend::Webp(b) => b.operations_count,
            ImageBackend::Empty(_) => 0,
        }
    }

    /// The file-extension text a save of this backend resolves with.
    pub open spec fn spec_format_ext(&self) -> Seq<char> {
        match self {
            ImageBackend::Bmp(_) => "bmp"@,
            ImageBackend::Jpeg(b) => b.extension_str@,
            ImageBackend::Png(_) => "png"@,
            ImageBackend::Webp(_) => "webp"@,
            ImageBackend::Empty(_) => "empty"@,
        }
    }

    /// The bytes a save of this backend writes, or nothing when it
    /// must fail: each variant's encode policy, folded into one model.
    pub open spec fn spec_save_payload(&self) -> Option<Seq<u8>> {
        match self {
            ImageBackend::Bmp(b) => {
                if spec_bmp_encodable(b.image) {
                    bmp_encoding(b.image.width, b.image.height, b.image.data@)
                } else {
                    None
                }
            },
            ImageBackend::Jpeg(b) => {
                if b.image.width > JPEG_MAX_DIMENSION || b.image.height > JPEG_MAX_DIMENSION
                    || !spec_fits_decode_budget(b.image.width, b.image.height) {
                    None
                } else {
                    jpeg_encoding(
                        b.image.width,
                        b.image.height,
                        b.image.data@,
                        match b.required_quality {
                            Some(q) => q,
                            None => DEFAULT_JPEG_QUALITY,
                        },
                    )
                }
            },
            ImageBackend::Png(b) => b.spec_save_payload(),
            ImageBackend::Webp(b) => {
                if b.spec_passthrough() {
                    Some(b.image_bytes->0@)
                } else if b.image.width > WEBP_MAX_DIMENSION || b.image.height
                    > WEBP_MAX_DIMENSION {
                    None
                } else {
                    webp_encoding(
                        b.image.width,
                        b.image.height,
                        b.image.data@,
                        match b.required_quality {
                            Some(q) => q,
                            None => DEFAULT_WEBP_QUALITY,
                        },
                    )
                }
            },
            ImageBackend::Empty(_) => None,
        }
    }

    /// Two backends serve the same format.
    pub open spec fn same_variant(a: &Self, b: &Self) -> bool {
        match (a, b) {
            (ImageBackend::Bmp(_), ImageBackend::Bmp(_)) => true,
            (ImageBackend::Jpeg(_), ImageBackend::Jpeg(_)) => true,
            (ImageBackend::Png(_), ImageBackend::Png(_)) => true,
            (ImageBackend::Webp(_), ImageBackend::Webp(_)) => true,
            (ImageBackend::Empty(_), ImageBackend::Empty(_)) => true,
            _ => false,
        }
    }

    /// The format tag this backend answers a sniff of its own saved
    /// bytes with.
    pub open spec fn spec_sniff_tag(&self) -> Option<Extension> {
        match self {
            ImageBackend::Bmp(_) => Some(Extension::Bmp),
            ImageBackend::Jpeg(_) => Some(Extension::Jpeg),
            ImageBackend::Png(_) => Some(Extension::Png),
            ImageBackend::Webp(_) => Some(Extension::Webp),
            ImageBackend::Empty(_) => None,
        }
    }
}

/// The dimensions a buffer would open with: what the sniffed format's
/// decoder reads out of it, or nothing when no enabled decoder takes
/// it.
pub open spec fn spec_opened_dims(b: Seq<u8>) -> Option<(u32, u32)> {
    match spec_sniff(b) {
        Some(Extension::Webp) => webp_decoded_dims(b),
        Some(_) => decoded_dims(b),
        None => None,
    }
}

/// The configuration with every format backend enabled.
pub open spec fn spec_all_enabled() -> BackendConfig {
    BackendConfig { bmp: true, jpeg: true, png: true, webp: true }
}

/// What opening a document from a path's contents yields.  Absent
/// contents (the path names no existing file) give a placeholder
/// document aimed at that path; present contents are sniffed once and
/// dispatched to the matching enabled backend.
pub open spec fn open_image_post(
    cfg: BackendConfig,
    path: String,
    contents: Option<Vec<u8>>,
    metadata: Option<u64>,
    r: Result<crate::RusImg, RusimgError>,
) -> bool {
    match contents {
        None => r matches Ok(img) && img.wf() && img.extension == Extension::Empty && (img.data
            matches ImageBackend::Empty(e) && e.image is None && e.source_path == Some(path)),
        Some(buf) => match spec_sniff(buf@) {
            None => {
                if is_foreign_magic(buf@) {
                    r == Err::<crate::RusImg, RusimgError>(RusimgError::UnsupportedFileExtension)
                } else {
                    r matches Err(e) && e matches RusimgError::FailedToOpenImage(_)
                }
            },
            Some(fmt) => {
                if !cfg.spec_enabled(fmt) {
                    r == Err::<crate::RusImg, RusimgError>(RusimgError::UnsupportedFileExtension)
                } else if metadata is None {
                    r == Err::<crate::RusImg, RusimgError>(RusimgError::ImageNotSpecified)
                } else {
                    match fmt {
                        Extension::Bmp => match decoded_dims(buf@) {
                            Some(dims) => r matches Ok(img) && img.wf() && img.extension
                                == Extension::Bmp && (img.data matches ImageBackend::Bmp(b) && (
                            b.image.width,
                            b.image.height,
                            ) == dims && b.filepath_input == Some(path) && b.metadata_input
                                == metadata && b.operations_count == 0),
                            None => r matches Err(e) && e matches RusimgError::FailedToOpenImage(
                                _,
                            ),
                        },
                        Extension::Jpeg => match decoded_dims(buf@) {
                            Some(dims) => r matches Ok(img) && img.wf() && img.extension
                                == Extension::Jpeg && (img.data matches ImageBackend::Jpeg(b) && (
                            b.image.width,
                            b.image.height,
                            ) == dims && b.filepath_input == Some(path) && b.metadata_input
                                == metadata && b.operations_count == 0 && b.required_quality
                                is None),
                            None => r matches Err(e) && e matches RusimgError::FailedToOpenImage(
                                _,
                            ),
                        },
                        Extension::Png => match decoded_dims(buf@) {
                            Some(dims) => r matches Ok(img) && img.wf() && img.extension
                                == Extension::Png && (img.data matches ImageBackend::Png(b) && (
                            b.image.width,
                            b.image.height,
                            ) == dims && b.binary_data@ == buf@ && b.image_bytes is None
                                && b.edited == false && b.filepath_input == Some(path)
                                && b.metadata_input == metadata && b.operations_count == 0),
                            None => r matches Err(e) && e matches RusimgError::FailedToOpenImage(
                                _,
                            ),
                        },
                        Extension::Webp => match webp_decoded_dims(buf@) {
                            Some(dims) => r matches Ok(img) && img.wf() && img.extension
                                == Extension::Webp && (img.data matches ImageBackend::Webp(b) && (
                            b.image.width,
                            b.image.height,
                            ) == dims && (b.image_bytes matches Some(v) && v@ == buf@)
                                && b.filepath_input == Some(path) && b.metadata_input == metadata
                                && b.operations_count == 0 && b.required_quality is None),
                            None => r == Err::<crate::RusImg, RusimgError>(
                                RusimgError::FailedToDecodeWebp,
                            ),
                        },
                        _ => false,
                    }
                }
            },
        },
    }
}

/// Open a document from what was found at `path`: the file's bytes
/// and size, or `None` for each when the path names no existing file.
/// Every format backend is consulted as enabled.
pub fn open_image(path: String, contents: Option<Vec<u8>>, metadata: Option<u64>) -> (r: Result<
    crate::RusImg,
    RusimgError,
>)
    ensures
        open_image_post(spec_all_enabled(), path, contents, metadata, r),
{
    let cfg = BackendConfig { bmp: true, jpeg: true, png: true, webp: true };
    open_image_with_config(&cfg, path, contents, metadata)
}

/// Open a document from what was found at `path`, consulting `cfg`
/// for which format backends are enabled.
pub fn open_image_with_config(
    cfg: &BackendConfig,
    path: String,
    contents: Option<Vec<u8>>,
    metadata: Option<u64>,
) -> (r: Result<crate::RusImg, RusimgError>)
    ensures
        open_image_post(*cfg, path, contents, metadata, r),
{
    let buf = match contents {
        Some(b) => b,
        None => {
            return Ok(
                crate::RusImg {
                    extension: Extension::Empty,
                    data: ImageBackend::Empty(EmptyImage { image: None, source_path: Some(path) }),
                },
            );
        },
    };
    match sniff_format(buf.as_slice()) {
        None => {
            if is_foreign_format(buf.as_slice()) {
                Err(RusimgError::UnsupportedFileExtension)
            } else {
                Err(
                    RusimgError::FailedToOpenImage(
                        String::from_str("unrecognized image signature"),
                    ),
                )
            }
        },
        Some(Extension::Bmp) => {
            if !cfg.bmp {
                return Err(RusimgError::UnsupportedFileExtension);
            }
            if metadata.is_none() {
                return Err(RusimgError::ImageNotSpecified);
            }
            match BmpImage::open(Some(path), Some(buf), metadata) {
                Ok(b) => Ok(crate::RusImg { extension: Extension::Bmp, data: ImageBackend::Bmp(b) }),
                Err(e) => Err(e),
            }
        },
        Some(Extension::Jpeg) => {
            if !cfg.jpeg {
                return Err(RusimgError::UnsupportedFileExtension);
            }
            if metadata.is_none() {
                return Err(RusimgError::ImageNotSpecified);
            }
            match JpegImage::open(Some(path), Some(buf), metadata) {
                Ok(b) => Ok(
                    crate::RusImg { extension: Extension::Jpeg, data: ImageBackend::Jpeg(b) },
                ),
                Err(e) => Err(e),
            }
        },
        Some(Extension::Png) => {
            if !cfg.png {
                return Err(RusimgError::UnsupportedFileExtension);
            }
            if metadata.is_none() {
                return Err(RusimgError::ImageNotSpecified);
            }
            match PngImage::open(Some(path), Some(buf), metadata) {
                Ok(b) => Ok(crate::RusImg { extension: Extension::Png, data: ImageBackend::Png(b) }),
                Err(e) => Err(e),
            }
        },
        Some(Extension::Webp) => {
            if !cfg.webp {
                return Err(RusimgError::UnsupportedFileExtension);
            }
            if metadata.is_none() {
                return Err(RusimgError::ImageNotSpecified);
            }
            match WebpImage::open(Some(path), Some(buf), metadata) {
                Ok(b) => Ok(
                    crate::RusImg { extension: Extension::Webp, data: ImageBackend::Webp(b) },
                ),
                Err(e) => Err(e),
            }
        },
        Some(_) => Err(RusimgError::UnsupportedFileExtension),
    }
}

/// What building a document from an in-memory pixel buffer yields:
/// the matching backend, imported fresh, with no source path or
/// metadata.  Only the four canonical format tags build a backend;
/// the `Jpg` alias is accepted by `convert` but not here.
pub open spec fn new_image_post(
    extension: Extension,
    image: PixelImage,
    r: Result<crate::RusImg, RusimgError>,
) -> bool {
    match extension {
        Extension::Bmp => r matches Ok(img) && img.wf() && img.extension == Extension::Bmp && (
        img.data matches ImageBackend::Bmp(b) && b.image == image && b.filepath_input is None
            && b.metadata_input is None && b.operations_count == 0),
        Extension::Jpeg => r matches Ok(img) && img.wf() && img.extension == Extension::Jpeg && (
        img.data matches ImageBackend::Jpeg(b) && b.image.width == image.width && b.image.height
            == image.height && b.image.has_alpha == false && b.filepath_input is None
            && b.metadata_input is None && b.operations_count == 0 && b.required_quality is None),
        Extension::Png => {
            if !spec_fits_decode_budget(image.width, image.height) {
                r matches Err(e) && e matches RusimgError::FailedToCopyBinaryData(_)
            } else {
                match png_encoding(image.width, image.height, image.data@) {
                    Some(enc) => r matches Ok(img) && img.wf() && img.extension == Extension::Png
                        && (img.data matches ImageBackend::Png(b) && b.image == image
                        && b.binary_data@ == enc && b.image_bytes is None && b.edited == false
                        && b.filepath_input is None && b.metadata_input is None
                        && b.operations_count == 0),
                    None => r matches Err(e) && e matches RusimgError::FailedToCopyBinaryData(_),
                }
            }
        },
        Extension::Webp => r matches Ok(img) && img.wf() && img.extension == Extension::Webp && (
        img.data matches ImageBackend::Webp(b) && b.image == image && b.image_bytes is None
            && b.filepath_input is None && b.metadata_input is None && b.operations_count == 0
            && b.required_quality is None),
        Extension::Jpg | Extension::Empty | Extension::ExternalFormat(_) => r == Err::<
            crate::RusImg,
            RusimgError,
        >(RusimgError::UnsupportedFileExtension),
    }
}

/// Build a document from an in-memory pixel buffer, with the backend
/// the tag names.
pub fn new_image(extension: &Extension, image: PixelImage) -> (r: Result<
    crate::RusImg,
    RusimgError,
>)
    requires
        image.wf(),
    ensures
        new_image_post(*extension, image, r),
{
    match extension {
        Extension::Bmp => {
            match BmpImage::import(Some(image), None, None) {
                Ok(b) => Ok(crate::RusImg { extension: Extension::Bmp, data: ImageBackend::Bmp(b) }),
                Err(e) => Err(e),
            }
        },
        Extension::Jpeg => {
            match JpegImage::import(Some(image), None, None) {
                Ok(b) => Ok(
                    crate::RusImg { extension: Extension::Jpeg, data: ImageBackend::Jpeg(b) },
                ),
                Err(e) => Err(e),
            }
        },
        Extension::Png => {
            match PngImage::import(Some(image), None, None) {
                Ok(b) => Ok(crate::RusImg { extension: Extension::Png, data: ImageBackend::Png(b) }),
                Err(e) => Err(e),
            }
        },
        Extension::Webp => {
            match WebpImage::import(Some(image), None, None) {
                Ok(b) => Ok(
                    crate::RusImg { extension: Extension::Webp, data: ImageBackend::Webp(b) },
                ),
                Err(e) => Err(e),
            }
        },
        Extension::Jpg | Extension::Empty | Extension::ExternalFormat(_) => Err(
            RusimgError::UnsupportedFileExtension,
        ),
    }
}

/// Convert a pixel buffer into a fresh BMP backend.
pub fn convert_to_bmp_image(
    pixels: PixelImage,
    filepath: Option<String>,
    metadata: Option<u64>,
) -> (r: Result<ImageBackend, RusimgError>)
    requires
        pixels.wf(),
    ensures
        r matches Ok(d) && d.wf() && (d matches ImageBackend::Bmp(b) && b.image == pixels
            && b.filepath_input == filepath && b.metadata_input == metadata && b.operations_count
            == 0 && b.filepath_output is None && b.metadata_output is None),
{
    match BmpImage::import(Some(pixels), filepath, metadata) {
        Ok(b) => Ok(ImageBackend::Bmp(b)),
        Err(e) => Err(e),
    }
}

/// Convert a pixel buffer into a fresh JPEG backend; an alpha channel
/// is stripped on the way in.
pub fn convert_to_jpeg_image(
    pixels: PixelImage,
    filepath: Option<String>,
    metadata: Option<u64>,
) -> (r: Result<ImageBackend, RusimgError>)
    requires
        pixels.wf(),
    ensures
        r matches Ok(d) && d.wf() && (d matches ImageBackend::Jpeg(b) && b.image.width
            == pixels.width && b.image.height == pixels.height && b.image.has_alpha == false
            && b.filepath_input == filepath && b.metadata_input == metadata && b.operations_count
            == 0 && b.required_quality is None && b.filepath_output is None && b.metadata_output
            is None),
{
    match JpegImage::import(Some(pixels), filepath, metadata) {
        Ok(b) => Ok(ImageBackend::Jpeg(b)),
        Err(e) => Err(e),
    }
}

/// Convert a pixel buffer into a fresh PNG backend; the buffer is
/// encoded at once, and a buffer the encoder rejects fails the
/// conversion.
pub fn convert_to_png_image(
    pixels: PixelImage,
    filepath: Option<String>,
    metadata: Option<u64>,
) -> (r: Result<ImageBackend, RusimgError>)
    requires
        pixels.wf(),
    ensures
        ({
            if !spec_fits_decode_budget(pixels.width, pixels.height) {
                r matches Err(e) && e matches RusimgError::FailedToCopyBinaryData(_)
            } else {
                match png_encoding(pixels.width, pixels.height, pixels.data@) {
                    Some(enc) => r matches Ok(d) && d.wf() && (d matches ImageBackend::Png(b)
                        && b.image == pixels && b.binary_data@ == enc && b.image_bytes is None
                        && b.edited == false && b.filepath_input == filepath && b.metadata_input
                        == metadata && b.operations_count == 0 && b.filepath_output is None
                        && b.metadata_output is None),
                    None => r matches Err(e) && e matches RusimgError::FailedToCopyBinaryData(_),
                }
            }
        }),
{
    match PngImage::import(Some(pixels), filepath, metadata) {
        Ok(b) => Ok(ImageBackend::Png(b)),
        Err(e) => Err(e),
    }
}

/// Convert a pixel buffer into a fresh WebP backend.  The new backend
/// retains no source bytes: its next save must encode.
pub fn convert_to_webp_image(
    pixels: PixelImage,
    filepath: Option<String>,
    metadata: Option<u64>,
) -> (r: Result<ImageBackend, RusimgError>)
    requires
        pixels.wf(),
    ensures
        r matches Ok(d) && d.wf() && (d matches ImageBackend::Webp(b) && b.image == pixels
            && b.image_bytes is None && b.filepath_input == filepath && b.metadata_input
            == metadata && b.operations_count == 0 && b.required_quality is None
            && b.filepath_output is None && b.metadata_output is None),
{
    match WebpImage::import(Some(pixels), filepath, metadata) {
        Ok(b) => Ok(ImageBackend::Webp(b)),
        Err(e) => Err(e),
    }
}

} // verus!
