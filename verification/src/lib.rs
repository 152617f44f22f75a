//! Format-polymorphic image document library.
//!
//! A `RusImg` document owns one format-specific backend (Bmp, Jpeg, Png,
//! Webp or Empty) behind a closed enum, exposes a uniform editing API
//! (resize, trim, grayscale, compress, convert), and computes, for each
//! save, the exact byte payload that belongs on disk.  All decisions and
//! all arithmetic are verified; the pixel codecs themselves are called
//! through narrow trusted wrappers.

use vstd::prelude::*;

pub mod backend;
pub mod errors;
pub mod extension;
pub mod geometry;
pub mod pathutil;
pub mod pixels;
pub mod sniff;
pub mod structs;

use crate::backend::png::{png_optimized, spec_quality_to_level};
use crate::backend::{
    convert_to_bmp_image, convert_to_jpeg_image, convert_to_png_image, convert_to_webp_image,
    new_image_post, open_image_post, spec_all_enabled, spec_bump, spec_opened_dims, ImageBackend,
};
use crate::errors::RusimgError;
use crate::extension::Extension;
use crate::geometry::{spec_scaled, spec_trim_size};
use crate::pathutil::{spec_resolve, SavePathError};
use crate::pixels::{
    gray_of, is_grayscale_rgba, spec_fits_decode_budget, spec_strip_alpha, strip_alpha_pixels,
    PixelImage,
};
use crate::sniff::spec_sniff;
use crate::structs::{ImgSize, Rect, SavePlan, SaveStatus};

verus! {

/// A caller-facing image document: one format tag and one active
/// backend.  Every editing call delegates to the backend; a format
/// conversion replaces tag and backend together.
#[derive(Debug)]
pub struct RusImg {
    pub extension: Extension,
    pub data: ImageBackend,
}

/// The document fields no edit touches are unchanged: the source and
/// destination paths and byte counts.
pub open spec fn io_fields_preserved(a: RusImg, b: RusImg) -> bool {
    &&& b.data.spec_source_path() == a.data.spec_source_path()
    &&& b.data.spec_metadata_src() == a.data.spec_metadata_src()
    &&& b.data.spec_dest_path() == a.data.spec_dest_path()
    &&& b.data.spec_metadata_dest() == a.data.spec_metadata_dest()
}

/// One edit was counted: the operation counter, which decides whether
/// a later save may pass the source bytes through, advanced by one.
/// A placeholder keeps no counter.
pub open spec fn ops_bumped(a: RusImg, b: RusImg) -> bool {
    !(a.data matches ImageBackend::Empty(_)) ==> b.data.spec_ops() == spec_bump(a.data.spec_ops())
}

/// What trimming a document to `t` yields: the clamped size of a
/// rectangle whose origin lies inside the bounds, an error otherwise,
/// and an error for a document without pixels.
pub open spec fn trim_post(a: RusImg, b: RusImg, t: Rect, r: Result<ImgSize, RusimgError>) -> bool {
    &&& b.extension == a.extension
    &&& ImageBackend::same_variant(&a.data, &b.data)
    &&& b.wf()
    &&& io_fields_preserved(a, b)
    &&& match a.data.spec_dims() {
        None => r == Err::<ImgSize, RusimgError>(RusimgError::ImageNotSpecified) && b == a,
        Some(d) => match spec_trim_size(d.0, d.1, t) {
            None => r == Err::<ImgSize, RusimgError>(RusimgError::InvalidTrimXY) && b == a,
            Some(nd) => r matches Ok(sz) && sz.width == nd.0 && sz.height == nd.1
                && b.data.spec_dims() == Some(nd) && ops_bumped(a, b),
        },
    }
}

impl RusImg {
    /// The active backend is well-formed.
    pub open spec fn wf(&self) -> bool {
        self.data.wf()
    }

    /// Build a document from an in-memory pixel buffer, with the
    /// backend the tag names.
    pub fn new(extension: &Extension, image: PixelImage) -> (r: Result<Self, RusimgError>)
        requires
            image.wf(),
        ensures
            new_image_post(*extension, image, r),
    {
        crate::backend::new_image(extension, image)
    }

    /// Assemble a document from a tag and a ready backend.
    pub fn assemble(extension: &Extension, data: ImageBackend) -> (r: Result<Self, RusimgError>)
        requires
            data.wf(),
        ensures
            r matches Ok(img) && img.wf() && img.extension == *extension && img.data == data,
    {
        Ok(RusImg { extension: extension.duplicate(), data })
    }

    /// The document's current geometry.
    pub fn get_image_size(&self) -> (r: Result<ImgSize, RusimgError>)
        ensures
            match self.data.spec_dims() {
                Some(d) => r matches Ok(sz) && sz.width == d.0 && sz.height == d.1,
                None => r == Err::<ImgSize, RusimgError>(RusimgError::ImageNotSpecified),
            },
    {
        match &self.data {
            ImageBackend::Bmp(b) => b.get_size(),
            ImageBackend::Jpeg(b) => b.get_size(),
            ImageBackend::Png(b) => b.get_size(),
            ImageBackend::Webp(b) => b.get_size(),
            ImageBackend::Empty(b) => b.get_size(),
        }
    }

    /// Scale both dimensions by `ratio` percent, truncating to whole
    /// pixels.  A ratio of zero is rejected before any backend is
    /// consulted; a ratio of 100 leaves the geometry unchanged.
    pub fn resize(&mut self, ratio: u32) -> (r: Result<ImgSize, RusimgError>)
        requires
            old(self).wf(),
        ensures
            ratio == 0 ==> r == Err::<ImgSize, RusimgError>(RusimgError::InvalidResizeRatio)
                && *final(self) == *old(self),
            ratio >= 1 ==> {
                &&& final(self).wf()
                &&& final(self).extension == old(self).extension
                &&& ImageBackend::same_variant(&old(self).data, &final(self).data)
                &&& io_fields_preserved(*old(self), *final(self))
                &&& match old(self).data.spec_dims() {
                    None => r == Err::<ImgSize, RusimgError>(RusimgError::ImageNotSpecified)
                        && *final(self) == *old(self),
                    Some(d) => {
                        let nw = spec_scaled(d.0, ratio);
                        let nh = spec_scaled(d.1, ratio);
                        if nw > u32::MAX || nh > u32::MAX {
                            r == Err::<ImgSize, RusimgError>(RusimgError::InvalidResizeRatio)
                                && *final(self) == *old(self)
                        } else {
                            r matches Ok(sz) && sz.width == nw && sz.height == nh && final(self).data.spec_dims() == Some((nw as u32, nh as u32)) && ops_bumped(
                                *old(self),
                                *final(self),
                            )
                        }
                    },
                }
            },
    {
        if ratio == 0 {
            return Err(RusimgError::InvalidResizeRatio);
        }
        match &mut self.data {
            ImageBackend::Bmp(b) => b.resize(ratio),
            ImageBackend::Jpeg(b) => b.resize(ratio),
            ImageBackend::Png(b) => b.resize(ratio),
            ImageBackend::Webp(b) => b.resize(ratio),
            ImageBackend::Empty(b) => b.resize(ratio),
        }
    }

    /// Crop to the rectangle given by four coordinates.
    pub fn trim(&mut self, trim_x: u32, trim_y: u32, trim_w: u32, trim_h: u32) -> (r: Result<
        ImgSize,
        RusimgError,
    >)
        requires
            old(self).wf(),
        ensures
            trim_post(
                *old(self),
                *final(self),
                (Rect { x: trim_x, y: trim_y, w: trim_w, h: trim_h }),
                r,
            ),
    {
        self.trim_rect(Rect { x: trim_x, y: trim_y, w: trim_w, h: trim_h })
    }

    /// Crop to `trim_area`, clamping a rectangle that overflows the
    /// bounds from an origin still inside them.
    pub fn trim_rect(&mut self, trim_area: Rect) -> (r: Result<ImgSize, RusimgError>)
        requires
            old(self).wf(),
        ensures
            trim_post(*old(self), *final(self), trim_area, r),
    {
        match &mut self.data {
            ImageBackend::Bmp(b) => b.trim(trim_area),
            ImageBackend::Jpeg(b) => b.trim(trim_area),
            ImageBackend::Png(b) => b.trim(trim_area),
            ImageBackend::Webp(b) => b.trim(trim_area),
            ImageBackend::Empty(b) => b.trim(trim_area),
        }
    }

    /// Convert the pixel buffer to grayscale in place.
    pub fn grayscale(&mut self) -> (r: Result<(), RusimgError>)
        requires
            old(self).wf(),
        ensures
            final(self).wf(),
            final(self).extension == old(self).extension,
            ImageBackend::same_variant(&old(self).data, &final(self).data),
            io_fields_preserved(*old(self), *final(self)),
            match old(self).data.spec_pixels() {
                None => r == Err::<(), RusimgError>(RusimgError::ImageNotSpecified) && *final(self)
                    == *old(self),
                Some(px) => r == Ok::<(), RusimgError>(()) && final(self).data.spec_dims() == Some(
                    (px.width, px.height),
                ) && (final(self).data.spec_pixels() matches Some(p) && p.data@ == gray_of(
                    px.data@,
                ) && is_grayscale_rgba(p.data@)) && ops_bumped(*old(self), *final(self)),
            },
    {
        match &mut self.data {
            ImageBackend::Bmp(b) => b.grayscale(),
            ImageBackend::Jpeg(b) => b.grayscale(),
            ImageBackend::Png(b) => b.grayscale(),
            ImageBackend::Webp(b) => b.grayscale(),
            ImageBackend::Empty(b) => b.grayscale(),
        }
    }

    /// Record or apply a compression request.  The facade enforces the
    /// quality range 0 to 100; what a valid request does — fail on a
    /// lossless format, store the quality, or optimize at once — is
    /// each backend's policy.
    pub fn compress(&mut self, quality: Option<i32>) -> (r: Result<(), RusimgError>)
        requires
            old(self).wf(),
        ensures
            ({
                let bad = match quality {
                    Some(q) => q < 0 || q > 100,
                    None => false,
                };
                if bad {
                    r == Err::<(), RusimgError>(RusimgError::InvalidCompressionLevel) && *final(self)
                        == *old(self)
                } else {
                    let qu = match quality {
                        Some(q) => Some(q as u8),
                        None => None::<u8>,
                    };
                    &&& final(self).wf()
                    &&& final(self).extension == old(self).extension
                    &&& ImageBackend::same_variant(&old(self).data, &final(self).data)
                    &&& io_fields_preserved(*old(self), *final(self))
                    &&& match old(self).data {
                        ImageBackend::Bmp(_) => r == Err::<(), RusimgError>(
                            RusimgError::ImageFormatCannotBeCompressed,
                        ) && *final(self) == *old(self),
                        ImageBackend::Empty(_) => r == Err::<(), RusimgError>(
                            RusimgError::ImageFormatCannotBeCompressed,
                        ) && *final(self) == *old(self),
                        ImageBackend::Jpeg(x) => r == Ok::<(), RusimgError>(()) && (final(self).data matches ImageBackend::Jpeg(y) && y.required_quality == Some(
                            match qu {
                                Some(q) => q,
                                None => crate::backend::jpeg::DEFAULT_JPEG_QUALITY,
                            },
                        ) && y.image == x.image && y.operations_count == spec_bump(
                            x.operations_count,
                        )),
                        ImageBackend::Webp(x) => r == Ok::<(), RusimgError>(()) && (final(self).data matches ImageBackend::Webp(y) && y.required_quality == qu && y.image
                            == x.image && y.image_bytes == x.image_bytes && y.operations_count
                            == spec_bump(x.operations_count)),
                        ImageBackend::Png(x) => match x.spec_compress_base() {
                            None => (r matches Err(e) && e matches
                                RusimgError::FailedToCompressImage(Some(_))) && *final(self)
                                == *old(self),
                            Some(base) => match png_optimized(base, spec_quality_to_level(qu)) {
                                Some(out) => r == Ok::<(), RusimgError>(()) && out.len()
                                    <= base.len() && (final(self).data matches ImageBackend::Png(y)
                                    && (y.image_bytes matches Some(v) && v@ == out) && y.image
                                    == x.image && y.binary_data == x.binary_data && y.edited
                                    == x.edited && y.operations_count == spec_bump(
                                    x.operations_count,
                                )),
                                None => (r matches Err(e) && e matches
                                    RusimgError::FailedToCompressImage(Some(_))) && *final(self)
                                    == *old(self),
                            },
                        },
                    }
                }
            }),
    {
        if let Some(q) = quality {
            if q < 0 || q > 100 {
                return Err(RusimgError::InvalidCompressionLevel);
            }
        }
        let qu: Option<u8> = match quality {
            Some(q) => Some(q as u8),
            None => None,
        };
        match &mut self.data {
            ImageBackend::Bmp(b) => b.compress(qu),
            ImageBackend::Jpeg(b) => b.compress(qu),
            ImageBackend::Png(b) => b.compress(qu),
            ImageBackend::Webp(b) => b.compress(qu),
            ImageBackend::Empty(b) => b.compress(qu),
        }
    }

    /// Convert the document to another format: a fresh backend of the
    /// target tag is built from the current pixel buffer, source path
    /// and source metadata, and replaces the old backend wholesale —
    /// together with the tag, and discarding any pending compression
    /// request.  Converting to the tag the document already has still
    /// builds a fresh backend.
    pub fn convert(&mut self, new_extension: &Extension) -> (r: Result<(), RusimgError>)
        requires
            old(self).wf(),
        ensures
            ({
                match old(self).data.spec_pixels() {
                    None => r == Err::<(), RusimgError>(RusimgError::ImageNotSpecified) && *final(self)
                        == *old(self),
                    Some(px) => match new_extension {
                        Extension::Empty | Extension::ExternalFormat(_) => r == Err::<
                            (),
                            RusimgError,
                        >(RusimgError::UnsupportedFileExtension) && *final(self) == *old(self),
                        Extension::Bmp => r == Ok::<(), RusimgError>(()) && final(self).wf()
                            && final(self).extension == *new_extension && (final(self).data matches ImageBackend::Bmp(b) && b.image.width == px.width
                            && b.image.height == px.height && b.image.has_alpha == px.has_alpha
                            && b.image.data@ == px.data@ && b.filepath_input == old(self).data.spec_source_path() && b.metadata_input == old(self).data.spec_metadata_src() && b.operations_count == 0 && b.filepath_output
                            is None && b.metadata_output is None),
                        Extension::Jpg | Extension::Jpeg => r == Ok::<(), RusimgError>(()) && final(self).wf() && final(self).extension == *new_extension && (final(self).data matches ImageBackend::Jpeg(b) && b.image.width == px.width
                            && b.image.height == px.height && b.image.has_alpha == false
                            && b.filepath_input == old(self).data.spec_source_path()
                            && b.metadata_input == old(self).data.spec_metadata_src()
                            && b.operations_count == 0 && b.required_quality is None
                            && b.filepath_output is None && b.metadata_output is None),
                        Extension::Png => {
                            if !spec_fits_decode_budget(px.width, px.height) {
                                (r matches Err(e) && e matches RusimgError::FailedToCopyBinaryData(
                                    _,
                                )) && *final(self) == *old(self)
                            } else {
                                match crate::backend::png::png_encoding(
                                    px.width,
                                    px.height,
                                    px.data@,
                                ) {
                                    Some(enc) => r == Ok::<(), RusimgError>(()) && final(self).wf()
                                        && final(self).extension == *new_extension && (final(self).data matches ImageBackend::Png(b) && b.image.width
                                        == px.width && b.image.height == px.height
                                        && b.image.data@ == px.data@ && b.binary_data@ == enc
                                        && b.image_bytes is None && b.edited == false
                                        && b.filepath_input == old(self).data.spec_source_path()
                                        && b.metadata_input == old(self).data.spec_metadata_src()
                                        && b.operations_count == 0 && b.filepath_output is None
                                        && b.metadata_output is None),
                                    None => (r matches Err(e) && e matches
                                        RusimgError::FailedToCopyBinaryData(_)) && *final(self)
                                        == *old(self),
                                }
                            }
                        },
                        Extension::Webp => r == Ok::<(), RusimgError>(()) && final(self).wf()
                            && final(self).extension == *new_extension && (final(self).data matches ImageBackend::Webp(b) && b.image.width == px.width
                            && b.image.height == px.height && b.image.has_alpha == px.has_alpha
                            && b.image.data@ == px.data@ && b.image_bytes is None
                            && b.filepath_input == old(self).data.spec_source_path()
                            && b.metadata_input == old(self).data.spec_metadata_src()
                            && b.operations_count == 0 && b.required_quality is None
                            && b.filepath_output is None && b.metadata_output is None),
                    },
                }
            }),
    {
        let px = match self.get_dynamic_image() {
            Ok(p) => p,
            Err(e) => {
                return Err(e);
            },
        };
        let filepath = match &self.data {
            ImageBackend::Bmp(b) => b.get_source_filepath(),
            ImageBackend::Jpeg(b) => b.get_source_filepath(),
            ImageBackend::Png(b) => b.get_source_filepath(),
            ImageBackend::Webp(b) => b.get_source_filepath(),
            ImageBackend::Empty(b) => b.get_source_filepath(),
        };
        let metadata = match &self.data {
            ImageBackend::Bmp(b) => b.get_metadata_src(),
            ImageBackend::Jpeg(b) => b.get_metadata_src(),
            ImageBackend::Png(b) => b.get_metadata_src(),
            ImageBackend::Webp(b) => b.get_metadata_src(),
            ImageBackend::Empty(b) => b.get_metadata_src(),
        };
        let new_data = match new_extension {
            Extension::Bmp => {
                match convert_to_bmp_image(px, filepath, metadata) {
                    Ok(d) => d,
                    Err(e) => {
                        return Err(e);
                    },
                }
            },
            Extension::Jpg | Extension::Jpeg => {
                match convert_to_jpeg_image(px, filepath, metadata) {
                    Ok(d) => d,
                    Err(e) => {
                        return Err(e);
                    },
                }
            },
            Extension::Png => {
                match convert_to_png_image(px, filepath, metadata) {
                    Ok(d) => d,
                    Err(e) => {
                        return Err(e);
                    },
                }
            },
            Extension::Webp => {
                match convert_to_webp_image(px, filepath, metadata) {
                    Ok(d) => d,
                    Err(e) => {
                        return Err(e);
                    },
                }
            },
            Extension::Empty | Extension::ExternalFormat(_) => {
                return Err(RusimgError::UnsupportedFileExtension);
            },
        };
        self.extension = new_extension.duplicate();
        self.data = new_data;
        Ok(())
    }

    /// Replace the pixel buffer wholesale; the geometry follows it,
    /// and a backend that cannot represent an alpha channel
    /// normalizes the buffer on set.
    pub fn set_dynamic_image(&mut self, image: PixelImage) -> (r: Result<(), RusimgError>)
        requires
            old(self).wf(),
            image.wf(),
        ensures
            r == Ok::<(), RusimgError>(()),
            final(self).wf(),
            final(self).extension == old(self).extension,
            ImageBackend::same_variant(&old(self).data, &final(self).data),
            io_fields_preserved(*old(self), *final(self)),
            ops_bumped(*old(self), *final(self)),
            old(self).data matches ImageBackend::Jpeg(_) ==> (final(self).data.spec_pixels()
                matches Some(p) && p.width == image.width && p.height == image.height
                && p.has_alpha == false && p.data@ == (
                if image.has_alpha {
                    spec_strip_alpha(image.data@)
                } else {
                    image.data@
                })),
            !(old(self).data matches ImageBackend::Jpeg(_)) ==> final(self).data.spec_pixels()
                == Some(image),
    {
        match &mut self.data {
            ImageBackend::Bmp(b) => b.set_dynamic_image(image),
            ImageBackend::Jpeg(b) => b.set_dynamic_image(image),
            ImageBackend::Png(b) => b.set_dynamic_image(image),
            ImageBackend::Webp(b) => b.set_dynamic_image(image),
            ImageBackend::Empty(b) => b.set_dynamic_image(image),
        }
    }

    /// A copy of the pixel buffer.
    pub fn get_dynamic_image(&mut self) -> (r: Result<PixelImage, RusimgError>)
        ensures
            *final(self) == *old(self),
            match old(self).data.spec_pixels() {
                Some(px) => r matches Ok(p) && p.width == px.width && p.height == px.height
                    && p.has_alpha == px.has_alpha && p.data@ == px.data@,
                None => r == Err::<PixelImage, RusimgError>(RusimgError::ImageNotSpecified),
            },
    {
        match &mut self.data {
            ImageBackend::Bmp(b) => b.get_dynamic_image(),
            ImageBackend::Jpeg(b) => b.get_dynamic_image(),
            ImageBackend::Png(b) => b.get_dynamic_image(),
            ImageBackend::Webp(b) => b.get_dynamic_image(),
            ImageBackend::Empty(b) => b.get_dynamic_image(),
        }
    }

    /// Strip the alpha channel, when the pixel buffer carries one, by
    /// forcing every alpha byte to 255 while keeping the colour bytes;
    /// a buffer that already carries no alpha is left exactly as it
    /// was.
    pub fn remove_alpha_channel(&mut self) -> (r: Result<(), RusimgError>)
        requires
            old(self).wf(),
        ensures
            match old(self).data.spec_pixels() {
                None => r == Err::<(), RusimgError>(RusimgError::ImageNotSpecified) && *final(self)
                    == *old(self),
                Some(px) => {
                    if px.width == 0 || px.height == 0 {
                        r == Err::<(), RusimgError>(RusimgError::ImageNotSpecified) && *final(self)
                            == *old(self)
                    } else if !px.has_alpha {
                        r == Ok::<(), RusimgError>(()) && *final(self) == *old(self)
                    } else {
                        &&& r == Ok::<(), RusimgError>(())
                        &&& final(self).wf()
                        &&& final(self).extension == old(self).extension
                        &&& ImageBackend::same_variant(&old(self).data, &final(self).data)
                        &&& io_fields_preserved(*old(self), *final(self))
                        &&& ops_bumped(*old(self), *final(self))
                        &&& final(self).data.spec_dims() == Some((px.width, px.height))
                        &&& (final(self).data.spec_pixels() matches Some(p) && p.has_alpha
                            == false && p.data@ == spec_strip_alpha(px.data@))
                    }
                },
            },
    {
        let sz = match self.get_image_size() {
            Ok(sz) => sz,
            Err(e) => {
                return Err(e);
            },
        };
        if sz.width == 0 || sz.height == 0 {
            return Err(RusimgError::ImageNotSpecified);
        }
        let px = match self.get_dynamic_image() {
            Ok(p) => p,
            Err(e) => {
                return Err(e);
            },
        };
        if px.has_alpha {
            let stripped = strip_alpha_pixels(&px);
            match self.set_dynamic_image(stripped) {
                Ok(()) => (),
                Err(e) => {
                    return Err(e);
                },
            }
        }
        Ok(())
    }

    /// The document's format tag.
    pub fn get_extension(&self) -> (r: Extension)
        ensures
            r == self.extension,
    {
        self.extension.duplicate()
    }

    /// The path the document was opened from.
    pub fn get_input_filepath(&self) -> (r: Result<String, RusimgError>)
        ensures
            match self.data.spec_source_path() {
                Some(p) => r matches Ok(q) && q@ == p@,
                None => r == Err::<String, RusimgError>(RusimgError::SourcePathMustBeSpecified),
            },
    {
        let path = match &self.data {
            ImageBackend::Bmp(b) => b.get_source_filepath(),
            ImageBackend::Jpeg(b) => b.get_source_filepath(),
            ImageBackend::Png(b) => b.get_source_filepath(),
            ImageBackend::Webp(b) => b.get_source_filepath(),
            ImageBackend::Empty(b) => b.get_source_filepath(),
        };
        match path {
            Some(p) => Ok(p),
            None => Err(RusimgError::SourcePathMustBeSpecified),
        }
    }

    /// Resolve the output path and produce the exact bytes a save of
    /// this document writes there: each backend's encode policy,
    /// behind one call.  The returned plan's payload reopens to the
    /// document's current dimensions.
    pub fn save_image(&self, path: Option<&str>, path_is_dir: bool) -> (r: Result<
        SavePlan,
        RusimgError,
    >)
        requires
            self.wf(),
        ensures
            ({
                let src = match self.data.spec_source_path() {
                    Some(s) => Some(s@),
                    None => None::<Seq<char>>,
                };
                let dst = match path {
                    Some(d) => Some(d@),
                    None => None::<Seq<char>>,
                };
                match self.data {
                    ImageBackend::Empty(_) => r == Err::<SavePlan, RusimgError>(
                        RusimgError::UnsupportedFeature,
                    ),
                    _ => match spec_resolve(src, dst, path_is_dir, self.data.spec_format_ext()) {
                        Err(SavePathError::SourceMissing) => r == Err::<SavePlan, RusimgError>(
                            RusimgError::SourcePathMustBeSpecified,
                        ),
                        Err(SavePathError::NoFilename) => r matches Err(e) && e matches
                            RusimgError::FailedToGetFilename(q) && Some(q@) == src,
                        Ok(p) => match self.data.spec_save_payload() {
                            Some(payload) => r matches Ok(plan) && plan.path@ == p
                                && plan.payload@ == payload && spec_sniff(plan.payload@)
                                == self.data.spec_sniff_tag() && spec_opened_dims(plan.payload@)
                                == self.data.spec_dims(),
                            None => r matches Err(e) && (match self.data {
                                ImageBackend::Webp(_) => e matches RusimgError::FailedToEncodeWebp(
                                    _,
                                ),
                                _ => e matches RusimgError::FailedToSaveImage(_),
                            }),
                        },
                    },
                }
            }),
    {
        let path_string: Option<String> = match path {
            Some(s) => Some(String::from_str(s)),
            None => None,
        };
        match &self.data {
            ImageBackend::Bmp(b) => b.save(path_string, path_is_dir),
            ImageBackend::Jpeg(b) => b.save(path_string, path_is_dir),
            ImageBackend::Png(b) => b.save(path_string, path_is_dir),
            ImageBackend::Webp(b) => b.save(path_string, path_is_dir),
            ImageBackend::Empty(b) => b.save(path_string, path_is_dir),
        }
    }

    /// Record that a save plan's payload has been written in full, and
    /// report the save: output path, source size, written size.  This
    /// is called only after the write succeeded — a failed write must
    /// leave the destination fields untouched, so the caller simply
    /// does not record it.
    pub fn record_save(&mut self, plan: SavePlan) -> (r: Result<SaveStatus, RusimgError>)
        requires
            old(self).wf(),
        ensures
            match old(self).data {
                ImageBackend::Empty(_) => r == Err::<SaveStatus, RusimgError>(
                    RusimgError::UnsupportedFeature,
                ) && *final(self) == *old(self),
                _ => {
                    &&& r matches Ok(st) && (st.output_path matches Some(p) && p@ == plan.path@)
                        && st.before_filesize == old(self).data.spec_metadata_src()
                        && st.after_filesize == Some(plan.payload@.len() as u64)
                    &&& final(self).wf()
                    &&& final(self).extension == old(self).extension
                    &&& ImageBackend::same_variant(&old(self).data, &final(self).data)
                    &&& (final(self).data.spec_dest_path() matches Some(op) && (op matches Some(q)
                        && q@ == plan.path@))
                    &&& final(self).data.spec_metadata_dest() == Some(plan.payload@.len() as u64)
                    &&& final(self).data.spec_pixels() == old(self).data.spec_pixels()
                    &&& final(self).data.spec_source_path() == old(self).data.spec_source_path()
                    &&& final(self).data.spec_metadata_src() == old(self).data.spec_metadata_src()
                },
            },
    {
        let len = plan.payload.len() as u64;
        let out_path = plan.path;
        match &mut self.data {
            ImageBackend::Bmp(b) => b.record_save(out_path.clone(), len),
            ImageBackend::Jpeg(b) => b.record_save(out_path.clone(), len),
            ImageBackend::Png(b) => b.record_save(out_path.clone(), len),
            ImageBackend::Webp(b) => b.record_save(out_path.clone(), len),
            ImageBackend::Empty(_) => {
                return Err(RusimgError::UnsupportedFeature);
            },
        }
        let before = match &self.data {
            ImageBackend::Bmp(b) => b.get_metadata_src(),
            ImageBackend::Jpeg(b) => b.get_metadata_src(),
            ImageBackend::Png(b) => b.get_metadata_src(),
            ImageBackend::Webp(b) => b.get_metadata_src(),
            ImageBackend::Empty(_) => None,
        };
        Ok(
            SaveStatus {
                output_path: Some(out_path),
                before_filesize: before,
                after_filesize: Some(len),
            },
        )
    }
}

/// Saved bytes round-trip: the payload a successful save of any
/// non-placeholder document produced, opened again (every backend
/// enabled, any path, any metadata), yields a document of exactly the
/// same pixel dimensions.  The hypotheses on `plan` are what
/// `save_image` ensures of its result; the hypothesis on `r2` is what
/// `open_image` ensures of its result.
pub proof fn lemma_saved_bytes_reopen_to_same_dims(
    doc: RusImg,
    plan: SavePlan,
    reopen_path: String,
    reopen_metadata: u64,
    r2: Result<RusImg, RusimgError>,
)
    requires
        doc.wf(),
        !(doc.data matches ImageBackend::Empty(_)),
        spec_sniff(plan.payload@) == doc.data.spec_sniff_tag(),
        spec_opened_dims(plan.payload@) == doc.data.spec_dims(),
        open_image_post(
            spec_all_enabled(),
            reopen_path,
            Some(plan.payload),
            Some(reopen_metadata),
            r2,
        ),
    ensures
        r2 matches Ok(img2) && img2.data.spec_dims() == doc.data.spec_dims(),
{
}

} // verus!
