//! The PNG backend.  PNG compresses eagerly: a quality request is
//! bucketed onto an optimizer preset and the compressed bytes are
//! cached at once; a save writes the cache when one exists, the
//! retained source bytes for an untouched document, and a fresh encode
//! of the live pixel buffer otherwise.  Any edit invalidates the cache
//! — a stale cache would resurrect pre-edit pixels at save time.

use vstd::prelude::*;

use crate::backend::{bump, clone_opt_string, spec_bump};
use crate::errors::RusimgError;
use crate::extension::Extension;
use crate::geometry::{scaled_dim, spec_scaled, spec_trim_size, trim_size};
use crate::pathutil::{resolve_save_path, spec_resolve, SavePathError};
use crate::pixels::{
    crop_pixels, decode_image, decoded_dims, fits_decode_budget, gray_of, grayscale_pixels,
    is_grayscale_rgba, resize_pixels, spec_fits_decode_budget, PixelImage,
};
use crate::sniff::spec_sniff;
use crate::structs::{ImgSize, Rect, SavePlan};
use vstd::slice::slice_to_vec;

verus! {

/// The optimizer preset used when no quality was requested.
pub const DEFAULT_PNG_LEVEL: u8 = 5;

/// What encoding a pixel buffer as PNG yields, or nothing when the
/// encoder rejects the buffer.  Encoding is a pure function of the
/// geometry and the samples.
pub uninterp spec fn png_encoding(width: u32, height: u32, data: Seq<u8>) -> Option<Seq<u8>>;

/// What optimizing a PNG byte stream at a given preset yields, or
/// nothing when the optimizer rejects the stream.  Optimization is a
/// pure function of the bytes and the preset.
pub uninterp spec fn png_optimized(data: Seq<u8>, level: u8) -> Option<Seq<u8>>;

/// Relies on `image::DynamicImage::write_to` with the PNG format:
/// encoding is deterministic in the pixel buffer, writes the PNG
/// signature, and — within the decoder's allocation budget, which the
/// `requires` keeps to — the output decodes back to the same
/// dimensions.
#[verifier::external_body]
fn encode_png(p: &PixelImage) -> (r: Result<Vec<u8>, String>)
    requires
        p.wf(),
        spec_fits_decode_budget(p.width, p.height),
    ensures
        r is Ok <==> png_encoding(p.width, p.height, p.data@) is Some,
        r matches Ok(v) ==> Some(v@) == png_encoding(p.width, p.height, p.data@) && decoded_dims(
            v@,
        ) == Some((p.width, p.height)) && spec_sniff(v@) == Some(Extension::Png),
{
    let img = image::RgbaImage::from_raw(p.width, p.height, p.data.clone()).unwrap();
    let mut out = std::io::Cursor::new(Vec::new());
    match image::DynamicImage::ImageRgba8(img).write_to(&mut out, image::ImageFormat::Png) {
        Ok(()) => Ok(out.into_inner()),
        Err(e) => Err(e.to_string()),
    }
}

/// Relies on `oxipng::optimize_from_memory` with a preset: the
/// optimization is deterministic, lossless on the pixels — the output
/// is again a PNG of the same dimensions — and, because the original
/// stream is kept whenever the optimized one is no smaller, the
/// output is never larger than the input.  Both facts are claimed
/// only of streams that already decode, which the `requires` keeps
/// to.
#[verifier::external_body]
fn optimize_png(data: &Vec<u8>, level: u8) -> (r: Result<Vec<u8>, String>)
    requires
        level <= 6,
        decoded_dims(data@) is Some,
    ensures
        r is Ok <==> png_optimized(data@, level) is Some,
        r matches Ok(v) ==> Some(v@) == png_optimized(data@, level) && decoded_dims(v@)
            == decoded_dims(data@) && spec_sniff(v@) == Some(Extension::Png) && v@.len()
            <= data@.len(),
{
    oxipng::optimize_from_memory(data, &oxipng::Options::from_preset(level)).map_err(
        |e| e.to_string(),
    )
}

/// The optimizer preset a quality request maps onto: six buckets with
/// thresholds at 17, 34, 51, 68 and 85, and a mid-level default when
/// no quality was given.
pub open spec fn spec_quality_to_level(quality: Option<u8>) -> u8 {
    match quality {
        None => DEFAULT_PNG_LEVEL,
        Some(q) => {
            if q <= 17 {
                1
            } else if q <= 34 {
                2
            } else if q <= 51 {
                3
            } else if q <= 68 {
                4
            } else if q <= 85 {
                5
            } else {
                6
            }
        },
    }
}

/// Bucket a quality request onto an optimizer preset.
pub fn quality_to_level(quality: Option<u8>) -> (r: u8)
    ensures
        r == spec_quality_to_level(quality),
{
    match quality {
        None => DEFAULT_PNG_LEVEL,
        Some(q) => {
            if q <= 17 {
                1
            } else if q <= 34 {
                2
            } else if q <= 51 {
                3
            } else if q <= 68 {
                4
            } else if q <= 85 {
                5
            } else {
                6
            }
        },
    }
}

/// A PNG-backed image document.
#[derive(Debug)]
pub struct PngImage {
    pub binary_data: Vec<u8>,
    pub image: PixelImage,
    pub image_bytes: Option<Vec<u8>>,
    pub edited: bool,
    pub operations_count: u64,
    pub metadata_input: Option<u64>,
    pub metadata_output: Option<u64>,
    pub filepath_input: Option<String>,
    pub filepath_output: Option<String>,
}

impl PngImage {
    /// The pixel buffer matches its geometry; while no edit has been
    /// applied, the retained source bytes still decode to the
    /// document's dimensions; and a cached optimizer result always
    /// does.
    pub open spec fn wf(&self) -> bool {
        &&& self.image.wf()
        &&& !self.edited ==> (decoded_dims(self.binary_data@) == Some(
            (self.image.width, self.image.height),
        ) && spec_sniff(self.binary_data@) == Some(Extension::Png))
        &&& match self.image_bytes {
            Some(b) => decoded_dims(b@) == Some((self.image.width, self.image.height))
                && spec_sniff(b@) == Some(Extension::Png),
            None => true,
        }
    }

    /// The fields no edit operation touches are unchanged.
    pub open spec fn same_io_fields(a: Self, b: Self) -> bool {
        &&& a.metadata_input == b.metadata_input
        &&& a.metadata_output == b.metadata_output
        &&& a.filepath_input == b.filepath_input
        &&& a.filepath_output == b.filepath_output
    }

    /// Build a backend from an in-memory pixel buffer; the buffer is
    /// encoded at once so that the document owns a PNG byte stream of
    /// its content.
    pub fn import(
        image: Option<PixelImage>,
        source_path: Option<String>,
        source_metadata: Option<u64>,
    ) -> (r: Result<Self, RusimgError>)
        requires
            image matches Some(p) ==> p.wf(),
        ensures
            image is None ==> r == Err::<Self, RusimgError>(RusimgError::ImageNotSpecified),
            image matches Some(p) ==> (if !spec_fits_decode_budget(p.width, p.height) {
                r matches Err(e) && e matches RusimgError::FailedToCopyBinaryData(_)
            } else {
                match png_encoding(p.width, p.height, p.data@) {
                    Some(enc) => r matches Ok(b) && b.wf() && b.image == p && b.binary_data@
                        == enc && b.image_bytes is None && b.edited == false
                        && b.operations_count == 0 && b.metadata_input == source_metadata
                        && b.metadata_output is None && b.filepath_input == source_path
                        && b.filepath_output is None,
                    None => r matches Err(e) && e matches RusimgError::FailedToCopyBinaryData(_),
                }
            }),
    {
        match image {
            None => Err(RusimgError::ImageNotSpecified),
            Some(p) => {
                if !fits_decode_budget(p.width, p.height) {
                    return Err(
                        RusimgError::FailedToCopyBinaryData(
                            String::from_str("image dimensions exceed the decoder's budget"),
                        ),
                    );
                }
                let bin = match encode_png(&p) {
                    Ok(v) => v,
                    Err(msg) => {
                        return Err(RusimgError::FailedToCopyBinaryData(msg));
                    },
                };
                Ok(
                    Self {
                        binary_data: bin,
                        image: p,
                        image_bytes: None,
                        edited: false,
                        operations_count: 0,
                        metadata_input: source_metadata,
                        metadata_output: None,
                        filepath_input: source_path,
                        filepath_output: None,
                    },
                )
            },
        }
    }

    /// Build a backend by decoding a raw PNG byte buffer; the buffer
    /// is retained as the document's byte stream.
    pub fn open(path: Option<String>, image_buf: Option<Vec<u8>>, metadata: Option<u64>) -> (r:
        Result<Self, RusimgError>)
        requires
            image_buf matches Some(b) ==> spec_sniff(b@) == Some(Extension::Png),
        ensures
            match (path, image_buf, metadata) {
                (Some(pa), Some(buf), Some(m)) => match decoded_dims(buf@) {
                    Some(dims) => r matches Ok(b) && b.wf() && (b.image.width, b.image.height)
                        == dims && b.binary_data@ == buf@ && b.image_bytes is None && b.edited
                        == false && b.operations_count == 0 && b.metadata_input == Some(m)
                        && b.metadata_output is None && b.filepath_input == Some(pa)
                        && b.filepath_output is None,
                    None => r matches Err(e) && e matches RusimgError::FailedToOpenImage(_),
                },
                _ => r == Err::<Self, RusimgError>(RusimgError::ImageNotSpecified),
            },
    {
        let pa = match path {
            Some(p) => p,
            None => {
                return Err(RusimgError::ImageNotSpecified);
            },
        };
        let buf = match image_buf {
            Some(b) => b,
            None => {
                return Err(RusimgError::ImageNotSpecified);
            },
        };
        let m = match metadata {
            Some(m) => m,
            None => {
                return Err(RusimgError::ImageNotSpecified);
            },
        };
        match decode_image(buf.as_slice()) {
            Ok(p) => Ok(
                Self {
                    binary_data: buf,
                    image: p,
                    image_bytes: None,
                    edited: false,
                    operations_count: 0,
                    metadata_input: Some(m),
                    metadata_output: None,
                    filepath_input: Some(pa),
                    filepath_output: None,
                },
            ),
            Err(e) => Err(RusimgError::FailedToOpenImage(e)),
        }
    }

    /// The PNG byte stream a compress works from: the retained source
    /// bytes while the document is untouched, else a fresh encode of
    /// the live pixel buffer — absent when that buffer is beyond the
    /// decoder budget or the encoder rejects it.
    pub open spec fn spec_compress_base(&self) -> Option<Seq<u8>> {
        if self.edited {
            if spec_fits_decode_budget(self.image.width, self.image.height) {
                png_encoding(self.image.width, self.image.height, self.image.data@)
            } else {
                None
            }
        } else {
            Some(self.binary_data@)
        }
    }

    /// Bucket the quality onto an optimizer preset, optimize the
    /// document's byte stream at that preset, and cache the result for
    /// the next save.
    pub fn compress(&mut self, quality: Option<u8>) -> (r: Result<(), RusimgError>)
        requires
            old(self).wf(),
        ensures
            ({
                let lvl = spec_quality_to_level(quality);
                match old(self).spec_compress_base() {
                    None => r matches Err(e) && e matches RusimgError::FailedToCompressImage(
                        Some(_),
                    ) && *final(self) == *old(self),
                    Some(base) => match png_optimized(base, lvl) {
                        Some(out) => {
                            &&& r == Ok::<(), RusimgError>(())
                            &&& final(self).wf()
                            &&& (final(self).image_bytes matches Some(v) && v@ == out)
                            &&& out.len() <= base.len()
                            &&& final(self).image == old(self).image
                            &&& final(self).binary_data == old(self).binary_data
                            &&& final(self).edited == old(self).edited
                            &&& final(self).operations_count == spec_bump(
                                old(self).operations_count,
                            )
                            &&& Self::same_io_fields(*old(self), *final(self))
                        },
                        None => r matches Err(e) && e matches RusimgError::FailedToCompressImage(
                            Some(_),
                        ) && *final(self) == *old(self),
                    },
                }
            }),
    {
        let level = quality_to_level(quality);
        let base: Vec<u8> = if self.edited {
            if !fits_decode_budget(self.image.width, self.image.height) {
                return Err(
                    RusimgError::FailedToCompressImage(
                        Some(String::from_str("image dimensions exceed the decoder's budget")),
                    ),
                );
            }
            match encode_png(&self.image) {
                Ok(v) => v,
                Err(msg) => {
                    return Err(RusimgError::FailedToCompressImage(Some(msg)));
                },
            }
        } else {
            slice_to_vec(self.binary_data.as_slice())
        };
        match optimize_png(&base, level) {
            Ok(data) => {
                self.image_bytes = Some(data);
                self.operations_count = bump(self.operations_count);
                Ok(())
            },
            Err(msg) => Err(RusimgError::FailedToCompressImage(Some(msg))),
        }
    }

    /// The payload a save of this backend writes: the cached optimizer
    /// result when one exists, the retained source bytes for an
    /// untouched document, else a fresh encode of the live pixel
    /// buffer.
    pub open spec fn spec_save_payload(&self) -> Option<Seq<u8>> {
        match self.image_bytes {
            Some(b) => Some(b@),
            None => {
                if self.edited {
                    if spec_fits_decode_budget(self.image.width, self.image.height) {
                        png_encoding(self.image.width, self.image.height, self.image.data@)
                    } else {
                        None
                    }
                } else {
                    Some(self.binary_data@)
                }
            },
        }
    }

    /// Resolve the output path and produce the save payload.
    pub fn save(&self, path: Option<String>, path_is_dir: bool) -> (r: Result<
        SavePlan,
        RusimgError,
    >)
        requires
            self.wf(),
        ensures
            ({
                let src = match self.filepath_input {
                    Some(s) => Some(s@),
                    None => None::<Seq<char>>,
                };
                let dst = match path {
                    Some(d) => Some(d@),
                    None => None::<Seq<char>>,
                };
                match spec_resolve(src, dst, path_is_dir, "png"@) {
                    Ok(p) => match self.spec_save_payload() {
                        Some(payload) => r matches Ok(plan) && plan.path@ == p && plan.payload@
                            == payload && decoded_dims(plan.payload@) == Some(
                            (self.image.width, self.image.height),
                        ) && spec_sniff(plan.payload@) == Some(Extension::Png),
                        None => r matches Err(e) && e matches RusimgError::FailedToSaveImage(_),
                    },
                    Err(SavePathError::SourceMissing) => r == Err::<SavePlan, RusimgError>(
                        RusimgError::SourcePathMustBeSpecified,
                    ),
                    Err(SavePathError::NoFilename) => r matches Err(e) && e matches
                        RusimgError::FailedToGetFilename(q) && Some(q@) == src,
                }
            }),
    {
        let save_path = match resolve_save_path(&self.filepath_input, &path, path_is_dir, "png") {
            Ok(p) => p,
            Err(e) => {
                return Err(e);
            },
        };
        let payload: Vec<u8> = match &self.image_bytes {
            Some(b) => slice_to_vec(b.as_slice()),
            None => {
                if self.edited {
                    if !fits_decode_budget(self.image.width, self.image.height) {
                        return Err(
                            RusimgError::FailedToSaveImage(
                                String::from_str(
                                    "image dimensions exceed the decoder's budget",
                                ),
                            ),
                        );
                    }
                    match encode_png(&self.image) {
                        Ok(v) => v,
                        Err(msg) => {
                            return Err(RusimgError::FailedToSaveImage(msg));
                        },
                    }
                } else {
                    slice_to_vec(self.binary_data.as_slice())
                }
            },
        };
        Ok(SavePlan { path: save_path, payload })
    }

    /// Record a completed write of a save plan's payload.
    pub fn record_save(&mut self, path: String, size: u64)
        ensures
            final(self).filepath_output == Some(path),
            final(self).metadata_output == Some(size),
            final(self).image == old(self).image,
            final(self).binary_data == old(self).binary_data,
            final(self).image_bytes == old(self).image_bytes,
            final(self).edited == old(self).edited,
            final(self).operations_count == old(self).operations_count,
            final(self).metadata_input == old(self).metadata_input,
            final(self).filepath_input == old(self).filepath_input,
            old(self).wf() ==> final(self).wf(),
    {
        self.filepath_output = Some(path);
        self.metadata_output = Some(size);
    }

    /// Scale both dimensions by `resize_ratio` percent, truncating.
    /// The edit invalidates any cached optimizer result.
    pub fn resize(&mut self, resize_ratio: u32) -> (r: Result<ImgSize, RusimgError>)
        requires
            old(self).wf(),
            resize_ratio >= 1,
        ensures
            ({
                let nw = spec_scaled(old(self).image.width, resize_ratio);
                let nh = spec_scaled(old(self).image.height, resize_ratio);
                if nw > u32::MAX || nh > u32::MAX {
                    r == Err::<ImgSize, RusimgError>(RusimgError::InvalidResizeRatio) && *final(self)
                        == *old(self)
                } else {
                    &&& r matches Ok(sz) && sz.width == nw && sz.height == nh
                    &&& final(self).wf()
                    &&& final(self).image.width == nw
                    &&& final(self).image.height == nh
                    &&& final(self).image.has_alpha == old(self).image.has_alpha
                    &&& final(self).binary_data == old(self).binary_data
                    &&& final(self).image_bytes is None
                    &&& final(self).edited == true
                    &&& final(self).operations_count == spec_bump(old(self).operations_count)
                    &&& Self::same_io_fields(*old(self), *final(self))
                }
            }),
    {
        let w = self.image.width;
        let h = self.image.height;
        let nw64 = scaled_dim(w, resize_ratio);
        let nh64 = scaled_dim(h, resize_ratio);
        if nw64 > u32::MAX as u64 || nh64 > u32::MAX as u64 {
            return Err(RusimgError::InvalidResizeRatio);
        }
        let nw = nw64 as u32;
        let nh = nh64 as u32;
        if nw == 0 || nh == 0 {
            self.image = PixelImage::empty(nw, nh, self.image.has_alpha);
        } else {
            proof {
                assert(w >= 1 && h >= 1) by {
                    if w == 0 {
                        assert(w * resize_ratio == 0) by (nonlinear_arith)
                            requires
                                w == 0,
                        ;
                    }
                    if h == 0 {
                        assert(h * resize_ratio == 0) by (nonlinear_arith)
                            requires
                                h == 0,
                        ;
                    }
                }
            }
            self.image = resize_pixels(&self.image, nw, nh);
        }
        self.image_bytes = None;
        self.edited = true;
        self.operations_count = bump(self.operations_count);
        Ok(ImgSize::new(nw as usize, nh as usize))
    }

    /// Crop to `trim`, clamping a rectangle that overflows the bounds
    /// from an origin still inside them.  The edit invalidates any
    /// cached optimizer result.
    pub fn trim(&mut self, trim: Rect) -> (r: Result<ImgSize, RusimgError>)
        requires
            old(self).wf(),
        ensures
            ({
                match spec_trim_size(old(self).image.width, old(self).image.height, trim) {
                    None => r == Err::<ImgSize, RusimgError>(RusimgError::InvalidTrimXY) && *final(self)
                        == *old(self),
                    Some(dims) => {
                        &&& r matches Ok(sz) && sz.width == dims.0 && sz.height == dims.1
                        &&& final(self).wf()
                        &&& final(self).image.width == dims.0
                        &&& final(self).image.height == dims.1
                        &&& final(self).image.has_alpha == old(self).image.has_alpha
                        &&& final(self).binary_data == old(self).binary_data
                        &&& final(self).image_bytes is None
                        &&& final(self).edited == true
                        &&& final(self).operations_count == spec_bump(old(self).operations_count)
                        &&& Self::same_io_fields(*old(self), *final(self))
                    },
                }
            }),
    {
        match trim_size(self.image.width, self.image.height, &trim) {
            None => Err(RusimgError::InvalidTrimXY),
            Some((w, h)) => {
                self.image = crop_pixels(&self.image, trim.x, trim.y, w, h);
                self.image_bytes = None;
                self.edited = true;
                self.operations_count = bump(self.operations_count);
                Ok(ImgSize::new(w as usize, h as usize))
            },
        }
    }

    /// Convert the pixel buffer to grayscale in place.  The edit
    /// invalidates any cached optimizer result.
    pub fn grayscale(&mut self) -> (r: Result<(), RusimgError>)
        requires
            old(self).wf(),
        ensures
            r == Ok::<(), RusimgError>(()),
            final(self).wf(),
            final(self).image.width == old(self).image.width,
            final(self).image.height == old(self).image.height,
            final(self).image.has_alpha == old(self).image.has_alpha,
            final(self).image.data@ == gray_of(old(self).image.data@),
            is_grayscale_rgba(final(self).image.data@),
            final(self).binary_data == old(self).binary_data,
            final(self).image_bytes is None,
            final(self).edited == true,
            final(self).operations_count == spec_bump(old(self).operations_count),
            Self::same_io_fields(*old(self), *final(self)),
    {
        self.image = grayscale_pixels(&self.image);
        self.image_bytes = None;
        self.edited = true;
        self.operations_count = bump(self.operations_count);
        Ok(())
    }

    /// Replace the pixel buffer wholesale; the geometry follows it.
    /// The edit invalidates any cached optimizer result.
    pub fn set_dynamic_image(&mut self, image: PixelImage) -> (r: Result<(), RusimgError>)
        requires
            old(self).wf(),
            image.wf(),
        ensures
            r == Ok::<(), RusimgError>(()),
            final(self).wf(),
            final(self).image == image,
            final(self).binary_data == old(self).binary_data,
            final(self).image_bytes is None,
            final(self).edited == true,
            final(self).operations_count == spec_bump(old(self).operations_count),
            Self::same_io_fields(*old(self), *final(self)),
    {
        self.image = image;
        self.image_bytes = None;
        self.edited = true;
        self.operations_count = bump(self.operations_count);
        Ok(())
    }

    /// A copy of the pixel buffer.
    pub fn get_dynamic_image(&mut self) -> (r: Result<PixelImage, RusimgError>)
        ensures
            *final(self) == *old(self),
            r matches Ok(p) && p.width == old(self).image.width && p.height == old(
                self,
            ).image.height && p.has_alpha == old(self).image.has_alpha && p.data@ == old(
                self,
            ).image.data@,
    {
        Ok(self.image.duplicate())
    }

    /// The path the document was opened from, if any.
    pub fn get_source_filepath(&self) -> (r: Option<String>)
        ensures
            r == self.filepath_input,
    {
        clone_opt_string(&self.filepath_input)
    }

    /// The path the document was last saved to, if any.
    pub fn get_destination_filepath(&self) -> (r: Result<Option<String>, RusimgError>)
        ensures
            r matches Ok(p) && p == self.filepath_output,
    {
        Ok(clone_opt_string(&self.filepath_output))
    }

    /// The source file's byte count, if the document came from a file.
    pub fn get_metadata_src(&self) -> (r: Option<u64>)
        ensures
            r == self.metadata_input,
    {
        self.metadata_input
    }

    /// The written file's byte count, if the document has been saved.
    pub fn get_metadata_dest(&self) -> (r: Option<u64>)
        ensures
            r == self.metadata_output,
    {
        self.metadata_output
    }

    /// The current geometry.
    pub fn get_size(&self) -> (r: Result<ImgSize, RusimgError>)
        ensures
            r matches Ok(sz) && sz.width == self.image.width && sz.height == self.image.height,
    {
        Ok(ImgSize::new(self.image.width as usize, self.image.height as usize))
    }
}

} // verus!
