//! The JPEG backend.  JPEG compresses lazily: a quality request is
//! only recorded, and every save encodes the live pixel buffer with
//! the recorded (or default) quality at write time.

use vstd::prelude::*;

use crate::backend::{bump, clone_opt_string, spec_bump};
use crate::errors::RusimgError;
use crate::extension::Extension;
use crate::geometry::{scaled_dim, spec_scaled, spec_trim_size, trim_size};
use crate::pathutil::{
    extension_of, resolve_save_path, spec_extension_of, spec_resolve, SavePathError,
};
use crate::pixels::{
    crop_pixels, decode_image, decoded_dims, fits_decode_budget, gray_of, grayscale_pixels,
    is_grayscale_rgba, resize_pixels, spec_fits_decode_budget, spec_strip_alpha,
    strip_alpha_pixels, PixelImage,
};
use crate::sniff::spec_sniff;
use crate::structs::{ImgSize, Rect, SavePlan};

verus! {

/// The default quality used when none was requested.
pub const DEFAULT_JPEG_QUALITY: u8 = 75;

/// The largest dimension the JPEG encoder can represent.
pub const JPEG_MAX_DIMENSION: u32 = 65535;

/// What encoding a pixel buffer as JPEG at a given quality yields, or
/// nothing when the encoder rejects the buffer.  Encoding is a pure
/// function of the geometry, the samples and the quality.
pub uninterp spec fn jpeg_encoding(width: u32, height: u32, data: Seq<u8>, quality: u8) -> Option<
    Seq<u8>,
>;

/// Relies on `jpeg_encoder::Encoder`: encoding into a byte vector is
/// deterministic in the pixel buffer and the quality, writes the JPEG
/// start-of-image marker, and — within the decoder's allocation
/// budget, which the `requires` keeps to — the output decodes back to
/// the same dimensions.
#[verifier::external_body]
fn encode_jpeg(p: &PixelImage, quality: u8) -> (r: Result<Vec<u8>, String>)
    requires
        p.wf(),
        p.width <= JPEG_MAX_DIMENSION,
        p.height <= JPEG_MAX_DIMENSION,
        spec_fits_decode_budget(p.width, p.height),
    ensures
        r is Ok <==> jpeg_encoding(p.width, p.height, p.data@, quality) is Some,
        r matches Ok(v) ==> Some(v@) == jpeg_encoding(p.width, p.height, p.data@, quality)
            && decoded_dims(v@) == Some((p.width, p.height)) && spec_sniff(v@) == Some(
            Extension::Jpeg,
        ),
{
    let mut out: Vec<u8> = Vec::new();
    let encoder = jpeg_encoder::Encoder::new(&mut out, quality);
    match encoder.encode(
        p.data.as_slice(),
        p.width as u16,
        p.height as u16,
        jpeg_encoder::ColorType::Rgba,
    ) {
        Ok(()) => Ok(out),
        Err(e) => Err(e.to_string()),
    }
}

/// A JPEG-backed image document.
#[derive(Debug)]
pub struct JpegImage {
    pub image: PixelImage,
    pub operations_count: u64,
    pub extension_str: String,
    pub required_quality: Option<u8>,
    pub metadata_input: Option<u64>,
    pub metadata_output: Option<u64>,
    pub filepath_input: Option<String>,
    pub filepath_output: Option<String>,
}

impl JpegImage {
    /// The held pixel buffer matches its geometry.
    pub open spec fn wf(&self) -> bool {
        self.image.wf()
    }

    /// The fields no edit operation touches are unchanged.
    pub open spec fn same_io_fields(a: Self, b: Self) -> bool {
        &&& a.metadata_input == b.metadata_input
        &&& a.metadata_output == b.metadata_output
        &&& a.filepath_input == b.filepath_input
        &&& a.filepath_output == b.filepath_output
        &&& a.extension_str == b.extension_str
    }

    /// Build a backend from an in-memory pixel buffer.  JPEG carries
    /// no alpha channel, so the buffer is normalized on entry.
    pub fn import(
        image: Option<PixelImage>,
        source_path: Option<String>,
        source_metadata: Option<u64>,
    ) -> (r: Result<Self, RusimgError>)
        requires
            image matches Some(p) ==> p.wf(),
        ensures
            image is None ==> r == Err::<Self, RusimgError>(RusimgError::ImageNotSpecified),
            image matches Some(p) ==> r matches Ok(b) && b.wf() && b.image.width == p.width
                && b.image.height == p.height && b.image.has_alpha == false && b.image.data@ == (
            if p.has_alpha {
                spec_strip_alpha(p.data@)
            } else {
                p.data@
            }) && b.operations_count == 0 && b.extension_str@ == "jpg"@ && b.required_quality
                is None && b.metadata_input == source_metadata && b.metadata_output is None
                && b.filepath_input == source_path && b.filepath_output is None,
    {
        match image {
            None => Err(RusimgError::ImageNotSpecified),
            Some(p) => {
                let p = if p.has_alpha {
                    strip_alpha_pixels(&p)
                } else {
                    p
                };
                Ok(
                    Self {
                        image: p,
                        operations_count: 0,
                        extension_str: String::from_str("jpg"),
                        required_quality: None,
                        metadata_input: source_metadata,
                        metadata_output: None,
                        filepath_input: source_path,
                        filepath_output: None,
                    },
                )
            },
        }
    }

    /// Build a backend by decoding a raw byte buffer; the extension
    /// text of the source path is kept for resolving the save path.
    pub fn open(path: Option<String>, image_buf: Option<Vec<u8>>, metadata: Option<u64>) -> (r:
        Result<Self, RusimgError>)
        ensures
            match (path, image_buf, metadata) {
                (Some(pa), Some(buf), Some(m)) => match decoded_dims(buf@) {
                    Some(dims) => r matches Ok(b) && b.wf() && (b.image.width, b.image.height)
                        == dims && b.operations_count == 0 && b.extension_str@ == (
                    match spec_extension_of(pa@) {
                        Some(e) => e,
                        None => Seq::<char>::empty(),
                    }) && b.required_quality is None && b.metadata_input == Some(m)
                        && b.metadata_output is None && b.filepath_input == Some(pa)
                        && b.filepath_output is None,
                    None => r matches Err(e) && e matches RusimgError::FailedToOpenImage(_),
                },
                _ => r == Err::<Self, RusimgError>(RusimgError::ImageNotSpecified),
            },
    {
        let pa = match path {
            Some(p) => p,
            None => {
                return Err(RusimgError::ImageNotSpecified);
            },
        };
        let buf = match image_buf {
            Some(b) => b,
            None => {
                return Err(RusimgError::ImageNotSpecified);
            },
        };
        let m = match metadata {
            Some(m) => m,
            None => {
                return Err(RusimgError::ImageNotSpecified);
            },
        };
        let ext = match extension_of(pa.as_str()) {
            Some(e) => e,
            None => String::new(),
        };
        match decode_image(buf.as_slice()) {
            Ok(p) => Ok(
                Self {
                    image: p,
                    operations_count: 0,
                    extension_str: ext,
                    required_quality: None,
                    metadata_input: Some(m),
                    metadata_output: None,
                    filepath_input: Some(pa),
                    filepath_output: None,
                },
            ),
            Err(e) => Err(RusimgError::FailedToOpenImage(e)),
        }
    }

    /// Resolve the output path and encode the live pixel buffer with
    /// the recorded (or default) quality.
    pub fn save(&self, path: Option<String>, path_is_dir: bool) -> (r: Result<
        SavePlan,
        RusimgError,
    >)
        requires
            self.wf(),
        ensures
            ({
                let src = match self.filepath_input {
                    Some(s) => Some(s@),
                    None => None::<Seq<char>>,
                };
                let dst = match path {
                    Some(d) => Some(d@),
                    None => None::<Seq<char>>,
                };
                let q = match self.required_quality {
                    Some(q) => q,
                    None => DEFAULT_JPEG_QUALITY,
                };
                match spec_resolve(src, dst, path_is_dir, self.extension_str@) {
                    Ok(p) => {
                        if self.image.width > JPEG_MAX_DIMENSION || self.image.height
                            > JPEG_MAX_DIMENSION || !spec_fits_decode_budget(
                            self.image.width,
                            self.image.height,
                        ) {
                            r matches Err(e) && e matches RusimgError::FailedToSaveImage(_)
                        } else {
                            match jpeg_encoding(
                                self.image.width,
                                self.image.height,
                                self.image.data@,
                                q,
                            ) {
                                Some(enc) => r matches Ok(plan) && plan.path@ == p
                                    && plan.payload@ == enc && decoded_dims(plan.payload@) == Some(
                                    (self.image.width, self.image.height),
                                ) && spec_sniff(plan.payload@) == Some(Extension::Jpeg),
                                None => r matches Err(e) && e matches
                                    RusimgError::FailedToSaveImage(_),
                            }
                        }
                    },
                    Err(SavePathError::SourceMissing) => r == Err::<SavePlan, RusimgError>(
                        RusimgError::SourcePathMustBeSpecified,
                    ),
                    Err(SavePathError::NoFilename) => r matches Err(e) && e matches
                        RusimgError::FailedToGetFilename(q) && Some(q@) == src,
                }
            }),
    {
        let save_path = match resolve_save_path(
            &self.filepath_input,
            &path,
            path_is_dir,
            self.extension_str.as_str(),
        ) {
            Ok(p) => p,
            Err(e) => {
                return Err(e);
            },
        };
        if self.image.width > JPEG_MAX_DIMENSION || self.image.height > JPEG_MAX_DIMENSION
            || !fits_decode_budget(self.image.width, self.image.height) {
            return Err(
                RusimgError::FailedToSaveImage(
                    String::from_str("image dimensions exceed the JPEG codec's limits"),
                ),
            );
        }
        let quality = match self.required_quality {
            Some(q) => q,
            None => DEFAULT_JPEG_QUALITY,
        };
        match encode_jpeg(&self.image, quality) {
            Ok(v) => Ok(SavePlan { path: save_path, payload: v }),
            Err(msg) => Err(RusimgError::FailedToSaveImage(msg)),
        }
    }

    /// Record a completed write of a save plan's payload.
    pub fn record_save(&mut self, path: String, size: u64)
        ensures
            final(self).filepath_output == Some(path),
            final(self).metadata_output == Some(size),
            final(self).image == old(self).image,
            final(self).operations_count == old(self).operations_count,
            final(self).extension_str == old(self).extension_str,
            final(self).required_quality == old(self).required_quality,
            final(self).metadata_input == old(self).metadata_input,
            final(self).filepath_input == old(self).filepath_input,
    {
        self.filepath_output = Some(path);
        self.metadata_output = Some(size);
    }

    /// Record the requested quality; the encode itself happens at save
    /// time.
    pub fn compress(&mut self, quality: Option<u8>) -> (r: Result<(), RusimgError>)
        ensures
            r == Ok::<(), RusimgError>(()),
            final(self).required_quality == Some(
                match quality {
                    Some(q) => q,
                    None => DEFAULT_JPEG_QUALITY,
                },
            ),
            final(self).image == old(self).image,
            final(self).operations_count == spec_bump(old(self).operations_count),
            Self::same_io_fields(*old(self), *final(self)),
    {
        let q = match quality {
            Some(q) => q,
            None => DEFAULT_JPEG_QUALITY,
        };
        self.required_quality = Some(q);
        self.operations_count = bump(self.operations_count);
        Ok(())
    }

    /// Scale both dimensions by `resize_ratio` percent, truncating.
    pub fn resize(&mut self, resize_ratio: u32) -> (r: Result<ImgSize, RusimgError>)
        requires
            old(self).wf(),
            resize_ratio >= 1,
        ensures
            ({
                let nw = spec_scaled(old(self).image.width, resize_ratio);
                let nh = spec_scaled(old(self).image.height, resize_ratio);
                if nw > u32::MAX || nh > u32::MAX {
                    r == Err::<ImgSize, RusimgError>(RusimgError::InvalidResizeRatio) && *final(self)
                        == *old(self)
                } else {
                    &&& r matches Ok(sz) && sz.width == nw && sz.height == nh
                    &&& final(self).wf()
                    &&& final(self).image.width == nw
                    &&& final(self).image.height == nh
                    &&& final(self).image.has_alpha == old(self).image.has_alpha
                    &&& final(self).operations_count == spec_bump(old(self).operations_count)
                    &&& final(self).required_quality == old(self).required_quality
                    &&& Self::same_io_fields(*old(self), *final(self))
                }
            }),
    {
        let w = self.image.width;
        let h = self.image.height;
        let nw64 = scaled_dim(w, resize_ratio);
        let nh64 = scaled_dim(h, resize_ratio);
        if nw64 > u32::MAX as u64 || nh64 > u32::MAX as u64 {
            return Err(RusimgError::InvalidResizeRatio);
        }
        let nw = nw64 as u32;
        let nh = nh64 as u32;
        if nw == 0 || nh == 0 {
            self.image = PixelImage::empty(nw, nh, self.image.has_alpha);
        } else {
            proof {
                assert(w >= 1 && h >= 1) by {
                    if w == 0 {
                        assert(w * resize_ratio == 0) by (nonlinear_arith)
                            requires
                                w == 0,
                        ;
                    }
                    if h == 0 {
                        assert(h * resize_ratio == 0) by (nonlinear_arith)
                            requires
                                h == 0,
                        ;
                    }
                }
            }
            self.image = resize_pixels(&self.image, nw, nh);
        }
        self.operations_count = bump(self.operations_count);
        Ok(ImgSize::new(nw as usize, nh as usize))
    }

    /// Crop to `trim`, clamping a rectangle that overflows the bounds
    /// from an origin still inside them.
    pub fn trim(&mut self, trim: Rect) -> (r: Result<ImgSize, RusimgError>)
        requires
            old(self).wf(),
        ensures
            ({
                match spec_trim_size(old(self).image.width, old(self).image.height, trim) {
                    None => r == Err::<ImgSize, RusimgError>(RusimgError::InvalidTrimXY) && *final(self)
                        == *old(self),
                    Some(dims) => {
                        &&& r matches Ok(sz) && sz.width == dims.0 && sz.height == dims.1
                        &&& final(self).wf()
                        &&& final(self).image.width == dims.0
                        &&& final(self).image.height == dims.1
                        &&& final(self).image.has_alpha == old(self).image.has_alpha
                        &&& final(self).operations_count == spec_bump(old(self).operations_count)
                        &&& final(self).required_quality == old(self).required_quality
                        &&& Self::same_io_fields(*old(self), *final(self))
                    },
                }
            }),
    {
        match trim_size(self.image.width, self.image.height, &trim) {
            None => Err(RusimgError::InvalidTrimXY),
            Some((w, h)) => {
                self.image = crop_pixels(&self.image, trim.x, trim.y, w, h);
                self.operations_count = bump(self.operations_count);
                Ok(ImgSize::new(w as usize, h as usize))
            },
        }
    }

    /// Convert the pixel buffer to grayscale in place.
    pub fn grayscale(&mut self) -> (r: Result<(), RusimgError>)
        requires
            old(self).wf(),
        ensures
            r == Ok::<(), RusimgError>(()),
            final(self).wf(),
            final(self).image.width == old(self).image.width,
            final(self).image.height == old(self).image.height,
            final(self).image.has_alpha == old(self).image.has_alpha,
            final(self).image.data@ == gray_of(old(self).image.data@),
            is_grayscale_rgba(final(self).image.data@),
            final(self).operations_count == spec_bump(old(self).operations_count),
            final(self).required_quality == old(self).required_quality,
            Self::same_io_fields(*old(self), *final(self)),
    {
        self.image = grayscale_pixels(&self.image);
        self.operations_count = bump(self.operations_count);
        Ok(())
    }

    /// Replace the pixel buffer wholesale.  JPEG carries no alpha
    /// channel, so an alpha-bearing buffer is normalized on set.
    pub fn set_dynamic_image(&mut self, image: PixelImage) -> (r: Result<(), RusimgError>)
        requires
            image.wf(),
        ensures
            r == Ok::<(), RusimgError>(()),
            final(self).wf(),
            final(self).image.width == image.width,
            final(self).image.height == image.height,
            final(self).image.has_alpha == false,
            final(self).image.data@ == (
                if image.has_alpha {
                    spec_strip_alpha(image.data@)
                } else {
                    image.data@
                }
            ),
            final(self).operations_count == spec_bump(old(self).operations_count),
            final(self).required_quality == old(self).required_quality,
            Self::same_io_fields(*old(self), *final(self)),
    {
        let image = if image.has_alpha {
            strip_alpha_pixels(&image)
        } else {
            image
        };
        self.image = image;
        self.operations_count = bump(self.operations_count);
        Ok(())
    }

    /// A copy of the pixel buffer.
    pub fn get_dynamic_image(&mut self) -> (r: Result<PixelImage, RusimgError>)
        ensures
            *final(self) == *old(self),
            r matches Ok(p) && p.width == old(self).image.width && p.height == old(
                self,
            ).image.height && p.has_alpha == old(self).image.has_alpha && p.data@ == old(
                self,
            ).image.data@,
    {
        Ok(self.image.duplicate())
    }

    /// The path the document was opened from, if any.
    pub fn get_source_filepath(&self) -> (r: Option<String>)
        ensures
            r == self.filepath_input,
    {
        clone_opt_string(&self.filepath_input)
    }

    /// The path the document was last saved to, if any.
    pub fn get_destination_filepath(&self) -> (r: Result<Option<String>, RusimgError>)
        ensures
            r matches Ok(p) && p == self.filepath_output,
    {
        Ok(clone_opt_string(&self.filepath_output))
    }

    /// The source file's byte count, if the document came from a file.
    pub fn get_metadata_src(&self) -> (r: Option<u64>)
        ensures
            r == self.metadata_input,
    {
        self.metadata_input
    }

    /// The written file's byte count, if the document has been saved.
    pub fn get_metadata_dest(&self) -> (r: Option<u64>)
        ensures
            r == self.metadata_output,
    {
        self.metadata_output
    }

    /// The current geometry.
    pub fn get_size(&self) -> (r: Result<ImgSize, RusimgError>)
        ensures
            r matches Ok(sz) && sz.width == self.image.width && sz.height == self.image.height,
    {
        Ok(ImgSize::new(self.image.width as usize, self.image.height as usize))
    }
}

} // verus!
