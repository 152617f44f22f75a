//! The WebP backend.  WebP compresses lazily, and save short-circuits:
//! when the document came from a WebP file and no edit has touched it,
//! the original bytes are written back verbatim instead of being
//! re-encoded.

use vstd::prelude::*;

use crate::backend::{bump, clone_opt_string, spec_bump};
use crate::errors::RusimgError;
use crate::extension::Extension;
use crate::geometry::{scaled_dim, spec_scaled, spec_trim_size, trim_size};
use crate::pathutil::{
    extension_of, resolve_save_path, spec_extension_of, spec_resolve, str_eq, SavePathError,
};
use crate::pixels::{crop_pixels, gray_of, grayscale_pixels, is_grayscale_rgba, resize_pixels, PixelImage};
use crate::sniff::spec_sniff;
use crate::structs::{ImgSize, Rect, SavePlan};

verus! {

/// The default quality used when none was requested.
pub const DEFAULT_WEBP_QUALITY: u8 = 75;

/// The largest dimension the WebP format can represent.
pub const WEBP_MAX_DIMENSION: u32 = 16383;

/// What decoding a byte buffer as WebP yields: the dimensions of the
/// image it encodes, or nothing when the buffer is not a still
/// WebP image.
/// Decoding is a pure function of the bytes.
pub uninterp spec fn webp_decoded_dims(b: Seq<u8>) -> Option<(u32, u32)>;

/// What encoding a pixel buffer as WebP at a given quality yields, or
/// nothing when the encoder rejects the buffer — it rejects zero
/// dimensions and qualities above 100.  Encoding is a pure function
/// of the geometry, the samples and the quality.
pub uninterp spec fn webp_encoding(width: u32, height: u32, data: Seq<u8>, quality: u8) -> Option<
    Seq<u8>,
>;

/// Relies on `webp::Decoder::decode`: decoding is deterministic in the
/// bytes, rejects animated and malformed input, and yields a frame of
/// the dimensions the bitstream declares.
#[verifier::external_body]
fn decode_webp(buf: &[u8]) -> (r: Option<PixelImage>)
    ensures
        r is Some <==> webp_decoded_dims(buf@) is Some,
        r matches Some(p) ==> p.wf() && webp_decoded_dims(buf@) == Some((p.width, p.height)),
{
    let img = webp::Decoder::new(buf).decode()?;
    let d = img.to_image();
    let has_alpha = d.color().has_alpha();
    let rgba = d.into_rgba8();
    Some(
        PixelImage { width: rgba.width(), height: rgba.height(), has_alpha, data: rgba.into_raw() },
    )
}

/// Relies on `webp::Encoder::from_rgba` and `encode_simple`: encoding
/// is deterministic in the pixel buffer and the quality; when it
/// succeeds, it emits a RIFF container with the `WEBP` form type whose
/// bitstream decodes back to the same dimensions.  The `requires`
/// keeps the dimensions at the format's limit, far below where the
/// encoder's row-stride arithmetic could overflow.
#[verifier::external_body]
fn encode_webp(p: &PixelImage, quality: u8) -> (r: Result<Vec<u8>, String>)
    requires
        p.wf(),
        p.width <= WEBP_MAX_DIMENSION,
        p.height <= WEBP_MAX_DIMENSION,
    ensures
        r is Ok <==> webp_encoding(p.width, p.height, p.data@, quality) is Some,
        r matches Ok(v) ==> Some(v@) == webp_encoding(p.width, p.height, p.data@, quality)
            && webp_decoded_dims(v@) == Some((p.width, p.height)) && spec_sniff(v@) == Some(
            Extension::Webp,
        ),
{
    let encoder = webp::Encoder::from_rgba(p.data.as_slice(), p.width, p.height);
    match encoder.encode_simple(false, quality.into()) {
        Ok(mem) => Ok(mem.to_vec()),
        Err(e) => Err(format!("{:?}", e)),
    }
}

/// A WebP-backed image document.
#[derive(Debug)]
pub struct WebpImage {
    pub image: PixelImage,
    pub image_bytes: Option<Vec<u8>>,
    pub operations_count: u64,
    pub required_quality: Option<u8>,
    pub metadata_input: Option<u64>,
    pub metadata_output: Option<u64>,
    pub filepath_input: Option<String>,
    pub filepath_output: Option<String>,
}

impl WebpImage {
    /// The pixel buffer matches its geometry, and while no edit has
    /// been applied, the retained source bytes still decode to the
    /// document's dimensions — which is what makes the passthrough
    /// save safe.
    pub open spec fn wf(&self) -> bool {
        &&& self.image.wf()
        &&& match self.image_bytes {
            Some(b) => self.operations_count == 0 ==> (webp_decoded_dims(b@) == Some(
                (self.image.width, self.image.height),
            ) && spec_sniff(b@) == Some(Extension::Webp)),
            None => true,
        }
    }

    /// The fields no edit operation touches are unchanged.
    pub open spec fn same_io_fields(a: Self, b: Self) -> bool {
        &&& a.metadata_input == b.metadata_input
        &&& a.metadata_output == b.metadata_output
        &&& a.filepath_input == b.filepath_input
        &&& a.filepath_output == b.filepath_output
    }

    /// Build a backend from an in-memory pixel buffer; there are no
    /// source bytes, so no save of this backend can short-circuit.
    pub fn import(
        image: Option<PixelImage>,
        source_path: Option<String>,
        source_metadata: Option<u64>,
    ) -> (r: Result<Self, RusimgError>)
        requires
            image matches Some(p) ==> p.wf(),
        ensures
            image is None ==> r == Err::<Self, RusimgError>(RusimgError::ImageNotSpecified),
            image matches Some(p) ==> r matches Ok(b) && b.wf() && b.image == p && b.image_bytes
                is None && b.operations_count == 0 && b.required_quality is None
                && b.metadata_input == source_metadata && b.metadata_output is None
                && b.filepath_input == source_path && b.filepath_output is None,
    {
        match image {
            None => Err(RusimgError::ImageNotSpecified),
            Some(p) => Ok(
                Self {
                    image: p,
                    image_bytes: None,
                    operations_count: 0,
                    required_quality: None,
                    metadata_input: source_metadata,
                    metadata_output: None,
                    filepath_input: source_path,
                    filepath_output: None,
                },
            ),
        }
    }

    /// Build a backend by decoding a raw WebP byte buffer; the buffer
    /// is retained for the passthrough save.
    pub fn open(path: Option<String>, image_buf: Option<Vec<u8>>, metadata: Option<u64>) -> (r:
        Result<Self, RusimgError>)
        requires
            image_buf matches Some(b) ==> spec_sniff(b@) == Some(Extension::Webp),
        ensures
            match (path, image_buf, metadata) {
                (Some(pa), Some(buf), Some(m)) => match webp_decoded_dims(buf@) {
                    Some(dims) => r matches Ok(b) && b.wf() && (b.image.width, b.image.height)
                        == dims && (b.image_bytes matches Some(v) && v@ == buf@)
                        && b.operations_count == 0 && b.required_quality is None
                        && b.metadata_input == Some(m) && b.metadata_output is None
                        && b.filepath_input == Some(pa) && b.filepath_output is None,
                    None => r == Err::<Self, RusimgError>(RusimgError::FailedToDecodeWebp),
                },
                _ => r == Err::<Self, RusimgError>(RusimgError::ImageNotSpecified),
            },
    {
        let pa = match path {
            Some(p) => p,
            None => {
                return Err(RusimgError::ImageNotSpecified);
            },
        };
        let buf = match image_buf {
            Some(b) => b,
            None => {
                return Err(RusimgError::ImageNotSpecified);
            },
        };
        let m = match metadata {
            Some(m) => m,
            None => {
                return Err(RusimgError::ImageNotSpecified);
            },
        };
        match decode_webp(buf.as_slice()) {
            Some(p) => Ok(
                Self {
                    image: p,
                    image_bytes: Some(buf),
                    operations_count: 0,
                    required_quality: None,
                    metadata_input: Some(m),
                    metadata_output: None,
                    filepath_input: Some(pa),
                    filepath_output: None,
                },
            ),
            None => Err(RusimgError::FailedToDecodeWebp),
        }
    }

    /// Whether a save of this backend writes the retained source bytes
    /// verbatim: the document came from a WebP file and no edit has
    /// been applied since.
    pub open spec fn spec_passthrough(&self) -> bool {
        &&& match self.filepath_input {
            Some(s) => spec_extension_of(s@) == Some("webp"@),
            None => false,
        }
        &&& self.operations_count == 0
        &&& self.image_bytes is Some
    }

    /// Resolve the output path, then either pass the source bytes
    /// through untouched or encode the live pixel buffer with the
    /// recorded (or default) quality.
    pub fn save(&self, path: Option<String>, path_is_dir: bool) -> (r: Result<
        SavePlan,
        RusimgError,
    >)
        requires
            self.wf(),
        ensures
            ({
                let src = match self.filepath_input {
                    Some(s) => Some(s@),
                    None => None::<Seq<char>>,
                };
                let dst = match path {
                    Some(d) => Some(d@),
                    None => None::<Seq<char>>,
                };
                let q = match self.required_quality {
                    Some(q) => q,
                    None => DEFAULT_WEBP_QUALITY,
                };
                match spec_resolve(src, dst, path_is_dir, "webp"@) {
                    Ok(p) => {
                        if self.spec_passthrough() {
                            r matches Ok(plan) && plan.path@ == p && plan.payload@
                                == self.image_bytes->0@ && webp_decoded_dims(plan.payload@)
                                == Some((self.image.width, self.image.height)) && spec_sniff(
                                plan.payload@,
                            ) == Some(Extension::Webp)
                        } else if self.image.width > WEBP_MAX_DIMENSION || self.image.height
                            > WEBP_MAX_DIMENSION {
                            r matches Err(e) && e matches RusimgError::FailedToEncodeWebp(_)
                        } else {
                            match webp_encoding(
                                self.image.width,
                                self.image.height,
                                self.image.data@,
                                q,
                            ) {
                                Some(enc) => r matches Ok(plan) && plan.path@ == p
                                    && plan.payload@ == enc && webp_decoded_dims(plan.payload@)
                                    == Some((self.image.width, self.image.height)) && spec_sniff(
                                    plan.payload@,
                                ) == Some(Extension::Webp),
                                None => r matches Err(e) && e matches
                                    RusimgError::FailedToEncodeWebp(_),
                            }
                        }
                    },
                    Err(SavePathError::SourceMissing) => r == Err::<SavePlan, RusimgError>(
                        RusimgError::SourcePathMustBeSpecified,
                    ),
                    Err(SavePathError::NoFilename) => r matches Err(e) && e matches
                        RusimgError::FailedToGetFilename(q) && Some(q@) == src,
                }
            }),
    {
        let save_path = match resolve_save_path(&self.filepath_input, &path, path_is_dir, "webp") {
            Ok(p) => p,
            Err(e) => {
                return Err(e);
            },
        };
        let source_is_webp = match &self.filepath_input {
            Some(s) => match extension_of(s.as_str()) {
                Some(e) => str_eq(e.as_str(), "webp"),
                None => false,
            },
            None => false,
        };
        if source_is_webp && self.operations_count == 0 {
            if let Some(bytes) = &self.image_bytes {
                return Ok(
                    SavePlan {
                        path: save_path,
                        payload: vstd::slice::slice_to_vec(bytes.as_slice()),
                    },
                );
            }
        }
        if self.image.width > WEBP_MAX_DIMENSION || self.image.height > WEBP_MAX_DIMENSION {
            return Err(
                RusimgError::FailedToEncodeWebp(
                    String::from_str("image dimensions exceed the WebP format's limit"),
                ),
            );
        }
        let quality = match self.required_quality {
            Some(q) => q,
            None => DEFAULT_WEBP_QUALITY,
        };
        match encode_webp(&self.image, quality) {
            Ok(v) => Ok(SavePlan { path: save_path, payload: v }),
            Err(msg) => Err(RusimgError::FailedToEncodeWebp(msg)),
        }
    }

    /// Record a completed write of a save plan's payload.
    pub fn record_save(&mut self, path: String, size: u64)
        ensures
            final(self).filepath_output == Some(path),
            final(self).metadata_output == Some(size),
            final(self).image == old(self).image,
            final(self).image_bytes == old(self).image_bytes,
            final(self).operations_count == old(self).operations_count,
            final(self).required_quality == old(self).required_quality,
            final(self).metadata_input == old(self).metadata_input,
            final(self).filepath_input == old(self).filepath_input,
            old(self).wf() ==> final(self).wf(),
    {
        self.filepath_output = Some(path);
        self.metadata_output = Some(size);
    }

    /// Record the requested quality; the encode itself happens at save
    /// time.  A quality request counts as an edit: a compressed
    /// document must not be passed through unencoded.
    pub fn compress(&mut self, quality: Option<u8>) -> (r: Result<(), RusimgError>)
        requires
            old(self).wf(),
        ensures
            r == Ok::<(), RusimgError>(()),
            final(self).wf(),
            final(self).required_quality == quality,
            final(self).image == old(self).image,
            final(self).image_bytes == old(self).image_bytes,
            final(self).operations_count == spec_bump(old(self).operations_count),
            Self::same_io_fields(*old(self), *final(self)),
    {
        self.required_quality = quality;
        self.operations_count = bump(self.operations_count);
        Ok(())
    }

    /// Scale both dimensions by `resize_ratio` percent, truncating.
    pub fn resize(&mut self, resize_ratio: u32) -> (r: Result<ImgSize, RusimgError>)
        requires
            old(self).wf(),
            resize_ratio >= 1,
        ensures
            ({
                let nw = spec_scaled(old(self).image.width, resize_ratio);
                let nh = spec_scaled(old(self).image.height, resize_ratio);
                if nw > u32::MAX || nh > u32::MAX {
                    r == Err::<ImgSize, RusimgError>(RusimgError::InvalidResizeRatio) && *final(self)
                        == *old(self)
                } else {
                    &&& r matches Ok(sz) && sz.width == nw && sz.height == nh
                    &&& final(self).wf()
                    &&& final(self).image.width == nw
                    &&& final(self).image.height == nh
                    &&& final(self).image.has_alpha == old(self).image.has_alpha
                    &&& final(self).image_bytes == old(self).image_bytes
                    &&& final(self).operations_count == spec_bump(old(self).operations_count)
                    &&& final(self).required_quality == old(self).required_quality
                    &&& Self::same_io_fields(*old(self), *final(self))
                }
            }),
    {
        let w = self.image.width;
        let h = self.image.height;
        let nw64 = scaled_dim(w, resize_ratio);
        let nh64 = scaled_dim(h, resize_ratio);
        if nw64 > u32::MAX as u64 || nh64 > u32::MAX as u64 {
            return Err(RusimgError::InvalidResizeRatio);
        }
        let nw = nw64 as u32;
        let nh = nh64 as u32;
        if nw == 0 || nh == 0 {
            self.image = PixelImage::empty(nw, nh, self.image.has_alpha);
        } else {
            proof {
                assert(w >= 1 && h >= 1) by {
                    if w == 0 {
                        assert(w * resize_ratio == 0) by (nonlinear_arith)
                            requires
                                w == 0,
                        ;
                    }
                    if h == 0 {
                        assert(h * resize_ratio == 0) by (nonlinear_arith)
                            requires
                                h == 0,
                        ;
                    }
                }
            }
            self.image = resize_pixels(&self.image, nw, nh);
        }
        self.operations_count = bump(self.operations_count);
        Ok(ImgSize::new(nw as usize, nh as usize))
    }

    /// Crop to `trim`, clamping a rectangle that overflows the bounds
    /// from an origin still inside them.
    pub fn trim(&mut self, trim: Rect) -> (r: Result<ImgSize, RusimgError>)
        requires
            old(self).wf(),
        ensures
            ({
                match spec_trim_size(old(self).image.width, old(self).image.height, trim) {
                    None => r == Err::<ImgSize, RusimgError>(RusimgError::InvalidTrimXY) && *final(self)
                        == *old(self),
                    Some(dims) => {
                        &&& r matches Ok(sz) && sz.width == dims.0 && sz.height == dims.1
                        &&& final(self).wf()
                        &&& final(self).image.width == dims.0
                        &&& final(self).image.height == dims.1
                        &&& final(self).image.has_alpha == old(self).image.has_alpha
                        &&& final(self).image_bytes == old(self).image_bytes
                        &&& final(self).operations_count == spec_bump(old(self).operations_count)
                        &&& final(self).required_quality == old(self).required_quality
                        &&& Self::same_io_fields(*old(self), *final(self))
                    },
                }
            }),
    {
        match trim_size(self.image.width, self.image.height, &trim) {
            None => Err(RusimgError::InvalidTrimXY),
            Some((w, h)) => {
                self.image = crop_pixels(&self.image, trim.x, trim.y, w, h);
                self.operations_count = bump(self.operations_count);
                Ok(ImgSize::new(w as usize, h as usize))
            },
        }
    }

    /// Convert the pixel buffer to grayscale in place.
    pub fn grayscale(&mut self) -> (r: Result<(), RusimgError>)
        requires
            old(self).wf(),
        ensures
            r == Ok::<(), RusimgError>(()),
            final(self).wf(),
            final(self).image.width == old(self).image.width,
            final(self).image.height == old(self).image.height,
            final(self).image.has_alpha == old(self).image.has_alpha,
            final(self).image.data@ == gray_of(old(self).image.data@),
            is_grayscale_rgba(final(self).image.data@),
            final(self).image_bytes == old(self).image_bytes,
            final(self).operations_count == spec_bump(old(self).operations_count),
            final(self).required_quality == old(self).required_quality,
            Self::same_io_fields(*old(self), *final(self)),
    {
        self.image = grayscale_pixels(&self.image);
        self.operations_count = bump(self.operations_count);
        Ok(())
    }

    /// Replace the pixel buffer wholesale; the geometry follows it.
    pub fn set_dynamic_image(&mut self, image: PixelImage) -> (r: Result<(), RusimgError>)
        requires
            old(self).wf(),
            image.wf(),
        ensures
            r == Ok::<(), RusimgError>(()),
            final(self).wf(),
            final(self).image == image,
            final(self).image_bytes == old(self).image_bytes,
            final(self).operations_count == spec_bump(old(self).operations_count),
            final(self).required_quality == old(self).required_quality,
            Self::same_io_fields(*old(self), *final(self)),
    {
        self.image = image;
        self.operations_count = bump(self.operations_count);
        Ok(())
    }

    /// A copy of the pixel buffer.
    pub fn get_dynamic_image(&mut self) -> (r: Result<PixelImage, RusimgError>)
        ensures
            *final(self) == *old(self),
            r matches Ok(p) && p.width == old(self).image.width && p.height == old(
                self,
            ).image.height && p.has_alpha == old(self).image.has_alpha && p.data@ == old(
                self,
            ).image.data@,
    {
        Ok(self.image.duplicate())
    }

    /// The path the document was opened from, if any.
    pub fn get_source_filepath(&self) -> (r: Option<String>)
        ensures
            r == self.filepath_input,
    {
        clone_opt_string(&self.filepath_input)
    }

    /// The path the document was last saved to, if any.
    pub fn get_destination_filepath(&self) -> (r: Result<Option<String>, RusimgError>)
        ensures
            r matches Ok(p) && p == self.filepath_output,
    {
        Ok(clone_opt_string(&self.filepath_output))
    }

    /// The source file's byte count, if the document came from a file.
    pub fn get_metadata_src(&self) -> (r: Option<u64>)
        ensures
            r == self.metadata_input,
    {
        self.metadata_input
    }

    /// The written file's byte count, if the document has been saved.
    pub fn get_metadata_dest(&self) -> (r: Option<u64>)
        ensures
            r == self.metadata_output,
    {
        self.metadata_output
    }

    /// The current geometry.
    pub fn get_size(&self) -> (r: Result<ImgSize, RusimgError>)
        ensures
            r matches Ok(sz) && sz.width == self.image.width && sz.height == self.image.height,
    {
        Ok(ImgSize::new(self.image.width as usize, self.image.height as usize))
    }
}

} // verus!
