//! The library's own model of a decoded image: a tightly packed RGBA
//! sample buffer with its geometry and an alpha-presence flag.  The
//! pixel transforms themselves (decode, resample, crop, desaturate)
//! are services of the `image` crate, called through trusted wrappers
//! whose contracts state only what that crate's source shows.

use vstd::prelude::*;

use vstd::slice::slice_to_vec;

verus! {

/// A decoded image: `width * height` pixels, four bytes (RGBA) each.
///
/// `has_alpha` records whether the frame the buffer came from carried
/// an alpha channel; the buffer itself always stores four samples per
/// pixel, with alpha 255 where the source had none.
#[derive(Debug, PartialEq)]
pub struct PixelImage {
    pub width: u32,
    pub height: u32,
    pub has_alpha: bool,
    pub data: Vec<u8>,
}

impl PixelImage {
    /// The sample buffer holds exactly four bytes for every pixel.
    pub open spec fn wf(&self) -> bool {
        self.data@.len() == 4 * self.width * self.height
    }

    /// An independent copy of the image.
    pub fn duplicate(&self) -> (r: PixelImage)
        ensures
            r.width == self.width,
            r.height == self.height,
            r.has_alpha == self.has_alpha,
            r.data@ == self.data@,
    {
        PixelImage {
            width: self.width,
            height: self.height,
            has_alpha: self.has_alpha,
            data: slice_to_vec(self.data.as_slice()),
        }
    }

    /// An image with no pixels, for the degenerate geometries no
    /// resampler is asked about.
    pub fn empty(width: u32, height: u32, has_alpha: bool) -> (r: PixelImage)
        requires
            width == 0 || height == 0,
        ensures
            r.wf(),
            r.width == width,
            r.height == height,
            r.has_alpha == has_alpha,
    {
        proof {
            assert(4 * width * height == 0) by (nonlinear_arith)
                requires
                    width == 0 || height == 0,
            ;
        }
        PixelImage { width, height, has_alpha, data: Vec::new() }
    }
}

/// The decoder works within a fixed default allocation budget of
/// 512 MiB; an image whose decoded buffer would not leave it ample
/// working memory cannot be promised to reopen.  This is half that
/// budget, in bytes of decoded RGBA samples.
pub const MAX_DECODE_BYTES: u64 = 0x10000000;

/// Whether a decoded RGBA buffer of this geometry stays comfortably
/// within the decoder's allocation budget.
pub open spec fn spec_fits_decode_budget(width: u32, height: u32) -> bool {
    4 * width * height <= MAX_DECODE_BYTES
}

/// Check a geometry against the decoder's allocation budget.
pub fn fits_decode_budget(width: u32, height: u32) -> (r: bool)
    ensures
        r == spec_fits_decode_budget(width, height),
{
    let w: u64 = width as u64;
    let h: u64 = height as u64;
    proof {
        assert(w * h <= u32::MAX as int * u32::MAX as int) by (nonlinear_arith)
            requires
                w <= u32::MAX,
                h <= u32::MAX,
        ;
    }
    let px: u64 = w * h;
    proof {
        assert(4 * width * height == 4 * px) by (nonlinear_arith)
            requires
                px == w * h,
                w == width as u64,
                h == height as u64,
        ;
    }
    px <= MAX_DECODE_BYTES / 4
}

/// What decoding a byte buffer yields: the dimensions of the image the
/// buffer encodes, or nothing when the buffer decodes as no supported
/// image.  Decoding is a pure function of the bytes.
pub uninterp spec fn decoded_dims(b: Seq<u8>) -> Option<(u32, u32)>;

/// What desaturating a tightly packed RGBA sample buffer yields.  The
/// conversion maps each four-byte pixel on its own, so the result is a
/// function of the samples alone, independent of the geometry.
pub uninterp spec fn gray_of(data: Seq<u8>) -> Seq<u8>;

/// A tightly packed RGBA sample buffer is gray: the three colour
/// channels of every pixel hold the same value.
pub open spec fn is_grayscale_rgba(data: Seq<u8>) -> bool {
    forall|j: int|
        0 <= j && j + 2 < data.len() && j % 4 == 0 ==> (#[trigger] data[j]) == data[j + 1] && data[
            j + 1
        ] == data[j + 2]
}

/// A tightly packed RGBA sample buffer with its alpha channel
/// flattened: every fourth byte becomes 255, the colour bytes stay.
pub open spec fn spec_strip_alpha(data: Seq<u8>) -> Seq<u8> {
    Seq::new(
        data.len(),
        |j: int|
            if j % 4 == 3 {
                255u8
            } else {
                data[j]
            },
    )
}

/// Relies on `image::load_from_memory`: decoding is deterministic in
/// the bytes, and the decoded frame, converted with `to_rgba8`, is a
/// buffer of exactly `width * height` four-byte RGBA samples.
#[verifier::external_body]
pub fn decode_image(buf: &[u8]) -> (r: Result<PixelImage, String>)
    ensures
        r is Ok <==> decoded_dims(buf@) is Some,
        r matches Ok(p) ==> p.wf() && decoded_dims(buf@) == Some((p.width, p.height)),
{
    match image::load_from_memory(buf) {
        Ok(d) => {
            let has_alpha = d.color().has_alpha();
            let rgba = d.into_rgba8();
            Ok(
                PixelImage {
                    width: rgba.width(),
                    height: rgba.height(),
                    has_alpha,
                    data: rgba.into_raw(),
                },
            )
        },
        Err(e) => Err(e.to_string()),
    }
}

/// Relies on `image::DynamicImage::resize_exact` (Lanczos3 filter):
/// the result has exactly the requested dimensions.
#[verifier::external_body]
pub fn resize_pixels(p: &PixelImage, nw: u32, nh: u32) -> (r: PixelImage)
    requires
        p.wf(),
        p.width >= 1,
        p.height >= 1,
        nw >= 1,
        nh >= 1,
    ensures
        r.wf(),
        r.width == nw,
        r.height == nh,
        r.has_alpha == p.has_alpha,
{
    let img = image::RgbaImage::from_raw(p.width, p.height, p.data.clone()).unwrap();
    let out = image::DynamicImage::ImageRgba8(img).resize_exact(
        nw,
        nh,
        image::imageops::FilterType::Lanczos3,
    ).into_rgba8();
    PixelImage { width: out.width(), height: out.height(), has_alpha: p.has_alpha, data: out.into_raw() }
}

/// Relies on `image::DynamicImage::crop_imm`: a cut-out whose
/// rectangle lies inside the bounds has exactly the requested
/// dimensions.
#[verifier::external_body]
pub fn crop_pixels(p: &PixelImage, x: u32, y: u32, w: u32, h: u32) -> (r: PixelImage)
    requires
        p.wf(),
        x + w <= p.width,
        y + h <= p.height,
    ensures
        r.wf(),
        r.width == w,
        r.height == h,
        r.has_alpha == p.has_alpha,
{
    let img = image::RgbaImage::from_raw(p.width, p.height, p.data.clone()).unwrap();
    let out = image::DynamicImage::ImageRgba8(img).crop_imm(x, y, w, h).into_rgba8();
    PixelImage { width: out.width(), height: out.height(), has_alpha: p.has_alpha, data: out.into_raw() }
}

/// Relies on `image::DynamicImage::grayscale`: desaturation maps each
/// four-byte pixel on its own (keeping geometry and the presence of an
/// alpha channel), and the luma expansion back to RGBA repeats the
/// same value in all three colour channels.
#[verifier::external_body]
pub fn grayscale_pixels(p: &PixelImage) -> (r: PixelImage)
    requires
        p.wf(),
    ensures
        r.wf(),
        r.width == p.width,
        r.height == p.height,
        r.has_alpha == p.has_alpha,
        r.data@ == gray_of(p.data@),
        is_grayscale_rgba(r.data@),
{
    let img = image::RgbaImage::from_raw(p.width, p.height, p.data.clone()).unwrap();
    let out = image::DynamicImage::ImageRgba8(img).grayscale().into_rgba8();
    PixelImage { width: out.width(), height: out.height(), has_alpha: p.has_alpha, data: out.into_raw() }
}

/// Relies on `image::DynamicImage::into_rgb8`: the RGBA-to-RGB
/// conversion copies the three colour bytes of each pixel unchanged
/// (no alpha blending), and the expansion back to RGBA fills every
/// alpha byte with 255.
#[verifier::external_body]
pub fn strip_alpha_pixels(p: &PixelImage) -> (r: PixelImage)
    requires
        p.wf(),
    ensures
        r.wf(),
        r.width == p.width,
        r.height == p.height,
        r.has_alpha == false,
        r.data@ == spec_strip_alpha(p.data@),
{
    let img = image::RgbaImage::from_raw(p.width, p.height, p.data.clone()).unwrap();
    let rgb = image::DynamicImage::ImageRgba8(img).into_rgb8();
    let out = image::DynamicImage::ImageRgb8(rgb).into_rgba8();
    PixelImage { width: out.width(), height: out.height(), has_alpha: false, data: out.into_raw() }
}

} // verus!
