//! The Empty backend: a placeholder document that may hold a pixel
//! buffer but no encoded image.  It exists to be filled and converted
//! — compressing it is rejected and saving it is unsupported.

use vstd::prelude::*;

use crate::backend::clone_opt_string;
use crate::errors::RusimgError;
use crate::geometry::{scaled_dim, spec_scaled, spec_trim_size, trim_size};
use crate::pixels::{crop_pixels, gray_of, grayscale_pixels, is_grayscale_rgba, resize_pixels, PixelImage};
use crate::structs::{ImgSize, Rect, SavePlan};

verus! {

/// A placeholder image document.
#[derive(Debug)]
pub struct EmptyImage {
    pub image: Option<PixelImage>,
    pub source_path: Option<String>,
}

impl EmptyImage {
    /// The held pixel buffer, if any, matches its geometry.
    pub open spec fn wf(&self) -> bool {
        match self.image {
            Some(p) => p.wf(),
            None => true,
        }
    }

    /// Build a placeholder, with or without a pixel buffer.
    pub fn import(
        image: Option<PixelImage>,
        source_path: Option<String>,
        source_metadata: Option<u64>,
    ) -> (r: Result<Self, RusimgError>)
        requires
            image matches Some(p) ==> p.wf(),
        ensures
            r matches Ok(b) && b.wf() && b.image == image && b.source_path == source_path,
    {
        let _ = source_metadata;
        Ok(Self { image, source_path })
    }

    /// A placeholder holds no encoded image to open.
    pub fn open(path: Option<String>, image_buf: Option<Vec<u8>>, metadata: Option<u64>) -> (r:
        Result<Self, RusimgError>)
        ensures
            r == Err::<Self, RusimgError>(RusimgError::UnsupportedFeature),
    {
        let _ = (path, image_buf, metadata);
        Err(RusimgError::UnsupportedFeature)
    }

    /// A placeholder cannot be saved; it must be converted to a real
    /// format first.
    pub fn save(&self, path: Option<String>, path_is_dir: bool) -> (r: Result<
        SavePlan,
        RusimgError,
    >)
        ensures
            r == Err::<SavePlan, RusimgError>(RusimgError::UnsupportedFeature),
    {
        let _ = (path, path_is_dir);
        Err(RusimgError::UnsupportedFeature)
    }

    /// A placeholder cannot be compressed.
    pub fn compress(&mut self, quality: Option<u8>) -> (r: Result<(), RusimgError>)
        ensures
            r == Err::<(), RusimgError>(RusimgError::ImageFormatCannotBeCompressed),
            *final(self) == *old(self),
    {
        let _ = quality;
        Err(RusimgError::ImageFormatCannotBeCompressed)
    }

    /// Scale both dimensions by `resize_ratio` percent, truncating;
    /// a placeholder without pixels has nothing to resize.
    pub fn resize(&mut self, resize_ratio: u32) -> (r: Result<ImgSize, RusimgError>)
        requires
            old(self).wf(),
            resize_ratio >= 1,
        ensures
            ({
                match old(self).image {
                    None => r == Err::<ImgSize, RusimgError>(RusimgError::ImageNotSpecified)
                        && *final(self) == *old(self),
                    Some(img) => {
                        let nw = spec_scaled(img.width, resize_ratio);
                        let nh = spec_scaled(img.height, resize_ratio);
                        if nw > u32::MAX || nh > u32::MAX {
                            r == Err::<ImgSize, RusimgError>(RusimgError::InvalidResizeRatio)
                                && *final(self) == *old(self)
                        } else {
                            &&& r matches Ok(sz) && sz.width == nw && sz.height == nh
                            &&& final(self).wf()
                            &&& (final(self).image matches Some(p) && p.width == nw && p.height
                                == nh && p.has_alpha == img.has_alpha)
                            &&& final(self).source_path == old(self).source_path
                        }
                    },
                }
            }),
    {
        let img = match &self.image {
            Some(p) => p,
            None => {
                return Err(RusimgError::ImageNotSpecified);
            },
        };
        let w = img.width;
        let h = img.height;
        let nw64 = scaled_dim(w, resize_ratio);
        let nh64 = scaled_dim(h, resize_ratio);
        if nw64 > u32::MAX as u64 || nh64 > u32::MAX as u64 {
            return Err(RusimgError::InvalidResizeRatio);
        }
        let nw = nw64 as u32;
        let nh = nh64 as u32;
        if nw == 0 || nh == 0 {
            self.image = Some(PixelImage::empty(nw, nh, img.has_alpha));
        } else {
            proof {
                assert(w >= 1 && h >= 1) by {
                    if w == 0 {
                        assert(w * resize_ratio == 0) by (nonlinear_arith)
                            requires
                                w == 0,
                        ;
                    }
                    if h == 0 {
                        assert(h * resize_ratio == 0) by (nonlinear_arith)
                            requires
                                h == 0,
                        ;
                    }
                }
            }
            self.image = Some(resize_pixels(img, nw, nh));
        }
        Ok(ImgSize::new(nw as usize, nh as usize))
    }

    /// Crop to `trim`, clamping a rectangle that overflows the bounds
    /// from an origin still inside them.
    pub fn trim(&mut self, trim: Rect) -> (r: Result<ImgSize, RusimgError>)
        requires
            old(self).wf(),
        ensures
            ({
                match old(self).image {
                    None => r == Err::<ImgSize, RusimgError>(RusimgError::ImageNotSpecified)
                        && *final(self) == *old(self),
                    Some(img) => match spec_trim_size(img.width, img.height, trim) {
                        None => r == Err::<ImgSize, RusimgError>(RusimgError::InvalidTrimXY)
                            && *final(self) == *old(self),
                        Some(dims) => {
                            &&& r matches Ok(sz) && sz.width == dims.0 && sz.height == dims.1
                            &&& final(self).wf()
                            &&& (final(self).image matches Some(p) && p.width == dims.0 && p.height
                                == dims.1 && p.has_alpha == img.has_alpha)
                            &&& final(self).source_path == old(self).source_path
                        },
                    },
                }
            }),
    {
        let img = match &self.image {
            Some(p) => p,
            None => {
                return Err(RusimgError::ImageNotSpecified);
            },
        };
        match trim_size(img.width, img.height, &trim) {
            None => Err(RusimgError::InvalidTrimXY),
            Some((w, h)) => {
                self.image = Some(crop_pixels(img, trim.x, trim.y, w, h));
                Ok(ImgSize::new(w as usize, h as usize))
            },
        }
    }

    /// Convert the pixel buffer to grayscale in place; a placeholder
    /// without pixels has nothing to desaturate.
    pub fn grayscale(&mut self) -> (r: Result<(), RusimgError>)
        requires
            old(self).wf(),
        ensures
            ({
                match old(self).image {
                    None => r == Err::<(), RusimgError>(RusimgError::ImageNotSpecified) && *final(self)
                        == *old(self),
                    Some(img) => {
                        &&& r == Ok::<(), RusimgError>(())
                        &&& final(self).wf()
                        &&& (final(self).image matches Some(p) && p.width == img.width && p.height
                            == img.height && p.has_alpha == img.has_alpha && p.data@ == gray_of(
                            img.data@,
                        ) && is_grayscale_rgba(p.data@))
                        &&& final(self).source_path == old(self).source_path
                    },
                }
            }),
    {
        let img = match &self.image {
            Some(p) => p,
            None => {
                return Err(RusimgError::ImageNotSpecified);
            },
        };
        self.image = Some(grayscale_pixels(img));
        Ok(())
    }

    /// Replace the pixel buffer wholesale; the geometry follows it.
    pub fn set_dynamic_image(&mut self, image: PixelImage) -> (r: Result<(), RusimgError>)
        requires
            image.wf(),
        ensures
            r == Ok::<(), RusimgError>(()),
            final(self).wf(),
            final(self).image == Some(image),
            final(self).source_path == old(self).source_path,
    {
        self.image = Some(image);
        Ok(())
    }

    /// A copy of the pixel buffer, when one has been provided.
    pub fn get_dynamic_image(&mut self) -> (r: Result<PixelImage, RusimgError>)
        ensures
            *final(self) == *old(self),
            match old(self).image {
                Some(img) => r matches Ok(p) && p.width == img.width && p.height == img.height
                    && p.has_alpha == img.has_alpha && p.data@ == img.data@,
                None => r == Err::<PixelImage, RusimgError>(RusimgError::ImageNotSpecified),
            },
    {
        match &self.image {
            Some(p) => Ok(p.duplicate()),
            None => Err(RusimgError::ImageNotSpecified),
        }
    }

    /// The path this placeholder was aimed at, if any.
    pub fn get_source_filepath(&self) -> (r: Option<String>)
        ensures
            r == self.source_path,
    {
        clone_opt_string(&self.source_path)
    }

    /// A placeholder has never been saved.
    pub fn get_destination_filepath(&self) -> (r: Result<Option<String>, RusimgError>)
        ensures
            r == Err::<Option<String>, RusimgError>(RusimgError::UnsupportedFeature),
    {
        Err(RusimgError::UnsupportedFeature)
    }

    /// A placeholder carries no source metadata.
    pub fn get_metadata_src(&self) -> (r: Option<u64>)
        ensures
            r is None,
    {
        None
    }

    /// A placeholder carries no destination metadata.
    pub fn get_metadata_dest(&self) -> (r: Option<u64>)
        ensures
            r is None,
    {
        None
    }

    /// The current geometry, when a pixel buffer has been provided.
    pub fn get_size(&self) -> (r: Result<ImgSize, RusimgError>)
        ensures
            match self.image {
                Some(img) => r matches Ok(sz) && sz.width == img.width && sz.height == img.height,
                None => r == Err::<ImgSize, RusimgError>(RusimgError::ImageNotSpecified),
            },
    {
        match &self.image {
            Some(img) => Ok(ImgSize::new(img.width as usize, img.height as usize)),
            None => Err(RusimgError::ImageNotSpecified),
        }
    }
}

} // verus!
