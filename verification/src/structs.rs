//! Plain data carried across the public API: crop rectangles, image
//! sizes, and the result of a completed save.

use vstd::prelude::*;

verus! {

/// Rectangle describing a crop region, in source pixel coordinates.
#[derive(Debug, Clone, PartialEq)]
pub struct Rect {
    pub x: u32,
    pub y: u32,
    pub w: u32,
    pub h: u32,
}

/// Width and height of an image, in pixels.
#[derive(Debug, Clone, PartialEq, Eq, Copy, Default, Structural)]
pub struct ImgSize {
    pub width: usize,
    pub height: usize,
}

impl ImgSize {
    pub fn new(width: usize, height: usize) -> (s: Self)
        ensures
            s.width == width,
            s.height == height,
    {
        Self { width, height }
    }
}

/// Outcome of a completed save: where the bytes went, and the byte
/// counts before (source file) and after (written payload).
#[derive(Debug, Clone, PartialEq)]
pub struct SaveStatus {
    pub output_path: Option<String>,
    pub before_filesize: Option<u64>,
    pub after_filesize: Option<u64>,
}

/// A fully prepared save: the resolved output path and the exact bytes
/// that belong there.  Writing the payload to the path, an I/O action,
/// is the caller's part; recording a completed write back into the
/// document is `record_save`'s.
#[derive(Debug, Clone, PartialEq)]
pub struct SavePlan {
    pub path: String,
    pub payload: Vec<u8>,
}

} // verus!
