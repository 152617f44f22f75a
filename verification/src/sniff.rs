//! Format sniffing: classify a raw byte buffer by its magic header.
//!
//! This runs exactly once, when a document is opened, before any
//! backend is constructed; the dispatcher never guesses a format from
//! a file-extension string.

use vstd::prelude::*;

use crate::extension::Extension;

verus! {

/// The buffer starts with the eight-byte PNG signature.
pub open spec fn is_png_magic(b: Seq<u8>) -> bool {
    b.len() >= 8 && b[0] == 0x89u8 && b[1] == 0x50u8 && b[2] == 0x4eu8 && b[3] == 0x47u8 && b[4]
        == 0x0du8 && b[5] == 0x0au8 && b[6] == 0x1au8 && b[7] == 0x0au8
}

/// The buffer starts with the JPEG start-of-image marker.
pub open spec fn is_jpeg_magic(b: Seq<u8>) -> bool {
    b.len() >= 3 && b[0] == 0xffu8 && b[1] == 0xd8u8 && b[2] == 0xffu8
}

/// The buffer starts with the BMP signature `BM`.
pub open spec fn is_bmp_magic(b: Seq<u8>) -> bool {
    b.len() >= 2 && b[0] == 0x42u8 && b[1] == 0x4du8
}

/// The buffer is a RIFF container whose form type is `WEBP`.
pub open spec fn is_webp_magic(b: Seq<u8>) -> bool {
    b.len() >= 12 && b[0] == 0x52u8 && b[1] == 0x49u8 && b[2] == 0x46u8 && b[3] == 0x46u8 && b[8]
        == 0x57u8 && b[9] == 0x45u8 && b[10] == 0x42u8 && b[11] == 0x50u8
}

/// The buffer carries the signature of an image format this library
/// knows of but does not serve (GIF or TIFF).
pub open spec fn is_foreign_magic(b: Seq<u8>) -> bool {
    ||| (b.len() >= 4 && b[0] == 0x47u8 && b[1] == 0x49u8 && b[2] == 0x46u8 && b[3] == 0x38u8)
    ||| (b.len() >= 4 && b[0] == 0x49u8 && b[1] == 0x49u8 && b[2] == 0x2au8 && b[3] == 0x00u8)
    ||| (b.len() >= 4 && b[0] == 0x4du8 && b[1] == 0x4du8 && b[2] == 0x00u8 && b[3] == 0x2au8)
}

/// What the sniffer answers for a buffer: the tag of the one magic
/// signature the buffer starts with, or `None`.
pub open spec fn spec_sniff(b: Seq<u8>) -> Option<Extension> {
    if is_png_magic(b) {
        Some(Extension::Png)
    } else if is_jpeg_magic(b) {
        Some(Extension::Jpeg)
    } else if is_bmp_magic(b) {
        Some(Extension::Bmp)
    } else if is_webp_magic(b) {
        Some(Extension::Webp)
    } else {
        None
    }
}

/// Classify a byte buffer by its magic header.
pub fn sniff_format(buf: &[u8]) -> (r: Option<Extension>)
    ensures
        r == spec_sniff(buf@),
{
    if buf.len() >= 8 && buf[0] == 0x89 && buf[1] == 0x50 && buf[2] == 0x4e && buf[3] == 0x47
        && buf[4] == 0x0d && buf[5] == 0x0a && buf[6] == 0x1a && buf[7] == 0x0a {
        Some(Extension::Png)
    } else if buf.len() >= 3 && buf[0] == 0xff && buf[1] == 0xd8 && buf[2] == 0xff {
        Some(Extension::Jpeg)
    } else if buf.len() >= 2 && buf[0] == 0x42 && buf[1] == 0x4d {
        Some(Extension::Bmp)
    } else if buf.len() >= 12 && buf[0] == 0x52 && buf[1] == 0x49 && buf[2] == 0x46 && buf[3]
        == 0x46 && buf[8] == 0x57 && buf[9] == 0x45 && buf[10] == 0x42 && buf[11] == 0x50 {
        Some(Extension::Webp)
    } else {
        None
    }
}

/// Report whether the buffer starts with the signature of a known but
/// unserved format; such a buffer is rejected as an unsupported file
/// extension rather than as undecodable data.
pub fn is_foreign_format(buf: &[u8]) -> (r: bool)
    ensures
        r == is_foreign_magic(buf@),
{
    buf.len() >= 4 && ((buf[0] == 0x47 && buf[1] == 0x49 && buf[2] == 0x46 && buf[3] == 0x38) || (
    buf[0] == 0x49 && buf[1] == 0x49 && buf[2] == 0x2a && buf[3] == 0x00) || (buf[0] == 0x4d
        && buf[1] == 0x4d && buf[2] == 0x00 && buf[3] == 0x2a))
}

} // verus!
