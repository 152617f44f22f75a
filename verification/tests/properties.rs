use rusimg::backend::open_image;
use rusimg::errors::RusimgError;
use rusimg::extension::Extension;
use rusimg::pixels::PixelImage;
use rusimg::RusImg;

/// A deterministic RGBA gradient test image.
fn gradient(width: u32, height: u32) -> PixelImage {
    let mut data: Vec<u8> = Vec::new();
    for y in 0..height {
        for x in 0..width {
            data.push((x * 7) as u8);
            data.push((y * 11) as u8);
            data.push((x + y) as u8);
            data.push(255);
        }
    }
    PixelImage { width, height, has_alpha: false, data }
}

/// Save a fresh document of the given format, reopen the payload, and
/// report the reopened dimensions.
fn round_trip_dims(ext: Extension, width: u32, height: u32) -> (usize, usize) {
    let name = format!("round_trip.{}", ext.name());
    let img = RusImg::new(&ext, gradient(width, height)).unwrap();
    let plan = img.save_image(Some(&name), false).unwrap();
    let len = plan.payload.len() as u64;
    let reopened = open_image(plan.path, Some(plan.payload), Some(len)).unwrap();
    let size = reopened.get_image_size().unwrap();
    (size.width, size.height)
}

#[test]
fn round_trip_preserves_dimensions_bmp() {
    assert_eq!(round_trip_dims(Extension::Bmp, 40, 20), (40, 20));
}

#[test]
fn round_trip_preserves_dimensions_jpeg() {
    assert_eq!(round_trip_dims(Extension::Jpeg, 40, 20), (40, 20));
}

#[test]
fn round_trip_preserves_dimensions_png() {
    assert_eq!(round_trip_dims(Extension::Png, 40, 20), (40, 20));
}

#[test]
fn round_trip_preserves_dimensions_webp() {
    assert_eq!(round_trip_dims(Extension::Webp, 40, 20), (40, 20));
}

#[test]
fn round_trip_preserves_dimensions_after_edits() {
    let img0 = RusImg::new(&Extension::Png, gradient(100, 100)).unwrap();
    let plan0 = img0.save_image(Some("edited.png"), false).unwrap();
    let len0 = plan0.payload.len() as u64;
    let mut img = open_image(plan0.path, Some(plan0.payload), Some(len0)).unwrap();
    img.resize(50).unwrap();
    img.compress(Some(40)).unwrap();
    let plan = img.save_image(None, false).unwrap();
    let len = plan.payload.len() as u64;
    let reopened = open_image(plan.path, Some(plan.payload), Some(len)).unwrap();
    let size = reopened.get_image_size().unwrap();
    assert_eq!((size.width, size.height), (50, 50));
}

#[test]
fn resize_100_keeps_dimensions() {
    let mut img = RusImg::new(&Extension::Png, gradient(73, 31)).unwrap();
    let size = img.resize(100).unwrap();
    assert_eq!((size.width, size.height), (73, 31));
    let size = img.get_image_size().unwrap();
    assert_eq!((size.width, size.height), (73, 31));
}

#[test]
fn trim_clamps_to_available_area() {
    // Image 100x100: a rectangle reaching past the bounds from an
    // inside origin is clamped to the available area.
    let mut img = RusImg::new(&Extension::Png, gradient(100, 100)).unwrap();
    let size = img.trim(10, 10, 200, 200).unwrap();
    assert_eq!((size.width, size.height), (90, 90));
    // An origin outside the bounds is rejected.
    let mut img2 = RusImg::new(&Extension::Png, gradient(100, 100)).unwrap();
    let result = img2.trim(150, 150, 50, 50);
    assert!(matches!(result, Err(RusimgError::InvalidTrimXY)));
}

#[test]
fn webp_passthrough_writes_source_bytes_verbatim() {
    // Build real WebP bytes.
    let img0 = RusImg::new(&Extension::Webp, gradient(64, 48)).unwrap();
    let plan0 = img0.save_image(Some("source.webp"), false).unwrap();
    let source_bytes = plan0.payload.clone();
    let len0 = source_bytes.len() as u64;
    // Opened and saved with zero edits: byte-identical passthrough.
    let untouched = open_image(plan0.path.clone(), Some(plan0.payload), Some(len0)).unwrap();
    let plan1 = untouched.save_image(None, false).unwrap();
    assert_eq!(plan1.payload, source_bytes);
    // The same file, edited before the save, is re-encoded.
    let mut edited = open_image(plan0.path, Some(source_bytes.clone()), Some(len0)).unwrap();
    edited.grayscale().unwrap();
    let plan2 = edited.save_image(None, false).unwrap();
    assert_ne!(plan2.payload, source_bytes);
}

#[test]
fn png_quality_buckets_select_optimizer_presets() {
    let img0 = RusImg::new(&Extension::Png, gradient(100, 100)).unwrap();
    let plan0 = img0.save_image(Some("buckets.png"), false).unwrap();
    let source_bytes = plan0.payload.clone();
    let len0 = source_bytes.len() as u64;
    let cases: Vec<(Option<i32>, u8)> = vec![(Some(10), 1), (Some(90), 6), (None, 5)];
    for (quality, level) in cases {
        let mut img =
            open_image(plan0.path.clone(), Some(source_bytes.clone()), Some(len0)).unwrap();
        img.compress(quality).unwrap();
        let plan = img.save_image(None, false).unwrap();
        let expected =
            oxipng::optimize_from_memory(&source_bytes, &oxipng::Options::from_preset(level))
                .unwrap();
        assert_eq!(plan.payload, expected);
    }
}

#[test]
fn png_compressed_output_is_no_larger() {
    let img0 = RusImg::new(&Extension::Png, gradient(100, 100)).unwrap();
    let plan0 = img0.save_image(Some("smaller.png"), false).unwrap();
    let len0 = plan0.payload.len() as u64;
    let uncompressed_len = plan0.payload.len();
    let mut img = open_image(plan0.path, Some(plan0.payload), Some(len0)).unwrap();
    img.compress(Some(90)).unwrap();
    let plan = img.save_image(None, false).unwrap();
    assert!(plan.payload.len() <= uncompressed_len);
}

#[test]
fn bmp_compress_always_fails() {
    for quality in vec![None, Some(0), Some(50), Some(100)] {
        let mut img = RusImg::new(&Extension::Bmp, gradient(10, 10)).unwrap();
        let result = img.compress(quality);
        assert!(matches!(result, Err(RusimgError::ImageFormatCannotBeCompressed)));
    }
}

#[test]
fn convert_to_same_tag_builds_fresh_backend() {
    let img0 = RusImg::new(&Extension::Png, gradient(100, 100)).unwrap();
    let plan0 = img0.save_image(Some("fresh.png"), false).unwrap();
    let source_bytes = plan0.payload.clone();
    let len0 = source_bytes.len() as u64;
    // Compress, then convert to the tag the document already has: the
    // conversion succeeds, and the pending compressed bytes are gone.
    let mut img = open_image(plan0.path.clone(), Some(plan0.payload), Some(len0)).unwrap();
    img.compress(Some(10)).unwrap();
    let compressed_payload = img.save_image(None, false).unwrap().payload;
    img.convert(&Extension::Png).unwrap();
    assert_eq!(img.get_extension(), Extension::Png);
    let plan = img.save_image(None, false).unwrap();
    assert_ne!(plan.payload, compressed_payload);
}

#[test]
fn saving_into_directory_joins_source_file_name() {
    let img0 = RusImg::new(&Extension::Png, gradient(8, 8)).unwrap();
    let plan0 = img0.save_image(Some("indir/test_photo.png"), false).unwrap();
    let len0 = plan0.payload.len() as u64;
    let img = open_image(plan0.path, Some(plan0.payload), Some(len0)).unwrap();
    let plan = img.save_image(Some("outdir"), true).unwrap();
    assert_eq!(plan.path, "outdir/test_photo.png".to_string());
}

#[test]
fn missing_file_opens_as_empty_placeholder() {
    let mut img = open_image("not_there.png".to_string(), None, None).unwrap();
    assert_eq!(img.get_extension(), Extension::Empty);
    assert!(matches!(img.get_image_size(), Err(RusimgError::ImageNotSpecified)));
    assert!(matches!(img.save_image(None, false), Err(RusimgError::UnsupportedFeature)));
    assert!(matches!(img.compress(Some(50)), Err(RusimgError::ImageFormatCannotBeCompressed)));
    // Fill it, convert it, and save it to the path it was aimed at.
    img.set_dynamic_image(gradient(5, 5)).unwrap();
    img.convert(&Extension::Png).unwrap();
    let plan = img.save_image(None, false).unwrap();
    assert_eq!(plan.path, "not_there.png".to_string());
}

#[test]
fn convert_from_empty_without_pixels_fails() {
    let mut img = open_image("placeholder.webp".to_string(), None, None).unwrap();
    let result = img.convert(&Extension::Png);
    assert!(matches!(result, Err(RusimgError::ImageNotSpecified)));
}

#[test]
fn new_document_rejects_the_jpg_alias() {
    // Only the four canonical tags build a backend from pixels; the
    // `Jpg` alias is accepted by `convert`, not by `new`.
    let result = RusImg::new(&Extension::Jpg, gradient(4, 4));
    assert!(matches!(result, Err(RusimgError::UnsupportedFileExtension)));
    let mut img = RusImg::new(&Extension::Png, gradient(4, 4)).unwrap();
    img.convert(&Extension::Jpg).unwrap();
    assert_eq!(img.get_extension(), Extension::Jpg);
}

#[test]
fn remove_alpha_keeps_colour_bytes() {
    // An alpha-bearing buffer keeps its colour bytes and gets alpha
    // 255 everywhere; an alpha-less buffer is left untouched.
    let mut with_alpha = gradient(6, 5);
    with_alpha.has_alpha = true;
    for px in with_alpha.data.chunks_mut(4) {
        px[3] = 7;
    }
    let expected: Vec<u8> = with_alpha
        .data
        .iter()
        .enumerate()
        .map(|(j, b)| if j % 4 == 3 { 255 } else { *b })
        .collect();
    let mut img = RusImg::new(&Extension::Png, with_alpha).unwrap();
    img.remove_alpha_channel().unwrap();
    let px = img.get_dynamic_image().unwrap();
    assert!(!px.has_alpha);
    assert_eq!(px.data, expected);
    // Without alpha: a no-op.
    let mut img2 = RusImg::new(&Extension::Png, gradient(6, 5)).unwrap();
    let before = img2.get_dynamic_image().unwrap();
    img2.remove_alpha_channel().unwrap();
    let after = img2.get_dynamic_image().unwrap();
    assert_eq!(before.data, after.data);
}

#[test]
fn convert_to_external_format_fails() {
    let mut img = RusImg::new(&Extension::Png, gradient(4, 4)).unwrap();
    let result = img.convert(&Extension::ExternalFormat("tiff".to_string()));
    assert!(matches!(result, Err(RusimgError::UnsupportedFileExtension)));
    let result = img.convert(&Extension::Empty);
    assert!(matches!(result, Err(RusimgError::UnsupportedFileExtension)));
}
