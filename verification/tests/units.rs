use rusimg::backend::{open_image, open_image_with_config, BackendConfig};
use rusimg::errors::RusimgError;
use rusimg::extension::Extension;
use rusimg::pixels::PixelImage;
use rusimg::sniff::{is_foreign_format, sniff_format};
use rusimg::RusImg;

/// A deterministic RGBA gradient test image.
fn gradient(width: u32, height: u32) -> PixelImage {
    let mut data: Vec<u8> = Vec::new();
    for y in 0..height {
        for x in 0..width {
            data.push((x * 2 + 1) as u8);
            data.push((y * 3 + 1) as u8);
            data.push((x ^ y) as u8);
            data.push(255);
        }
    }
    PixelImage { width, height, has_alpha: false, data }
}

#[test]
fn sniffer_recognizes_magic_headers() {
    let png = vec![0x89, 0x50, 0x4e, 0x47, 0x0d, 0x0a, 0x1a, 0x0a, 0, 0];
    assert_eq!(sniff_format(&png), Some(Extension::Png));
    let jpeg = vec![0xff, 0xd8, 0xff, 0xe0];
    assert_eq!(sniff_format(&jpeg), Some(Extension::Jpeg));
    let bmp = vec![0x42, 0x4d, 0x00, 0x00];
    assert_eq!(sniff_format(&bmp), Some(Extension::Bmp));
    let webp = vec![
        0x52, 0x49, 0x46, 0x46, 0x10, 0x00, 0x00, 0x00, 0x57, 0x45, 0x42, 0x50, 0x56, 0x50,
    ];
    assert_eq!(sniff_format(&webp), Some(Extension::Webp));
    assert_eq!(sniff_format(&[]), None);
    assert_eq!(sniff_format("plain text".as_bytes()), None);
    // A RIFF container that is not WebP is not WebP.
    let wave = vec![
        0x52, 0x49, 0x46, 0x46, 0x10, 0x00, 0x00, 0x00, 0x57, 0x41, 0x56, 0x45, 0x00, 0x00,
    ];
    assert_eq!(sniff_format(&wave), None);
}

#[test]
fn foreign_magic_is_rejected_as_unsupported() {
    let gif = "GIF89a".as_bytes().to_vec();
    assert!(is_foreign_format(&gif));
    let len = gif.len() as u64;
    let result = open_image("anim.gif".to_string(), Some(gif), Some(len));
    assert!(matches!(result, Err(RusimgError::UnsupportedFileExtension)));
}

#[test]
fn disabled_backend_reports_unsupported_extension() {
    let img0 = RusImg::new(&Extension::Png, gradient(6, 6)).unwrap();
    let plan = img0.save_image(Some("disabled.png"), false).unwrap();
    let len = plan.payload.len() as u64;
    let cfg = BackendConfig { bmp: true, jpeg: true, png: false, webp: true };
    let result = open_image_with_config(&cfg, plan.path.clone(), Some(plan.payload.clone()), Some(len));
    assert!(matches!(result, Err(RusimgError::UnsupportedFileExtension)));
    // The same bytes open fine with the backend enabled.
    let cfg_all = BackendConfig::default();
    let result = open_image_with_config(&cfg_all, plan.path, Some(plan.payload), Some(len));
    assert!(result.is_ok());
}

#[test]
fn open_without_metadata_is_rejected() {
    let img0 = RusImg::new(&Extension::Png, gradient(6, 6)).unwrap();
    let plan = img0.save_image(Some("nometa.png"), false).unwrap();
    let result = open_image(plan.path, Some(plan.payload), None);
    assert!(matches!(result, Err(RusimgError::ImageNotSpecified)));
}

#[test]
fn save_without_source_or_destination_is_rejected() {
    let img = RusImg::new(&Extension::Png, gradient(6, 6)).unwrap();
    let result = img.save_image(None, false);
    assert!(matches!(result, Err(RusimgError::SourcePathMustBeSpecified)));
}

#[test]
fn save_reuses_source_path_with_swapped_extension() {
    // A JPEG opened from a `.jpeg` path keeps that spelling; one
    // opened from a `.jpg` path keeps that one.
    for name in vec!["photo.jpeg", "photo.jpg"] {
        let img0 = RusImg::new(&Extension::Jpeg, gradient(9, 9)).unwrap();
        let plan0 = img0.save_image(Some(name), false).unwrap();
        let len0 = plan0.payload.len() as u64;
        let img = open_image(plan0.path, Some(plan0.payload), Some(len0)).unwrap();
        let plan = img.save_image(None, false).unwrap();
        assert_eq!(plan.path, name.to_string());
    }
    // A PNG saved over its source swaps the extension to `.png`.
    let img0 = RusImg::new(&Extension::Png, gradient(9, 9)).unwrap();
    let plan0 = img0.save_image(Some("art.webp.bak"), false).unwrap();
    let len0 = plan0.payload.len() as u64;
    let img = open_image(plan0.path, Some(plan0.payload), Some(len0)).unwrap();
    let plan = img.save_image(None, false).unwrap();
    assert_eq!(plan.path, "art.webp.png".to_string());
}

#[test]
fn jpeg_save_encodes_with_recorded_quality() {
    let px = gradient(32, 24);
    let mut img = RusImg::new(&Extension::Jpeg, px.duplicate()).unwrap();
    img.compress(Some(40)).unwrap();
    let plan = img.save_image(Some("q40.jpg"), false).unwrap();
    // The payload is exactly what the JPEG encoder emits at quality 40
    // for the same RGBA samples.
    let mut expected: Vec<u8> = Vec::new();
    let encoder = jpeg_encoder::Encoder::new(&mut expected, 40);
    encoder
        .encode(&px.data, px.width as u16, px.height as u16, jpeg_encoder::ColorType::Rgba)
        .unwrap();
    assert_eq!(plan.payload, expected);
}

#[test]
fn webp_save_encodes_with_recorded_quality() {
    let px = gradient(32, 24);
    let mut img = RusImg::new(&Extension::Webp, px.duplicate()).unwrap();
    img.compress(Some(60)).unwrap();
    let plan = img.save_image(Some("q60.webp"), false).unwrap();
    let expected = webp::Encoder::from_rgba(&px.data, px.width, px.height).encode(60.0).to_vec();
    assert_eq!(plan.payload, expected);
}

#[test]
fn error_messages_name_their_cause() {
    assert_eq!(
        RusimgError::FailedToOpenFile("denied".to_string()).message(),
        "Failed to open file: denied".to_string()
    );
    assert_eq!(RusimgError::InvalidTrimXY.message(), "Invalid trim XY".to_string());
    assert_eq!(
        RusimgError::ImageFormatCannotBeCompressed.message(),
        "this image format cannot be compressed".to_string()
    );
    assert_eq!(
        RusimgError::FailedToCompressImage(None).message(),
        "Failed to compress image".to_string()
    );
}

#[test]
fn extension_names_are_their_file_extensions() {
    assert_eq!(Extension::Bmp.name(), "bmp".to_string());
    assert_eq!(Extension::Jpg.name(), "jpg".to_string());
    assert_eq!(Extension::Jpeg.name(), "jpeg".to_string());
    assert_eq!(Extension::Png.name(), "png".to_string());
    assert_eq!(Extension::Webp.name(), "webp".to_string());
    assert_eq!(Extension::ExternalFormat("tiff".to_string()).name(), "tiff".to_string());
}

#[test]
fn webp_decode_reads_back_real_dimensions() {
    // The decoder reports the dimensions of the encoded frame, not of
    // the buffer it was handed.
    let img0 = RusImg::new(&Extension::Webp, gradient(33, 17)).unwrap();
    let plan = img0.save_image(Some("dims.webp"), false).unwrap();
    let len = plan.payload.len() as u64;
    let mut reopened = open_image(plan.path, Some(plan.payload), Some(len)).unwrap();
    let size = reopened.get_image_size().unwrap();
    assert_eq!((size.width, size.height), (33, 17));
    let px = reopened.get_dynamic_image().unwrap();
    assert_eq!(px.data.len(), 33 * 17 * 4);
}
