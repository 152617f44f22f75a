use rusimg::backend::open_image;
use rusimg::errors::RusimgError;
use rusimg::extension::Extension;
use rusimg::pixels::PixelImage;
use rusimg::structs::Rect;
use rusimg::RusImg;

/// A deterministic RGBA gradient test image.
fn gradient(width: u32, height: u32) -> PixelImage {
    let mut data: Vec<u8> = Vec::new();
    for y in 0..height {
        for x in 0..width {
            data.push((x * 3) as u8);
            data.push((y * 5) as u8);
            data.push((x * y) as u8);
            data.push(255);
        }
    }
    PixelImage { width, height, has_alpha: false, data }
}

/// The PNG bytes of a gradient test image, as if read from a file.
fn generate_test_image(filename: &str, width: u32, height: u32) -> (String, Vec<u8>, u64) {
    let img = RusImg::new(&Extension::Png, gradient(width, height)).unwrap();
    let plan = img.save_image(Some(filename), false).unwrap();
    let len = plan.payload.len() as u64;
    (plan.path, plan.payload, len)
}

#[test]
fn test_open_image() {
    let filename = "test_image1.png";
    let width = 100;
    let height = 100;
    let (path, bytes, len) = generate_test_image(filename, width, height);
    let result = open_image(path, Some(bytes), Some(len));
    assert!(result.is_ok());
}

#[test]
fn test_get_image_size() {
    let filename = "test_image2.png";
    let width = 100;
    let height = 100;
    let (path, bytes, len) = generate_test_image(filename, width, height);
    let img = open_image(path, Some(bytes), Some(len)).unwrap();
    let size = img.get_image_size().unwrap();
    assert_eq!(size.width, 100);
    assert_eq!(size.height, 100);
}

#[test]
fn test_resize_image() {
    let filename = "test_image3.png";
    let width = 100;
    let height = 100;
    let (path, bytes, len) = generate_test_image(filename, width, height);
    let mut img = open_image(path, Some(bytes), Some(len)).unwrap();
    let size = img.resize(50).unwrap();
    assert_eq!(size.width, 50);
    assert_eq!(size.height, 50);
}

#[test]
fn test_trim_image() {
    let filename = "test_image4.png";
    let width = 100;
    let height = 100;
    let (path, bytes, len) = generate_test_image(filename, width, height);
    let mut img = open_image(path, Some(bytes), Some(len)).unwrap();
    let size = img.trim(10, 10, 50, 50).unwrap();
    assert_eq!(size.width, 50);
    assert_eq!(size.height, 50);
}

#[test]
fn test_trim_rect_image() {
    let filename = "test_image5.png";
    let width = 100;
    let height = 100;
    let (path, bytes, len) = generate_test_image(filename, width, height);
    let mut img = open_image(path, Some(bytes), Some(len)).unwrap();
    let rect = Rect { x: 10, y: 10, w: 50, h: 50 };
    let size = img.trim_rect(rect).unwrap();
    assert_eq!(size.width, 50);
    assert_eq!(size.height, 50);
}

#[test]
fn test_grayscale_image() {
    let filename = "test_image6.png";
    let width = 100;
    let height = 100;
    let (path, bytes, len) = generate_test_image(filename, width, height);
    let mut img = open_image(path, Some(bytes), Some(len)).unwrap();
    let result = img.grayscale();
    assert!(result.is_ok());
    // color check
    let pixels = img.get_dynamic_image().unwrap();
    for px in pixels.data.chunks(4) {
        assert_eq!(px[0], px[1]);
        assert_eq!(px[1], px[2]);
    }
}

#[test]
fn test_compress_image() {
    let filename = "test_image7.png";
    let width = 100;
    let height = 100;
    let (path, bytes, len) = generate_test_image(filename, width, height);
    let mut img = open_image(path, Some(bytes), Some(len)).unwrap();
    let result = img.compress(Some(30));
    assert!(result.is_ok());
    // size check
    let plan = img.save_image(None, false).unwrap();
    let status = img.record_save(plan).unwrap();
    let before_size = status.before_filesize.unwrap();
    let after_size = status.after_filesize.unwrap();
    assert!(after_size < before_size);
}

#[test]
fn test_convert_image() {
    let filename = "test_image8.png";
    let width = 100;
    let height = 100;
    let (path, bytes, len) = generate_test_image(filename, width, height);
    let mut img = open_image(path.clone(), Some(bytes.clone()), Some(len)).unwrap();
    let result = img.convert(&Extension::Webp);
    assert!(result.is_ok());
    // file types
    let rusimg_extensions = vec![
        Extension::Bmp,
        Extension::Jpeg,
        Extension::Jpg,
        Extension::Png,
        Extension::Webp,
    ];
    let sniffed_extensions = vec![
        Extension::Bmp,
        Extension::Jpeg,
        Extension::Jpeg,
        Extension::Png,
        Extension::Webp,
    ];
    for (ext, sniffed_ext) in rusimg_extensions.iter().zip(sniffed_extensions.iter()) {
        let mut image_cloned = open_image(path.clone(), Some(bytes.clone()), Some(len)).unwrap();
        image_cloned.convert(ext).unwrap();
        let new_filename = format!("{}_output", filename);
        let plan = image_cloned.save_image(Some(&new_filename), false).unwrap();
        // Check that the written bytes carry the converted format's signature.
        let guessed = rusimg::sniff::sniff_format(&plan.payload).unwrap();
        assert_eq!(guessed, *sniffed_ext);
    }
}

#[test]
fn test_set_dynamic_image() {
    let filename = "test_image9.png";
    let width = 100;
    let height = 100;
    let (path, bytes, len) = generate_test_image(filename, width, height);
    let mut img = open_image(path, Some(bytes), Some(len)).unwrap();
    let replacement = gradient(40, 30);
    let result = img.set_dynamic_image(replacement);
    assert!(result.is_ok());
    let size = img.get_image_size().unwrap();
    assert_eq!(size.width, 40);
    assert_eq!(size.height, 30);
}

#[test]
fn test_get_dynamic_image() {
    let filename = "test_image10.png";
    let width = 100;
    let height = 100;
    let (path, bytes, len) = generate_test_image(filename, width, height);
    let mut img = open_image(path, Some(bytes), Some(len)).unwrap();
    let result = img.get_dynamic_image();
    assert!(result.is_ok());
}

#[test]
fn test_remove_alpha_channel() {
    let filename = "test_image11.png";
    let width = 100;
    let height = 100;
    let (path, bytes, len) = generate_test_image(filename, width, height);
    let mut img = open_image(path, Some(bytes), Some(len)).unwrap();
    let result = img.remove_alpha_channel();
    assert!(result.is_ok());
    // Check that the image carries no alpha channel.
    let pixels = img.get_dynamic_image().unwrap();
    assert!(!pixels.has_alpha);
}

#[test]
fn test_get_extension() {
    let filename = "test_image12.png";
    let width = 100;
    let height = 100;
    let (path, bytes, len) = generate_test_image(filename, width, height);
    let img = open_image(path, Some(bytes), Some(len)).unwrap();
    let extension = img.get_extension();
    assert_eq!(extension, Extension::Png);
}

#[test]
fn test_get_input_filepath() {
    let filename = "test_image13.png";
    let width = 100;
    let height = 100;
    let (path, bytes, len) = generate_test_image(filename, width, height);
    let img = open_image(path, Some(bytes), Some(len)).unwrap();
    let input_filepath = img.get_input_filepath().unwrap();
    assert_eq!(input_filepath, filename.to_string());
}

#[test]
fn test_save_image() {
    let filename = "test_image14.png";
    let width = 100;
    let height = 100;
    let (path, bytes, len) = generate_test_image(filename, width, height);
    let mut img = open_image(path, Some(bytes), Some(len)).unwrap();
    let result = img.save_image(Some("test_image_saved.png"), false);
    assert!(result.is_ok());
    let plan = result.unwrap();
    assert_eq!(plan.path, "test_image_saved.png".to_string());
    let status = img.record_save(plan).unwrap();
    assert_eq!(status.output_path.unwrap(), "test_image_saved.png".to_string());
}

#[test]
fn test_err_failed_to_open_image() {
    // Not supported image format
    let path = "test_image1.txt".to_string();
    let contents = "This is a test file.".as_bytes().to_vec();
    let len = contents.len() as u64;
    let result = open_image(path, Some(contents), Some(len));
    assert!(result.is_err());
    if let Err(e) = result {
        if let RusimgError::FailedToOpenImage(_) = e {
            // Expected error
        } else {
            panic!("Unexpected error: {:?}", e);
        }
    } else {
        panic!("Expected an error, but got Ok");
    }
}

#[test]
fn test_err_invalid_compression_level() {
    let filename = "test_image16.png";
    let width = 100;
    let height = 100;
    let (path, bytes, len) = generate_test_image(filename, width, height);
    let mut img = open_image(path, Some(bytes), Some(len)).unwrap();
    let result1 = img.compress(Some(150));
    let result2 = img.compress(Some(-10));
    assert!(result1.is_err());
    assert!(result2.is_err());
    if let Err(e) = result1 {
        if let RusimgError::InvalidCompressionLevel = e {
            // Expected error
        } else {
            panic!("Unexpected error: {:?}", e);
        }
    } else {
        panic!("Expected an error, but got Ok");
    }
    if let Err(e) = result2 {
        if let RusimgError::InvalidCompressionLevel = e {
            // Expected error
        } else {
            panic!("Unexpected error: {:?}", e);
        }
    } else {
        panic!("Expected an error, but got Ok");
    }
}

#[test]
fn test_err_invalid_trim_xy() {
    let filename = "test_image17.png";
    let width = 100;
    let height = 100;
    let (path, bytes, len) = generate_test_image(filename, width, height);
    let mut img = open_image(path, Some(bytes), Some(len)).unwrap();
    let result = img.trim(150, 150, 50, 50);
    assert!(result.is_err());
    if let Err(e) = result {
        if let RusimgError::InvalidTrimXY = e {
            // Expected error
        } else {
            panic!("Unexpected error: {:?}", e);
        }
    } else {
        panic!("Expected an error, but got Ok");
    }
}

#[test]
fn test_err_invalid_resize_ratio() {
    let filename = "test_image18.png";
    let width = 100;
    let height = 100;
    let (path, bytes, len) = generate_test_image(filename, width, height);
    let mut img = open_image(path, Some(bytes), Some(len)).unwrap();
    let result = img.resize(0);
    assert!(result.is_err());
    if let Err(e) = result {
        if let RusimgError::InvalidResizeRatio = e {
            // Expected error
        } else {
            panic!("Unexpected error: {:?}", e);
        }
    } else {
        panic!("Expected an error, but got Ok");
    }
}

#[test]
fn test_err_image_format_cannot_be_compressed() {
    let filename = "test_image19.bmp";
    let width = 100;
    let height = 100;
    let img_png = RusImg::new(&Extension::Bmp, gradient(width, height)).unwrap();
    let plan = img_png.save_image(Some(filename), false).unwrap();
    let len = plan.payload.len() as u64;
    let mut img = open_image(plan.path, Some(plan.payload), Some(len)).unwrap();
    assert_eq!(img.get_extension(), Extension::Bmp);
    let result = img.compress(Some(50));
    assert!(result.is_err());
    if let Err(e) = result {
        if let RusimgError::ImageFormatCannotBeCompressed = e {
            // Expected error
        } else {
            panic!("Unexpected error: {:?}", e);
        }
    } else {
        panic!("Expected an error, but got Ok");
    }
}

#[test]
fn test_err_source_path_must_be_specified() {
    let filename = "test_image20.png";
    let width = 100;
    let height = 100;
    let (path, bytes, len) = generate_test_image(filename, width, height);
    let img = open_image(path, Some(bytes), Some(len)).unwrap();
    let result = img.get_input_filepath();
    assert!(result.is_ok());
}
