use taglib_picture::error::Error;
use taglib_picture::error::TagLibError;
use taglib_picture::write_status;
use taglib_picture::File;

/// A 1x1 RGBA PNG, encoded in memory.
fn png_1x1() -> Vec<u8> {
    let img = image::RgbaImage::new(1, 1);
    let mut buf: Vec<u8> = Vec::new();
    let mut cursor = std::io::Cursor::new(&mut buf);
    img.write_to(&mut cursor, image::ImageFormat::Png).unwrap();
    buf
}

fn open_file() -> File {
    File::new(0x1000).unwrap()
}

#[test]
fn status_codes_map_to_their_own_kinds() {
    assert_eq!(TagLibError::from_status_code(1), TagLibError::Mp3fileTag);
    assert_eq!(TagLibError::from_status_code(11), TagLibError::Mp4fileCovrFrame);
    assert_eq!(TagLibError::from_status_code(12), TagLibError::Mp4fileCovrList);
    assert_eq!(TagLibError::from_status_code(21), TagLibError::AsffileTag);
    assert_eq!(TagLibError::from_status_code(31), TagLibError::Id3v2Tag);
    assert_eq!(TagLibError::from_status_code(41), TagLibError::XiphTag);
    assert_eq!(TagLibError::from_status_code(91), TagLibError::UnsupportedFile);
    assert_eq!(TagLibError::from_status_code(92), TagLibError::Id3andXiphNotFound);
}

#[test]
fn undocumented_status_codes_fall_back_to_unknown() {
    assert_eq!(TagLibError::from_status_code(2), TagLibError::Unknown);
    assert_eq!(TagLibError::from_status_code(-1), TagLibError::Unknown);
    assert_eq!(TagLibError::from_status_code(0), TagLibError::Unknown);
    assert_eq!(TagLibError::from_status_code(i32::MAX), TagLibError::Unknown);
}

#[test]
fn null_handle_is_invalid_file_name() {
    match File::new(0) {
        Err(e) => assert_eq!(e, Error::InvalidFileName),
        Ok(_) => panic!("a null handle must not open"),
    }
}

#[test]
fn nonnull_handle_opens_unreleased() {
    let f = File::new(0x2a0).unwrap();
    assert_eq!(f.handle(), 0x2a0);
    assert!(!f.is_released());
}

#[test]
fn release_hands_the_handle_back_once() {
    let mut f = File::new(0x2a0).unwrap();
    let raw = f.release();
    assert_eq!(raw, 0x2a0);
    assert!(f.is_released());
}

#[test]
fn read_cover_maps_missing_xiph_cover() {
    let f = open_file();
    let r = f.read_cover(41, Vec::new(), b"image/png".to_vec());
    assert_eq!(r.unwrap_err(), Error::TagLibError(TagLibError::XiphTag));
}

#[test]
fn read_cover_maps_missing_id3v2_tag() {
    let f = open_file();
    let r = f.read_cover(1, Vec::new(), Vec::new());
    assert_eq!(r.unwrap_err(), Error::TagLibError(TagLibError::Mp3fileTag));
}

#[test]
fn read_cover_maps_unknown_status() {
    let f = open_file();
    let r = f.read_cover(77, Vec::new(), Vec::new());
    assert_eq!(r.unwrap_err(), Error::TagLibError(TagLibError::Unknown));
}

#[test]
fn read_cover_copies_bytes_and_decodes_mime() {
    let f = open_file();
    let p = f.read_cover(0, vec![1, 2, 3], b"image/jpeg".to_vec()).unwrap();
    assert_eq!(p.data, vec![1, 2, 3]);
    assert_eq!(p.mime, "image/jpeg");
}

#[test]
fn read_cover_rejects_invalid_utf8_mime() {
    let f = open_file();
    let r = f.read_cover(0, vec![1, 2, 3], vec![0xff, 0xfe, 0x20]);
    assert_eq!(r.unwrap_err(), Error::Utf8Error);
}

#[test]
fn write_cover_rejects_text_bytes() {
    let f = open_file();
    let r = f.write_cover(b"these bytes are prose, not pixels".to_vec(), "image/png".to_string());
    assert_eq!(r.unwrap_err(), Error::ImageError);
}

#[test]
fn write_cover_rejects_empty_bytes() {
    let f = open_file();
    let r = f.write_cover(Vec::new(), "image/png".to_string());
    assert_eq!(r.unwrap_err(), Error::ImageError);
}

#[test]
fn write_cover_measures_a_png() {
    let png = png_1x1();
    let f = open_file();
    let (picture, meta) = f.write_cover(png.clone(), "image/png".to_string()).unwrap();
    assert_eq!(picture.data, png);
    assert_eq!(picture.mime, "image/png");
    assert_eq!(meta.width, 1);
    assert_eq!(meta.height, 1);
    assert_eq!(meta.depth, 32);
}

#[test]
fn write_then_read_is_byte_identical() {
    let png = png_1x1();
    let f = open_file();
    let (stored, _meta) = f.write_cover(png.clone(), "image/png".to_string()).unwrap();
    // If the native layer keeps what it was handed, a read returns status 0,
    // the stored bytes, and the stored MIME string's bytes.
    let back = f.read_cover(0, stored.data, stored.mime.into_bytes()).unwrap();
    assert_eq!(back.data, png);
    assert_eq!(back.mime, "image/png");
}

#[test]
fn write_status_zero_is_never_an_error() {
    assert!(write_status(0).is_ok());
}

#[test]
fn write_status_nonzero_surfaces_the_exact_kind() {
    assert_eq!(write_status(1).unwrap_err(), Error::TagLibError(TagLibError::Mp3fileTag));
    assert_eq!(write_status(91).unwrap_err(), Error::TagLibError(TagLibError::UnsupportedFile));
    assert_eq!(write_status(13).unwrap_err(), Error::TagLibError(TagLibError::Unknown));
}
