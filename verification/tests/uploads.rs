use figure_backend::error::ServerError;
use figure_backend::upload::{image_format_check, image_format_verdict, parse_multipart, FieldRead, MultipartError};
use std::io::Cursor;

fn png_bytes(width: u32, height: u32) -> Vec<u8> {
    let image = image::RgbImage::from_pixel(width, height, image::Rgb([200, 30, 30]));
    let mut bytes = Vec::new();
    image::DynamicImage::ImageRgb8(image)
        .write_to(&mut Cursor::new(&mut bytes), image::ImageOutputFormat::Png)
        .unwrap();
    bytes
}

fn field(name: &str, data: &[u8]) -> FieldRead {
    FieldRead { name: Some(name.to_string()), data: Some(data.to_vec()) }
}

#[test]
fn png_upload_becomes_jpeg() {
    let png = png_bytes(5, 3);
    let fields = vec![field("title", b"Red"), field("description", b"A red square"), field("file", &png)];
    let upload = parse_multipart(fields).unwrap();
    assert_eq!(upload.title, "Red");
    assert_eq!(upload.description, Some("A red square".to_string()));
    assert_eq!((upload.width, upload.height), (5, 3));
    // JPEG start-of-image marker; the PNG signature would start with 0x89.
    assert_eq!(&upload.image[..2], &[0xFF, 0xD8]);
    assert_ne!(upload.image, png);
}

#[test]
fn later_fields_replace_earlier_and_unknown_are_ignored() {
    let png = png_bytes(2, 2);
    let fields = vec![
        field("title", b"First"),
        field("other", b"\xff\xfe"),
        field("file", b"not an image"),
        field("title", b"Second"),
        field("file", &png),
    ];
    let upload = parse_multipart(fields).unwrap();
    assert_eq!(upload.title, "Second");
    assert_eq!(upload.description, None);
    assert_eq!((upload.width, upload.height), (2, 2));
}

#[test]
fn refused_forms() {
    let png = png_bytes(2, 2);
    assert_eq!(parse_multipart(vec![field("file", &png)]).unwrap_err(), MultipartError::MissingField);
    assert_eq!(parse_multipart(vec![field("title", b"t")]).unwrap_err(), MultipartError::MissingField);
    assert_eq!(
        parse_multipart(vec![field("title", b"\xff"), field("file", &png)]).unwrap_err(),
        MultipartError::NotUtf8
    );
    assert_eq!(
        parse_multipart(vec![FieldRead { name: None, data: None }, field("title", b"\xff")]).unwrap_err(),
        MultipartError::MissingFieldName
    );
    assert_eq!(
        parse_multipart(vec![FieldRead { name: Some("file".to_string()), data: None }]).unwrap_err(),
        MultipartError::UnreadableField
    );
    assert_eq!(
        parse_multipart(vec![field("title", b"t"), field("file", b"plain text")]).unwrap_err(),
        MultipartError::UnknownFormat
    );
    assert_eq!(
        parse_multipart(vec![field("title", b"t"), field("file", b"GIF89a\x01\x00\x01\x00")]).unwrap_err(),
        MultipartError::InvalidImage
    );
    // A PNG signature with nothing behind it is recognised but does not decode.
    assert_eq!(
        parse_multipart(vec![field("title", b"t"), field("file", b"\x89PNG\r\n\x1a\n")]).unwrap_err(),
        MultipartError::InvalidImage
    );
    assert_eq!(MultipartError::InvalidImage.to_server_error(), ServerError::InvalidMultipart);
}

#[test]
fn format_verdict_on_guessed_extensions() {
    assert_eq!(image_format_verdict(&None), Err(MultipartError::UnknownFormat));
    assert_eq!(image_format_verdict(&Some(vec!["png"])), Ok(()));
    assert_eq!(image_format_verdict(&Some(vec!["jpg", "jpeg"])), Ok(()));
    assert_eq!(image_format_verdict(&Some(vec!["tif", "tiff"])), Err(MultipartError::InvalidImage));
    assert_eq!(image_format_verdict(&Some(vec![])), Err(MultipartError::InvalidImage));
}

#[test]
fn refused_at_the_first_bad_field_whatever_follows() {
    let png = png_bytes(2, 2);
    let fields = vec![
        field("title", b"ok"),
        field("description", b"\xc3\x28"),
        FieldRead { name: None, data: None },
        field("file", &png),
    ];
    assert_eq!(parse_multipart(fields).unwrap_err(), MultipartError::NotUtf8);
}

#[test]
fn format_check_by_signature() {
    assert_eq!(image_format_check(&png_bytes(1, 1)), Ok(()));
    assert_eq!(image_format_check(b"\x89PNG\r\n\x1a\n"), Ok(()));
    assert_eq!(image_format_check(&[0xff, 0xd8, 0xff, 0xe0]), Ok(()));
    assert_eq!(image_format_check(b"GIF89a"), Err(MultipartError::InvalidImage));
    assert_eq!(image_format_check(b"plain"), Err(MultipartError::UnknownFormat));
    assert_eq!(image_format_check(b""), Err(MultipartError::UnknownFormat));
}

#[test]
fn only_png_and_jpeg_signatures_pass() {
    assert!(image_format_check(b"BM\x00\x00").is_err());
    assert!(image_format_check(b"RIFF....WEBP").is_err());
    assert!(image_format_check(b"\x89PNG").is_err());
    assert!(image_format_check(&[0xff, 0xd8]).is_err());
}
