use pyorion::api::clipboard::{ClipboardImage, ClipboardPixels};
use pyorion::encoding::{can_encode, decode, encode};

#[test]
fn bytes_are_written_as_standard_base64() {
    assert_eq!(encode(b"hello"), Some("aGVsbG8=".to_string()));
    assert_eq!(encode(&[0, 1, 2, 3]), Some("AAECAw==".to_string()));
    assert_eq!(encode(&[]), Some(String::new()));
    assert!(can_encode(&[1, 2, 3]));
}

#[test]
fn base64_is_read_as_bytes() {
    assert_eq!(decode("aGVsbG8="), Some(b"hello".to_vec()));
    assert_eq!(decode("AAECAw=="), Some(vec![0, 1, 2, 3]));
    assert_eq!(decode(""), Some(vec![]));
    assert_eq!(decode("not base64!"), None);
    assert_eq!(decode("aGVsbG8"), None);
}

#[test]
fn a_clipboard_image_carries_its_pixels_in_base64() {
    let image = ClipboardImage::from_pixels(2, 1, &[255, 0, 0, 255, 0, 0, 255, 128]);
    assert_eq!(
        image,
        Some(ClipboardImage { width: 2, height: 1, data: "/wAA/wAA/4A=".to_string() })
    );
    let pixels = image.unwrap().to_pixels();
    assert_eq!(
        pixels,
        Some(ClipboardPixels { width: 2, height: 1, bytes: vec![255, 0, 0, 255, 0, 0, 255, 128] })
    );
}

#[test]
fn a_clipboard_image_with_bad_data_has_no_pixels() {
    let image = ClipboardImage { width: 1, height: 1, data: "***".to_string() };
    assert_eq!(image.to_pixels(), None);
}
