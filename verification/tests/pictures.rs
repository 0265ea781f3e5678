use image::{DynamicImage, ImageFormat, Rgb, RgbImage};
use std::io::Cursor;
use televideo::client::{Fetch, TelevideoClient};
use televideo::reply::{FetchError, Reply};

const MINUTE: u128 = 60_000_000_000;

fn picture() -> DynamicImage {
    let mut pixels = RgbImage::new(3, 2);
    pixels.put_pixel(0, 0, Rgb([255, 0, 0]));
    pixels.put_pixel(1, 0, Rgb([0, 255, 0]));
    pixels.put_pixel(2, 1, Rgb([0, 0, 255]));
    DynamicImage::ImageRgb8(pixels)
}

fn png_of(picture: &DynamicImage) -> Vec<u8> {
    let mut bytes = Vec::new();
    picture.write_to(&mut Cursor::new(&mut bytes), ImageFormat::Png).unwrap();
    bytes
}

fn delivered(bytes: Vec<u8>) -> Reply<Vec<u8>> {
    Reply::Answered { status: 200, body: Ok(bytes) }
}

#[test]
fn png_body_is_decoded_and_stored() {
    let mut client = TelevideoClient::new();
    let got = client.receive_image(100, 1, delivered(png_of(&picture()))).unwrap();
    assert_eq!(got, picture());
    assert_eq!(client.fetch_image(100, 1), Fetch::Cached(picture()));
    assert!(matches!(client.fetch_image(100, 2), Fetch::Request(_)));
}

#[test]
fn bytes_that_are_no_image_give_decode_error() {
    let mut client = TelevideoClient::new();
    for bytes in [Vec::new(), b"<html>not an image</html>".to_vec(), vec![0x89, b'P', b'N', b'G']] {
        assert_eq!(client.receive_image(100, 1, delivered(bytes)), Err(FetchError::Decode));
    }
    assert!(matches!(client.fetch_image(100, 1), Fetch::Request(_)));
}

#[test]
fn decode_error_keeps_the_stored_image() {
    let mut client = TelevideoClient::new();
    client.store_image(100, 1, Ok(picture()), 0).unwrap();
    assert_eq!(client.receive_image(100, 1, delivered(vec![1, 2, 3])), Err(FetchError::Decode));
    assert_eq!(client.fetch_image_at(100, 1, MINUTE), Fetch::Cached(picture()));
}

#[test]
fn stored_image_is_served_within_window() {
    let mut client = TelevideoClient::new();
    assert_eq!(client.store_image(200, 3, Ok(picture()), 1000), Ok(picture()));
    assert_eq!(client.fetch_image_at(200, 3, 1000), Fetch::Cached(picture()));
    assert_eq!(client.fetch_image_at(200, 3, 1000 + 5 * MINUTE - 1), Fetch::Cached(picture()));
    let address = "http://www.televideo.rai.it/televideo/pub/tt4web/Nazionale/16_9_page-200.3.png";
    assert_eq!(
        client.fetch_image_at(200, 3, 1000 + 5 * MINUTE),
        Fetch::Request(address.to_string())
    );
    assert!(matches!(client.fetch_image_at(200, 3, 999), Fetch::Request(_)));
}

#[test]
fn store_of_failed_decoding_is_decode_error() {
    let mut client = TelevideoClient::new();
    let failed = image::load_from_memory(b"junk");
    assert!(failed.is_err());
    assert_eq!(client.store_image(200, 1, failed, 0), Err(FetchError::Decode));
    assert!(matches!(client.fetch_image_at(200, 1, 0), Fetch::Request(_)));
}

#[test]
fn image_fetch_leaves_text_cache_alone() {
    let mut client = TelevideoClient::new();
    client.store_image(100, 1, Ok(picture()), 0).unwrap();
    assert!(matches!(client.fetch_page_at(100, 1, 0), Fetch::Request(_)));
    let reply = Reply::Answered { status: 200, body: Ok("<pre>x</pre>".to_string()) };
    let page = client.receive_page_at(100, 1, reply, 0, "t".to_string()).unwrap();
    client.store_image(100, 1, Ok(DynamicImage::new_rgb8(1, 1)), MINUTE).unwrap();
    assert_eq!(client.fetch_page_at(100, 1, MINUTE), Fetch::Cached(page));
    assert_eq!(client.fetch_image_at(100, 1, MINUTE), Fetch::Cached(DynamicImage::new_rgb8(1, 1)));
}

#[test]
fn clear_removes_images_too() {
    let mut client = TelevideoClient::new();
    client.store_image(100, 1, Ok(picture()), 0).unwrap();
    client.clear_cache();
    assert!(matches!(client.fetch_image_at(100, 1, 0), Fetch::Request(_)));
}

#[test]
fn newer_image_replaces_older() {
    let mut client = TelevideoClient::new();
    client.store_image(100, 1, Ok(picture()), 0).unwrap();
    client.store_image(100, 1, Ok(DynamicImage::new_luma8(2, 2)), MINUTE).unwrap();
    assert_eq!(client.fetch_image_at(100, 1, MINUTE), Fetch::Cached(DynamicImage::new_luma8(2, 2)));
    assert!(matches!(client.fetch_image_at(100, 1, 0), Fetch::Request(_)));
}

#[test]
fn every_format_built_in_is_decoded_as_the_image_crate_decodes_it() {
    let mut client = TelevideoClient::new();
    for format in [ImageFormat::Png, ImageFormat::Gif, ImageFormat::Jpeg] {
        let mut bytes = Vec::new();
        picture().write_to(&mut Cursor::new(&mut bytes), format).unwrap();
        let expected = image::load_from_memory(&bytes).unwrap();
        assert_eq!(client.receive_image(100, 1, delivered(bytes)), Ok(expected.clone()));
        assert_eq!(client.fetch_image(100, 1), Fetch::Cached(expected));
    }
}

#[test]
fn cut_off_image_is_decoded_as_the_image_crate_decodes_it() {
    let mut client = TelevideoClient::new();
    let bytes = png_of(&picture());
    for keep in 0..=bytes.len() {
        let cut = bytes[..keep].to_vec();
        let expected = match image::load_from_memory(&cut) {
            Ok(decoded) => Ok(decoded),
            Err(_) => Err(FetchError::Decode),
        };
        assert_eq!(client.receive_image(100, 1, delivered(cut)), expected, "{} bytes", keep);
    }
    for keep in [0, 1, 7, 8, 20] {
        let cut = bytes[..keep].to_vec();
        assert_eq!(client.receive_image(100, 1, delivered(cut)), Err(FetchError::Decode));
    }
}

#[test]
fn same_bytes_decode_to_the_same_image() {
    let mut client = TelevideoClient::new();
    let bytes = png_of(&picture());
    let first = client.receive_image(100, 1, delivered(bytes.clone()));
    let second = client.receive_image(100, 2, delivered(bytes));
    assert_eq!(first, second);
    assert_eq!(first, Ok(picture()));
}
