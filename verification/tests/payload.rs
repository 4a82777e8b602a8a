use base64::prelude::{Engine, BASE64_STANDARD};
use image::{DynamicImage, ImageFormat, Rgb, RgbImage};
use image_namer::compress::CompressError;
use image_namer::failure::Failure;
use image_namer::payload::{
    data_url, encode_payload, fits_base64, image_budget, prepare_image, read_outcome,
    try_encode_base64,
};
use std::io::Cursor;

fn decode_base64(text: &str) -> Vec<u8> {
    BASE64_STANDARD.decode(text).unwrap()
}

fn picture_as_png(width: u32, height: u32) -> Vec<u8> {
    let picture = RgbImage::from_fn(width, height, |x, y| Rgb([(x * 7 % 256) as u8, (y * 5 % 256) as u8, ((x * y) % 256) as u8]));
    let mut bytes = Vec::new();
    DynamicImage::ImageRgb8(picture).write_to(&mut Cursor::new(&mut bytes), ImageFormat::Png).unwrap();
    bytes
}

#[test]
fn budget_is_a_quarter_of_1024_bytes_per_token() {
    assert_eq!(image_budget(Some(4096)), 1_048_576);
    assert_eq!(image_budget(Some(2048)), 524_288);
    assert_eq!(image_budget(Some(1)), 256);
    assert_eq!(image_budget(Some(3)), 768);
    assert_eq!(image_budget(Some(0)), 0);
}

#[test]
fn budget_defaults_to_a_context_of_4096_tokens() {
    assert_eq!(image_budget(None), 1_048_576);
    assert_eq!(image_budget(None), image_budget(Some(4096)));
}

#[test]
fn budget_beyond_the_machine_word_is_the_machine_word() {
    assert_eq!(image_budget(Some(usize::MAX)), usize::MAX);
    assert_eq!(image_budget(Some(usize::MAX / 256)), usize::MAX / 256 * 256);
    assert_eq!(image_budget(Some(usize::MAX / 256 + 1)), usize::MAX);
}

#[test]
fn base64_of_known_texts() {
    assert_eq!(try_encode_base64(b"").unwrap(), "");
    assert_eq!(try_encode_base64(b"M").unwrap(), "TQ==");
    assert_eq!(try_encode_base64(b"Ma").unwrap(), "TWE=");
    assert_eq!(try_encode_base64(b"Man").unwrap(), "TWFu");
    assert_eq!(try_encode_base64(b"hello world~").unwrap(), "aGVsbG8gd29ybGR+");
    assert_eq!(try_encode_base64(&[0xFB, 0xFF]).unwrap(), "+/8=");
}

#[test]
fn lengths_that_base64_can_take() {
    assert!(fits_base64(0));
    assert!(fits_base64(1_000_000));
    assert!(fits_base64(usize::MAX / 4 * 3));
    assert!(!fits_base64(usize::MAX / 4 * 3 + 1));
    assert!(!fits_base64(usize::MAX));
}

#[test]
fn payload_is_the_compressed_stream_where_there_is_one() {
    let as_read = b"bytes as read".to_vec();
    let text = encode_payload(&as_read, &Ok(b"compressed".to_vec()));
    assert_eq!(decode_base64(&text), b"compressed");
}

#[test]
fn payload_is_the_file_as_read_where_compression_failed() {
    let as_read = b"bytes as read".to_vec();
    for error in [
        CompressError::BudgetUnmet,
        CompressError::Decode { detail: "bad".to_string() },
        CompressError::Encode { detail: "bad".to_string() },
    ] {
        let text = encode_payload(&as_read, &Err(error));
        assert_eq!(decode_base64(&text), as_read);
    }
}

#[test]
fn an_image_over_the_budget_is_sent_compressed() {
    let source = picture_as_png(200, 150);
    let prepared = prepare_image(&source, Some(4096));
    assert!(prepared.compression_failure.is_none());
    let sent = decode_base64(&prepared.image);
    assert!(sent.len() <= 1_048_576);
    assert_eq!(&sent[..2], &[0xFF, 0xD8]);
    assert_ne!(sent, source);
}

#[test]
fn an_image_that_cannot_be_compressed_is_sent_as_it_is() {
    let source = picture_as_png(200, 150);
    let prepared = prepare_image(&source, Some(1));
    assert_eq!(decode_base64(&prepared.image), source);
    assert!(matches!(prepared.compression_failure, Some(CompressError::BudgetUnmet)));
    let junk = b"this is no image at all".to_vec();
    let prepared = prepare_image(&junk, None);
    assert_eq!(decode_base64(&prepared.image), junk);
    assert!(matches!(prepared.compression_failure, Some(CompressError::Decode { .. })));
}

#[test]
fn data_url_names_the_type_and_holds_the_bytes() {
    assert_eq!(data_url("a/photo.png", b"Man"), "data:image/png;base64,TWFu");
    assert_eq!(data_url("a/photo.jpg", b"Ma"), "data:image/jpeg;base64,TWE=");
    assert_eq!(data_url("a/photo.jpeg", b"M"), "data:image/jpeg;base64,TQ==");
    assert_eq!(data_url("photo.webp", b""), "data:image/webp;base64,");
    assert_eq!(data_url("photo.avif", b"Man"), "data:image/avif;base64,TWFu");
    assert_eq!(data_url("photo.bmp", b"Man"), "data:image/jpeg;base64,TWFu");
    assert_eq!(data_url("photo", b"Man"), "data:image/jpeg;base64,TWFu");
}

/// Standard base64 with padding, written out: six bits for each character.
fn base64_by_hand(bytes: &[u8]) -> String {
    let digit = |value: u8| -> char {
        match value {
            0..=25 => (b'A' + value) as char,
            26..=51 => (b'a' + (value - 26)) as char,
            52..=61 => (b'0' + (value - 52)) as char,
            62 => '+',
            _ => '/',
        }
    };
    let mut text = String::new();
    for group in bytes.chunks(3) {
        match *group {
            [a] => {
                text.push(digit(a / 4));
                text.push(digit(a % 4 * 16));
                text.push_str("==");
            }
            [a, b] => {
                text.push(digit(a / 4));
                text.push(digit(a % 4 * 16 + b / 16));
                text.push(digit(b % 16 * 4));
                text.push('=');
            }
            [a, b, c] => {
                text.push(digit(a / 4));
                text.push(digit(a % 4 * 16 + b / 16));
                text.push(digit(b % 16 * 4 + c / 64));
                text.push(digit(c % 64));
            }
            _ => unreachable!(),
        }
    }
    text
}

#[test]
fn base64_is_the_standard_alphabet_with_padding() {
    let mut state: u32 = 0x1234_5678;
    for len in 0..200usize {
        let bytes: Vec<u8> = (0..len)
            .map(|_| {
                state ^= state << 13;
                state ^= state >> 17;
                state ^= state << 5;
                state as u8
            })
            .collect();
        let text = try_encode_base64(&bytes).unwrap();
        assert_eq!(text, base64_by_hand(&bytes));
        assert_eq!(text.len(), 4 * ((len + 2) / 3));
    }
    let every: Vec<u8> = (0..=255u8).collect();
    assert_eq!(try_encode_base64(&every).unwrap(), base64_by_hand(&every));
}

#[test]
fn reading_a_file_that_is_there_gives_its_data_url() {
    let outcome = read_outcome("a/photo.png", true, Ok(b"Man".to_vec()));
    assert_eq!(outcome.unwrap(), "data:image/png;base64,TWFu");
    let outcome = read_outcome("a/photo", true, Ok(Vec::new()));
    assert_eq!(outcome.unwrap(), "data:image/jpeg;base64,");
}

#[test]
fn reading_a_file_that_is_not_there_finds_none() {
    for contents in [Ok(b"Man".to_vec()), Err("no such file".to_string())] {
        match read_outcome("a/gone.png", false, contents) {
            Err(failure) => {
                assert!(matches!(&failure, Failure::FileNotFound { path } if path == "a/gone.png"));
                assert_eq!(failure.message(), "文件不存在：a/gone.png");
            }
            Ok(url) => panic!("{}", url),
        }
    }
}

#[test]
fn reading_a_file_that_cannot_be_read_gives_the_cause() {
    match read_outcome("a/locked.png", true, Err("permission denied".to_string())) {
        Err(failure) => {
            assert!(matches!(&failure, Failure::ReadError { path, cause } if path == "a/locked.png" && cause == "permission denied"));
            assert_eq!(failure.message(), "读取图片失败：permission denied。文件路径：a/locked.png");
        }
        Ok(url) => panic!("{}", url),
    }
}
