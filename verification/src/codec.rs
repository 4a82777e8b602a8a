//! The calls into the image codec and the base64 encoder. The functions that make the calls
//! are not proved: each states what the crate it calls is taken to do.

use base64::prelude::{Engine, BASE64_STANDARD};
use image::codecs::jpeg::JpegEncoder;
use image::imageops::FilterType;
use image::{DynamicImage, ImageError, ImageReader};
use std::io::Cursor;
use vstd::prelude::*;

verus! {

/// `image::DynamicImage`, a decoded image. Its pixels are not visible to proofs.
#[verifier::external_type_specification]
#[verifier::external_body]
pub struct ExDynamicImage(image::DynamicImage);

/// `image::ImageError`, the error of the image codec.
#[verifier::external_type_specification]
#[verifier::external_body]
pub struct ExImageError(image::ImageError);

/// The character that stands for the six-bit `value` in the standard base64 alphabet: `A` to
/// `Z`, `a` to `z`, `0` to `9`, `+` and `/`.
pub open spec fn base64_digit(value: int) -> char {
    if value < 26 {
        ('A' as int + value) as char
    } else if value < 52 {
        ('a' as int + (value - 26)) as char
    } else if value < 62 {
        ('0' as int + (value - 52)) as char
    } else if value == 62 {
        '+'
    } else {
        '/'
    }
}

/// `bytes` in standard base64 with padding: each three bytes give four characters, six bits
/// for each; one or two bytes left at the end give two or three characters and `=` up to four.
pub open spec fn base64_standard(bytes: Seq<u8>) -> Seq<char>
    decreases bytes.len(),
{
    if bytes.len() == 0 {
        Seq::<char>::empty()
    } else if bytes.len() == 1 {
        let first = bytes[0] as int;
        seq![base64_digit(first / 4), base64_digit(first % 4 * 16), '=', '=']
    } else if bytes.len() == 2 {
        let first = bytes[0] as int;
        let second = bytes[1] as int;
        seq![
            base64_digit(first / 4),
            base64_digit(first % 4 * 16 + second / 16),
            base64_digit(second % 16 * 4),
            '=',
        ]
    } else {
        let first = bytes[0] as int;
        let second = bytes[1] as int;
        let third = bytes[2] as int;
        seq![
            base64_digit(first / 4),
            base64_digit(first % 4 * 16 + second / 16),
            base64_digit(second % 16 * 4 + third / 64),
            base64_digit(third % 64),
        ] + base64_standard(bytes.skip(3))
    }
}

/// The length of the padded base64 text for `len` bytes.
pub open spec fn base64_len(len: nat) -> nat {
    4 * ((len + 2) / 3)
}

/// A stream that opens with the JPEG start-of-image marker.
pub open spec fn starts_as_jpeg(bytes: Seq<u8>) -> bool {
    bytes.len() >= 2 && bytes[0] == 0xFF && bytes[1] == 0xD8
}

/// `ImageReader::new(..).with_guessed_format()` and then `decode()`: finds the format from the
/// first bytes of `data` and decodes the image. An error of the reader comes back as
/// `ImageError::IoError`. Nothing is claimed of the result.
#[verifier::external_body]
pub(crate) fn decode_image(data: &[u8]) -> (decoded: Result<DynamicImage, ImageError>) {
    match ImageReader::new(Cursor::new(data)).with_guessed_format() {
        Ok(reader) => reader.decode(),
        Err(e) => Err(ImageError::IoError(e)),
    }
}

/// `DynamicImage::write_with_encoder` with `JpegEncoder::new_with_quality`: the image as a JPEG
/// stream of the given quality. The encoder writes the start-of-image marker first, so a stream
/// that it finished begins with `FF D8`.
#[verifier::external_body]
pub(crate) fn encode_jpeg(image: &DynamicImage, quality: u8) -> (encoded: Result<
    Vec<u8>,
    ImageError,
>)
    requires
        1 <= quality <= 100,
    ensures
        encoded matches Ok(bytes) ==> starts_as_jpeg(bytes@),
{
    let mut bytes: Vec<u8> = Vec::new();
    match image.write_with_encoder(JpegEncoder::new_with_quality(Cursor::new(&mut bytes), quality)) {
        Ok(()) => Ok(bytes),
        Err(e) => Err(e),
    }
}

/// `DynamicImage::resize_exact` with the `Lanczos3` filter: the image resampled to `width` by
/// `height` pixels. Nothing is claimed of the result.
#[verifier::external_body]
pub(crate) fn resize_exact_lanczos3(image: &DynamicImage, width: u32, height: u32) -> (resized:
    DynamicImage)
    requires
        width >= 1,
        height >= 1,
{
    image.resize_exact(width, height, FilterType::Lanczos3)
}

/// `DynamicImage::width`: the width of the image in pixels.
#[verifier::external_body]
pub(crate) fn image_width(image: &DynamicImage) -> (width: u32) {
    image.width()
}

/// `DynamicImage::height`: the height of the image in pixels.
#[verifier::external_body]
pub(crate) fn image_height(image: &DynamicImage) -> (height: u32) {
    image.height()
}

/// `BASE64_STANDARD.encode` of the `base64` crate: the bytes in the standard alphabet, with
/// padding. It panics where the length of the text does not fit in `usize`, which `requires`
/// leaves out.
#[verifier::external_body]
pub(crate) fn encode_base64(data: &[u8]) -> (text: String)
    requires
        base64_len(data@.len()) <= usize::MAX,
    ensures
        text@ == base64_standard(data@),
{
    BASE64_STANDARD.encode(data)
}

/// The base64 text of `len` bytes has `base64_len(len)` characters.
pub proof fn lemma_base64_length(bytes: Seq<u8>)
    ensures
        base64_standard(bytes).len() == base64_len(bytes.len()),
    decreases bytes.len(),
{
    if bytes.len() >= 3 {
        lemma_base64_length(bytes.skip(3));
    }
}

} // verus!
