//! The image as it is sent: its bytes, compressed where that works, written in base64.

use crate::codec::{base64_len, base64_standard, encode_base64};
use crate::compress::{compress_image, compression_result, CompressError};
use crate::failure::Failure;
use crate::paths::{mime_type, mime_type_of};
use vstd::prelude::*;
use vstd::string::StringExecFns;

verus! {

/// The context length that is taken where none is given, in tokens.
pub const DEFAULT_CONTEXT_LENGTH: usize = 4096;

/// An image made ready to be sent.
#[derive(Debug)]
pub struct PreparedImage {
    /// The bytes that are sent, in base64.
    pub image: String,
    /// Why the image could not be compressed, where it could not: it is then sent as it was
    /// read. This is for the log alone.
    pub compression_failure: Option<CompressError>,
}

/// Whether the base64 text of `len` bytes has a length that a machine word can hold.
pub open spec fn can_encode(len: nat) -> bool {
    base64_len(len) <= usize::MAX
}

/// The context length that counts, in tokens.
pub open spec fn context_tokens(context_length: Option<usize>) -> int {
    match context_length {
        Some(tokens) => tokens as int,
        None => DEFAULT_CONTEXT_LENGTH as int,
    }
}

/// The bytes that the image may take: a quarter of 1024 bytes for each token of context.
pub open spec fn byte_budget(context_length: Option<usize>) -> int {
    context_tokens(context_length) * 1024 / 4
}

/// The byte budget as a machine word: a budget beyond the largest word is that word, since no
/// stream is longer.
pub open spec fn word_budget(context_length: Option<usize>) -> usize {
    if byte_budget(context_length) <= usize::MAX {
        byte_budget(context_length) as usize
    } else {
        usize::MAX
    }
}

/// The bytes that are sent for an image: the compressed stream where there is one that can be
/// written in base64, else the bytes of the image as they were read.
pub open spec fn payload_of(as_read: Seq<u8>, compressed: Result<Vec<u8>, CompressError>) -> Seq<
    u8,
> {
    match compressed {
        Ok(bytes) => if can_encode(bytes@.len()) {
            bytes@
        } else {
            as_read
        },
        Err(_) => as_read,
    }
}

/// What compressing came to, as far as the log is told: the failure, where there was one.
pub open spec fn failure_of(compressed: Result<Vec<u8>, CompressError>) -> Option<CompressError> {
    match compressed {
        Ok(_) => None,
        Err(error) => Some(error),
    }
}

/// Whether `image`, with `failure`, is the image `data` made ready for a model of the given
/// context length: for what compressing `data` to the byte budget came to, `image` is the
/// base64 of the payload, and `failure` is the failure of the compression, if there was one.
pub open spec fn is_prepared_from(
    image: Seq<char>,
    failure: Option<CompressError>,
    data: Seq<u8>,
    context_length: Option<usize>,
) -> bool {
    exists|compressed: Result<Vec<u8>, CompressError>| #[trigger]
        compression_result(data, word_budget(context_length), compressed) && image
            == base64_standard(payload_of(data, compressed)) && failure == failure_of(compressed)
}

/// The data URL of the image `data` that lies at `path`.
pub open spec fn data_url_text(path: Seq<char>, data: Seq<u8>) -> Seq<char> {
    "data:"@ + mime_type(path) + ";base64,"@ + base64_standard(data)
}

/// The byte budget for an image under the given context length, 4096 tokens where none is
/// given. A budget beyond the largest machine word is that word: no stream is longer.
pub fn image_budget(context_length: Option<usize>) -> (budget: usize)
    ensures
        budget == word_budget(context_length),
{
    let tokens = match context_length {
        Some(tokens) => tokens,
        None => DEFAULT_CONTEXT_LENGTH,
    };
    match tokens.checked_mul(256) {
        Some(budget) => budget,
        None => usize::MAX,
    }
}

/// A stream is within the budget that [`image_budget`] gives exactly when it is within the
/// byte budget itself.
pub proof fn lemma_budget_is_exact(context_length: Option<usize>, len: usize)
    ensures
        len <= word_budget(context_length) <==> len <= byte_budget(context_length),
{
}

/// Tells whether `len` bytes can be written in base64.
pub fn fits_base64(len: usize) -> (fits: bool)
    ensures
        fits == can_encode(len as nat),
{
    len <= 3 * (usize::MAX / 4)
}

/// `data` in base64, or `None` where the text would be too long for the machine.
pub fn try_encode_base64(data: &[u8]) -> (text: Option<String>)
    ensures
        match text {
            Some(text) => can_encode(data@.len()) && text@ == base64_standard(data@),
            None => !can_encode(data@.len()),
        },
{
    if fits_base64(data.len()) {
        Some(encode_base64(data))
    } else {
        None
    }
}

/// The base64 text that is sent for an image, given its bytes and what compressing them came
/// to: see [`payload_of`].
pub fn encode_payload(as_read: &[u8], compressed: &Result<Vec<u8>, CompressError>) -> (image:
    String)
    requires
        can_encode(as_read@.len()),
    ensures
        image@ == base64_standard(payload_of(as_read@, *compressed)),
{
    match compressed {
        Ok(bytes) => match try_encode_base64(bytes.as_slice()) {
            Some(image) => image,
            None => encode_base64(as_read),
        },
        Err(_) => encode_base64(as_read),
    }
}

/// Prepares the image `data` for a model with the given context length: compresses it to the
/// byte budget, takes the compressed stream where there is one and `data` as it is where there
/// is none, and writes that in base64. A failure to compress is handed on for the log.
pub fn prepare_image(data: &[u8], context_length: Option<usize>) -> (prepared: PreparedImage)
    requires
        can_encode(data@.len()),
    ensures
        is_prepared_from(prepared.image@, prepared.compression_failure, data@, context_length),
{
    let budget = image_budget(context_length);
    let compressed = compress_image(data, budget);
    let image = encode_payload(data, &compressed);
    let ghost outcome = compressed;
    let compression_failure = match compressed {
        Ok(_) => None,
        Err(error) => Some(error),
    };
    let prepared = PreparedImage { image, compression_failure };
    assert(compression_result(data@, word_budget(context_length), outcome));
    prepared
}

/// The image `data` that lies at `path` as a data URL, with the MIME type that goes with the
/// extension of `path`.
pub fn data_url(path: &str, data: &[u8]) -> (url: String)
    requires
        can_encode(data@.len()),
    ensures
        url@ == data_url_text(path@, data@),
{
    let mut url = String::from_str("data:");
    url.append(mime_type_of(path));
    url.append(";base64,");
    let image = encode_base64(data);
    url.append(image.as_str());
    url
}

/// What reading the image at `path` as a data URL comes to, given whether a file lies there
/// and, where one does, its bytes or why they could not be read. A file that is not there is
/// not found; one that could not be read is a read error with its cause; else the outcome is
/// the data URL of the bytes.
pub fn read_outcome(path: &str, exists: bool, contents: Result<Vec<u8>, String>) -> (outcome:
    Result<String, Failure>)
    requires
        exists ==> (contents matches Ok(data) ==> can_encode(data@.len())),
    ensures
        !exists ==> (outcome matches Err(Failure::FileNotFound { path: told }) && told@
            == path@),
        exists ==> match contents {
            Ok(data) => outcome matches Ok(url) && url@ == data_url_text(path@, data@),
            Err(cause) => outcome matches Err(Failure::ReadError { path: told, cause: why })
                && told@ == path@ && why == cause,
        },
{
    if !exists {
        return Err(Failure::FileNotFound { path: String::from_str(path) });
    }
    match contents {
        Ok(data) => Ok(data_url(path, data.as_slice())),
        Err(cause) => Err(Failure::ReadError { path: String::from_str(path), cause }),
    }
}

} // verus!
