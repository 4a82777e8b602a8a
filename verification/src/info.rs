//! What is shown of an image file before it is named: its file name and its size.

use crate::paths::{file_name, file_name_of};
use crate::text::{decimal, decimal_string};
use vstd::prelude::*;
use vstd::string::StringExecFns;

verus! {

/// The file name and the size of an image file, as they are shown.
#[derive(Debug)]
pub struct ImageInfo {
    /// The file name, where the path ends in one.
    pub filename: Option<String>,
    /// The size in words: a number of bytes, or that it is not known.
    pub size: String,
}

/// The file name to show for `path`: none where the path ends in no file name.
pub open spec fn shown_name(path: Seq<char>) -> Option<Seq<char>> {
    if file_name(path).len() == 0 {
        None
    } else {
        Some(file_name(path))
    }
}

/// The size to show: the number of bytes in decimal followed by ` bytes`, or `Unknown` where the
/// size could not be had.
pub open spec fn shown_size(size: Option<u64>) -> Seq<char> {
    match size {
        Some(bytes) => decimal(bytes as nat) + " bytes"@,
        None => "Unknown"@,
    }
}

/// The size `size` in words.
pub fn size_text(size: Option<u64>) -> (text: String)
    ensures
        text@ == shown_size(size),
{
    match size {
        Some(bytes) => decimal_string(bytes).concat(" bytes"),
        None => String::from_str("Unknown"),
    }
}

/// What is shown of the file at `path`, whose size in bytes is `size` where it could be had.
pub fn image_info(path: &str, size: Option<u64>) -> (info: ImageInfo)
    ensures
        match shown_name(path@) {
            Some(name) => info.filename matches Some(shown) && shown@ == name,
            None => info.filename is None,
        },
        info.size@ == shown_size(size),
{
    let name = file_name_of(path);
    let filename = if name.as_str().is_empty() {
        None
    } else {
        Some(name)
    };
    ImageInfo { filename, size: size_text(size) }
}

} // verus!
