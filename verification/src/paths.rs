//! Paths as text: the file name, its extension, and the path a renamed file gets.
//!
//! A path is read the same way on every machine, and as far as the same text allows the way
//! the standard library reads it. Both `/` and `\` separate its parts, on every machine: this
//! is meant, so that a path written on one system is read alike on another. Separators at the
//! end of a path, and parts at its end that are a single `.`, name nothing and are passed
//! over. The file name is the last part that is left; a last part `..` or `.` is no file name.
//! The extension is what follows the last `.` of the file name.

use crate::text::{chars_of, rest_equals, starts_with, string_of};
use vstd::prelude::*;
use vstd::string::StringExecFns;

verus! {

/// A character that separates the parts of a path: `/` or `\`, on every machine.
pub open spec fn is_separator(c: char) -> bool {
    c == '/' || c == '\\'
}

/// The index of the last separator in `path`, or -1 where it has none.
pub open spec fn last_separator(path: Seq<char>) -> int
    decreases path.len(),
{
    if path.len() == 0 {
        -1
    } else if is_separator(path.last()) {
        path.len() - 1
    } else {
        last_separator(path.drop_last())
    }
}

/// The index of the last `.` in `name`, or -1 where it has none.
pub open spec fn last_dot(name: Seq<char>) -> int
    decreases name.len(),
{
    if name.len() == 0 {
        -1
    } else if name.last() == '.' {
        name.len() - 1
    } else {
        last_dot(name.drop_last())
    }
}

/// The length of `path` without what it ends in that names nothing: separators, and parts
/// that are a single `.` behind a separator.
pub open spec fn real_len(path: Seq<char>) -> int
    decreases path.len(),
{
    if path.len() == 0 {
        0
    } else if is_separator(path.last()) {
        real_len(path.drop_last())
    } else if path.last() == '.' && path.len() >= 2 && is_separator(path[path.len() - 2]) {
        real_len(path.drop_last())
    } else {
        path.len() as int
    }
}

/// `path` up to the end of its last part.
pub open spec fn stem(path: Seq<char>) -> Seq<char> {
    path.take(real_len(path))
}

/// The last part of `path`: what lies between the last separator of its stem and the end of
/// the stem.
pub open spec fn last_part(path: Seq<char>) -> Seq<char> {
    stem(path).skip(last_separator(stem(path)) + 1)
}

/// Whether `part` is `.` or `..`, which name a directory and no file.
pub open spec fn is_dots(part: Seq<char>) -> bool {
    ||| part.len() == 1 && part[0] == '.'
    ||| part.len() == 2 && part[0] == '.' && part[1] == '.'
}

/// Whether `path` ends in a file name: its last part is there and is neither `.` nor `..`.
pub open spec fn names_file(path: Seq<char>) -> bool {
    last_part(path).len() > 0 && !is_dots(last_part(path))
}

/// The file name that `path` ends in; empty where it ends in none.
pub open spec fn file_name(path: Seq<char>) -> Seq<char> {
    if names_file(path) {
        last_part(path)
    } else {
        Seq::<char>::empty()
    }
}

/// The directory that the file of `path` lies in, as the text that a file name is put behind.
/// Where `path` ends in a file name, that is `path` up to and with the separator before the
/// name. Where it ends in none, it is `path` itself, with a `/` behind it unless it is empty
/// or ends in a separator already.
pub open spec fn directory_prefix(path: Seq<char>) -> Seq<char> {
    if names_file(path) {
        path.take(last_separator(stem(path)) + 1)
    } else if path.len() == 0 || is_separator(path.last()) {
        path
    } else {
        path.push('/')
    }
}

/// The extension of the file that `path` names: what follows the last `.` of the file name, and
/// nothing where the file name has no `.` or there is no file name.
pub open spec fn extension(path: Seq<char>) -> Seq<char> {
    let name = file_name(path);
    if last_dot(name) < 0 {
        Seq::<char>::empty()
    } else {
        name.skip(last_dot(name) + 1)
    }
}

/// The file name made of the base name `new_name` and the extension `ext`: with a `.` between
/// them, or the base name alone where there is no extension.
pub open spec fn with_extension(new_name: Seq<char>, ext: Seq<char>) -> Seq<char> {
    if ext.len() == 0 {
        new_name
    } else {
        new_name + seq!['.'] + ext
    }
}

/// The path of the file at `old_path` once its base name is `new_name`: the file name that
/// `old_path` ends in gives way to the new one, in the same directory and with the same
/// extension. Separators behind the old file name are not kept.
pub open spec fn destination(old_path: Seq<char>, new_name: Seq<char>) -> Seq<char> {
    directory_prefix(old_path) + with_extension(new_name, extension(old_path))
}

/// A name that can stand as a file name: not empty, not `.`, not `..`, and without separator.
pub open spec fn is_plain_name(name: Seq<char>) -> bool {
    &&& name.len() > 0
    &&& !is_dots(name)
    &&& forall|i: int| 0 <= i < name.len() ==> !is_separator(#[trigger] name[i])
}

/// A text that stands where a path should and is none: an identifier that begins with `blob:`,
/// `dev-`, `browser-` or `temp-`.
pub open spec fn is_placeholder(path: Seq<char>) -> bool {
    ||| "blob:"@.is_prefix_of(path)
    ||| "dev-"@.is_prefix_of(path)
    ||| "browser-"@.is_prefix_of(path)
    ||| "temp-"@.is_prefix_of(path)
}

/// The MIME type that goes with the extension of `path`; `image/jpeg` where the extension is
/// not one of `jpg`, `jpeg`, `png`, `webp`, `avif`.
pub open spec fn mime_type(path: Seq<char>) -> Seq<char> {
    let ext = extension(path);
    if ext == "png"@ {
        "image/png"@
    } else if ext == "webp"@ {
        "image/webp"@
    } else if ext == "avif"@ {
        "image/avif"@
    } else {
        "image/jpeg"@
    }
}

/// Where the last separator of a path lies: nothing after it separates.
pub proof fn lemma_last_separator(path: Seq<char>)
    ensures
        -1 <= last_separator(path) < path.len(),
        last_separator(path) >= 0 ==> is_separator(path[last_separator(path)]),
        forall|i: int| last_separator(path) < i < path.len() ==> !is_separator(#[trigger] path[i]),
    decreases path.len(),
{
    if path.len() > 0 && !is_separator(path.last()) {
        lemma_last_separator(path.drop_last());
        assert forall|i: int| last_separator(path) < i < path.len() implies !is_separator(
            #[trigger] path[i],
        ) by {
            if i < path.len() - 1 {
                assert(path.drop_last()[i] == path[i]);
            }
        }
    }
}

/// Where the last `.` of a name lies: no `.` comes after it.
pub proof fn lemma_last_dot(name: Seq<char>)
    ensures
        -1 <= last_dot(name) < name.len(),
        last_dot(name) >= 0 ==> name[last_dot(name)] == '.',
        forall|i: int| last_dot(name) < i < name.len() ==> #[trigger] name[i] != '.',
    decreases name.len(),
{
    if name.len() > 0 && name.last() != '.' {
        lemma_last_dot(name.drop_last());
        assert forall|i: int| last_dot(name) < i < name.len() implies #[trigger] name[i] != '.' by {
            if i < name.len() - 1 {
                assert(name.drop_last()[i] == name[i]);
            }
        }
    }
}

/// The index that `last_separator` gives is the only one with its two properties.
proof fn lemma_last_separator_is(path: Seq<char>, at: int)
    requires
        -1 <= at < path.len(),
        at >= 0 ==> is_separator(path[at]),
        forall|i: int| at < i < path.len() ==> !is_separator(#[trigger] path[i]),
    ensures
        last_separator(path) == at,
{
    lemma_last_separator(path);
}

/// The index that `last_dot` gives is the only one with its two properties.
proof fn lemma_last_dot_is(name: Seq<char>, at: int)
    requires
        -1 <= at < name.len(),
        at >= 0 ==> name[at] == '.',
        forall|i: int| at < i < name.len() ==> #[trigger] name[i] != '.',
    ensures
        last_dot(name) == at,
{
    lemma_last_dot(name);
}

/// What is passed over at the end of a path: the stem is no longer than the path, and it does
/// not end in a separator.
pub proof fn lemma_real_len(path: Seq<char>)
    ensures
        0 <= real_len(path) <= path.len(),
        real_len(path) > 0 ==> !is_separator(path[real_len(path) - 1]),
        real_len(stem(path)) == real_len(path),
    decreases path.len(),
{
    if path.len() > 0 {
        if is_separator(path.last()) || (path.last() == '.' && path.len() >= 2 && is_separator(
            path[path.len() - 2],
        )) {
            lemma_real_len(path.drop_last());
            assert(path.drop_last().take(real_len(path)) =~= path.take(real_len(path)));
        } else {
            assert(path.take(path.len() as int) =~= path);
        }
    } else {
        assert(path.take(0) =~= path);
    }
}

/// Where a path ends in a file name, its stem is the directory prefix followed by the file
/// name, and the file name is a plain name.
pub proof fn lemma_path_parts(path: Seq<char>)
    requires
        names_file(path),
    ensures
        stem(path) == directory_prefix(path) + file_name(path),
        is_plain_name(file_name(path)),
        directory_prefix(path).len() > 0 ==> is_separator(directory_prefix(path).last()),
{
    lemma_real_len(path);
    lemma_last_separator(stem(path));
    assert(stem(path) =~= directory_prefix(path) + file_name(path));
}

/// The directory prefix of a path is empty or ends in a separator.
pub proof fn lemma_prefix_ends_in_separator(path: Seq<char>)
    ensures
        directory_prefix(path).len() > 0 ==> is_separator(directory_prefix(path).last()),
{
    if names_file(path) {
        lemma_path_parts(path);
    }
}

/// An extension holds neither a `.` nor a separator.
pub proof fn lemma_extension_is_plain(path: Seq<char>)
    ensures
        forall|i: int|
            0 <= i < extension(path).len() ==> #[trigger] extension(path)[i] != '.'
                && !is_separator(extension(path)[i]),
        extension(path).len() <= file_name(path).len(),
{
    if names_file(path) {
        lemma_path_parts(path);
    }
    lemma_last_dot(file_name(path));
}

/// The last separator of two texts put together lies in the second where that has one, else
/// where it lies in the first.
proof fn lemma_last_separator_of_joined(a: Seq<char>, b: Seq<char>)
    ensures
        last_separator(a + b) == if last_separator(b) >= 0 {
            a.len() + last_separator(b)
        } else {
            last_separator(a)
        },
{
    lemma_last_separator(a);
    lemma_last_separator(b);
    let joined = a + b;
    let at = if last_separator(b) >= 0 {
        a.len() + last_separator(b)
    } else {
        last_separator(a)
    };
    lemma_last_separator_is(joined, at);
}

/// The last `.` of two texts put together lies in the second where that has one, else where it
/// lies in the first.
proof fn lemma_last_dot_of_joined(a: Seq<char>, b: Seq<char>)
    ensures
        last_dot(a + b) == if last_dot(b) >= 0 {
            a.len() + last_dot(b)
        } else {
            last_dot(a)
        },
{
    lemma_last_dot(a);
    lemma_last_dot(b);
    let joined = a + b;
    let at = if last_dot(b) >= 0 {
        a.len() + last_dot(b)
    } else {
        last_dot(a)
    };
    lemma_last_dot_is(joined, at);
}

/// A plain name behind a prefix that is empty or ends in a separator is the file name of
/// the path the two make, and the prefix is its directory prefix.
pub proof fn lemma_named_path(prefix: Seq<char>, name: Seq<char>)
    requires
        prefix.len() == 0 || is_separator(prefix.last()),
        is_plain_name(name),
        name.last() != '.' || name.len() >= 2,
    ensures
        names_file(prefix + name),
        file_name(prefix + name) == name,
        directory_prefix(prefix + name) == prefix,
{
    let path = prefix + name;
    assert(path.last() == name.last());
    if name.last() == '.' {
        assert(path[path.len() - 2] == name[name.len() - 2]);
    }
    assert(real_len(path) == path.len());
    assert(stem(path) =~= path);
    lemma_last_separator_is(name, -1);
    lemma_last_separator_of_joined(prefix, name);
    if prefix.len() > 0 {
        lemma_last_separator_is(prefix, prefix.len() - 1);
    }
    assert(last_part(path) =~= name);
    assert(path.take(prefix.len() as int) =~= prefix);
}

/// The extension of a base name with an extension behind it is that extension.
proof fn lemma_extension_of_with_extension(new_name: Seq<char>, ext: Seq<char>)
    requires
        forall|i: int| 0 <= i < ext.len() ==> #[trigger] ext[i] != '.' && !is_separator(ext[i]),
        ext.len() > 0,
    ensures
        last_dot(with_extension(new_name, ext)) == new_name.len(),
        with_extension(new_name, ext).skip(new_name.len() as int + 1) == ext,
{
    let tail = seq!['.'] + ext;
    assert(with_extension(new_name, ext) =~= new_name + tail);
    lemma_last_dot_is(tail, 0);
    lemma_last_dot_of_joined(new_name, tail);
    assert((new_name + tail).skip(new_name.len() as int + 1) =~= ext);
}

/// The new file name of a rename is a plain name where the new base name holds no separator
/// and, for a file without extension, is itself neither empty nor `.` nor `..`.
proof fn lemma_new_name_is_plain(old_path: Seq<char>, new_name: Seq<char>)
    requires
        forall|i: int| 0 <= i < new_name.len() ==> !is_separator(#[trigger] new_name[i]),
        extension(old_path).len() > 0 || is_plain_name(new_name),
    ensures
        is_plain_name(with_extension(new_name, extension(old_path))),
        with_extension(new_name, extension(old_path)).last() != '.' || with_extension(
            new_name,
            extension(old_path),
        ).len() >= 2,
{
    let ext = extension(old_path);
    let name = with_extension(new_name, ext);
    lemma_extension_is_plain(old_path);
    if ext.len() > 0 {
        assert(name =~= new_name + seq!['.'] + ext);
        assert(name.last() == ext.last());
        assert forall|i: int| 0 <= i < name.len() implies !is_separator(#[trigger] name[i]) by {
            if i < new_name.len() {
                assert(name[i] == new_name[i]);
            } else if i > new_name.len() {
                assert(name[i] == ext[i - new_name.len() - 1]);
            }
        }
    }
}

/// A rename happens in place. Where the new base name holds no separator, the destination lies
/// in the directory of the source, and its file name is the new base name with the extension
/// of the source behind it: with a `.` between them, or the base name alone where the source
/// has no extension. Left out is a new base name that names no file (the empty name, `.` and
/// `..`) for a source without extension.
pub proof fn lemma_destination_keeps_directory(old_path: Seq<char>, new_name: Seq<char>)
    requires
        forall|i: int| 0 <= i < new_name.len() ==> !is_separator(#[trigger] new_name[i]),
        extension(old_path).len() > 0 || is_plain_name(new_name),
    ensures
        names_file(destination(old_path, new_name)),
        directory_prefix(destination(old_path, new_name)) == directory_prefix(old_path),
        file_name(destination(old_path, new_name)) == with_extension(
            new_name,
            extension(old_path),
        ),
{
    lemma_new_name_is_plain(old_path, new_name);
    lemma_prefix_ends_in_separator(old_path);
    lemma_named_path(directory_prefix(old_path), with_extension(new_name, extension(old_path)));
}

/// A rename never changes the extension: the destination has the extension of the source.
/// Left out, for a source without extension, is a new base name that brings an extension of
/// its own or that names no file.
pub proof fn lemma_destination_keeps_extension(old_path: Seq<char>, new_name: Seq<char>)
    requires
        forall|i: int| 0 <= i < new_name.len() ==> !is_separator(#[trigger] new_name[i]),
        extension(old_path).len() > 0 || (is_plain_name(new_name) && last_dot(new_name) < 0),
    ensures
        extension(destination(old_path, new_name)) == extension(old_path),
{
    lemma_destination_keeps_directory(old_path, new_name);
    lemma_extension_is_plain(old_path);
    if extension(old_path).len() > 0 {
        lemma_extension_of_with_extension(new_name, extension(old_path));
    }
}

/// The place in `chars` where the file name begins.
fn file_name_offset(chars: &Vec<char>) -> (start: usize)
    ensures
        start == last_separator(chars@) + 1,
        start <= chars.len(),
{
    let mut start: usize = chars.len();
    while start > 0 && chars[start - 1] != '/' && chars[start - 1] != '\\'
        invariant
            start <= chars.len(),
            forall|i: int| start <= i < chars.len() ==> !is_separator(#[trigger] chars@[i]),
        decreases start,
    {
        start = start - 1;
    }
    proof {
        lemma_last_separator_is(chars@, start - 1);
    }
    start
}

/// The place in `chars` where the extension begins, for a file name that begins at
/// `name_start`; `None` where the file name has no `.`.
fn extension_offset(chars: &Vec<char>, name_start: usize) -> (start: Option<usize>)
    requires
        name_start <= chars.len(),
    ensures
        match start {
            Some(at) => name_start < at <= chars.len() && at == name_start + last_dot(
                chars@.skip(name_start as int),
            ) + 1,
            None => last_dot(chars@.skip(name_start as int)) < 0,
        },
{
    let ghost name = chars@.skip(name_start as int);
    let mut at: usize = chars.len();
    while at > name_start && chars[at - 1] != '.'
        invariant
            name_start <= at <= chars.len(),
            name == chars@.skip(name_start as int),
            forall|i: int| at - name_start <= i < name.len() ==> #[trigger] name[i] != '.',
        decreases at,
    {
        at = at - 1;
    }
    proof {
        lemma_last_dot_is(name, at - 1 - name_start);
    }
    if at > name_start {
        Some(at)
    } else {
        None
    }
}

/// The characters of `path` up to the end of its last part.
fn stem_of(path: &str) -> (chars: Vec<char>)
    ensures
        chars@ == stem(path@),
{
    let mut chars = chars_of(path);
    let mut end: usize = chars.len();
    assert(chars@.take(end as int) =~= chars@);
    while end > 0 && (chars[end - 1] == '/' || chars[end - 1] == '\\' || (chars[end - 1] == '.'
        && end >= 2 && (chars[end - 2] == '/' || chars[end - 2] == '\\')))
        invariant
            end <= chars.len(),
            chars@ == path@,
            real_len(path@) == real_len(chars@.take(end as int)),
        decreases end,
    {
        assert(chars@.take(end as int).drop_last() =~= chars@.take(end - 1));
        end = end - 1;
    }
    chars.truncate(end);
    chars
}

/// Tells whether the part of `chars` from `start` on is a file name: there, and neither `.`
/// nor `..`.
fn is_name_from(chars: &Vec<char>, start: usize) -> (named: bool)
    requires
        start <= chars.len(),
    ensures
        named == (chars@.skip(start as int).len() > 0 && !is_dots(chars@.skip(start as int))),
{
    let len = chars.len() - start;
    if len == 0 {
        false
    } else if len == 1 {
        chars[start] != '.'
    } else if len == 2 {
        !(chars[start] == '.' && chars[start + 1] == '.')
    } else {
        true
    }
}

/// The stem of `path`, the place in it where the last part begins, and whether that part is a
/// file name.
fn parts_of(path: &str) -> (parts: (Vec<char>, usize, bool))
    ensures
        parts.0@ == stem(path@),
        parts.1 == last_separator(stem(path@)) + 1,
        parts.1 <= parts.0.len(),
        parts.2 == names_file(path@),
{
    let chars = stem_of(path);
    let start = file_name_offset(&chars);
    let named = is_name_from(&chars, start);
    (chars, start, named)
}

/// The file name that `path` ends in; empty where it ends in none.
pub fn file_name_of(path: &str) -> (name: String)
    ensures
        name@ == file_name(path@),
{
    let (chars, start, named) = parts_of(path);
    if named {
        string_of(&chars, start, chars.len())
    } else {
        String::new()
    }
}

/// The extension of the file that `path` names, empty where it has none.
pub fn extension_of(path: &str) -> (ext: String)
    ensures
        ext@ == extension(path@),
{
    let (chars, start, named) = parts_of(path);
    if !named {
        return String::new();
    }
    match extension_offset(&chars, start) {
        Some(at) => {
            assert(chars@.subrange(at as int, chars.len() as int) =~= chars@.skip(
                start as int,
            ).skip(at - start));
            string_of(&chars, at, chars.len())
        },
        None => String::new(),
    }
}

/// The directory that the file of `path` lies in, as the text that a file name is put behind.
pub fn directory_prefix_of(path: &str) -> (prefix: String)
    ensures
        prefix@ == directory_prefix(path@),
{
    let (chars, start, named) = parts_of(path);
    if named {
        proof {
            lemma_real_len(path@);
            assert(chars@.subrange(0, start as int) =~= path@.take(start as int));
        }
        string_of(&chars, 0, start)
    } else {
        let whole = chars_of(path);
        let mut prefix = String::from_str(path);
        if whole.len() > 0 && whole[whole.len() - 1] != '/' && whole[whole.len() - 1] != '\\' {
            prefix.push('/');
        }
        prefix
    }
}

/// The path that the file at `old_path` gets when its base name becomes `new_name`. The
/// directory and the extension stay; a file without extension gets none, and no `.` either.
/// Both `/` and `\` are read as separators, whatever the machine.
pub fn destination_path(old_path: &str, new_name: &str) -> (path: String)
    ensures
        path@ == destination(old_path@, new_name@),
{
    let mut path = directory_prefix_of(old_path);
    path.append(new_name);
    let ext = extension_of(old_path);
    if !ext.as_str().is_empty() {
        path.push('.');
        path.append(ext.as_str());
    }
    path
}

/// Tells whether `path` is a placeholder and no path of a file.
pub fn is_placeholder_path(path: &str) -> (yes: bool)
    ensures
        yes == is_placeholder(path@),
{
    starts_with(path, "blob:") || starts_with(path, "dev-") || starts_with(path, "browser-")
        || starts_with(path, "temp-")
}

/// Tells whether the characters of `text` are exactly those of `word`.
fn same_text(text: &String, word: &str) -> (same: bool)
    ensures
        same == (text@ == word@),
{
    let chars = chars_of(text.as_str());
    let same = rest_equals(&chars, 0, word);
    assert(chars@.skip(0) =~= chars@);
    same
}

/// The MIME type for the image at `path`, chosen by its extension.
pub fn mime_type_of(path: &str) -> (mime: &'static str)
    ensures
        mime@ == mime_type(path@),
{
    let ext = extension_of(path);
    if same_text(&ext, "png") {
        "image/png"
    } else if same_text(&ext, "webp") {
        "image/webp"
    } else if same_text(&ext, "avif") {
        "image/avif"
    } else {
        "image/jpeg"
    }
}

} // verus!
