//! Turning free text into a base file name that every common file system accepts.

use crate::text::chars_of;
use vstd::prelude::*;

verus! {

/// The longest name, in characters, that the sanitizer lets through.
pub const MAX_NAME_CHARS: usize = 100;

/// White space in the sense of Unicode's `White_Space` property.
pub open spec fn is_whitespace(c: char) -> bool {
    let code = c as u32;
    ||| 0x09 <= code <= 0x0D
    ||| code == 0x20
    ||| code == 0x85
    ||| code == 0xA0
    ||| code == 0x1680
    ||| 0x2000 <= code <= 0x200A
    ||| code == 0x2028
    ||| code == 0x2029
    ||| code == 0x202F
    ||| code == 0x205F
    ||| code == 0x3000
}

/// Characters that are taken out of a name: line feed, carriage return and the double quote.
pub open spec fn is_dropped(c: char) -> bool {
    c == '\n' || c == '\r' || c == '"'
}

/// Characters that give way to an underscore: `/ \ : * ? < > |`.
pub open spec fn is_replaced(c: char) -> bool {
    ||| c == '/'
    ||| c == '\\'
    ||| c == ':'
    ||| c == '*'
    ||| c == '?'
    ||| c == '<'
    ||| c == '>'
    ||| c == '|'
}

/// A character that may stand in a sanitized name.
pub open spec fn is_safe(c: char) -> bool {
    !is_dropped(c) && !is_replaced(c)
}

/// What a character that stays in the name becomes.
pub open spec fn replacement(c: char) -> char {
    if is_replaced(c) {
        '_'
    } else {
        c
    }
}

/// How many white-space characters `s` begins with.
pub open spec fn leading_whitespace(s: Seq<char>) -> nat
    decreases s.len(),
{
    if s.len() > 0 && is_whitespace(s.first()) {
        1 + leading_whitespace(s.drop_first())
    } else {
        0
    }
}

/// How many white-space characters `s` ends with.
pub open spec fn trailing_whitespace(s: Seq<char>) -> nat
    decreases s.len(),
{
    if s.len() > 0 && is_whitespace(s.last()) {
        1 + trailing_whitespace(s.drop_last())
    } else {
        0
    }
}

/// `s` without the white space at its two ends.
pub open spec fn trimmed(s: Seq<char>) -> Seq<char> {
    let body = s.skip(leading_whitespace(s) as int);
    body.take(body.len() - trailing_whitespace(body))
}

/// `s` with the dropped characters taken out and the replaced ones turned into underscores.
pub open spec fn scrubbed(s: Seq<char>) -> Seq<char> {
    s.filter(|c: char| !is_dropped(c)).map_values(|c: char| replacement(c))
}

/// At most the first `limit` characters of `s`.
pub open spec fn truncated(s: Seq<char>, limit: nat) -> Seq<char> {
    if s.len() <= limit {
        s
    } else {
        s.take(limit as int)
    }
}

/// The base file name made from `s`: trimmed, scrubbed, and cut to `MAX_NAME_CHARS` characters.
pub open spec fn sanitized(s: Seq<char>) -> Seq<char> {
    truncated(scrubbed(trimmed(s)), MAX_NAME_CHARS as nat)
}

/// Tells whether `c` is white space.
pub fn char_is_whitespace(c: char) -> (yes: bool)
    ensures
        yes == is_whitespace(c),
{
    let code: u32 = c as u32;
    (0x09 <= code && code <= 0x0D) || code == 0x20 || code == 0x85 || code == 0xA0 || code
        == 0x1680 || (0x2000 <= code && code <= 0x200A) || code == 0x2028 || code == 0x2029 || code
        == 0x202F || code == 0x205F || code == 0x3000
}

/// Tells whether `c` is taken out of a name.
pub fn char_is_dropped(c: char) -> (yes: bool)
    ensures
        yes == is_dropped(c),
{
    c == '\n' || c == '\r' || c == '"'
}

/// The character that stands for `c` in a name.
pub fn replace_char(c: char) -> (r: char)
    ensures
        r == replacement(c),
{
    if c == '/' || c == '\\' || c == ':' || c == '*' || c == '?' || c == '<' || c == '>' || c
        == '|' {
        '_'
    } else {
        c
    }
}

proof fn lemma_leading_whitespace_bound(s: Seq<char>)
    ensures
        leading_whitespace(s) <= s.len(),
    decreases s.len(),
{
    if s.len() > 0 && is_whitespace(s.first()) {
        lemma_leading_whitespace_bound(s.drop_first());
    }
}

proof fn lemma_trailing_whitespace_bound(s: Seq<char>)
    ensures
        trailing_whitespace(s) <= s.len(),
    decreases s.len(),
{
    if s.len() > 0 && is_whitespace(s.last()) {
        lemma_trailing_whitespace_bound(s.drop_last());
    }
}

/// Skipping `k` white-space characters at the front leaves the count of the rest.
proof fn lemma_leading_whitespace_skip(s: Seq<char>, k: int)
    requires
        0 <= k <= s.len(),
        forall|i: int| 0 <= i < k ==> is_whitespace(#[trigger] s[i]),
    ensures
        leading_whitespace(s) == k + leading_whitespace(s.skip(k)),
    decreases k,
{
    if k > 0 {
        assert(s.drop_first().skip(k - 1) =~= s.skip(k));
        lemma_leading_whitespace_skip(s.drop_first(), k - 1);
    } else {
        assert(s.skip(0) =~= s);
    }
}

/// Dropping `k` white-space characters at the back leaves the count of the rest.
proof fn lemma_trailing_whitespace_take(s: Seq<char>, k: int)
    requires
        0 <= k <= s.len(),
        forall|i: int| s.len() - k <= i < s.len() ==> is_whitespace(#[trigger] s[i]),
    ensures
        trailing_whitespace(s) == k + trailing_whitespace(s.take(s.len() - k)),
    decreases k,
{
    if k > 0 {
        assert(s.drop_last().take(s.len() - k) =~= s.take(s.len() - k));
        lemma_trailing_whitespace_take(s.drop_last(), k - 1);
    } else {
        assert(s.take(s.len() as int) =~= s);
    }
}

/// The bounds `(start, end)` of `chars` without the white space at its two ends.
fn trim_bounds(chars: &Vec<char>) -> (bounds: (usize, usize))
    ensures
        bounds.0 <= bounds.1 <= chars.len(),
        chars@.subrange(bounds.0 as int, bounds.1 as int) == trimmed(chars@),
{
    let n = chars.len();
    let mut start: usize = 0;
    while start < n && char_is_whitespace(chars[start])
        invariant
            start <= n == chars.len(),
            forall|i: int| 0 <= i < start ==> is_whitespace(#[trigger] chars@[i]),
        decreases n - start,
    {
        start = start + 1;
    }
    let mut end: usize = n;
    while end > start && char_is_whitespace(chars[end - 1])
        invariant
            start <= end <= n == chars.len(),
            forall|i: int| end <= i < n ==> is_whitespace(#[trigger] chars@[i]),
        decreases end,
    {
        end = end - 1;
    }
    proof {
        let body = chars@.skip(start as int);
        lemma_leading_whitespace_skip(chars@, start as int);
        lemma_trailing_whitespace_take(body, n - end);
    }
    (start, end)
}

/// Scrubbing goes character by character: one more character in gives at most one more out.
pub proof fn lemma_scrubbed_push(s: Seq<char>, c: char)
    ensures
        scrubbed(s.push(c)) == if is_dropped(c) {
            scrubbed(s)
        } else {
            scrubbed(s).push(replacement(c))
        },
{
    s.lemma_filter_push(c, |c: char| !is_dropped(c));
}

/// What a prefix of `s` scrubs to is a prefix of what `s` scrubs to.
proof fn lemma_scrubbed_prefix(s: Seq<char>, i: int)
    requires
        0 <= i <= s.len(),
    ensures
        scrubbed(s.take(i)).len() <= scrubbed(s).len(),
        scrubbed(s).take(scrubbed(s.take(i)).len() as int) == scrubbed(s.take(i)),
    decreases s.len() - i,
{
    if i == s.len() {
        assert(s.take(i) =~= s);
    } else {
        lemma_scrubbed_prefix(s, i + 1);
        assert(s.take(i + 1) =~= s.take(i).push(s[i]));
        lemma_scrubbed_push(s.take(i), s[i]);
    }
}

/// Every character of a scrubbed sequence is safe.
proof fn lemma_scrubbed_is_safe(s: Seq<char>)
    ensures
        forall|i: int| 0 <= i < scrubbed(s).len() ==> is_safe(#[trigger] scrubbed(s)[i]),
{
    assert forall|i: int| 0 <= i < scrubbed(s).len() implies is_safe(#[trigger] scrubbed(s)[i]) by {
        s.lemma_filter_pred(|c: char| !is_dropped(c), i);
    }
}

/// Scrubbing leaves a sequence of safe characters as it is.
proof fn lemma_scrubbed_keeps_safe(s: Seq<char>)
    requires
        forall|i: int| 0 <= i < s.len() ==> is_safe(#[trigger] s[i]),
    ensures
        scrubbed(s) == s,
    decreases s.len(),
{
    if s.len() == 0 {
        reveal(Seq::filter);
    } else {
        lemma_scrubbed_keeps_safe(s.drop_last());
        assert(s =~= s.drop_last().push(s.last()));
        lemma_scrubbed_push(s.drop_last(), s.last());
    }
}

/// A sanitized name holds at most [`MAX_NAME_CHARS`] characters, none of them a line break, a
/// double quote or one of `/ \ : * ? < > |`.
pub proof fn lemma_sanitized_is_safe(s: Seq<char>)
    ensures
        sanitized(s).len() <= MAX_NAME_CHARS,
        forall|i: int| 0 <= i < sanitized(s).len() ==> is_safe(#[trigger] sanitized(s)[i]),
{
    lemma_scrubbed_is_safe(trimmed(s));
}

/// What trimming leaves is a stretch of the text it was given.
pub proof fn lemma_trimmed_is_stretch(s: Seq<char>)
    ensures
        leading_whitespace(s) + trimmed(s).len() <= s.len(),
        trimmed(s) == s.subrange(
            leading_whitespace(s) as int,
            (leading_whitespace(s) + trimmed(s).len()) as int,
        ),
{
    lemma_leading_whitespace_bound(s);
    lemma_trailing_whitespace_bound(s.skip(leading_whitespace(s) as int));
}

/// Text that is already clean, that is made of safe characters and no longer than
/// [`MAX_NAME_CHARS`], is only trimmed by the sanitizer.
pub proof fn lemma_clean_text_is_only_trimmed(s: Seq<char>)
    requires
        s.len() <= MAX_NAME_CHARS,
        forall|i: int| 0 <= i < s.len() ==> is_safe(#[trigger] s[i]),
    ensures
        sanitized(s) == trimmed(s),
{
    lemma_trimmed_is_stretch(s);
    lemma_scrubbed_keeps_safe(trimmed(s));
}

/// Clean text without white space at its ends passes the sanitizer unchanged.
pub proof fn lemma_clean_trimmed_text_is_unchanged(s: Seq<char>)
    requires
        s.len() <= MAX_NAME_CHARS,
        forall|i: int| 0 <= i < s.len() ==> is_safe(#[trigger] s[i]),
        s.len() > 0 ==> !is_whitespace(s.first()) && !is_whitespace(s.last()),
    ensures
        sanitized(s) == s,
{
    lemma_clean_text_is_only_trimmed(s);
}

/// Sanitizing a sanitized name again can only trim it.
pub proof fn lemma_sanitized_twice(s: Seq<char>)
    ensures
        sanitized(sanitized(s)) == trimmed(sanitized(s)),
{
    lemma_sanitized_is_safe(s);
    lemma_clean_text_is_only_trimmed(sanitized(s));
}

/// Makes a base file name out of `raw_name`: the white space at both ends goes, line breaks and
/// double quotes are taken out, each of `/ \ : * ? < > |` becomes `_`, and the result is cut to
/// its first [`MAX_NAME_CHARS`] characters. The result may be empty.
pub fn clean_filename(raw_name: &str) -> (name: String)
    ensures
        name@ == sanitized(raw_name@),
        name@.len() <= MAX_NAME_CHARS,
        forall|i: int| 0 <= i < name@.len() ==> is_safe(#[trigger] name@[i]),
{
    let chars = chars_of(raw_name);
    let (start, end) = trim_bounds(&chars);
    let ghost core = trimmed(raw_name@);
    let mut name = String::new();
    let mut count: usize = 0;
    let mut i: usize = start;
    while i < end && count < MAX_NAME_CHARS
        invariant
            start <= i <= end <= chars.len(),
            core == chars@.subrange(start as int, end as int),
            name@ == scrubbed(core.take(i - start)),
            count == name@.len(),
            count <= MAX_NAME_CHARS,
        decreases end - i,
    {
        let c = chars[i];
        proof {
            assert(core.take(i + 1 - start) =~= core.take(i - start).push(c));
            lemma_scrubbed_push(core.take(i - start), c);
        }
        if !char_is_dropped(c) {
            name.push(replace_char(c));
            count = count + 1;
        }
        i = i + 1;
    }
    proof {
        lemma_scrubbed_prefix(core, i - start);
        lemma_scrubbed_is_safe(core);
        if i == end {
            assert(core.take(i - start) =~= core);
        }
    }
    name
}

} // verus!
