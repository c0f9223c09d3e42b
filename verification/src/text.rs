//! Text helpers: Unicode whitespace, trimming, and UTF-8 decoding.

use vstd::prelude::*;
use vstd::string::*;
use vstd::utf8::*;

verus! {

/// Whether `c` carries the Unicode `White_Space` property.
pub open spec fn is_whitespace(c: char) -> bool {
    let n = c as u32;
    ||| (0x09 <= n && n <= 0x0D)
    ||| n == 0x20
    ||| n == 0x85
    ||| n == 0xA0
    ||| n == 0x1680
    ||| (0x2000 <= n && n <= 0x200A)
    ||| n == 0x2028
    ||| n == 0x2029
    ||| n == 0x202F
    ||| n == 0x205F
    ||| n == 0x3000
}

/// Whether every character of `s` is whitespace (true of the empty text).
pub open spec fn is_blank(s: Seq<char>) -> bool {
    forall|i: int| 0 <= i < s.len() ==> is_whitespace(#[trigger] s[i])
}

/// `s` without its leading whitespace.
pub open spec fn trim_start(s: Seq<char>) -> Seq<char>
    decreases s.len(),
{
    if s.len() > 0 && is_whitespace(s.first()) {
        trim_start(s.drop_first())
    } else {
        s
    }
}

/// `s` without its trailing whitespace.
pub open spec fn trim_end(s: Seq<char>) -> Seq<char>
    decreases s.len(),
{
    if s.len() > 0 && is_whitespace(s.last()) {
        trim_end(s.drop_last())
    } else {
        s
    }
}

/// `s` without its leading and trailing whitespace.
pub open spec fn trimmed(s: Seq<char>) -> Seq<char> {
    trim_end(trim_start(s))
}

/// Whether `c` is whitespace.
pub fn char_is_whitespace(c: char) -> (b: bool)
    ensures
        b == is_whitespace(c),
{
    let n: u32 = c as u32;
    (0x09 <= n && n <= 0x0D) || n == 0x20 || n == 0x85 || n == 0xA0 || n == 0x1680 || (0x2000 <= n
        && n <= 0x200A) || n == 0x2028 || n == 0x2029 || n == 0x202F || n == 0x205F || n == 0x3000
}

/// Where the leading whitespace of `s` ends, and that `trim_start` keeps
/// the text from there on.
proof fn lemma_trim_start_split(s: Seq<char>) -> (k: int)
    ensures
        0 <= k <= s.len(),
        trim_start(s) == s.subrange(k, s.len() as int),
        forall|i: int| 0 <= i < k ==> is_whitespace(#[trigger] s[i]),
        k < s.len() ==> !is_whitespace(s[k]),
    decreases s.len(),
{
    if s.len() > 0 && is_whitespace(s.first()) {
        let rest = s.drop_first();
        let k = lemma_trim_start_split(rest);
        assert forall|i: int| 0 <= i < k + 1 implies is_whitespace(#[trigger] s[i]) by {
            if i > 0 {
                assert(s[i] == rest[i - 1]);
            }
        }
        k + 1
    } else {
        0
    }
}

/// Where the trailing whitespace of `s` starts, and that `trim_end` keeps
/// the text before it.
proof fn lemma_trim_end_split(s: Seq<char>) -> (k: int)
    ensures
        0 <= k <= s.len(),
        trim_end(s) == s.subrange(0, k),
        forall|i: int| k <= i < s.len() ==> is_whitespace(#[trigger] s[i]),
        0 < k ==> !is_whitespace(s[k - 1]),
    decreases s.len(),
{
    if s.len() > 0 && is_whitespace(s.last()) {
        let rest = s.drop_last();
        let k = lemma_trim_end_split(rest);
        assert forall|i: int| k <= i < s.len() implies is_whitespace(#[trigger] s[i]) by {
            if i < rest.len() {
                assert(s[i] == rest[i]);
            }
        }
        k
    } else {
        s.len() as int
    }
}

/// What trimming keeps, given where the visible text starts and ends: with
/// whitespace alone before `start` and from `end` on, and a visible
/// character at each end of what lies between, that is what is kept.
proof fn lemma_trimmed_between(s: Seq<char>, start: int, end: int)
    requires
        0 <= start <= end <= s.len(),
        forall|i: int| 0 <= i < start ==> is_whitespace(#[trigger] s[i]),
        forall|i: int| end <= i < s.len() ==> is_whitespace(#[trigger] s[i]),
        start < end ==> !is_whitespace(s[start]) && !is_whitespace(s[end - 1]),
        start == end ==> start == 0,
    ensures
        trimmed(s) == s.subrange(start, end),
{
    let k = lemma_trim_start_split(s);
    let kept = trim_start(s);
    let m = lemma_trim_end_split(kept);
    if m < end - start {
        assert(kept[end - start - 1] == s[end - 1]);
    }
}

/// Trimming leaves nothing exactly when the text is blank.
pub proof fn lemma_trimmed_empty_iff_blank(s: Seq<char>)
    ensures
        trimmed(s).len() == 0 <==> is_blank(s),
{
    let k = lemma_trim_start_split(s);
    let kept = trim_start(s);
    let m = lemma_trim_end_split(kept);
    if !is_blank(s) {
        assert(kept[0] == s[k]);
    }
}

/// The text without its leading and trailing whitespace.
pub fn trim(s: &str) -> (r: &str)
    ensures
        r@ == trimmed(s@),
{
    let n = s.unicode_len();
    let mut start: usize = 0;
    let mut end: usize = 0;
    let mut pos: usize = 0;
    for c in it: s.chars()
        invariant
            n == s@.len(),
            it.seq() == s@,
            pos == it.index(),
            start <= end <= pos,
            end == 0 ==> start == 0,
            end > 0 ==> start < end && !is_whitespace(s@[start as int]) && !is_whitespace(
                s@[end - 1],
            ),
            forall|i: int| 0 <= i < start ==> is_whitespace(#[trigger] s@[i]),
            forall|i: int| end <= i < pos ==> is_whitespace(#[trigger] s@[i]),
    {
        if !char_is_whitespace(c) {
            if end == 0 {
                start = pos;
            }
            end = pos + 1;
        }
        pos = pos + 1;
    }
    proof {
        lemma_trimmed_between(s@, start as int, end as int);
    }
    s.substring_char(start, end)
}

/// `String::from_utf8`: it succeeds exactly on well-formed UTF-8, and the
/// text it then returns is the one that the bytes encode.
#[verifier::external_body]
pub(crate) fn from_utf8(bytes: Vec<u8>) -> (r: Option<String>)
    ensures
        r is Some <==> valid_utf8(bytes@),
        r matches Some(text) ==> text@ == decode_utf8(bytes@),
{
    match String::from_utf8(bytes) {
        Ok(text) => Some(text),
        Err(_) => None,
    }
}

} // verus!
