//! Character-level helpers: Unicode white space, ASCII case folding and a
//! case-insensitive prefix test.

use vstd::prelude::*;

verus! {

/// The characters with the Unicode `White_Space` property.
pub open spec fn is_white_space(c: char) -> bool {
    let u = c as u32;
    (0x09 <= u && u <= 0x0d) || u == 0x20 || u == 0x85 || u == 0xa0 || u == 0x1680
        || (0x2000 <= u && u <= 0x200a) || u == 0x2028 || u == 0x2029 || u == 0x202f
        || u == 0x205f || u == 0x3000
}

/// `s` with its leading white space removed.
pub open spec fn trim_start_spec(s: Seq<char>) -> Seq<char>
    decreases s.len(),
{
    if s.len() > 0 && is_white_space(s[0]) {
        trim_start_spec(s.drop_first())
    } else {
        s
    }
}

/// Relies on `str::trim_start`: it removes the leading characters that have the
/// Unicode `White_Space` property, and nothing else.
#[verifier::external_body]
pub(crate) fn trim_leading_white_space(s: &str) -> (r: &str)
    ensures
        r@ == trim_start_spec(s@),
{
    s.trim_start()
}

/// The ASCII lower-case form of `c`: `A`..=`Z` map to `a`..=`z`, all else is kept.
pub open spec fn ascii_lower(c: char) -> char {
    if 'A' <= c && c <= 'Z' {
        ((c as u32) + 32) as char
    } else {
        c
    }
}

/// `needle` is a prefix of `haystack` when both are compared ASCII case-insensitively.
pub open spec fn starts_with_ignore_case_spec(haystack: Seq<char>, needle: Seq<char>) -> bool {
    &&& needle.len() <= haystack.len()
    &&& forall|i: int| 0 <= i < needle.len() ==> ascii_lower(#[trigger] haystack[i]) == ascii_lower(needle[i])
}

pub fn to_ascii_lower(c: char) -> (r: char)
    ensures
        r == ascii_lower(c),
{
    if 'A' <= c && c <= 'Z' {
        ((c as u8) + 32) as char
    } else {
        c
    }
}

/// Tells whether `haystack` starts with `needle`, ignoring ASCII case. A needle
/// that runs out first is a match; a haystack that runs out first is not.
pub fn starts_with_ignore_case(haystack: &str, needle: &str) -> (r: bool)
    ensures
        r == starts_with_ignore_case_spec(haystack@, needle@),
{
    let h_len = haystack.unicode_len();
    let n_len = needle.unicode_len();
    let mut i: usize = 0;
    loop
        invariant
            h_len == haystack@.len(),
            n_len == needle@.len(),
            i <= n_len,
            i <= h_len,
            forall|j: int| 0 <= j < i ==> ascii_lower(#[trigger] haystack@[j]) == ascii_lower(needle@[j]),
        decreases n_len - i,
    {
        if i == n_len {
            return true;
        }
        if i == h_len {
            return false;
        }
        let hc = haystack.get_char(i);
        let nc = needle.get_char(i);
        if to_ascii_lower(hc) != to_ascii_lower(nc) {
            return false;
        }
        i = i + 1;
    }
}

} // verus!
