//! Parsing of an HTTP `Authorization` header that carries Basic credentials.

use base64::engine::general_purpose::STANDARD;
use base64::Engine;
use vstd::prelude::*;
use vstd::utf8::{decode_utf8, encode_utf8, encode_utf8_decode_utf8, encode_utf8_valid_utf8, valid_utf8};

use crate::text::{
    is_white_space, starts_with_ignore_case, starts_with_ignore_case_spec, trim_leading_white_space,
    trim_start_spec,
};

verus! {

#[verifier::external_type_specification]
#[verifier::external_body]
pub struct ExDecodeError(base64::DecodeError);

#[verifier::external_type_specification]
#[verifier::external_body]
pub struct ExUtf8Error(core::str::Utf8Error);

/// The bytes that the standard base64 alphabet (with padding) decodes `text`
/// to, or `None` where `text` is not valid base64.
pub uninterp spec fn base64_standard_decoded(text: Seq<char>) -> Option<Seq<u8>>;

/// Relies on `base64::engine::general_purpose::STANDARD.decode`: it decodes the
/// standard alphabet, and its outcome depends on the text alone.
#[verifier::external_body]
fn decode_base64(text: &str) -> (r: Result<Vec<u8>, base64::DecodeError>)
    ensures
        match r {
            Ok(bytes) => base64_standard_decoded(text@) == Some(bytes@),
            Err(_) => base64_standard_decoded(text@) is None,
        },
{
    STANDARD.decode(text)
}

/// Relies on `std::str::from_utf8`: it succeeds exactly on valid UTF-8 and then
/// yields the characters that the bytes encode.
#[verifier::external_body]
fn utf8_text(bytes: &[u8]) -> (r: Result<&str, core::str::Utf8Error>)
    ensures
        match r {
            Ok(s) => valid_utf8(bytes@) && s@ == decode_utf8(bytes@),
            Err(_) => !valid_utf8(bytes@),
        },
{
    std::str::from_utf8(bytes)
}

/// The scheme token that introduces Basic credentials.
pub open spec fn basic_token() -> Seq<char> {
    seq!['b', 'a', 's', 'i', 'c']
}

/// The position of the first `:` in `s`.
pub open spec fn first_colon(s: Seq<char>) -> Option<int>
    decreases s.len(),
{
    if s.len() == 0 {
        None
    } else if s[0] == ':' {
        Some(0)
    } else {
        match first_colon(s.drop_first()) {
            Some(k) => Some(k + 1),
            None => None,
        }
    }
}

/// `s` split at its first `:` into what stands before and what stands after.
pub open spec fn split_at_first_colon(s: Seq<char>) -> Option<(Seq<char>, Seq<char>)> {
    match first_colon(s) {
        Some(k) => Some((s.take(k), s.skip(k + 1))),
        None => None,
    }
}

/// The identifier and secret that decoded credential bytes hold.
pub open spec fn credentials_of_bytes(bytes: Seq<u8>) -> Option<(Seq<char>, Seq<char>)> {
    if valid_utf8(bytes) {
        split_at_first_colon(decode_utf8(bytes))
    } else {
        None
    }
}

/// The identifier and secret that an `Authorization` header value carries,
/// or `None` where it is not well-formed Basic credentials.
pub open spec fn parse_spec(header: Seq<char>) -> Option<(Seq<char>, Seq<char>)> {
    let trimmed = trim_start_spec(header);
    let rest = trimmed.skip(5);
    if !starts_with_ignore_case_spec(trimmed, basic_token()) {
        None
    } else if !(rest.len() > 0 && is_white_space(rest[0])) {
        None
    } else {
        match base64_standard_decoded(trim_start_spec(rest)) {
            Some(bytes) => credentials_of_bytes(bytes),
            None => None,
        }
    }
}

/// The views of a pair of strings.
pub open spec fn pair_view(r: Option<(String, String)>) -> Option<(Seq<char>, Seq<char>)> {
    match r {
        Some((a, b)) => Some((a@, b@)),
        None => None,
    }
}

proof fn lemma_first_colon_at(s: Seq<char>, i: int)
    requires
        0 <= i < s.len(),
        s[i] == ':',
        forall|j: int| 0 <= j < i ==> s[j] != ':',
    ensures
        first_colon(s) == Some(i),
    decreases i,
{
    if i > 0 {
        lemma_first_colon_at(s.drop_first(), i - 1);
    }
}

proof fn lemma_first_colon_none(s: Seq<char>)
    requires
        forall|j: int| 0 <= j < s.len() ==> s[j] != ':',
    ensures
        first_colon(s) is None,
    decreases s.len(),
{
    if s.len() > 0 {
        lemma_first_colon_none(s.drop_first());
    }
}

/// Splits `s` at its first `:`; the part after it may hold further colons.
pub fn split_once_colon(s: &str) -> (r: Option<(String, String)>)
    ensures
        pair_view(r) == split_at_first_colon(s@),
{
    let len = s.unicode_len();
    let mut i: usize = 0;
    while i < len
        invariant
            len == s@.len(),
            i <= len,
            forall|j: int| 0 <= j < i ==> s@[j] != ':',
        decreases len - i,
    {
        if s.get_char(i) == ':' {
            proof {
                lemma_first_colon_at(s@, i as int);
            }
            let before = s.substring_char(0, i).to_owned();
            let after = s.substring_char(i + 1, len).to_owned();
            proof {
                assert(before@ =~= s@.take(i as int));
                assert(after@ =~= s@.skip(i + 1));
            }
            return Some((before, after));
        }
        i = i + 1;
    }
    proof {
        lemma_first_colon_none(s@);
    }
    None
}

/// Reads decoded credential bytes as UTF-8 text `identifier:secret`.
pub fn credentials_from_decoded(bytes: &[u8]) -> (r: Option<(String, String)>)
    ensures
        pair_view(r) == credentials_of_bytes(bytes@),
{
    match utf8_text(bytes) {
        Ok(text) => split_once_colon(text),
        Err(_) => None,
    }
}

proof fn lemma_trim_start_len(s: Seq<char>)
    ensures
        trim_start_spec(s).len() <= s.len(),
        trim_start_spec(s).len() < s.len() <==> (s.len() > 0 && is_white_space(s[0])),
    decreases s.len(),
{
    if s.len() > 0 && is_white_space(s[0]) {
        lemma_trim_start_len(s.drop_first());
    }
}

/// Parses the value of an `Authorization` header into an identifier and a
/// secret: the scheme `Basic` in any case, white space, then base64 of
/// `identifier:secret`.
pub fn extract_identifier_and_password(auth_header: &str) -> (r: Option<(String, String)>)
    ensures
        pair_view(r) == parse_spec(auth_header@),
{
    let trimmed = trim_leading_white_space(auth_header);
    let token = "basic";
    proof {
        reveal_strlit("basic");
        assert(token@ =~= basic_token());
    }
    if !starts_with_ignore_case(trimmed, token) {
        return None;
    }
    let rest = trimmed.substring_char(5, trimmed.unicode_len());
    assert(rest@ =~= trimmed@.skip(5));
    let encoded = trim_leading_white_space(rest);
    proof {
        lemma_trim_start_len(rest@);
    }
    if encoded.unicode_len() == rest.unicode_len() {
        return None;
    }
    match decode_base64(encoded) {
        Ok(decoded) => credentials_from_decoded(decoded.as_slice()),
        Err(_) => None,
    }
}

/// Every character of `s` is white space.
pub open spec fn all_white_space(s: Seq<char>) -> bool {
    forall|i: int| 0 <= i < s.len() ==> is_white_space(#[trigger] s[i])
}

/// `s` holds no `:`.
pub open spec fn colon_free(s: Seq<char>) -> bool {
    forall|i: int| 0 <= i < s.len() ==> #[trigger] s[i] != ':'
}

proof fn lemma_trim_white_prefix(w: Seq<char>, t: Seq<char>)
    requires
        all_white_space(w),
        t.len() == 0 || !is_white_space(t[0]),
    ensures
        trim_start_spec(w + t) == t,
    decreases w.len(),
{
    if w.len() == 0 {
        assert(w + t =~= t);
    } else {
        assert((w + t).drop_first() =~= w.drop_first() + t);
        lemma_trim_white_prefix(w.drop_first(), t);
    }
}

proof fn lemma_split_of_joined(id: Seq<char>, secret: Seq<char>)
    requires
        colon_free(id),
    ensures
        split_at_first_colon(id + seq![':'] + secret) == Some((id, secret)),
{
    let s = id + seq![':'] + secret;
    lemma_first_colon_at(s, id.len() as int);
    assert(s.take(id.len() as int) =~= id);
    assert(s.skip(id.len() as int + 1) =~= secret);
}

/// A header that starts with the scheme token `basic` in any letter case,
/// followed by white space and the base64 text of the UTF-8 bytes of
/// `id:secret`, parses to `(id, secret)`. The split falls at the first `:`,
/// so `secret` may itself hold colons.
pub proof fn lemma_basic_credentials_parse(
    scheme: Seq<char>,
    gap: Seq<char>,
    encoded: Seq<char>,
    id: Seq<char>,
    secret: Seq<char>,
)
    requires
        scheme.len() == 5,
        starts_with_ignore_case_spec(scheme, basic_token()),
        gap.len() > 0,
        all_white_space(gap),
        encoded.len() == 0 || !is_white_space(encoded[0]),
        base64_standard_decoded(encoded) == Some(encode_utf8(id + seq![':'] + secret)),
        colon_free(id),
    ensures
        parse_spec(scheme + gap + encoded) == Some((id, secret)),
{
    let header = scheme + gap + encoded;
    assert(crate::text::ascii_lower(scheme[0]) == 'b');
    assert(!is_white_space(header[0]));
    assert(trim_start_spec(header) == header);
    assert forall|i: int| 0 <= i < 5 implies crate::text::ascii_lower(#[trigger] header[i])
        == crate::text::ascii_lower(basic_token()[i]) by {
        assert(header[i] == scheme[i]);
    }
    assert(header.skip(5) =~= gap + encoded);
    lemma_trim_white_prefix(gap, encoded);
    let text = id + seq![':'] + secret;
    encode_utf8_valid_utf8(text);
    encode_utf8_decode_utf8(text);
    lemma_split_of_joined(id, secret);
}

/// A header whose first token, after leading white space, is not `basic` in
/// any letter case (another scheme, a longer word, or nothing) parses to `None`.
pub proof fn lemma_other_scheme_rejected(header: Seq<char>)
    requires
        !({
            let t = trim_start_spec(header);
            starts_with_ignore_case_spec(t, basic_token()) && t.len() > 5 && is_white_space(t[5])
        }),
    ensures
        parse_spec(header) is None,
{
}

/// A `Basic` header whose decoded text holds no `:` parses to `None`.
pub proof fn lemma_credentials_without_colon_rejected(
    scheme: Seq<char>,
    gap: Seq<char>,
    encoded: Seq<char>,
    text: Seq<char>,
)
    requires
        scheme.len() == 5,
        starts_with_ignore_case_spec(scheme, basic_token()),
        gap.len() > 0,
        all_white_space(gap),
        encoded.len() == 0 || !is_white_space(encoded[0]),
        base64_standard_decoded(encoded) == Some(encode_utf8(text)),
        colon_free(text),
    ensures
        parse_spec(scheme + gap + encoded) is None,
{
    let header = scheme + gap + encoded;
    assert(crate::text::ascii_lower(scheme[0]) == 'b');
    assert(!is_white_space(header[0]));
    assert(trim_start_spec(header) == header);
    assert forall|i: int| 0 <= i < 5 implies crate::text::ascii_lower(#[trigger] header[i])
        == crate::text::ascii_lower(basic_token()[i]) by {
        assert(header[i] == scheme[i]);
    }
    assert(header.skip(5) =~= gap + encoded);
    lemma_trim_white_prefix(gap, encoded);
    encode_utf8_valid_utf8(text);
    encode_utf8_decode_utf8(text);
    lemma_first_colon_none(text);
}

} // verus!
