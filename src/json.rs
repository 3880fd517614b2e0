//! The calls into the JSON codec, the standard library's UTF-8 decoding and
//! the random number generator that the dispatch and the façade rely on.
use vstd::prelude::*;
use vstd::utf8::{decode_utf8, valid_utf8};

verus! {

/// A JSON document, as the JSON codec holds it.
#[verifier::external_type_specification]
#[verifier::external_body]
pub struct ExJsonValue(serde_json::Value);

/// The JSON codec's error.
#[verifier::external_type_specification]
#[verifier::external_body]
pub struct ExJsonError(serde_json::Error);

/// Whether the JSON codec reads the text `text` as one JSON document.
pub uninterp spec fn json_accepts(text: Seq<char>) -> bool;

/// The lowercase hexadecimal digit for `n` (below 16).
pub open spec fn hex_digit(n: u32) -> char {
    seq!['0', '1', '2', '3', '4', '5', '6', '7', '8', '9', 'a', 'b', 'c', 'd', 'e', 'f'][n as int]
}

/// How the JSON codec writes one character inside a string literal: quote
/// and backslash are escaped, the five named control characters get their
/// short escapes, other control characters below 0x20 are written as
/// `\u00` and two lowercase hexadecimal digits, everything else as it is.
pub open spec fn escaped_char(c: char) -> Seq<char> {
    if c == '"' {
        seq!['\\', '"']
    } else if c == '\\' {
        seq!['\\', '\\']
    } else if c == '\x08' {
        seq!['\\', 'b']
    } else if c == '\t' {
        seq!['\\', 't']
    } else if c == '\n' {
        seq!['\\', 'n']
    } else if c == '\x0c' {
        seq!['\\', 'f']
    } else if c == '\r' {
        seq!['\\', 'r']
    } else if (c as u32) < 0x20 {
        seq!['\\', 'u', '0', '0', hex_digit((c as u32) / 16), hex_digit((c as u32) % 16)]
    } else {
        seq![c]
    }
}

/// The escaped characters of `text`, in order.
pub open spec fn escaped(text: Seq<char>) -> Seq<char>
    decreases text.len(),
{
    if text.len() == 0 {
        seq![]
    } else {
        escaped(text.drop_last()) + escaped_char(text.last())
    }
}

/// The JSON codec's rendering of the text `text` as a JSON string literal.
pub open spec fn json_string_literal(text: Seq<char>) -> Seq<char> {
    seq!['"'] + escaped(text) + seq!['"']
}

proof fn lemma_escaped_char_nul_free(c: char)
    ensures
        !escaped_char(c).contains('\0'),
{
    let e = escaped_char(c);
    if (c as u32) < 0x20 && c != '"' && c != '\\' && c != '\x08' && c != '\t' && c != '\n'
        && c != '\x0c' && c != '\r' {
        let hi = (c as u32) / 16;
        let lo = (c as u32) % 16;
        assert(hi < 16 && lo < 16);
        assert(hex_digit(hi) != '\0');
        assert(hex_digit(lo) != '\0');
    }
    assert forall|i: int| 0 <= i < e.len() implies e[i] != '\0' by {}
}

/// A JSON string literal never holds a NUL character.
pub proof fn lemma_string_literal_nul_free(text: Seq<char>)
    ensures
        !json_string_literal(text).contains('\0'),
{
    lemma_escaped_nul_free(text);
    let l = json_string_literal(text);
    assert forall|i: int| 0 <= i < l.len() implies l[i] != '\0' by {
        if 0 < i < l.len() - 1 {
            assert(l[i] == escaped(text)[i - 1]);
        }
    }
}

proof fn lemma_escaped_nul_free(text: Seq<char>)
    ensures
        !escaped(text).contains('\0'),
    decreases text.len(),
{
    if text.len() > 0 {
        lemma_escaped_nul_free(text.drop_last());
        lemma_escaped_char_nul_free(text.last());
        let a = escaped(text.drop_last());
        let b = escaped_char(text.last());
        assert forall|i: int| 0 <= i < a.len() + b.len() implies (a + b)[i] != '\0' by {
            if i < a.len() {
                assert(a[i] != '\0');
            } else {
                assert(b[i - a.len()] != '\0');
            }
        }
    }
}

/// Relies on `serde_json::from_str::<serde_json::Value>`: it succeeds exactly
/// when the text is one JSON document, which depends on the text alone.
#[verifier::external_body]
pub(crate) fn parse_json(text: &str) -> (r: Result<serde_json::Value, serde_json::Error>)
    ensures
        r is Ok <==> json_accepts(text@),
{
    serde_json::from_str::<serde_json::Value>(text)
}

/// Relies on `serde_json::Value`'s `Display`: the compact JSON text of a
/// document. The serializer writes every control character of a string
/// escaped (its `ESCAPE` table), so the text holds no NUL character.
#[verifier::external_body]
pub(crate) fn json_text(value: &serde_json::Value) -> (r: String)
    ensures
        !r@.contains('\0'),
{
    value.to_string()
}

/// Relies on `serde_json::to_string` on a `str`: the text in quotes with
/// each character escaped as `escaped_char` states (`format_escaped_str`
/// and its `ESCAPE` table). Writing a string into a buffer cannot fail.
#[verifier::external_body]
pub(crate) fn quote_json(text: &str) -> (r: Result<String, serde_json::Error>)
    ensures
        r is Ok,
        r matches Ok(q) ==> q@ == json_string_literal(text@),
{
    serde_json::to_string(text)
}

/// Relies on `std::str::from_utf8`: it succeeds exactly on valid UTF-8 and
/// then holds the decoded characters.
#[verifier::external_body]
pub(crate) fn decode_text(bytes: &[u8]) -> (r: Option<String>)
    ensures
        r is Some <==> valid_utf8(bytes@),
        r matches Some(s) ==> s@ == decode_utf8(bytes@),
{
    match std::str::from_utf8(bytes) {
        Ok(s) => Some(s.to_string()),
        Err(_) => None,
    }
}

/// Relies on `rand::random`: a value drawn from the thread's generator;
/// nothing is known of it.
pub assume_specification<T>[ rand::random::<T> ]() -> (r: T)
    where
        rand::distributions::Standard: rand::distributions::Distribution<T>,
;

} // verus!
