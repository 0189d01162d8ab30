//! Base64 and UTF-8, as the `base64` crate and the standard library do them.

use vstd::prelude::*;
use vstd::utf8::{decode_utf8, encode_utf8, valid_utf8};

verus! {

/// The URL-safe base64 text, with padding, of `bytes`.
pub uninterp spec fn base64_url_encoded(bytes: Seq<u8>) -> Seq<char>;

/// The bytes that `text` holds as URL-safe base64 with padding, or `None`
/// where `text` is no such base64.
pub uninterp spec fn base64_url_decoded(text: Seq<char>) -> Option<Seq<u8>>;

/// Whether `c` belongs to URL-safe base64 with padding: a letter, a digit,
/// `-`, `_`, or the `=` that pads. Such a character stands in a URL as it
/// is.
pub open spec fn is_base64_url(c: char) -> bool {
    ||| 'A' <= c <= 'Z'
    ||| 'a' <= c <= 'z'
    ||| '0' <= c <= '9'
    ||| c == '-'
    ||| c == '_'
    ||| c == '='
}

/// Whether `text` is made of the characters of URL-safe base64.
pub open spec fn url_safe(text: Seq<char>) -> bool {
    forall|i: int| 0 <= i < text.len() ==> is_base64_url(#[trigger] text[i])
}

/// How long the base64 text of `len` bytes is, in bytes: four for every
/// three bytes, and four for a rest.
pub open spec fn base64_len(len: nat) -> nat {
    ((len + 2) / 3 * 4) as nat
}

/// Whether a text of `len` bytes can be read as base64 on this machine.
pub open spec fn base64_reads(len: nat) -> bool {
    len + 7 <= usize::MAX
}

/// Whether `len` bytes can be written as base64 on this machine, and the
/// text be read back.
pub open spec fn base64_fits(len: nat) -> bool {
    (len / 3) * 4 + 11 <= usize::MAX
}

/// `base64::encode_config` with `base64::URL_SAFE`. Trusted: the result is
/// the base64 text of `bytes`, written in the URL-safe alphabet with `=`
/// for padding, of the length that the crate computes for it, and decoding
/// that text with the same configuration gives `bytes` back. The crate panics where the length of the text overflows, which
/// `requires` leaves out.
#[verifier::external_body]
pub(crate) fn base64_url_encode(bytes: &[u8]) -> (text: String)
    requires
        base64_fits(bytes@.len()),
    ensures
        text@ == base64_url_encoded(bytes@),
        url_safe(text@),
        encode_utf8(text@).len() == base64_len(bytes@.len()),
        base64_url_decoded(text@) == Some(bytes@),
{
    base64::encode_config(bytes, base64::URL_SAFE)
}

/// `base64::decode_config` with `base64::URL_SAFE`. Trusted: the result is
/// what the text decodes to, `None` where the crate reports an error. The
/// crate panics where its sums on the length of the text overflow, which
/// `requires` leaves out.
#[verifier::external_body]
pub(crate) fn base64_url_decode(text: &str) -> (bytes: Option<Vec<u8>>)
    requires
        base64_reads(encode_utf8(text@).len()),
    ensures
        match bytes {
            Some(b) => base64_url_decoded(text@) == Some(b@),
            None => base64_url_decoded(text@) is None,
        },
{
    base64::decode_config(text, base64::URL_SAFE).ok()
}

/// `String::from_utf8`. Trusted: the text that the bytes encode, `None`
/// where they are not UTF-8.
#[verifier::external_body]
pub(crate) fn utf8_text(bytes: Vec<u8>) -> (text: Option<String>)
    ensures
        match text {
            Some(t) => valid_utf8(bytes@) && t@ == decode_utf8(bytes@),
            None => !valid_utf8(bytes@),
        },
{
    String::from_utf8(bytes).ok()
}

} // verus!
