//! Opaque cursors: the key of a row as a URL-safe string.
//!
//! A cursor is the base64 text of the JSON object that holds the key under
//! `id`. Nothing of the order of rows lives here.

use vstd::prelude::*;
use vstd::utf8::{decode_utf8, encode_utf8, valid_utf8};
use vstd::utf8::{encode_utf8_decode_utf8, encode_utf8_valid_utf8};

use crate::encoding::{
    base64_fits, base64_reads, base64_url_decode, base64_url_decoded, base64_url_encode,
    base64_url_encoded, url_safe, utf8_text,
};
use crate::json::{
    json_member, json_member_of, json_object, json_object_text, JsonMember, JsonValue,
};

verus! {

/// The name under which a cursor holds its key.
pub open spec fn key_member() -> Seq<char> {
    "id"@
}

/// The JSON text that a cursor wraps.
pub open spec fn cursor_json(key: Seq<char>) -> Seq<char> {
    json_object_text(seq![(key_member(), JsonMember::Text(key))])
}

/// The cursor of `key`.
pub open spec fn encoded(key: Seq<char>) -> Seq<char> {
    base64_url_encoded(encode_utf8(cursor_json(key)))
}

/// Whether the cursor of `key` fits the machine's addresses.
pub open spec fn encodable(key: Seq<char>) -> bool {
    base64_fits(encode_utf8(cursor_json(key)).len())
}

/// The key that `text` is the cursor of: `None` where `text` is too long to
/// be read, is no base64, the bytes are no UTF-8, or the text is no JSON
/// object with a string under `id`.
pub open spec fn decoded(text: Seq<char>) -> Option<Seq<char>> {
    if !base64_reads(encode_utf8(text).len()) {
        None
    } else {
        decoded_base64(text)
    }
}

/// The key that the base64 text `text` is the cursor of.
pub open spec fn decoded_base64(text: Seq<char>) -> Option<Seq<char>> {
    match base64_url_decoded(text) {
        Some(bytes) => if valid_utf8(bytes) {
            match json_member_of(decode_utf8(bytes), key_member()) {
                Some(JsonMember::Text(key)) => Some(key),
                _ => None,
            }
        } else {
            None
        },
        None => None,
    }
}

fn key_json(key: &str) -> (text: String)
    ensures
        text@ == cursor_json(key@),
        json_member_of(text@, key_member()) == Some(JsonMember::Text(key@)),
{
    let mut members: Vec<(String, JsonValue)> = Vec::new();
    members.push(("id".to_owned(), JsonValue::Text(key.to_owned())));
    let text = json_object(&members);
    proof {
        let written = crate::json::members_of(members@);
        assert(written =~= seq![(key_member(), JsonMember::Text(key@))]);
        assert(crate::json::written(written, key_member()) == Some(JsonMember::Text(key@)));
    }
    text
}

/// The cursor of `key`. It stands in a URL as it is, and decoding it gives
/// `key` back.
pub fn encode_key(key: &str) -> (text: String)
    requires
        encodable(key@),
    ensures
        text@ == encoded(key@),
        url_safe(text@),
        decoded(text@) == Some(key@),
{
    let json = key_json(key);
    proof {
        encode_utf8_valid_utf8(json@);
        encode_utf8_decode_utf8(json@);
    }
    base64_url_encode(json.as_str().as_bytes())
}

/// The cursor of `key`, or `None` where it is too long for the machine.
pub fn try_encode_key(key: &str) -> (text: Option<String>)
    ensures
        match text {
            Some(t) => encodable(key@) && t@ == encoded(key@) && url_safe(t@) && decoded(t@)
                == Some(key@),
            None => !encodable(key@),
        },
{
    let json = key_json(key);
    let len = json.as_str().as_bytes().len();
    if len / 3 <= (usize::MAX - 11) / 4 {
        Some(encode_key(key))
    } else {
        None
    }
}

/// The key that `text` is the cursor of, `None` where it is none.
pub fn decode_key(text: &str) -> (key: Option<String>)
    ensures
        match key {
            Some(k) => decoded(text@) == Some(k@),
            None => decoded(text@) is None,
        },
{
    if text.as_bytes().len() > usize::MAX - 7 {
        return None;
    }
    match base64_url_decode(text) {
        Some(bytes) => match utf8_text(bytes) {
            Some(json) => match json_member(json.as_str(), "id") {
                Some(JsonValue::Text(key)) => Some(key),
                _ => None,
            },
            None => None,
        },
        None => None,
    }
}

/// A value that crosses the outer boundary as an opaque string.
pub trait Cursor: Sized {
    /// The key that the cursor stands for.
    spec fn key(&self) -> Seq<char>;

    /// The cursor as a string. It stands in a URL as it is, and decoding
    /// it gives the cursor back.
    fn encode(&self) -> (text: String)
        requires
            encodable(self.key()),
        ensures
            text@ == encoded(self.key()),
            url_safe(text@),
            decoded(text@) == Some(self.key()),
    ;

    /// The cursor as a string, or `None` where it is too long for the
    /// machine.
    fn try_encode(&self) -> (text: Option<String>)
        ensures
            match text {
                Some(t) => encodable(self.key()) && t@ == encoded(self.key()) && url_safe(t@)
                    && decoded(t@) == Some(self.key()),
                None => !encodable(self.key()),
            },
    ;

    /// The cursor that `text` holds, `None` where `text` is malformed.
    fn decode(text: &str) -> (cursor: Option<Self>)
        ensures
            match cursor {
                Some(c) => decoded(text@) == Some(c.key()),
                None => decoded(text@) is None,
            },
    ;
}

} // verus!
