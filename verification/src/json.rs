//! JSON objects of plain members, read and written by `serde_json`.

use vstd::prelude::*;

verus! {

/// A member of a JSON object, as far as this library reads it.
#[derive(Debug, Clone, PartialEq)]
pub enum JsonValue {
    Null,
    Bool(bool),
    /// A number that is a `u64`.
    Unsigned(u64),
    /// Any other number.
    Number,
    Text(String),
    /// An array or an object.
    Nested,
}

/// A member of a JSON object as contracts see it.
pub enum JsonMember {
    Null,
    Bool(bool),
    Unsigned(u64),
    Number,
    Text(Seq<char>),
    Nested,
}

impl View for JsonValue {
    type V = JsonMember;

    open spec fn view(&self) -> JsonMember {
        match *self {
            JsonValue::Null => JsonMember::Null,
            JsonValue::Bool(b) => JsonMember::Bool(b),
            JsonValue::Unsigned(n) => JsonMember::Unsigned(n),
            JsonValue::Number => JsonMember::Number,
            JsonValue::Text(s) => JsonMember::Text(s@),
            JsonValue::Nested => JsonMember::Nested,
        }
    }
}

impl JsonMember {
    /// Whether the member can be written: it holds all of its value.
    pub open spec fn plain(self) -> bool {
        !(self is Number) && !(self is Nested)
    }
}

/// The members that are to be written, by name, in the order of writing.
pub open spec fn members_of(members: Seq<(String, JsonValue)>) -> Seq<(Seq<char>, JsonMember)> {
    members.map_values(|m: (String, JsonValue)| (m.0@, m.1@))
}

/// The member that is written last under `key`.
pub open spec fn written(members: Seq<(Seq<char>, JsonMember)>, key: Seq<char>) -> Option<
    JsonMember,
>
    decreases members.len(),
{
    if members.len() == 0 {
        None
    } else if members.last().0 == key {
        Some(members.last().1)
    } else {
        written(members.drop_last(), key)
    }
}

/// The member `key` of the JSON object that `text` holds: `None` where
/// `text` is no JSON, holds no object, or the object has no such member.
pub uninterp spec fn json_member_of(text: Seq<char>, key: Seq<char>) -> Option<JsonMember>;

/// Whether `text` is JSON: whether `serde_json` reads a value from it.
pub uninterp spec fn json_parses(text: Seq<char>) -> bool;

/// The JSON text of the object with `members`, written in their order.
pub uninterp spec fn json_object_text(members: Seq<(Seq<char>, JsonMember)>) -> Seq<char>;

/// `serde_json::from_str` to a `serde_json::Value`, and `Value::get` on it.
/// Trusted: the result is the member `key` of the object in `text`, each
/// kind of JSON value turned into the variant that stands for it.
#[verifier::external_body]
pub(crate) fn json_member(text: &str, key: &str) -> (member: Option<JsonValue>)
    ensures
        match member {
            Some(m) => json_member_of(text@, key@) == Some(m@),
            None => json_member_of(text@, key@) is None,
        },
{
    let parsed: serde_json::Value = serde_json::from_str(text).ok()?;
    Some(match parsed.get(key)? {
        serde_json::Value::Null => JsonValue::Null,
        serde_json::Value::Bool(b) => JsonValue::Bool(*b),
        serde_json::Value::Number(n) => match n.as_u64() {
            Some(u) => JsonValue::Unsigned(u),
            None => JsonValue::Number,
        },
        serde_json::Value::String(s) => JsonValue::Text(s.clone()),
        _ => JsonValue::Nested,
    })
}

/// `serde_json::to_string` of a `serde_json::Map` that holds `members`,
/// inserted in their order. Trusted: the result is the JSON text of that
/// object, which `serde_json` reads again, and read back, each name gives
/// the member that was written last under it. The crate writes a map of strings, numbers, booleans and nulls
/// under string keys without an error.
#[verifier::external_body]
pub(crate) fn json_object(members: &Vec<(String, JsonValue)>) -> (text: String)
    requires
        forall|i: int| 0 <= i < members@.len() ==> (#[trigger] members@[i]).1@.plain(),
    ensures
        text@ == json_object_text(members_of(members@)),
        json_parses(text@),
        forall|key: Seq<char>| #[trigger]
            json_member_of(text@, key) == written(members_of(members@), key),
{
    let mut map = serde_json::Map::new();
    for (key, value) in members.iter() {
        let v = match value {
            JsonValue::Bool(b) => serde_json::Value::from(*b),
            JsonValue::Unsigned(n) => serde_json::Value::from(*n),
            JsonValue::Text(s) => serde_json::Value::from(s.as_str()),
            _ => serde_json::Value::Null,
        };
        map.insert(key.clone(), v);
    }
    serde_json::to_string(&map).unwrap_or_default()
}

} // verus!
