//! What the library shares with a document store: how ids are made, and
//! under which name a document holds its id.
//!
//! An entity holds its id under `id`; the store holds it under `_id`. The
//! name is changed where a document crosses the boundary, and nowhere else.

use vstd::prelude::*;

use crate::result::{Error, ErrorKind, ErrorView};

verus! {

/// `bson::Document`, of which the library reads nothing but its entries.
#[verifier::external_type_specification]
#[verifier::external_body]
pub struct ExDocument(bson::Document);

/// `bson::Bson`, a value that the library moves and never reads.
#[verifier::external_type_specification]
#[verifier::external_body]
pub struct ExBson(bson::Bson);

/// The entries of a document, by key.
pub uninterp spec fn document_entries(document: bson::Document) -> Map<Seq<char>, bson::Bson>;

/// Whether `c` is a digit of lower-case hexadecimal.
pub open spec fn is_lower_hex(c: char) -> bool {
    ('0' <= c && c <= '9') || ('a' <= c && c <= 'f')
}

/// `bson::oid::ObjectId::new` and `to_hex` on it. Trusted: an object id has
/// twelve bytes, so its text has twenty-four digits of lower-case
/// hexadecimal; which ones depends on the time, the process and a counter.
/// The crate panics where the clock stands before 1970 or after 2106.
#[verifier::external_body]
pub fn new_id() -> (id: String)
    ensures
        id@.len() == 24,
        forall|i: int| 0 <= i < id@.len() ==> is_lower_hex(#[trigger] id@[i]),
{
    bson::oid::ObjectId::new().to_hex()
}

/// `bson::Document::remove`. Trusted: the entry under `key` leaves the
/// document and is returned, `None` where there is none.
#[verifier::external_body]
fn document_remove(document: &mut bson::Document, key: &str) -> (value: Option<bson::Bson>)
    ensures
        document_entries(*final(document)) == document_entries(*old(document)).remove(key@),
        value == if document_entries(*old(document)).contains_key(key@) {
            Some(document_entries(*old(document))[key@])
        } else {
            None
        },
{
    document.remove(key)
}

/// `bson::Document::insert`. Trusted: the document then holds `value`
/// under `key`, in place of what it held there.
#[verifier::external_body]
fn document_insert(document: &mut bson::Document, key: &str, value: bson::Bson)
    ensures
        document_entries(*final(document)) == document_entries(*old(document)).insert(
            key@,
            value,
        ),
{
    document.insert(key, value);
}

/// The entries with what stood under `from` moved to `to`.
pub open spec fn renamed(
    entries: Map<Seq<char>, bson::Bson>,
    from: Seq<char>,
    to: Seq<char>,
) -> Map<Seq<char>, bson::Bson> {
    entries.remove(from).insert(to, entries[from])
}

/// The document of an entity as the store holds it: the id moves from
/// `id` to `_id`. A document without an id stays as it is.
pub fn to_doc(document: bson::Document) -> (res: bson::Document)
    ensures
        document_entries(res) == if document_entries(document).contains_key("id"@) {
            renamed(document_entries(document), "id"@, "_id"@)
        } else {
            document_entries(document)
        },
{
    let mut doc = document;
    match document_remove(&mut doc, "id") {
        Some(id) => {
            document_insert(&mut doc, "_id", id);
            doc
        },
        None => {
            assert(document_entries(doc) =~= document_entries(document));
            doc
        },
    }
}

/// The document of the store as an entity is read from it: the id moves
/// from `_id` to `id`. A document without `_id` is refused as `Unknown`.
pub fn from_doc(document: bson::Document) -> (res: Result<bson::Document, Error>)
    ensures
        match res {
            Ok(doc) => document_entries(document).contains_key("_id"@) && document_entries(doc)
                == renamed(document_entries(document), "_id"@, "id"@),
            Err(e) => !document_entries(document).contains_key("_id"@) && e@ == (ErrorView {
                kind: ErrorKind::Unknown,
                message: Some("Convert document to object require id property exist"@),
            }),
        },
{
    let mut doc = document;
    match document_remove(&mut doc, "_id") {
        Some(id) => {
            document_insert(&mut doc, "id", id);
            Ok(doc)
        },
        None => Err(
            Error::unknown(
                Some("Convert document to object require id property exist".to_owned()),
            ),
        ),
    }
}

} // verus!
