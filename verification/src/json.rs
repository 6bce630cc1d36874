//! JSON documents, as `serde_json` parses, holds and prints them.
//!
//! Nothing in this module is proved: it declares the types of `serde_json`
//! that the library hands around and states, for each function of
//! `serde_json` that the library calls, what that function is trusted to do.
//! The statements are made over [`JsonDoc`], the tree that a
//! `serde_json::Value` holds.

use vstd::prelude::*;

verus! {

/// `serde_json::Value`, a parsed JSON document. What it holds is
/// [`json_doc`].
#[verifier::external_type_specification]
#[verifier::external_body]
pub struct ExValue(serde_json::Value);

/// `serde_json::Error`, the reason why parsing or printing failed. The
/// library only tells that there was one.
#[verifier::external_type_specification]
#[verifier::external_body]
pub struct ExError(serde_json::Error);

/// A JSON document as a tree. An object maps each of its keys to one
/// member; the order of its keys is no part of it.
pub ghost enum JsonDoc {
    Null,
    Bool(bool),
    /// A number, by the digits that write it.
    Number(Seq<char>),
    Text(Seq<char>),
    Array(Seq<JsonDoc>),
    Object(Map<Seq<char>, JsonDoc>),
}

impl JsonDoc {
    /// The members of an object; no members for any other document.
    pub open spec fn members(self) -> Map<Seq<char>, JsonDoc> {
        match self {
            JsonDoc::Object(members) => members,
            _ => Map::empty(),
        }
    }

    /// Whether a member can be assigned under a string key: the document is
    /// an object, or null, which then counts as the empty object.
    pub open spec fn takes_members(self) -> bool {
        self is Object || self is Null
    }
}

/// The document that a `serde_json::Value` holds.
pub uninterp spec fn json_doc(value: serde_json::Value) -> JsonDoc;

/// The document that `serde_json::from_slice` reads from `bytes`, or `None`
/// where it reports an error.
pub uninterp spec fn json_parsed(bytes: Seq<u8>) -> Option<JsonDoc>;

/// The text that `serde_json::to_string` prints for a document, or `None`
/// where it reports an error.
pub uninterp spec fn json_printed(doc: JsonDoc) -> Option<Seq<char>>;

/// Calls `serde_json::from_slice` for a `serde_json::Value`. Trusted: the
/// outcome depends on the bytes alone, and is named by [`json_parsed`].
#[verifier::external_body]
pub(crate) fn parse_json(bytes: &[u8]) -> (r: Result<serde_json::Value, serde_json::Error>)
    ensures
        match r {
            Ok(value) => json_parsed(bytes@) == Some(json_doc(value)),
            Err(_) => json_parsed(bytes@) is None,
        },
{
    serde_json::from_slice(bytes)
}

/// Calls `serde_json::to_string` on a `serde_json::Value`. Trusted: the
/// outcome depends on the document alone, and is named by [`json_printed`].
#[verifier::external_body]
pub(crate) fn print_json(value: &serde_json::Value) -> (r: Result<String, serde_json::Error>)
    ensures
        match r {
            Ok(text) => json_printed(json_doc(*value)) == Some(text@),
            Err(_) => json_printed(json_doc(*value)) is None,
        },
{
    serde_json::to_string(value)
}

/// `serde_json::Value::is_object`. Trusted: it tells whether the document
/// is an object.
pub assume_specification[ serde_json::Value::is_object ](value: &serde_json::Value) -> (b: bool)
    ensures
        b == (json_doc(*value) is Object),
;

/// `serde_json::Value::is_null`. Trusted: it tells whether the document is
/// null.
pub assume_specification[ serde_json::Value::is_null ](value: &serde_json::Value) -> (b: bool)
    ensures
        b == (json_doc(*value) is Null),
;

/// Calls `serde_json::Value::from` on a string slice. Trusted: the result
/// is the JSON string with the same characters.
#[verifier::external_body]
pub(crate) fn text_value(text: &str) -> (value: serde_json::Value)
    ensures
        json_doc(value) == JsonDoc::Text(text@),
{
    serde_json::Value::from(text)
}

/// Assigns `member` through the index operator of `serde_json::Value`,
/// `doc[key] = member`. The operator panics on a document that is neither
/// an object nor null. Trusted: null becomes the empty object first, and
/// the member is then inserted under `key`, in place of an earlier member
/// with that key.
#[verifier::external_body]
pub(crate) fn set_member(doc: &mut serde_json::Value, key: &str, member: serde_json::Value)
    requires
        json_doc(*old(doc)).takes_members(),
    ensures
        json_doc(*final(doc)) == JsonDoc::Object(
            json_doc(*old(doc)).members().insert(key@, json_doc(member)),
        ),
{
    doc[key] = member;
}

} // verus!
