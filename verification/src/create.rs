//! Creation of a record: the body of the request, read as JSON and given an
//! identifier.

use crate::decimal::{decimal, decimal_string, lemma_decimal_injective, lemma_decimal_shape};
use crate::json::{json_doc, json_parsed, json_printed, parse_json, print_json, set_member,
    text_value, JsonDoc};
use crate::response::{ApiError, Outcome};
use vstd::prelude::*;

verus! {

/// Draws an identifier with `rand::random`, from the generator of the
/// calling thread. Nothing is known of the byte that comes, and two calls
/// need not agree.
#[verifier::external_body]
pub(crate) fn random_id() -> u8 {
    rand::random()
}

/// The document with the member `id` set to the decimal numeral of `id`, as
/// a string. Every other member of an object stays; a document without
/// members gets this one.
pub open spec fn with_id(doc: JsonDoc, id: u8) -> JsonDoc {
    JsonDoc::Object(doc.members().insert("id"@, JsonDoc::Text(decimal(id as nat))))
}

/// Sets the member `id` of `doc` to the decimal numeral of `id`, in place
/// of an earlier member of that name. The document must be one that takes
/// members.
pub fn assign_id(doc: &mut serde_json::Value, id: u8)
    requires
        json_doc(*old(doc)).takes_members(),
    ensures
        json_doc(*final(doc)) == with_id(json_doc(*old(doc)), id),
{
    let numeral = decimal_string(id as u16);
    set_member(doc, "id", text_value(numeral.as_str()));
}

/// What creation gives for a body and an identifier. A body that is not
/// JSON is a decoding error. A body that is an object, or null, comes back
/// as JSON text with the identifier set. For a body that holds any other
/// JSON value there is no outcome.
pub open spec fn created(body: Seq<u8>, id: u8) -> Option<Outcome> {
    match json_parsed(body) {
        None => Some(Err(ApiError::Decode)),
        Some(doc) => if doc.takes_members() {
            Some(
                match json_printed(with_id(doc, id)) {
                    Some(json) => Ok(json),
                    None => Err(ApiError::Encode),
                },
            )
        } else {
            None
        },
    }
}

/// What the result of a creation holds.
pub open spec fn created_of(result: Option<Result<String, ApiError>>) -> Option<Outcome> {
    match result {
        Some(Ok(json)) => Some(Ok(json@)),
        Some(Err(error)) => Some(Err(error)),
        None => None,
    }
}

/// Reads `body` as JSON, sets its member `id` and writes it back as JSON.
/// Returns `None`, and does nothing, where the body is JSON but neither an
/// object nor null.
pub fn create_json(body: &[u8], id: u8) -> (result: Option<Result<String, ApiError>>)
    ensures
        created_of(result) == created(body@, id),
{
    let mut doc = match parse_json(body) {
        Ok(doc) => doc,
        Err(_) => {
            return Some(Err(ApiError::Decode));
        },
    };
    if !(doc.is_object() || doc.is_null()) {
        return None;
    }
    assign_id(&mut doc, id);
    match print_json(&doc) {
        Ok(json) => Some(Ok(json)),
        Err(_) => Some(Err(ApiError::Encode)),
    }
}

/// What setting the identifier does to a document: the result is an object
/// that holds the members of the document and the member `id`; its `id` is
/// the numeral of the identifier, a string that is not empty; every other
/// member is the one that the document had.
pub proof fn lemma_with_id_members(doc: JsonDoc, id: u8)
    ensures
        with_id(doc, id) is Object,
        with_id(doc, id).members().dom() == doc.members().dom().insert("id"@),
        with_id(doc, id).members()["id"@] == JsonDoc::Text(decimal(id as nat)),
        decimal(id as nat).len() >= 1,
        forall|key: Seq<char>|
            key != "id"@ && doc.members().contains_key(key) ==> #[trigger] with_id(
                doc,
                id,
            ).members()[key] == doc.members()[key],
{
    lemma_decimal_shape(id as nat);
}

/// Two identifiers that differ give two documents that differ.
pub proof fn lemma_with_id_injective(doc: JsonDoc, id: u8, other: u8)
    requires
        id != other,
    ensures
        with_id(doc, id) != with_id(doc, other),
{
    if with_id(doc, id) == with_id(doc, other) {
        assert(with_id(doc, id).members()["id"@] == with_id(doc, other).members()["id"@]);
        lemma_decimal_injective(id as nat, other as nat);
    }
}

/// Setting the identifier twice is setting it once: the second identifier
/// stands in place of the first, and nothing else changes.
pub proof fn lemma_with_id_overwrites(doc: JsonDoc, first: u8, second: u8)
    ensures
        with_id(with_id(doc, first), second) == with_id(doc, second),
{
    assert(doc.members().insert("id"@, JsonDoc::Text(decimal(first as nat))).insert(
        "id"@,
        JsonDoc::Text(decimal(second as nat)),
    ) =~= doc.members().insert("id"@, JsonDoc::Text(decimal(second as nat))));
}

} // verus!
