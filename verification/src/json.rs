//! JSON documents as the upstream service sends them.
//!
//! A document is a `serde_json::Value`. Contracts speak of it through
//! [`json_model`], its mathematical content; the few operations that look
//! inside a document are wrappers around the methods of `serde_json`.

use serde_json::Value;
use vstd::prelude::*;

verus! {

#[verifier::external_type_specification]
#[verifier::external_body]
pub struct ExValue(serde_json::Value);

/// The mathematical content of a JSON document.
pub enum JsonModel {
    Null,
    Bool(bool),
    /// A number, by its numeral.
    Number(Seq<char>),
    Text(Seq<char>),
    Array(Seq<JsonModel>),
    Object(Map<Seq<char>, JsonModel>),
}

/// The content of a `serde_json::Value`: which of the six JSON kinds it is,
/// and what it holds.
pub uninterp spec fn json_model(v: Value) -> JsonModel;

/// The contents of a sequence of documents, item by item.
pub open spec fn json_models(items: Seq<Value>) -> Seq<JsonModel> {
    items.map_values(|v: Value| json_model(v))
}

/// The member of `doc` under `key`: present only where `doc` is an object
/// that has the key.
pub open spec fn member_of(doc: JsonModel, key: Seq<char>) -> Option<JsonModel> {
    match doc {
        JsonModel::Object(members) => if members.contains_key(key) {
            Some(members[key])
        } else {
            None
        },
        _ => None,
    }
}

/// The items of `doc`, where it is an array.
pub open spec fn items_of(doc: JsonModel) -> Option<Seq<JsonModel>> {
    match doc {
        JsonModel::Array(items) => Some(items),
        _ => None,
    }
}

/// The text of `doc`, where it is a string.
pub open spec fn text_of(doc: JsonModel) -> Option<Seq<char>> {
    match doc {
        JsonModel::Text(t) => Some(t),
        _ => None,
    }
}

/// Not verified: `serde_json::Value::get` with a string key. It hands out
/// the member stored under the key where the document is an object that has
/// the key, and nothing for any other document.
#[verifier::external_body]
pub(crate) fn member<'a>(doc: &'a Value, key: &str) -> (found: Option<&'a Value>)
    ensures
        match found {
            Some(m) => member_of(json_model(*doc), key@) == Some(json_model(*m)),
            None => member_of(json_model(*doc), key@) is None,
        },
{
    doc.get(key)
}

/// Not verified: `serde_json::Value::as_array`. It hands out the items of
/// an array, in their order, and nothing for any other document.
#[verifier::external_body]
pub(crate) fn items<'a>(doc: &'a Value) -> (found: Option<&'a Vec<Value>>)
    ensures
        match found {
            Some(list) => items_of(json_model(*doc)) == Some(json_models(list@)),
            None => items_of(json_model(*doc)) is None,
        },
{
    doc.as_array()
}

/// Not verified: `serde_json::Value::as_str`. It hands out the text of a
/// string, and nothing for any other document.
#[verifier::external_body]
pub(crate) fn text<'a>(doc: &'a Value) -> (found: Option<&'a str>)
    ensures
        match found {
            Some(t) => text_of(json_model(*doc)) == Some(t@),
            None => text_of(json_model(*doc)) is None,
        },
{
    doc.as_str()
}

/// Not verified: `Clone::clone` of `serde_json::Value`. The copy has the
/// content of the document it was made from.
#[verifier::external_body]
pub(crate) fn duplicate(doc: &Value) -> (copy: Value)
    ensures
        json_model(copy) == json_model(*doc),
{
    doc.clone()
}

/// Copies a list of documents, item by item.
pub fn duplicate_all(list: &Vec<Value>) -> (copies: Vec<Value>)
    ensures
        json_models(copies@) == json_models(list@),
{
    let mut copies: Vec<Value> = Vec::new();
    let mut i: usize = 0;
    while i < list.len()
        invariant
            i <= list.len(),
            copies.len() == i,
            forall|j: int| 0 <= j < i ==> json_model(#[trigger] copies[j]) == json_model(list[j]),
        decreases list.len() - i,
    {
        copies.push(duplicate(&list[i]));
        i += 1;
    }
    assert(json_models(copies@) =~= json_models(list@));
    copies
}

} // verus!
