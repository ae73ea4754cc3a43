//! Normalisation of an upstream answer into the uniform envelope.
//!
//! Every function here takes the status code and the parsed body that the
//! transport received. The `*_envelope` functions also take the clock
//! reading and are pure; the `*_response` functions read the clock
//! themselves.

use crate::clock::now_millis;
use crate::json::{
    duplicate, duplicate_all, items, items_of, json_model, json_models, member, member_of, text,
    text_of, JsonModel,
};
use crate::response::{document_view, list_view, ApiResponse, Envelope};
use crate::status::{is_success_status, status_ok};
use crate::text::{decimal, decimal_string, prefixed};
use serde_json::Value;
use vstd::prelude::*;

verus! {

/// What the body holds under the key `data`.
pub open spec fn upstream_data(body: JsonModel) -> Option<JsonModel> {
    member_of(body, "data"@)
}

/// The items under the key `data`, where that member is an array.
pub open spec fn upstream_list(body: JsonModel) -> Option<Seq<JsonModel>> {
    match upstream_data(body) {
        Some(d) => items_of(d),
        None => None,
    }
}

/// The text under the key `error`, where that member is a string.
pub open spec fn upstream_error(body: JsonModel) -> Option<Seq<char>> {
    match member_of(body, "error"@) {
        Some(e) => text_of(e),
        None => None,
    }
}

/// The message of a failed call: the prefix of the endpoint, then the error
/// that the upstream service reported or, where it reported none, the
/// fallback.
pub open spec fn failure_text(
    prefix: Seq<char>,
    body: JsonModel,
    fallback: Seq<char>,
) -> Seq<char> {
    prefix + match upstream_error(body) {
        Some(e) => e,
        None => fallback,
    }
}

/// The fallback of the endpoints that name no status code.
pub open spec fn unknown_error() -> Seq<char> {
    "Unknown error"@
}

/// The fallback that names the status code.
pub open spec fn http_fallback(status: u16) -> Seq<char> {
    "HTTP "@ + decimal(status as nat)
}

/// The envelope of an endpoint whose payload is a list.
pub open spec fn list_model(
    prefix: Seq<char>,
    status: u16,
    body: JsonModel,
    timestamp: i64,
) -> Envelope<Seq<JsonModel>> {
    if status_ok(status) {
        Envelope::succeeded(upstream_list(body), timestamp)
    } else {
        Envelope::failed(failure_text(prefix, body, unknown_error()), timestamp)
    }
}

/// The envelope of an endpoint whose payload is one document.
pub open spec fn document_model(
    prefix: Seq<char>,
    status: u16,
    body: JsonModel,
    timestamp: i64,
) -> Envelope<JsonModel> {
    if status_ok(status) {
        Envelope::succeeded(upstream_data(body), timestamp)
    } else {
        Envelope::failed(failure_text(prefix, body, unknown_error()), timestamp)
    }
}

/// The envelope of the positions endpoint.
pub open spec fn positions_model(
    status: u16,
    body: JsonModel,
    timestamp: i64,
) -> Envelope<Seq<JsonModel>> {
    list_model("Failed to fetch positions: "@, status, body, timestamp)
}

/// The envelope of the account summary endpoint.
pub open spec fn account_summary_model(
    status: u16,
    body: JsonModel,
    timestamp: i64,
) -> Envelope<JsonModel> {
    document_model("Failed to fetch portfolio: "@, status, body, timestamp)
}

/// The envelope of the orders endpoint.
pub open spec fn orders_model(
    status: u16,
    body: JsonModel,
    timestamp: i64,
) -> Envelope<Seq<JsonModel>> {
    list_model("Failed to fetch orders: "@, status, body, timestamp)
}

/// The envelope of the performance endpoint, whose body is the payload.
pub open spec fn performance_model(
    status: u16,
    body: JsonModel,
    timestamp: i64,
) -> Envelope<JsonModel> {
    if status_ok(status) {
        Envelope::succeeded(Some(body), timestamp)
    } else {
        Envelope::failed(
            failure_text("Failed to fetch performance: "@, body, http_fallback(status)),
            timestamp,
        )
    }
}

/// Copies the items under `data` out of the body; absent where the body has
/// no such member or the member is no array.
pub fn extract_list(body: &Value) -> (data: Option<Vec<Value>>)
    ensures
        match data {
            Some(list) => upstream_list(json_model(*body)) == Some(json_models(list@)),
            None => upstream_list(json_model(*body)) is None,
        },
{
    match member(body, "data") {
        Some(d) => match items(d) {
            Some(list) => Some(duplicate_all(list)),
            None => None,
        },
        None => None,
    }
}

/// Copies the member under `data` out of the body, whatever it is; absent
/// where the body has no such member.
pub fn extract_document(body: &Value) -> (data: Option<Value>)
    ensures
        match data {
            Some(doc) => upstream_data(json_model(*body)) == Some(json_model(doc)),
            None => upstream_data(json_model(*body)) is None,
        },
{
    match member(body, "data") {
        Some(d) => Some(duplicate(d)),
        None => None,
    }
}

/// The error that the upstream service reported in the body, if any.
pub fn extract_error<'a>(body: &'a Value) -> (found: Option<&'a str>)
    ensures
        match found {
            Some(e) => upstream_error(json_model(*body)) == Some(e@),
            None => upstream_error(json_model(*body)) is None,
        },
{
    match member(body, "error") {
        Some(e) => text(e),
        None => None,
    }
}

/// Builds the message of a failed call.
pub fn failure_message(prefix: &str, body: &Value, fallback: &str) -> (message: String)
    ensures
        message@ == failure_text(prefix@, json_model(*body), fallback@),
{
    match extract_error(body) {
        Some(e) => prefixed(prefix, e),
        None => prefixed(prefix, fallback),
    }
}

/// Normalises the answer of an endpoint whose payload is a list.
pub fn list_envelope(
    prefix: &str,
    status: u16,
    body: &Value,
    timestamp: i64,
) -> (r: ApiResponse<Vec<Value>>)
    ensures
        list_view(r) == list_model(prefix@, status, json_model(*body), timestamp),
        r.well_formed(),
{
    if is_success_status(status) {
        ApiResponse::succeeded(extract_list(body), timestamp)
    } else {
        ApiResponse::failed(failure_message(prefix, body, "Unknown error"), timestamp)
    }
}

/// Normalises the answer of an endpoint whose payload is one document.
pub fn document_envelope(
    prefix: &str,
    status: u16,
    body: &Value,
    timestamp: i64,
) -> (r: ApiResponse<Value>)
    ensures
        document_view(r) == document_model(prefix@, status, json_model(*body), timestamp),
        r.well_formed(),
{
    if is_success_status(status) {
        ApiResponse::succeeded(extract_document(body), timestamp)
    } else {
        ApiResponse::failed(failure_message(prefix, body, "Unknown error"), timestamp)
    }
}

/// Normalises an answer of the positions endpoint, taken at `timestamp`.
pub fn positions_envelope(
    status: u16,
    body: &Value,
    timestamp: i64,
) -> (r: ApiResponse<Vec<Value>>)
    ensures
        list_view(r) == positions_model(status, json_model(*body), timestamp),
        r.well_formed(),
{
    list_envelope("Failed to fetch positions: ", status, body, timestamp)
}

/// Normalises an answer of the account summary endpoint, taken at
/// `timestamp`.
pub fn account_summary_envelope(
    status: u16,
    body: &Value,
    timestamp: i64,
) -> (r: ApiResponse<Value>)
    ensures
        document_view(r) == account_summary_model(status, json_model(*body), timestamp),
        r.well_formed(),
{
    document_envelope("Failed to fetch portfolio: ", status, body, timestamp)
}

/// Normalises an answer of the orders endpoint, taken at `timestamp`.
pub fn orders_envelope(status: u16, body: &Value, timestamp: i64) -> (r: ApiResponse<Vec<Value>>)
    ensures
        list_view(r) == orders_model(status, json_model(*body), timestamp),
        r.well_formed(),
{
    list_envelope("Failed to fetch orders: ", status, body, timestamp)
}

/// Normalises an answer of the performance endpoint, taken at `timestamp`.
/// The whole body is the payload.
pub fn performance_envelope(status: u16, body: &Value, timestamp: i64) -> (r: ApiResponse<Value>)
    ensures
        document_view(r) == performance_model(status, json_model(*body), timestamp),
        r.well_formed(),
{
    if is_success_status(status) {
        ApiResponse::succeeded(Some(duplicate(body)), timestamp)
    } else {
        let code = decimal_string(status);
        let fallback = prefixed("HTTP ", code.as_str());
        ApiResponse::failed(
            failure_message("Failed to fetch performance: ", body, fallback.as_str()),
            timestamp,
        )
    }
}

/// Normalises an answer of the positions endpoint, stamped with the clock's
/// reading.
pub fn positions_response(status: u16, body: &Value) -> (r: ApiResponse<Vec<Value>>)
    ensures
        list_view(r) == positions_model(status, json_model(*body), r.timestamp),
        r.well_formed(),
{
    positions_envelope(status, body, now_millis())
}

/// Normalises an answer of the account summary endpoint, stamped with the
/// clock's reading.
pub fn account_summary_response(status: u16, body: &Value) -> (r: ApiResponse<Value>)
    ensures
        document_view(r) == account_summary_model(status, json_model(*body), r.timestamp),
        r.well_formed(),
{
    account_summary_envelope(status, body, now_millis())
}

/// Normalises an answer of the orders endpoint, stamped with the clock's
/// reading.
pub fn orders_response(status: u16, body: &Value) -> (r: ApiResponse<Vec<Value>>)
    ensures
        list_view(r) == orders_model(status, json_model(*body), r.timestamp),
        r.well_formed(),
{
    orders_envelope(status, body, now_millis())
}

/// Normalises an answer of the performance endpoint, stamped with the
/// clock's reading.
pub fn performance_response(status: u16, body: &Value) -> (r: ApiResponse<Value>)
    ensures
        document_view(r) == performance_model(status, json_model(*body), r.timestamp),
        r.well_formed(),
{
    performance_envelope(status, body, now_millis())
}

} // verus!
