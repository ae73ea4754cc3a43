//! The uniform envelope handed to callers.

use crate::json::{json_model, json_models, JsonModel};
use serde_json::Value;
use vstd::prelude::*;

verus! {

/// The envelope every command answers with.
///
/// `data` is the payload of a successful call, `error` the message of a
/// failed one, `timestamp` the moment of normalisation in milliseconds
/// since the epoch.
#[derive(Debug, Clone)]
pub struct ApiResponse<T> {
    pub success: bool,
    pub data: Option<T>,
    pub error: Option<String>,
    pub timestamp: i64,
}

impl<T> ApiResponse<T> {
    /// A failed envelope carries a message and no payload; a successful one
    /// carries no message, and a payload where the upstream body had one.
    pub open spec fn well_formed(&self) -> bool {
        &&& self.success <==> self.error is None
        &&& self.data is Some ==> self.success
    }

    /// The envelope of a successful call.
    pub fn succeeded(data: Option<T>, timestamp: i64) -> (r: Self)
        ensures
            r.success,
            r.data == data,
            r.error is None,
            r.timestamp == timestamp,
            r.well_formed(),
    {
        ApiResponse { success: true, data, error: None, timestamp }
    }

    /// The envelope of a failed call.
    pub fn failed(message: String, timestamp: i64) -> (r: Self)
        ensures
            !r.success,
            r.data is None,
            r.error == Some(message),
            r.timestamp == timestamp,
            r.well_formed(),
    {
        ApiResponse { success: false, data: None, error: Some(message), timestamp }
    }
}

/// The mathematical content of an envelope whose payload has content `D`.
pub struct Envelope<D> {
    pub success: bool,
    pub data: Option<D>,
    pub error: Option<Seq<char>>,
    pub timestamp: i64,
}

impl<D> Envelope<D> {
    /// What [`ApiResponse::well_formed`] says, of the content.
    pub open spec fn well_formed(self) -> bool {
        &&& self.success <==> self.error is None
        &&& self.data is Some ==> self.success
    }

    /// The content of a successful envelope.
    pub open spec fn succeeded(data: Option<D>, timestamp: i64) -> Self {
        Envelope { success: true, data, error: None, timestamp }
    }

    /// The content of a failed envelope.
    pub open spec fn failed(message: Seq<char>, timestamp: i64) -> Self {
        Envelope { success: false, data: None, error: Some(message), timestamp }
    }
}

/// The content of an optional message.
pub open spec fn message_view(error: Option<String>) -> Option<Seq<char>> {
    match error {
        Some(e) => Some(e@),
        None => None,
    }
}

/// The content of an envelope around a list of documents.
pub open spec fn list_view(r: ApiResponse<Vec<Value>>) -> Envelope<Seq<JsonModel>> {
    Envelope {
        success: r.success,
        data: match r.data {
            Some(list) => Some(json_models(list@)),
            None => None,
        },
        error: message_view(r.error),
        timestamp: r.timestamp,
    }
}

/// The content of an envelope around one document.
pub open spec fn document_view(r: ApiResponse<Value>) -> Envelope<JsonModel> {
    Envelope {
        success: r.success,
        data: match r.data {
            Some(doc) => Some(json_model(doc)),
            None => None,
        },
        error: message_view(r.error),
        timestamp: r.timestamp,
    }
}

} // verus!
