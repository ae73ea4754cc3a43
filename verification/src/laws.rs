//! What holds of every envelope, stated over the models of
//! [`crate::normalize`] and proved.

use crate::json::{member_of, JsonModel};
use crate::normalize::{
    account_summary_model, http_fallback, orders_model, performance_model, positions_model,
    unknown_error, upstream_data, upstream_list,
};
use crate::response::Envelope;
use crate::status::status_ok;
use vstd::prelude::*;

verus! {

/// `needle` occurs in `hay` as a run of consecutive characters.
pub open spec fn occurs_in(needle: Seq<char>, hay: Seq<char>) -> bool {
    exists|i: int|
        0 <= i && i + needle.len() <= hay.len() && #[trigger] hay.subrange(i, i + needle.len())
            == needle
}

/// A text occurs at the end of whatever it is appended to.
pub proof fn appended_text_occurs(prefix: Seq<char>, tail: Seq<char>)
    ensures
        occurs_in(tail, prefix + tail),
{
    let hay = prefix + tail;
    let at = prefix.len() as int;
    assert(hay.subrange(at, at + tail.len()) =~= tail);
}

/// On a success status, a list under `data` reaches the caller unchanged:
/// the same items in the same order.
pub proof fn present_list_is_kept(status: u16, body: JsonModel, timestamp: i64, list: Seq<JsonModel>)
    requires
        status_ok(status),
        member_of(body, "data"@) == Some(JsonModel::Array(list)),
    ensures
        positions_model(status, body, timestamp) == Envelope::succeeded(Some(list), timestamp),
        orders_model(status, body, timestamp) == Envelope::succeeded(Some(list), timestamp),
{
}

/// On a success status, whatever stands under `data` reaches the caller of
/// the account summary unchanged, `null` included.
pub proof fn present_document_is_kept(status: u16, body: JsonModel, timestamp: i64, doc: JsonModel)
    requires
        status_ok(status),
        member_of(body, "data"@) == Some(doc),
    ensures
        account_summary_model(status, body, timestamp) == Envelope::succeeded(Some(doc), timestamp),
{
}

/// On a success status, the whole body reaches the caller of the
/// performance endpoint unchanged.
pub proof fn performance_body_is_kept(status: u16, body: JsonModel, timestamp: i64)
    requires
        status_ok(status),
    ensures
        performance_model(status, body, timestamp) == Envelope::succeeded(Some(body), timestamp),
{
}

/// On a success status, a body without `data`, or with a `data` that is no
/// array, gives a list endpoint a successful envelope without payload and
/// without message.
pub proof fn missing_list_is_absent(status: u16, body: JsonModel, timestamp: i64)
    requires
        status_ok(status),
        match member_of(body, "data"@) {
            Some(d) => !(d is Array),
            None => true,
        },
    ensures
        positions_model(status, body, timestamp) == Envelope::<Seq<JsonModel>>::succeeded(
            None,
            timestamp,
        ),
        orders_model(status, body, timestamp) == Envelope::<Seq<JsonModel>>::succeeded(
            None,
            timestamp,
        ),
{
}

/// On a success status, a body without `data` gives the account summary a
/// successful envelope without payload and without message.
pub proof fn missing_document_is_absent(status: u16, body: JsonModel, timestamp: i64)
    requires
        status_ok(status),
        member_of(body, "data"@) is None,
    ensures
        account_summary_model(status, body, timestamp) == Envelope::<JsonModel>::succeeded(
            None,
            timestamp,
        ),
{
}

/// On a failure status, no endpoint reports success or hands out a payload,
/// and each hands out a message.
pub proof fn failure_has_no_payload(status: u16, body: JsonModel, timestamp: i64)
    requires
        !status_ok(status),
    ensures
        !positions_model(status, body, timestamp).success,
        positions_model(status, body, timestamp).data is None,
        positions_model(status, body, timestamp).error is Some,
        !account_summary_model(status, body, timestamp).success,
        account_summary_model(status, body, timestamp).data is None,
        account_summary_model(status, body, timestamp).error is Some,
        !performance_model(status, body, timestamp).success,
        performance_model(status, body, timestamp).data is None,
        performance_model(status, body, timestamp).error is Some,
        !orders_model(status, body, timestamp).success,
        orders_model(status, body, timestamp).data is None,
        orders_model(status, body, timestamp).error is Some,
{
}

/// On a failure status, an error text in the body ends the message of every
/// endpoint, after the endpoint's prefix, and so occurs in it.
pub proof fn reported_error_is_carried(
    status: u16,
    body: JsonModel,
    timestamp: i64,
    reported: Seq<char>,
)
    requires
        !status_ok(status),
        member_of(body, "error"@) == Some(JsonModel::Text(reported)),
    ensures
        positions_model(status, body, timestamp).error == Some(
            "Failed to fetch positions: "@ + reported,
        ),
        account_summary_model(status, body, timestamp).error == Some(
            "Failed to fetch portfolio: "@ + reported,
        ),
        performance_model(status, body, timestamp).error == Some(
            "Failed to fetch performance: "@ + reported,
        ),
        orders_model(status, body, timestamp).error == Some("Failed to fetch orders: "@ + reported),
        occurs_in(reported, positions_model(status, body, timestamp).error.unwrap()),
        occurs_in(reported, account_summary_model(status, body, timestamp).error.unwrap()),
        occurs_in(reported, performance_model(status, body, timestamp).error.unwrap()),
        occurs_in(reported, orders_model(status, body, timestamp).error.unwrap()),
{
    appended_text_occurs("Failed to fetch positions: "@, reported);
    appended_text_occurs("Failed to fetch portfolio: "@, reported);
    appended_text_occurs("Failed to fetch performance: "@, reported);
    appended_text_occurs("Failed to fetch orders: "@, reported);
}

/// On a failure status, a body without an error text gives each endpoint
/// its fixed fallback after its prefix.
pub proof fn unreported_error_gets_fallback(status: u16, body: JsonModel, timestamp: i64)
    requires
        !status_ok(status),
        match member_of(body, "error"@) {
            Some(e) => !(e is Text),
            None => true,
        },
    ensures
        positions_model(status, body, timestamp).error == Some(
            "Failed to fetch positions: "@ + unknown_error(),
        ),
        account_summary_model(status, body, timestamp).error == Some(
            "Failed to fetch portfolio: "@ + unknown_error(),
        ),
        performance_model(status, body, timestamp).error == Some(
            "Failed to fetch performance: "@ + http_fallback(status),
        ),
        orders_model(status, body, timestamp).error == Some(
            "Failed to fetch orders: "@ + unknown_error(),
        ),
{
}

/// Every envelope is well formed: a message exactly on failure, a payload
/// only on success. Payload and message are both absent only on a success
/// status whose body held no payload of the expected shape.
pub proof fn envelopes_are_well_formed(status: u16, body: JsonModel, timestamp: i64)
    ensures
        positions_model(status, body, timestamp).well_formed(),
        account_summary_model(status, body, timestamp).well_formed(),
        performance_model(status, body, timestamp).well_formed(),
        orders_model(status, body, timestamp).well_formed(),
        positions_model(status, body, timestamp).data is None && positions_model(
            status,
            body,
            timestamp,
        ).error is None <==> status_ok(status) && upstream_list(body) is None,
        orders_model(status, body, timestamp).data is None && orders_model(
            status,
            body,
            timestamp,
        ).error is None <==> status_ok(status) && upstream_list(body) is None,
        account_summary_model(status, body, timestamp).data is None && account_summary_model(
            status,
            body,
            timestamp,
        ).error is None <==> status_ok(status) && upstream_data(body) is None,
        !(performance_model(status, body, timestamp).data is None && performance_model(
            status,
            body,
            timestamp,
        ).error is None),
{
}

/// An envelope carries the clock reading it was given, so envelopes made
/// from readings in order are stamped in that order.
pub proof fn stamps_follow_readings(
    status: u16,
    body: JsonModel,
    earlier: i64,
    next_status: u16,
    next_body: JsonModel,
    later: i64,
)
    requires
        earlier <= later,
    ensures
        positions_model(status, body, earlier).timestamp == earlier,
        account_summary_model(status, body, earlier).timestamp == earlier,
        performance_model(status, body, earlier).timestamp == earlier,
        orders_model(status, body, earlier).timestamp == earlier,
        positions_model(status, body, earlier).timestamp <= positions_model(
            next_status,
            next_body,
            later,
        ).timestamp,
        account_summary_model(status, body, earlier).timestamp <= account_summary_model(
            next_status,
            next_body,
            later,
        ).timestamp,
        performance_model(status, body, earlier).timestamp <= performance_model(
            next_status,
            next_body,
            later,
        ).timestamp,
        orders_model(status, body, earlier).timestamp <= orders_model(
            next_status,
            next_body,
            later,
        ).timestamp,
{
}

} // verus!
