//! The addresses of the upstream service and the texts of transport
//! failures.

use crate::text::prefixed;
use vstd::prelude::*;

verus! {

/// Seconds after which the transport gives a request up.
pub const HTTP_TIMEOUT_SECS: u64 = 60;

/// The address every endpoint path is appended to.
pub open spec fn base_address() -> Seq<char> {
    "http://localhost:8001"@
}

/// The address of the performance endpoint: its path, then the period as a
/// query where one is asked for.
pub open spec fn performance_address(period: Option<Seq<char>>) -> Seq<char> {
    let path = base_address() + "/api/v1/portfolio/performance"@;
    match period {
        Some(p) => path + "?period="@ + p,
        None => path,
    }
}

/// The base address of the upstream service.
pub fn api_base() -> (base: &'static str)
    ensures
        base@ == base_address(),
{
    "http://localhost:8001"
}

/// The address of the positions endpoint.
pub fn positions_url() -> (url: String)
    ensures
        url@ == base_address() + "/api/v1/positions"@,
{
    prefixed(api_base(), "/api/v1/positions")
}

/// The address of the account summary endpoint.
pub fn account_summary_url() -> (url: String)
    ensures
        url@ == base_address() + "/api/v1/portfolio"@,
{
    prefixed(api_base(), "/api/v1/portfolio")
}

/// The address of the orders endpoint.
pub fn orders_url() -> (url: String)
    ensures
        url@ == base_address() + "/api/v1/orders"@,
{
    prefixed(api_base(), "/api/v1/orders")
}

/// The address of the performance endpoint for an optional period.
pub fn performance_url(period: Option<&str>) -> (url: String)
    ensures
        url@ == performance_address(
            match period {
                Some(p) => Some(p@),
                None => None,
            },
        ),
{
    let path = prefixed(api_base(), "/api/v1/portfolio/performance");
    match period {
        Some(p) => {
            let query = prefixed(path.as_str(), "?period=");
            prefixed(query.as_str(), p)
        },
        None => path,
    }
}

/// The terminal failure reported when no answer arrived.
pub fn request_failed(detail: &str) -> (message: String)
    ensures
        message@ == "Request failed: "@ + detail@,
{
    prefixed("Request failed: ", detail)
}

/// The terminal failure reported when the answer was no JSON document.
pub fn parse_failed(detail: &str) -> (message: String)
    ensures
        message@ == "Failed to parse response: "@ + detail@,
{
    prefixed("Failed to parse response: ", detail)
}

} // verus!
