//! HTTP status codes, as far as the envelope depends on them.

use vstd::prelude::*;

verus! {

/// A status code reports success when it lies in the 2xx range.
pub open spec fn status_ok(code: u16) -> bool {
    200 <= code && code <= 299
}

/// Tells whether `code` is in the success range.
pub fn is_success_status(code: u16) -> (ok: bool)
    ensures
        ok == status_ok(code),
{
    200 <= code && code < 300
}

} // verus!
