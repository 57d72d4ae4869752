//! Classification of HTTP status codes.

use vstd::prelude::*;

verus! {

/// Whether `status` lies in the success class, 200 to 299.
pub open spec fn status_is_success(status: u16) -> bool {
    200 <= status <= 299
}

/// Tells whether an HTTP exchange ended with a success status.
pub fn is_success_status(status: u16) -> (ok: bool)
    ensures
        ok == status_is_success(status),
{
    200 <= status && status <= 299
}

} // verus!
