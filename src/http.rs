use vstd::prelude::*;

verus! {

/// Whether an HTTP status code is in the success class (2xx).
pub open spec fn success_status(status: u16) -> bool {
    200 <= status <= 299
}

/// Whether an HTTP status code is in the success class (2xx), as
/// `http::StatusCode::is_success` decides it.
pub fn is_success(status: u16) -> (r: bool)
    ensures
        r == success_status(status),
{
    200 <= status && status <= 299
}

} // verus!
