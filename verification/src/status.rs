//! HTTP status classification shared by the page and asset fetch phases.

use vstd::prelude::*;

verus! {

/// A status code counts as success exactly when it lies in the 2xx range.
pub open spec fn is_success_status(code: u16) -> bool {
    200 <= code < 300
}

/// Executable form of the 2xx test.
pub fn status_is_success(code: u16) -> (r: bool)
    ensures
        r == is_success_status(code),
{
    200 <= code && code < 300
}

} // verus!
