use vstd::prelude::*;

verus! {

/// Whether an HTTP status code is in the success class (2xx).
pub open spec fn success_class(status: u16) -> bool {
    200 <= status && status <= 299
}

pub fn is_success(status: u16) -> (r: bool)
    ensures
        r == success_class(status),
{
    200 <= status && status <= 299
}

/// A hosted service answered with a status outside the success class.
#[derive(Debug, Clone, PartialEq, Eq)]
pub struct ApiError {
    pub status: u16,
    pub body: String,
}

} // verus!
