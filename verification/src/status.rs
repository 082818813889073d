//! The status numbers that the dispatcher answers with, read from hyper.

use vstd::prelude::*;

verus! {

/// The number of hyper's `StatusCode::BAD_REQUEST`, read with `as_u16`.
/// hyper's table of status codes defines the constant as 400.
#[verifier::external_body]
pub(crate) fn bad_request() -> (code: u16)
    ensures
        code == 400,
{
    hyper::StatusCode::BAD_REQUEST.as_u16()
}

/// The number of hyper's `StatusCode::FORBIDDEN`, read with `as_u16`.
/// hyper's table of status codes defines the constant as 403.
#[verifier::external_body]
pub(crate) fn forbidden() -> (code: u16)
    ensures
        code == 403,
{
    hyper::StatusCode::FORBIDDEN.as_u16()
}

/// The number of hyper's `StatusCode::NOT_FOUND`, read with `as_u16`.
/// hyper's table of status codes defines the constant as 404.
#[verifier::external_body]
pub(crate) fn not_found() -> (code: u16)
    ensures
        code == 404,
{
    hyper::StatusCode::NOT_FOUND.as_u16()
}

} // verus!
