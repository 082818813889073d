//! The outcomes of resolving a request, and the response that answers each.

use vstd::prelude::*;
use crate::error::{ConstructionError, DispatchError};
use crate::response::{empty_response, Response};
use crate::status::{bad_request, forbidden, not_found};

verus! {

/// What resolving one request against the root came to. `H` is the handle of
/// a file that was found; the dispatcher passes it on unopened.
#[derive(Debug, Clone, Copy, PartialEq, Eq)]
pub enum Resolved<H> {
    /// The path names a directory.
    IsDirectory,
    /// The request's method is not one that files are served for.
    MethodNotMatched,
    /// Nothing exists at the path.
    NotFound,
    /// The entry may not be read, or the path tried to leave the root.
    PermissionDenied,
    /// The file was located.
    Found(H),
}

impl<H> Resolved<H> {
    /// The status that answers the outcome where no file was found, and
    /// `None` where one was.
    pub open spec fn refusal(self) -> Option<u16> {
        match self {
            Resolved::IsDirectory => Some(403u16),
            Resolved::MethodNotMatched => Some(400u16),
            Resolved::NotFound => Some(404u16),
            Resolved::PermissionDenied => Some(403u16),
            Resolved::Found(_) => None,
        }
    }
}

/// Whether `mapped` is an answer to `outcome`: a bare response with the
/// outcome's status where no file was found, and otherwise whatever `build`
/// may return for the file's handle, success or failure.
pub open spec fn answers<H, F: FnOnce(H) -> Result<Response, ConstructionError>>(
    outcome: Resolved<H>,
    build: F,
    mapped: Result<Response, ConstructionError>,
) -> bool {
    match outcome {
        Resolved::Found(handle) => build.ensures((handle,), mapped),
        _ => mapped matches Ok(response) && Some(response.status) == outcome.refusal()
            && response@ == empty_response(response.status),
    }
}

/// Maps an outcome to its response. Only for a file that was found is `build`
/// called, once, with the file's handle, and what it returns is returned.
pub fn map_outcome<H, F: FnOnce(H) -> Result<Response, ConstructionError>>(
    outcome: Resolved<H>,
    build: F,
) -> (mapped: Result<Response, ConstructionError>)
    requires
        outcome matches Resolved::Found(handle) ==> build.requires((handle,)),
    ensures
        answers(outcome, build, mapped),
{
    match outcome {
        Resolved::IsDirectory => Ok(Response::empty(forbidden())),
        Resolved::MethodNotMatched => Ok(Response::empty(bad_request())),
        Resolved::NotFound => Ok(Response::empty(not_found())),
        Resolved::PermissionDenied => Ok(Response::empty(forbidden())),
        Resolved::Found(handle) => build(handle),
    }
}

/// A mapped result as it leaves the dispatcher: a response as it is, a
/// construction failure wrapped, with its message, in a dispatch failure.
pub open spec fn unified(mapped: Result<Response, ConstructionError>) -> Result<
    Response,
    DispatchError,
> {
    match mapped {
        Ok(response) => Ok(response),
        Err(failure) => Err(DispatchError::Construction(failure)),
    }
}

/// Turns a mapped result into the dispatcher's result.
pub fn unify(mapped: Result<Response, ConstructionError>) -> (result: Result<
    Response,
    DispatchError,
>)
    ensures
        result == unified(mapped),
{
    match mapped {
        Ok(response) => Ok(response),
        Err(failure) => Err(DispatchError::Construction(failure)),
    }
}

/// Whether `result` is how a dispatch may end, given how resolving the
/// request ended: a failure to resolve is kept as it came; an outcome is
/// answered as [`answers`] says and leaves as [`unified`] says.
pub open spec fn dispatched<H, F: FnOnce(H) -> Result<Response, ConstructionError>>(
    resolution: Result<Resolved<H>, std::io::Error>,
    build: F,
    result: Result<Response, DispatchError>,
) -> bool {
    match (resolution, result) {
        (Err(error), Err(DispatchError::Resolution(kept))) => kept == error,
        (Ok(outcome), Ok(response)) => answers(outcome, build, Ok(response)),
        (Ok(outcome), Err(DispatchError::Construction(failure))) => answers(
            outcome,
            build,
            Err(failure),
        ),
        _ => false,
    }
}

/// Ends one dispatch: maps the outcome of a resolution that succeeded, and
/// passes on the failure of one that did not. Both call conventions of the
/// dispatcher end in this function.
pub fn dispatch<H, F: FnOnce(H) -> Result<Response, ConstructionError>>(
    resolution: Result<Resolved<H>, std::io::Error>,
    build: F,
) -> (result: Result<Response, DispatchError>)
    requires
        resolution matches Ok(Resolved::Found(handle)) ==> build.requires((handle,)),
    ensures
        dispatched(resolution, build, result),
{
    match resolution {
        Ok(outcome) => unify(map_outcome(outcome, build)),
        Err(error) => Err(DispatchError::Resolution(error)),
    }
}

} // verus!
