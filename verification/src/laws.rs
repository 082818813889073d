//! What holds of the dispatcher across its functions.

use vstd::prelude::*;
use crate::error::{ConstructionError, DispatchError};
use crate::filesvr::{FileService, FileServiceFuture, Polled, Progress, Step};
use crate::resolved::Resolved;
use crate::response::Response;

verus! {

/// The two call conventions agree: a result ends a request served as one
/// unit of work exactly when a pollable unit may give that result for the
/// same resolution and the same builder.
pub proof fn law_adapters_agree<B, A, H, F: FnOnce(H) -> Result<Response, ConstructionError>>(
    service: FileService,
    resolution: Result<Resolved<H>, std::io::Error>,
    build: F,
    result: Result<Response, DispatchError>,
)
    ensures
        service.serves(resolution, build, result) == FileServiceFuture::<B, A>::polls(
            Progress::Ready(resolution),
            build,
            Polled::Ready(result),
        ),
{
}

/// A dispatcher holds nothing that tells in its answer: what one dispatcher
/// may end a request with, any other may, whatever their roots and whatever
/// else they have served.
pub proof fn law_dispatchers_are_interchangeable<
    H,
    F: FnOnce(H) -> Result<Response, ConstructionError>,
>(
    first: FileService,
    second: FileService,
    resolution: Result<Resolved<H>, std::io::Error>,
    build: F,
    result: Result<Response, DispatchError>,
)
    ensures
        first.serves(resolution, build, result) == second.serves(resolution, build, result),
{
}

/// A unit whose advance left an attempt suspended may be advanced again, and
/// then hands out that very attempt: it never begins a second one.
pub proof fn law_suspended_attempt_is_resumed<B, A, T>(unit: FileServiceFuture<B, A>, attempt: A)
    requires
        unit.slot() == FileServiceFuture::<B, A>::slot_after(Progress::<A, T>::Pending(attempt)),
    ensures
        unit.resumable(),
        unit.next_step() == Step::Resume(attempt),
{
}

/// A unit that has given its result may not be advanced again.
pub proof fn law_finished_unit_stays_finished<B, A, T>(unit: FileServiceFuture<B, A>, end: T)
    requires
        unit.slot() == FileServiceFuture::<B, A>::slot_after(Progress::<A, T>::Ready(end)),
    ensures
        !unit.resumable(),
{
}

} // verus!
