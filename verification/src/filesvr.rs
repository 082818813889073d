//! The dispatcher, its two call conventions, and the factory that makes it.

use vstd::prelude::*;
use crate::error::{ConstructionError, DispatchError};
use crate::resolved::{dispatch, dispatched, Resolved};
use crate::response::Response;

verus! {

/// `From<X>` of std for `X` itself: the argument, unchanged.
pub assume_specification<X>[ <X as From<X>>::from ](value: X) -> (same: X)
    ensures
        same == value,
;

/// hyper's `Request`, which a pollable unit holds for its driver.
#[verifier::external_type_specification]
#[verifier::external_body]
#[verifier::reject_recursive_types(B)]
pub struct ExRequest<B>(hyper::Request<B>);

/// hyper's `Error`, the failure that its factory contract names.
#[verifier::external_type_specification]
#[verifier::external_body]
pub struct ExHyperError(hyper::Error);

/// Whether `text` is what `root` converts to.
pub open spec fn names_root<P: Into<String>>(root: P, text: Seq<char>) -> bool {
    exists|path: String| call_ensures(P::into, (root,), path) && path@ == text
}

/// What one advance of a pollable thing came to.
#[derive(Debug, PartialEq, Eq)]
pub enum Polled<T> {
    /// It is finished, with this value.
    Ready(T),
    /// Not yet: it is to be advanced again later.
    Pending,
}

/// Serves the files under one root. Its value is the root's path: it holds
/// nothing else, so two dispatchers of one root are interchangeable.
#[derive(Debug, Clone)]
pub struct FileService {
    local_root: String,
}

impl View for FileService {
    type V = Seq<char>;

    closed spec fn view(&self) -> Seq<char> {
        self.local_root@
    }
}

impl FileService {
    /// A dispatcher for the files under `root`.
    pub fn new<P: Into<String>>(root: P) -> (service: Self)
        ensures
            names_root(root, service@),
    {
        let path: String = root.into();
        assert(call_ensures(P::into, (root,), path));
        FileService { local_root: path }
    }

    /// The root's path.
    pub fn local_root(&self) -> (root: &str)
        ensures
            root@ == self@,
    {
        self.local_root.as_str()
    }

    /// Whether `result` is how this dispatcher may end a request whose
    /// resolution ended in `resolution`. The dispatcher's root has no part in
    /// it: resolving is where the root was used.
    pub open spec fn serves<H, F: FnOnce(H) -> Result<Response, ConstructionError>>(
        self,
        resolution: Result<Resolved<H>, std::io::Error>,
        build: F,
        result: Result<Response, DispatchError>,
    ) -> bool {
        dispatched(resolution, build, result)
    }

    /// Ends a request as one unit of work, once its resolution is in.
    pub fn serv<H, F: FnOnce(H) -> Result<Response, ConstructionError>>(
        self,
        resolution: Result<Resolved<H>, std::io::Error>,
        build: F,
    ) -> (result: Result<Response, DispatchError>)
        requires
            resolution matches Ok(Resolved::Found(handle)) ==> build.requires((handle,)),
        ensures
            self.serves(resolution, build, result),
    {
        dispatch(resolution, build)
    }

    /// The dispatcher is always ready for a request.
    pub fn poll_ready(&mut self) -> (ready: Polled<Result<(), std::io::Error>>)
        ensures
            ready == Polled::<Result<(), std::io::Error>>::Ready(Ok(())),
            *final(self) == *old(self),
    {
        Polled::Ready(Ok(()))
    }

    /// Takes a request in: the pollable unit that will end it, with a copy
    /// of the root, so that requests in flight share nothing.
    pub fn call<B, A>(&mut self, request: hyper::Request<B>) -> (unit: FileServiceFuture<B, A>)
        ensures
            unit.root() == old(self)@,
            unit.request() == request,
            unit.slot() == Slot::<A>::NotStarted,
            *final(self) == *old(self),
    {
        FileServiceFuture::new(self.local_root.clone(), request)
    }
}

/// Where a pollable unit stands with the attempt to resolve its request.
/// `A` is the attempt: whatever the driver needs to go on resolving.
#[derive(Debug)]
pub enum Slot<A> {
    /// No attempt was begun.
    NotStarted,
    /// The attempt was begun and has suspended; here it is kept.
    InProgress(A),
    /// The driver has the attempt and is advancing it.
    Driving,
    /// The unit has given its result.
    Done,
}

/// What the driver is to do when the unit is advanced.
#[derive(Debug, PartialEq, Eq)]
pub enum Step<A> {
    /// Begin an attempt for the unit's root and request.
    Start,
    /// Go on with this attempt.
    Resume(A),
}

/// What advancing the attempt came to.
#[derive(Debug)]
pub enum Progress<A, T> {
    /// The attempt has suspended and is handed back to be kept.
    Pending(A),
    /// The attempt has finished.
    Ready(T),
}

/// One request on its way, advanced by hand: each advance is a [`resume`],
/// which tells the driver how to go on resolving, and a [`poll`], which
/// takes what that came to.
///
/// [`resume`]: FileServiceFuture::resume
/// [`poll`]: FileServiceFuture::poll
#[verifier::reject_recursive_types(B)]
pub struct FileServiceFuture<B, A> {
    request: hyper::Request<B>,
    local_root: String,
    slot: Slot<A>,
}

impl<B, A> FileServiceFuture<B, A> {
    /// The root's path.
    pub closed spec fn root(&self) -> Seq<char> {
        self.local_root@
    }

    /// The request to end.
    pub closed spec fn request(&self) -> hyper::Request<B> {
        self.request
    }

    /// Where the unit stands.
    pub closed spec fn slot(&self) -> Slot<A> {
        self.slot
    }

    /// Whether the unit may be advanced: it has not given its result, and no
    /// advance is under way.
    pub open spec fn resumable(&self) -> bool {
        self.slot() is NotStarted || self.slot() is InProgress
    }

    /// The step that an advance begins with.
    pub open spec fn next_step(&self) -> Step<A> {
        match self.slot() {
            Slot::InProgress(attempt) => Step::Resume(attempt),
            _ => Step::Start,
        }
    }

    /// Where the unit stands after an advance that came to `progress`.
    pub open spec fn slot_after<T>(progress: Progress<A, T>) -> Slot<A> {
        match progress {
            Progress::Pending(attempt) => Slot::InProgress(attempt),
            Progress::Ready(_) => Slot::Done,
        }
    }

    /// Whether `out` is what an advance may give that came to `progress`:
    /// nothing yet while the attempt is suspended, and else the end of the
    /// dispatch.
    pub open spec fn polls<H, F: FnOnce(H) -> Result<Response, ConstructionError>>(
        progress: Progress<A, Result<Resolved<H>, std::io::Error>>,
        build: F,
        out: Polled<Result<Response, DispatchError>>,
    ) -> bool {
        match (progress, out) {
            (Progress::Pending(_), Polled::Pending) => true,
            (Progress::Ready(resolution), Polled::Ready(result)) => dispatched(
                resolution,
                build,
                result,
            ),
            _ => false,
        }
    }

    /// A unit for `request` under `local_root`, with no attempt begun.
    pub fn new(local_root: String, request: hyper::Request<B>) -> (unit: Self)
        ensures
            unit.root() == local_root@,
            unit.request() == request,
            unit.slot() == Slot::<A>::NotStarted,
    {
        FileServiceFuture { request, local_root, slot: Slot::NotStarted }
    }

    /// The root's path.
    pub fn local_root(&self) -> (root: &str)
        ensures
            root@ == self.root(),
    {
        self.local_root.as_str()
    }

    /// The request to end.
    pub fn request_ref(&self) -> (request: &hyper::Request<B>)
        ensures
            *request == self.request(),
    {
        &self.request
    }

    /// Whether the unit may be advanced.
    pub fn is_resumable(&self) -> (resumable: bool)
        ensures
            resumable == self.resumable(),
    {
        match self.slot {
            Slot::NotStarted => true,
            Slot::InProgress(_) => true,
            Slot::Driving => false,
            Slot::Done => false,
        }
    }

    /// Whether an advance is under way: the driver has the attempt.
    pub fn is_driving(&self) -> (driving: bool)
        ensures
            driving == (self.slot() is Driving),
    {
        matches!(self.slot, Slot::Driving)
    }

    /// Begins an advance. The attempt that an earlier advance left is handed
    /// out to be resumed; only a unit that never began one says to start.
    pub fn resume(&mut self) -> (step: Step<A>)
        requires
            old(self).resumable(),
        ensures
            step == old(self).next_step(),
            final(self).slot() == Slot::<A>::Driving,
            final(self).root() == old(self).root(),
            final(self).request() == old(self).request(),
    {
        let mut taken = Slot::Driving;
        std::mem::swap(&mut self.slot, &mut taken);
        match taken {
            Slot::InProgress(attempt) => Step::Resume(attempt),
            _ => Step::Start,
        }
    }

    /// Completes an advance with what advancing the attempt came to. A
    /// suspended attempt is kept for the next advance and nothing is given
    /// yet; a finished one ends the dispatch.
    pub fn poll<H, F: FnOnce(H) -> Result<Response, ConstructionError>>(
        &mut self,
        progress: Progress<A, Result<Resolved<H>, std::io::Error>>,
        build: F,
    ) -> (out: Polled<Result<Response, DispatchError>>)
        requires
            old(self).slot() is Driving,
            progress matches Progress::Ready(Ok(Resolved::Found(handle))) ==> build.requires(
                (handle,),
            ),
        ensures
            Self::polls(progress, build, out),
            final(self).slot() == Self::slot_after(progress),
            final(self).root() == old(self).root(),
            final(self).request() == old(self).request(),
    {
        match progress {
            Progress::Pending(attempt) => {
                self.slot = Slot::InProgress(attempt);
                Polled::Pending
            },
            Progress::Ready(resolution) => {
                self.slot = Slot::Done;
                Polled::Ready(dispatch(resolution, build))
            },
        }
    }
}

/// Makes a dispatcher for each connection. Its value is the root's path.
#[derive(Debug, Clone)]
pub struct FileServiceMaker {
    local_root: String,
}

impl View for FileServiceMaker {
    type V = Seq<char>;

    closed spec fn view(&self) -> Seq<char> {
        self.local_root@
    }
}

impl FileServiceMaker {
    /// A factory of dispatchers for the files under `local_root`.
    pub fn new<P: Into<String>>(local_root: P) -> (maker: Self)
        ensures
            names_root(local_root, maker@),
    {
        let path: String = local_root.into();
        assert(call_ensures(P::into, (local_root,), path));
        FileServiceMaker { local_root: path }
    }

    /// The factory is always ready to make a dispatcher.
    pub fn poll_ready(&mut self) -> (ready: Polled<Result<(), hyper::Error>>)
        ensures
            ready == Polled::<Result<(), hyper::Error>>::Ready(Ok(())),
            *final(self) == *old(self),
    {
        Polled::Ready(Ok(()))
    }

    /// Makes a dispatcher with a copy of the root. It never fails, never
    /// looks at the connection, and leaves the factory as it was.
    pub fn call<C>(&mut self, connection: C) -> (made: Result<FileService, hyper::Error>)
        ensures
            made matches Ok(service) && service@ == old(self)@,
            *final(self) == *old(self),
    {
        let local_root = self.local_root.clone();
        Ok(FileService::new(local_root))
    }
}

} // verus!
