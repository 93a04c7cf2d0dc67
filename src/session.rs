use vstd::prelude::*;
use crate::error::{Error, FinalizerStep, StoreFault};
use crate::finalizer::{copy_strings, event_of, with_marker, without_marker, without_marker_of, FinalizerEvent};
use crate::policy::{Action, RESYNC_SECS};
use crate::reconcile::{is_delete_event, status_patch_of, EventRecord, StatusPatch};
use crate::resource::{has_marker, illegal_name, marker, strings_view, MyWorkLoad};

verus! {

/// How many times a conflicting finalizer patch is retried after a fresh read.
pub const MAX_CONFLICT_RETRIES: u64 = 3;

/// Work that a reconciliation asks of the object store or the event recorder.
#[derive(Debug)]
pub enum Request {
    /// Replace the object's finalizer list, provided it still equals `expected`.
    PatchFinalizers { expected: Vec<String>, finalizers: Vec<String> },
    /// Apply a patch to the status subresource.
    PatchStatus(StatusPatch),
    /// Publish a lifecycle event about the object.
    PublishEvent(EventRecord),
    /// Read the object again.
    Fetch,
}

/// What came of a request.
#[derive(Debug)]
pub enum Response {
    /// The patch or the event took effect.
    Done,
    /// The patch, the event or the read did not take effect.
    Rejected(StoreFault),
    /// The object as read again.
    Fetched(MyWorkLoad),
    /// The object no longer exists.
    Gone,
}

/// What a reconciliation does next.
#[derive(Debug)]
pub enum Step {
    Send(Request),
    Finish(Result<Action, Error>),
}

/// Where a reconciliation stands, waiting for the response to its last request.
#[derive(Clone, Copy, Debug, PartialEq, Eq, Structural)]
pub enum Phase {
    AddingMarker,
    PatchingStatus,
    Publishing,
    RemovingMarker,
    RefetchForAdd,
    RefetchForRemove,
    Finished,
}

/// One reconciliation attempt of one object.
#[derive(Debug)]
pub struct Reconciliation {
    /// The object as last read, with the finalizer patches that took effect.
    pub object: MyWorkLoad,
    pub phase: Phase,
    /// Conflicting finalizer patches retried so far.
    pub retries: u64,
    /// Whether the deletion event has been published.
    pub cleaned: bool,
}

pub open spec fn sends_finalizers(step: Step, expected: Seq<Seq<char>>, finalizers: Seq<Seq<char>>) -> bool {
    step matches Step::Send(Request::PatchFinalizers { expected: e, finalizers: f })
        && strings_view(e@) == expected && strings_view(f@) == finalizers
}

pub open spec fn sends_status(step: Step, o: MyWorkLoad) -> bool {
    step matches Step::Send(Request::PatchStatus(p)) && p@ == status_patch_of(o)
}

pub open spec fn sends_event(step: Step, o: MyWorkLoad) -> bool {
    step matches Step::Send(Request::PublishEvent(e)) && is_delete_event(e, o)
}

pub open spec fn finishes(step: Step, outcome: Result<Action, Error>) -> bool {
    step matches Step::Finish(r) && r == outcome
}

/// The apply step for `o`, which carries the marker.
pub open spec fn applies(o: MyWorkLoad, s: Reconciliation, step: Step) -> bool {
    if o.name@ == illegal_name() {
        s.phase == Phase::Finished && finishes(step, Err(Error::IllegalDocument))
    } else {
        s.phase == Phase::PatchingStatus && sends_status(step, o)
    }
}

/// The request that removes the marker from `o`.
pub open spec fn removes_marker(o: MyWorkLoad, s: Reconciliation, step: Step) -> bool {
    &&& s.phase == Phase::RemovingMarker
    &&& sends_finalizers(step, o.finalizers_view(), without_marker_of(o.finalizers_view()))
}

/// The first step of the finalizer protocol on `o`.
pub open spec fn starts(o: MyWorkLoad, s: Reconciliation, step: Step) -> bool {
    &&& s.object == o
    &&& !s.cleaned
    &&& match event_of(o) {
        FinalizerEvent::Nothing => s.phase == Phase::Finished && finishes(step, Ok(Action::AwaitChange)),
        FinalizerEvent::AddMarker => s.phase == Phase::AddingMarker && sends_finalizers(
            step,
            o.finalizers_view(),
            o.finalizers_view().push(marker()),
        ),
        FinalizerEvent::Apply => applies(o, s, step),
        FinalizerEvent::Cleanup => s.phase == Phase::Publishing && sends_event(step, o),
    }
}

/// `a` and `b` differ in their finalizer lists at most.
pub open spec fn same_but_finalizers(a: MyWorkLoad, b: MyWorkLoad) -> bool {
    &&& a.namespace == b.namespace
    &&& a.name == b.name
    &&& a.spec == b.spec
    &&& a.status == b.status
    &&& a.deletion_requested == b.deletion_requested
    &&& a.resource_version == b.resource_version
}

/// Whether `r` answers a request made in phase `p`.
pub open spec fn answers(p: Phase, r: Response) -> bool {
    match p {
        Phase::RefetchForAdd | Phase::RefetchForRemove => !(r is Done),
        Phase::Finished => false,
        _ => r is Done || r is Rejected,
    }
}

/// What a rejected finalizer patch leads to: a fresh read while retries are
/// left and the cause is a conflict, a failure otherwise.
pub open spec fn handles_rejection(
    s: Reconciliation,
    f: StoreFault,
    which: FinalizerStep,
    refetch: Phase,
    n: Reconciliation,
    step: Step,
) -> bool {
    if f is Conflict && s.retries < MAX_CONFLICT_RETRIES {
        &&& n.phase == refetch
        &&& n.retries == s.retries + 1
        &&& n.object == s.object
        &&& n.cleaned == s.cleaned
        &&& step matches Step::Send(Request::Fetch)
    } else {
        n.phase == Phase::Finished && finishes(step, Err(Error::FinalizerError(which, f)))
    }
}

/// A measure that every response to a reconciliation that goes on lowers:
/// conflicts use up retries, and otherwise the protocol moves forward.
pub open spec fn progress(s: Reconciliation) -> int {
    let rank: int = match s.phase {
        Phase::RefetchForAdd | Phase::RefetchForRemove => 6,
        Phase::AddingMarker => 5,
        Phase::Publishing => 4,
        Phase::RemovingMarker => 3,
        Phase::PatchingStatus => 2,
        Phase::Finished => 0,
    };
    (MAX_CONFLICT_RETRIES - s.retries) * 7 + rank
}

/// How a reconciliation in state `s` goes on to state `n` and `step` once
/// `response` answers its last request.
pub open spec fn resumes(s: Reconciliation, response: Response, n: Reconciliation, step: Step) -> bool {
    &&& n.wf()
    &&& step is Finish <==> n.phase == Phase::Finished
    &&& n.cleaned ==> s.cleaned || (s.phase == Phase::Publishing && response is Done)
    &&& n.retries >= s.retries
    &&& 0 <= progress(n) < progress(s)
    &&& match s.phase {
        Phase::AddingMarker => match response {
            Response::Done => {
                &&& same_but_finalizers(n.object, s.object)
                &&& n.object.finalizers_view() == s.object.finalizers_view().push(marker())
                &&& applies(n.object, n, step)
            },
            Response::Rejected(f) => handles_rejection(
                s,
                f,
                FinalizerStep::AddMarker,
                Phase::RefetchForAdd,
                n,
                step,
            ),
            _ => false,
        },
        Phase::PatchingStatus => match response {
            Response::Done => finishes(step, Ok(Action::RequeueAfter(RESYNC_SECS))),
            Response::Rejected(f) => finishes(step, Err(Error::KubeError(f))),
            _ => false,
        },
        Phase::Publishing => match response {
            Response::Done => n.object == s.object && removes_marker(s.object, n, step),
            Response::Rejected(f) => finishes(step, Err(Error::EventPublishError(f))),
            _ => false,
        },
        Phase::RemovingMarker => match response {
            Response::Done => finishes(step, Ok(Action::AwaitChange)),
            Response::Rejected(f) => handles_rejection(
                s,
                f,
                FinalizerStep::RemoveMarker,
                Phase::RefetchForRemove,
                n,
                step,
            ),
            _ => false,
        },
        Phase::RefetchForAdd => match response {
            Response::Fetched(o) => starts(o, n, step) && n.retries == s.retries,
            Response::Gone => finishes(step, Ok(Action::AwaitChange)),
            Response::Rejected(f) => finishes(
                step,
                Err(Error::FinalizerError(FinalizerStep::AddMarker, f)),
            ),
            Response::Done => false,
        },
        Phase::RefetchForRemove => match response {
            Response::Fetched(o) => if event_of(o) == FinalizerEvent::Cleanup {
                n.object == o && removes_marker(o, n, step)
            } else {
                starts(o, n, step)
            },
            Response::Gone => finishes(step, Ok(Action::AwaitChange)),
            Response::Rejected(f) => finishes(
                step,
                Err(Error::FinalizerError(FinalizerStep::RemoveMarker, f)),
            ),
            Response::Done => false,
        },
        Phase::Finished => false,
    }
}

impl Reconciliation {
    pub open spec fn wf(&self) -> bool {
        &&& self.retries <= MAX_CONFLICT_RETRIES
        &&& self.phase == Phase::AddingMarker ==> !self.object.deletion_requested && !has_marker(
            self.object.finalizers_view(),
        )
        &&& self.phase == Phase::PatchingStatus ==> !self.object.deletion_requested && has_marker(
            self.object.finalizers_view(),
        ) && self.object.name@ != illegal_name()
        &&& self.phase == Phase::Publishing ==> self.object.deletion_requested && has_marker(
            self.object.finalizers_view(),
        ) && !self.cleaned
        &&& self.phase == Phase::RemovingMarker ==> self.object.deletion_requested && has_marker(
            self.object.finalizers_view(),
        ) && self.cleaned
        &&& self.phase == Phase::RefetchForRemove ==> self.cleaned
    }

    fn begin(object: MyWorkLoad, retries: u64) -> (r: (Reconciliation, Step))
        requires
            retries <= MAX_CONFLICT_RETRIES,
        ensures
            starts(object, r.0, r.1),
            r.0.retries == retries,
            r.0.wf(),
    {
        match object.finalizer_event() {
            FinalizerEvent::Nothing => {
                let s = Reconciliation { object, phase: Phase::Finished, retries, cleaned: false };
                (s, Step::Finish(Ok(Action::AwaitChange)))
            },
            FinalizerEvent::AddMarker => {
                let expected = copy_strings(&object.finalizers);
                let finalizers = with_marker(&object.finalizers);
                let s = Reconciliation { object, phase: Phase::AddingMarker, retries, cleaned: false };
                (s, Step::Send(Request::PatchFinalizers { expected, finalizers }))
            },
            FinalizerEvent::Apply => Self::apply(object, retries, false),
            FinalizerEvent::Cleanup => {
                let event = object.cleanup();
                let s = Reconciliation { object, phase: Phase::Publishing, retries, cleaned: false };
                (s, Step::Send(Request::PublishEvent(event)))
            },
        }
    }

    fn apply(object: MyWorkLoad, retries: u64, cleaned: bool) -> (r: (Reconciliation, Step))
        requires
            retries <= MAX_CONFLICT_RETRIES,
            !object.deletion_requested,
            has_marker(object.finalizers_view()),
        ensures
            r.0.object == object,
            applies(object, r.0, r.1),
            r.0.retries == retries,
            r.0.cleaned == cleaned,
            r.0.wf(),
    {
        match object.reconcile() {
            Err(e) => {
                let s = Reconciliation { object, phase: Phase::Finished, retries, cleaned };
                (s, Step::Finish(Err(e)))
            },
            Ok(patch) => {
                let s = Reconciliation { object, phase: Phase::PatchingStatus, retries, cleaned };
                (s, Step::Send(Request::PatchStatus(patch)))
            },
        }
    }

    fn remove_marker(object: MyWorkLoad, retries: u64) -> (r: (Reconciliation, Step))
        requires
            retries <= MAX_CONFLICT_RETRIES,
            object.deletion_requested,
            has_marker(object.finalizers_view()),
        ensures
            r.0.object == object,
            removes_marker(object, r.0, r.1),
            r.0.retries == retries,
            r.0.cleaned,
            r.0.wf(),
    {
        let expected = copy_strings(&object.finalizers);
        let finalizers = without_marker(&object.finalizers);
        let s = Reconciliation { object, phase: Phase::RemovingMarker, retries, cleaned: true };
        (s, Step::Send(Request::PatchFinalizers { expected, finalizers }))
    }

    fn on_rejected(self, fault: StoreFault, which: FinalizerStep, refetch: Phase) -> (r: (
        Reconciliation,
        Step,
    ))
        requires
            self.wf(),
            refetch == Phase::RefetchForAdd || refetch == Phase::RefetchForRemove,
            refetch == Phase::RefetchForRemove ==> self.cleaned,
        ensures
            handles_rejection(self, fault, which, refetch, r.0, r.1),
            r.0.cleaned == self.cleaned,
            r.0.retries >= self.retries,
            r.1 is Finish <==> r.0.phase == Phase::Finished,
            r.0.wf(),
    {
        match fault {
            StoreFault::Conflict => {
                if self.retries < MAX_CONFLICT_RETRIES {
                    let s = Reconciliation { retries: self.retries + 1, phase: refetch, ..self };
                    (s, Step::Send(Request::Fetch))
                } else {
                    let s = Reconciliation { phase: Phase::Finished, ..self };
                    (s, Step::Finish(Err(Error::FinalizerError(which, StoreFault::Conflict))))
                }
            },
            StoreFault::Failure(m) => {
                let s = Reconciliation { phase: Phase::Finished, ..self };
                (s, Step::Finish(Err(Error::FinalizerError(which, StoreFault::Failure(m)))))
            },
        }
    }

    fn finish(self, outcome: Result<Action, Error>) -> (r: (Reconciliation, Step))
        requires
            self.wf(),
        ensures
            r.0.phase == Phase::Finished,
            r.0.cleaned == self.cleaned,
            r.0.retries == self.retries,
            r.0.wf(),
            finishes(r.1, outcome),
    {
        (Reconciliation { phase: Phase::Finished, ..self }, Step::Finish(outcome))
    }

    /// Takes the response to the last request and returns the next step.
    pub fn resume(self, response: Response) -> (r: (Reconciliation, Step))
        requires
            self.wf(),
            answers(self.phase, response),
        ensures
            resumes(self, response, r.0, r.1),
    {
        match self.phase {
            Phase::AddingMarker => match response {
                Response::Done => {
                    let mut object = self.object;
                    object.finalizers = with_marker(&object.finalizers);
                    assert(has_marker(object.finalizers_view())) by {
                        assert(object.finalizers_view().last() == marker());
                    }
                    Self::apply(object, self.retries, self.cleaned)
                },
                Response::Rejected(f) => self.on_rejected(
                    f,
                    FinalizerStep::AddMarker,
                    Phase::RefetchForAdd,
                ),
                _ => vstd::pervasive::unreached(),
            },
            Phase::PatchingStatus => match response {
                Response::Done => self.finish(Ok(Action::RequeueAfter(RESYNC_SECS))),
                Response::Rejected(f) => self.finish(Err(Error::KubeError(f))),
                _ => vstd::pervasive::unreached(),
            },
            Phase::Publishing => match response {
                Response::Done => Self::remove_marker(self.object, self.retries),
                Response::Rejected(f) => self.finish(Err(Error::EventPublishError(f))),
                _ => vstd::pervasive::unreached(),
            },
            Phase::RemovingMarker => match response {
                Response::Done => self.finish(Ok(Action::AwaitChange)),
                Response::Rejected(f) => self.on_rejected(
                    f,
                    FinalizerStep::RemoveMarker,
                    Phase::RefetchForRemove,
                ),
                _ => vstd::pervasive::unreached(),
            },
            Phase::RefetchForAdd => match response {
                Response::Fetched(o) => Self::begin(o, self.retries),
                Response::Gone => self.finish(Ok(Action::AwaitChange)),
                Response::Rejected(f) => self.finish(
                    Err(Error::FinalizerError(FinalizerStep::AddMarker, f)),
                ),
                Response::Done => vstd::pervasive::unreached(),
            },
            Phase::RefetchForRemove => match response {
                Response::Fetched(o) => {
                    if o.finalizer_event() == FinalizerEvent::Cleanup {
                        Self::remove_marker(o, self.retries)
                    } else {
                        Self::begin(o, self.retries)
                    }
                },
                Response::Gone => self.finish(Ok(Action::AwaitChange)),
                Response::Rejected(f) => self.finish(
                    Err(Error::FinalizerError(FinalizerStep::RemoveMarker, f)),
                ),
                Response::Done => vstd::pervasive::unreached(),
            },
            Phase::Finished => vstd::pervasive::unreached(),
        }
    }

    /// Starts a reconciliation of `object` and returns its first step.
    pub fn start(object: MyWorkLoad) -> (r: (Reconciliation, Step))
        ensures
            starts(object, r.0, r.1),
            r.0.retries == 0,
            r.0.wf(),
    {
        Self::begin(object, 0)
    }
}

/// A live object without the marker first gets the marker: the first request
/// patches the finalizer list, and it is no status patch.
pub proof fn marker_added_first(o: MyWorkLoad, s: Reconciliation, step: Step)
    requires
        starts(o, s, step),
        !o.deletion_requested,
        !has_marker(o.finalizers_view()),
    ensures
        s.phase == Phase::AddingMarker,
        sends_finalizers(step, o.finalizers_view(), o.finalizers_view().push(marker())),
        !(step matches Step::Send(Request::PatchStatus(_))),
{
}

/// A status patch goes out only for a live object that already carries the
/// marker and whose name is not the reserved one, at the start of a
/// reconciliation as well as after any response.
pub proof fn status_patch_needs_marker(s: Reconciliation, response: Response, n: Reconciliation, step: Step)
    requires
        s.wf(),
        resumes(s, response, n, step),
        step matches Step::Send(Request::PatchStatus(_)),
    ensures
        n.phase == Phase::PatchingStatus,
        has_marker(n.object.finalizers_view()),
        !n.object.deletion_requested,
        n.object.name@ != illegal_name(),
{
}

/// The first step on any object sends a status patch only if the object
/// carries the marker, is live, and does not have the reserved name.
pub proof fn first_status_patch_needs_marker(o: MyWorkLoad, s: Reconciliation, step: Step)
    requires
        starts(o, s, step),
        step matches Step::Send(Request::PatchStatus(_)),
    ensures
        has_marker(o.finalizers_view()),
        !o.deletion_requested,
        o.name@ != illegal_name(),
{
}

/// On an object whose deletion was requested and that carries the marker, the
/// first request publishes the deletion event.
pub proof fn cleanup_runs_first(o: MyWorkLoad, s: Reconciliation, step: Step)
    requires
        starts(o, s, step),
        o.deletion_requested,
        has_marker(o.finalizers_view()),
    ensures
        s.phase == Phase::Publishing,
        sends_event(step, o),
        !s.cleaned,
{
}

/// The marker is removed only once cleanup has reported success: a request
/// that removes it follows the publication of the deletion event, and a
/// failed publication ends the attempt with the marker in place.
pub proof fn marker_removed_after_cleanup(s: Reconciliation, response: Response, n: Reconciliation, step: Step)
    requires
        s.wf(),
        resumes(s, response, n, step),
    ensures
        n.phase == Phase::RemovingMarker ==> n.cleaned,
        n.phase == Phase::RemovingMarker ==> s.cleaned || (s.phase == Phase::Publishing
            && response is Done),
        s.phase == Phase::Publishing && response is Rejected ==> step is Finish && !n.cleaned,
{
}

/// An object with the reserved name gets no status patch: a claimed one is
/// refused as invalid at once, an unclaimed one right after its marker is added.
pub proof fn illegal_name_refused(o: MyWorkLoad, s: Reconciliation, step: Step)
    requires
        starts(o, s, step),
        o.name@ == illegal_name(),
    ensures
        !(step matches Step::Send(Request::PatchStatus(_))),
        event_of(o) == FinalizerEvent::Apply ==> finishes(step, Err(Error::IllegalDocument)),
{
}

/// After the marker of an object with the reserved name was added, the attempt
/// ends with the validation error and no status patch.
pub proof fn illegal_name_refused_after_marker(s: Reconciliation, n: Reconciliation, step: Step)
    requires
        s.wf(),
        s.phase == Phase::AddingMarker,
        s.object.name@ == illegal_name(),
        resumes(s, Response::Done, n, step),
    ensures
        finishes(step, Err(Error::IllegalDocument)),
{
}

/// Every reconciliation ends: along any run of responses the measure falls
/// at each step and never below zero, so at most this many requests go out.
pub proof fn reconciliation_ends(s: Reconciliation, response: Response, n: Reconciliation, step: Step)
    requires
        s.wf(),
        resumes(s, response, n, step),
    ensures
        0 <= progress(n) < progress(s),
        progress(s) <= MAX_CONFLICT_RETRIES * 7 + 6,
{
}

} // verus!
