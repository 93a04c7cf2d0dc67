use rustctrl::diagnostics::Diagnostics;
use rustctrl::error::{Error, FinalizerStep, StoreFault};
use rustctrl::finalizer::{with_marker, without_marker, FinalizerEvent};
use rustctrl::policy::{error_policy, requeue_delay, Action};
use rustctrl::queue::WorkQueue;
use rustctrl::reconcile::EventType;
use rustctrl::resource::{finalizer_marker, MyWorkLoad, MyWorkLoadSpec, MyWorkLoadStatus};
use rustctrl::session::{Phase, Reconciliation, Request, Response, Step};

const MARKER: &str = "documents.kube.rs";

fn workload(name: &str, finalizers: Vec<&str>, deleting: bool) -> MyWorkLoad {
    MyWorkLoad {
        namespace: Some("default".to_string()),
        name: name.to_string(),
        spec: MyWorkLoadSpec { image: "nginx".to_string(), replicas: 3 },
        status: None,
        finalizers: finalizers.into_iter().map(|s| s.to_string()).collect(),
        deletion_requested: deleting,
        resource_version: Some("1".to_string()),
    }
}

fn strings(v: &[String]) -> Vec<&str> {
    v.iter().map(|s| s.as_str()).collect()
}

#[test]
fn new_object_gets_marker_then_status_then_resync() {
    let (s, step) = Reconciliation::start(workload("sample", vec![], false));
    assert_eq!(s.phase, Phase::AddingMarker);
    match step {
        Step::Send(Request::PatchFinalizers { expected, finalizers }) => {
            assert!(expected.is_empty());
            assert_eq!(strings(&finalizers), vec![MARKER]);
        }
        _ => panic!("expected a finalizer patch first"),
    }
    let (s, step) = s.resume(Response::Done);
    assert!(s.object.has_finalizer());
    match step {
        Step::Send(Request::PatchStatus(p)) => {
            assert_eq!(p.status, MyWorkLoadStatus { hidden: false });
            assert_eq!(p.api_version, "mars.org/v1alpha1");
            assert_eq!(p.kind, "MyWorkLoad");
            assert_eq!(p.field_manager, "rustctrl");
            assert!(p.force);
        }
        _ => panic!("expected a status patch"),
    }
    let (s, step) = s.resume(Response::Done);
    assert_eq!(s.phase, Phase::Finished);
    assert!(matches!(step, Step::Finish(Ok(Action::RequeueAfter(60)))));
}

#[test]
fn deleted_object_is_cleaned_then_released() {
    let (s, step) = Reconciliation::start(workload("sample", vec![MARKER], true));
    match step {
        Step::Send(Request::PublishEvent(e)) => {
            assert_eq!(e.type_, EventType::Normal);
            assert_eq!(e.reason, "DeleteRequested");
            assert_eq!(e.note.as_deref(), Some("Delete `sample`"));
            assert_eq!(e.action, "Deleting");
            assert_eq!(e.reporter, "myworkload-controller");
        }
        _ => panic!("expected the deletion event first"),
    }
    assert!(!s.cleaned);
    let (s, step) = s.resume(Response::Done);
    assert!(s.cleaned);
    match step {
        Step::Send(Request::PatchFinalizers { expected, finalizers }) => {
            assert_eq!(strings(&expected), vec![MARKER]);
            assert!(finalizers.is_empty());
        }
        _ => panic!("expected the marker to be removed"),
    }
    let (_, step) = s.resume(Response::Done);
    assert!(matches!(step, Step::Finish(Ok(Action::AwaitChange))));
}

#[test]
fn illegal_name_is_refused_without_status_patch() {
    let (s, step) = Reconciliation::start(workload("illegal", vec![MARKER], false));
    assert_eq!(s.phase, Phase::Finished);
    let outcome = match step {
        Step::Finish(r) => r,
        Step::Send(_) => panic!("no request may go out"),
    };
    assert!(matches!(outcome, Err(Error::IllegalDocument)));
    assert_eq!(requeue_delay(&outcome), Some(10));
}

#[test]
fn unclaimed_illegal_object_is_refused_after_marker() {
    let (s, step) = Reconciliation::start(workload("illegal", vec![], false));
    assert!(matches!(step, Step::Send(Request::PatchFinalizers { .. })));
    let (_, step) = s.resume(Response::Done);
    assert!(matches!(step, Step::Finish(Err(Error::IllegalDocument))));
}

#[test]
fn illegal_name_is_refused_whatever_the_spec() {
    let mut o = workload("illegal", vec![MARKER], false);
    o.spec = MyWorkLoadSpec { image: "busybox".to_string(), replicas: 255 };
    assert!(o.reconcile().unwrap_err().is_validation());
}

#[test]
fn reconcile_twice_writes_same_patch() {
    let o = workload("sample", vec![MARKER], false);
    let a = o.reconcile().ok().unwrap();
    let b = o.reconcile().ok().unwrap();
    assert_eq!(a.api_version, b.api_version);
    assert_eq!(a.kind, b.kind);
    assert_eq!(a.status, b.status);
    assert_eq!(a.field_manager, b.field_manager);
    assert_eq!(a.force, b.force);
    let mut patched = workload("sample", vec![MARKER], false);
    patched.status = Some(a.status);
    let c = patched.reconcile().ok().unwrap();
    assert_eq!(c.status, a.status);
}

#[test]
fn failed_cleanup_keeps_marker() {
    let (s, _) = Reconciliation::start(workload("sample", vec![MARKER], true));
    let (s, step) = s.resume(Response::Rejected(StoreFault::Failure("unavailable".to_string())));
    assert!(!s.cleaned);
    assert!(s.object.has_finalizer());
    match step {
        Step::Finish(Err(Error::EventPublishError(StoreFault::Failure(m)))) => assert_eq!(m, "unavailable"),
        _ => panic!("expected the publish failure"),
    }
}

#[test]
fn unclaimed_deleted_object_needs_nothing() {
    let o = workload("sample", vec!["other.io/keep"], true);
    assert_eq!(o.finalizer_event(), FinalizerEvent::Nothing);
    let (_, step) = Reconciliation::start(o);
    assert!(matches!(step, Step::Finish(Ok(Action::AwaitChange))));
}

#[test]
fn finalizer_events_follow_marker_and_deletion() {
    assert_eq!(workload("a", vec![], false).finalizer_event(), FinalizerEvent::AddMarker);
    assert_eq!(workload("a", vec![MARKER], false).finalizer_event(), FinalizerEvent::Apply);
    assert_eq!(workload("a", vec![MARKER], true).finalizer_event(), FinalizerEvent::Cleanup);
    assert_eq!(workload("a", vec![], true).finalizer_event(), FinalizerEvent::Nothing);
}

#[test]
fn conflicting_marker_patch_is_retried_after_fresh_read() {
    let (s, _) = Reconciliation::start(workload("sample", vec![], false));
    let (s, step) = s.resume(Response::Rejected(StoreFault::Conflict));
    assert_eq!(s.phase, Phase::RefetchForAdd);
    assert_eq!(s.retries, 1);
    assert!(matches!(step, Step::Send(Request::Fetch)));
    let (s, step) = s.resume(Response::Fetched(workload("sample", vec!["other.io/keep", MARKER], false)));
    assert_eq!(s.phase, Phase::PatchingStatus);
    assert!(matches!(step, Step::Send(Request::PatchStatus(_))));
}

#[test]
fn conflicts_beyond_bound_fail() {
    let (mut s, _) = Reconciliation::start(workload("sample", vec![], false));
    for _ in 0..3 {
        let (n, step) = s.resume(Response::Rejected(StoreFault::Conflict));
        assert!(matches!(step, Step::Send(Request::Fetch)));
        let (n, step) = n.resume(Response::Fetched(workload("sample", vec![], false)));
        assert!(matches!(step, Step::Send(Request::PatchFinalizers { .. })));
        s = n;
    }
    let (_, step) = s.resume(Response::Rejected(StoreFault::Conflict));
    assert!(matches!(
        step,
        Step::Finish(Err(Error::FinalizerError(FinalizerStep::AddMarker, StoreFault::Conflict)))
    ));
}

#[test]
fn conflicting_marker_removal_skips_second_cleanup() {
    let (s, _) = Reconciliation::start(workload("sample", vec![MARKER], true));
    let (s, _) = s.resume(Response::Done);
    let (s, step) = s.resume(Response::Rejected(StoreFault::Conflict));
    assert!(matches!(step, Step::Send(Request::Fetch)));
    let (s, step) = s.resume(Response::Fetched(workload("sample", vec!["a", MARKER, "b"], true)));
    assert_eq!(s.phase, Phase::RemovingMarker);
    match step {
        Step::Send(Request::PatchFinalizers { finalizers, .. }) => assert_eq!(strings(&finalizers), vec!["a", "b"]),
        _ => panic!("expected the marker removal"),
    }
}

#[test]
fn vanished_object_ends_quietly() {
    let (s, _) = Reconciliation::start(workload("sample", vec![], false));
    let (s, _) = s.resume(Response::Rejected(StoreFault::Conflict));
    let (_, step) = s.resume(Response::Gone);
    assert!(matches!(step, Step::Finish(Ok(Action::AwaitChange))));
}

#[test]
fn status_patch_failure_is_store_error() {
    let (s, _) = Reconciliation::start(workload("sample", vec![MARKER], false));
    let (_, step) = s.resume(Response::Rejected(StoreFault::Failure("boom".to_string())));
    assert!(matches!(step, Step::Finish(Err(Error::KubeError(StoreFault::Failure(_))))));
}

#[test]
fn marker_list_edits() {
    let v = vec!["x".to_string(), MARKER.to_string(), "y".to_string(), MARKER.to_string()];
    assert_eq!(strings(&without_marker(&v)), vec!["x", "y"]);
    let w = vec!["x".to_string()];
    assert_eq!(strings(&with_marker(&w)), vec!["x", MARKER]);
    assert_eq!(finalizer_marker(), MARKER);
}

#[test]
fn every_failure_backs_off_ten_seconds() {
    let errors = vec![
        Error::IllegalDocument,
        Error::KubeError(StoreFault::Conflict),
        Error::EventPublishError(StoreFault::Failure("x".to_string())),
        Error::FinalizerError(FinalizerStep::RemoveMarker, StoreFault::Conflict),
    ];
    for e in errors {
        assert_eq!(error_policy(&e), Action::RequeueAfter(10));
        assert_eq!(requeue_delay(&Err(e)), Some(10));
    }
    assert_eq!(requeue_delay(&Ok(Action::RequeueAfter(60))), Some(60));
    assert_eq!(requeue_delay(&Ok(Action::RequeueImmediate)), Some(0));
    assert_eq!(requeue_delay(&Ok(Action::AwaitChange)), None);
}

#[test]
fn triggers_during_run_coalesce_into_one() {
    let mut q = WorkQueue::new();
    q.trigger(7);
    q.trigger(7);
    assert_eq!(q.next(), Some(7));
    assert_eq!(q.next(), None);
    q.trigger(7);
    q.trigger(7);
    assert_eq!(q.next(), None);
    assert_eq!(q.finish(7, &Ok(Action::RequeueAfter(60))), Some(60));
    assert_eq!(q.next(), Some(7));
    assert_eq!(q.next(), None);
    assert_eq!(q.finish(7, &Err(Error::IllegalDocument)), Some(10));
    assert_eq!(q.next(), None);
}

#[test]
fn distinct_keys_run_in_arrival_order() {
    let mut q = WorkQueue::new();
    q.trigger(1);
    q.trigger(2);
    q.trigger(1);
    assert_eq!(q.next(), Some(1));
    assert_eq!(q.next(), Some(2));
    assert_eq!(q.finish(2, &Ok(Action::AwaitChange)), None);
    assert_eq!(q.next(), None);
}

#[test]
fn diagnostics_track_events() {
    let mut d = Diagnostics::new(1000);
    assert_eq!(d.reporter, "myworkload-controller");
    d.note_event(2500);
    assert_eq!(d.last_event, 2500);
    let r = d.recorder(&workload("sample", vec![], false));
    assert_eq!(r.reporter, "myworkload-controller");
    assert_eq!(r.object.name, "sample");
    assert_eq!(r.object.namespace.as_deref(), Some("default"));
    assert_eq!(Diagnostics::default().reporter, "myworkload-controller");
    let mut d = Diagnostics::new(0);
    d.note_event_now();
    assert!(d.last_event > 0);
    assert_eq!(d.reporter, "myworkload-controller");
}

#[test]
fn desired_status_is_visible() {
    let spec = MyWorkLoadSpec { image: "nginx".to_string(), replicas: 0 };
    assert_eq!(spec.desired_status(), MyWorkLoadStatus { hidden: false });
}
