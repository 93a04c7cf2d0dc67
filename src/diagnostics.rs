use vstd::prelude::*;
use crate::resource::{reporter, reporter_name, MyWorkLoad};

verus! {

/// Relies on jiff's `Timestamp::now` (as k8s_openapi re-exports it) and
/// `Timestamp::as_millisecond`: the current time, in milliseconds since the
/// Unix epoch. Nothing is promised of its value.
#[verifier::external_body]
fn now_millis() -> (r: i64) {
    k8s_openapi::jiff::Timestamp::now().as_millisecond()
}

/// The object an event is about.
#[derive(Debug)]
pub struct ObjectRef {
    pub namespace: Option<String>,
    pub name: String,
}

/// Where lifecycle events about one object go, and under which identity.
#[derive(Debug)]
pub struct Recorder {
    pub reporter: String,
    pub object: ObjectRef,
}

/// Shared state of the controller: when an event was last recorded, and the
/// identity events are reported under.
#[derive(Debug)]
pub struct Diagnostics {
    /// Milliseconds since the Unix epoch.
    pub last_event: i64,
    pub reporter: String,
}

impl Diagnostics {
    /// Diagnostics of a controller started at `now`.
    pub fn new(now: i64) -> (r: Diagnostics)
        ensures
            r.last_event == now,
            r.reporter@ == reporter(),
    {
        Diagnostics { last_event: now, reporter: reporter_name() }
    }

    /// Notes that an event is about to be recorded at `now`.
    pub fn note_event(&mut self, now: i64)
        ensures
            final(self).last_event == now,
            final(self).reporter == old(self).reporter,
    {
        self.last_event = now;
    }

    /// Notes that an event is about to be recorded now.
    pub fn note_event_now(&mut self)
        ensures
            final(self).reporter == old(self).reporter,
    {
        self.note_event(now_millis());
    }

    /// The recorder for events about `instance`.
    pub fn recorder(&self, instance: &MyWorkLoad) -> (r: Recorder)
        ensures
            r.reporter@ == self.reporter@,
            r.object.name@ == instance.name@,
            r.object.namespace is Some <==> instance.namespace is Some,
            r.object.namespace matches Some(n) ==> n@ == instance.namespace.unwrap()@,
    {
        let namespace = match &instance.namespace {
            Some(n) => Some(n.clone()),
            None => None,
        };
        Recorder {
            reporter: self.reporter.clone(),
            object: ObjectRef { namespace, name: instance.name.clone() },
        }
    }
}

impl Default for Diagnostics {
    /// Diagnostics of a controller started now.
    fn default() -> (r: Diagnostics)
        ensures
            r.reporter@ == reporter(),
    {
        Diagnostics::new(now_millis())
    }
}

} // verus!
