use vstd::prelude::*;
use vstd::string::StringExecFns;
use crate::error::Error;
use crate::resource::{
    api_version, desired_status_of, field_manager, field_manager_name, illegal_name, kind,
    reporter, reporter_name, MyWorkLoad, MyWorkLoadStatus,
};

verus! {

/// A server-side apply patch on the status subresource.
///
/// The body sets `apiVersion`, `kind` and `status` only, so fields owned by
/// other managers are left alone.
#[derive(Debug)]
pub struct StatusPatch {
    pub api_version: String,
    pub kind: String,
    pub status: MyWorkLoadStatus,
    pub field_manager: String,
    /// Take over fields that another manager set.
    pub force: bool,
}

pub struct StatusPatchView {
    pub api_version: Seq<char>,
    pub kind: Seq<char>,
    pub status: MyWorkLoadStatus,
    pub field_manager: Seq<char>,
    pub force: bool,
}

impl View for StatusPatch {
    type V = StatusPatchView;

    open spec fn view(&self) -> StatusPatchView {
        StatusPatchView {
            api_version: self.api_version@,
            kind: self.kind@,
            status: self.status,
            field_manager: self.field_manager@,
            force: self.force,
        }
    }
}

/// The status patch that reconciling `o` writes.
pub open spec fn status_patch_of(o: MyWorkLoad) -> StatusPatchView {
    StatusPatchView {
        api_version: api_version(),
        kind: kind(),
        status: desired_status_of(o.spec),
        field_manager: field_manager(),
        force: true,
    }
}

/// `o` as the store holds it once a status patch was applied.
pub open spec fn with_status(o: MyWorkLoad, p: StatusPatchView) -> MyWorkLoad {
    MyWorkLoad { status: Some(p.status), ..o }
}

#[derive(Clone, Copy, Debug, PartialEq, Eq, Structural)]
pub enum EventType {
    Normal,
    Warning,
}

/// A lifecycle event about one object.
#[derive(Debug)]
pub struct EventRecord {
    pub type_: EventType,
    pub reason: String,
    pub note: Option<String>,
    pub action: String,
    /// Identity the event is reported under.
    pub reporter: String,
}

/// The note of the event that announces the deletion of an object named `name`.
pub open spec fn delete_note(name: Seq<char>) -> Seq<char> {
    "Delete `"@ + name + "`"@
}

/// The event that cleanup publishes for `o`.
pub open spec fn is_delete_event(e: EventRecord, o: MyWorkLoad) -> bool {
    &&& e.type_ == EventType::Normal
    &&& e.reason@ == "DeleteRequested"@
    &&& e.note is Some
    &&& e.note.unwrap()@ == delete_note(o.name@)
    &&& e.action@ == "Deleting"@
    &&& e.reporter@ == reporter()
}

impl MyWorkLoad {
    /// Apply step: checks the object and builds the status patch to write.
    ///
    /// An object with the reserved name is refused before any write.
    pub fn reconcile(&self) -> (r: Result<StatusPatch, Error>)
        ensures
            r is Err <==> self.name@ == illegal_name(),
            r matches Err(e) ==> e is IllegalDocument,
            r matches Ok(p) ==> p@ == status_patch_of(*self),
    {
        if self.has_illegal_name() {
            return Err(Error::IllegalDocument);
        }
        let status = self.spec.desired_status();
        Ok(StatusPatch {
            api_version: String::from_str("mars.org/v1alpha1"),
            kind: String::from_str("MyWorkLoad"),
            status,
            field_manager: field_manager_name(),
            force: true,
        })
    }

    /// Cleanup step: the event to publish before the marker may be removed.
    pub fn cleanup(&self) -> (r: EventRecord)
        ensures
            is_delete_event(r, *self),
    {
        let note = String::from_str("Delete `").concat(self.name.as_str()).concat("`");
        EventRecord {
            type_: EventType::Normal,
            reason: String::from_str("DeleteRequested"),
            note: Some(note),
            action: String::from_str("Deleting"),
            reporter: reporter_name(),
        }
    }
}

/// Reconciling an object whose spec has not changed writes the same patch body
/// again, also once its own earlier patch has taken effect.
pub proof fn reconcile_is_idempotent(o: MyWorkLoad, later: MyWorkLoad)
    requires
        later.spec == o.spec,
    ensures
        status_patch_of(later) == status_patch_of(o),
        status_patch_of(with_status(o, status_patch_of(o))) == status_patch_of(o),
        with_status(with_status(o, status_patch_of(o)), status_patch_of(o)) == with_status(
            o,
            status_patch_of(o),
        ),
{
}

} // verus!
