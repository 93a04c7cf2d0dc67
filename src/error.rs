use vstd::prelude::*;

verus! {

/// Which metadata patch of the finalizer protocol failed.
#[derive(Clone, Copy, Debug, PartialEq, Eq, Structural)]
pub enum FinalizerStep {
    AddMarker,
    RemoveMarker,
}

/// Why a write to the object store did not take effect.
#[derive(Clone, Debug)]
pub enum StoreFault {
    /// The object changed since it was read.
    Conflict,
    /// The store could not be reached or refused the request.
    Failure(String),
}

/// Why a reconciliation attempt failed.
#[derive(Clone, Debug)]
pub enum Error {
    /// The object is structurally invalid; retrying it unchanged cannot help.
    IllegalDocument,
    /// The status patch or a read failed.
    KubeError(StoreFault),
    /// A lifecycle event could not be recorded during cleanup.
    EventPublishError(StoreFault),
    /// A finalizer marker could not be added or removed.
    FinalizerError(FinalizerStep, StoreFault),
}

impl Error {
    /// Whether the error marks the object as invalid rather than a transient failure.
    pub fn is_validation(&self) -> (r: bool)
        ensures
            r == (*self is IllegalDocument),
    {
        match self {
            Error::IllegalDocument => true,
            _ => false,
        }
    }
}

} // verus!
