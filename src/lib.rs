//! Verified core of a controller that keeps workload objects converging to
//! their declared state: the finalizer protocol that guards cleanup, the
//! status patch and deletion event it writes, the requeue policy, and the
//! per-key work queue. The I/O around it is left to the caller, which
//! performs each request a reconciliation asks for and hands back the result.
use vstd::prelude::*;

pub mod diagnostics;
pub mod error;
pub mod finalizer;
pub mod policy;
pub mod queue;
pub mod reconcile;
pub mod resource;
pub mod session;

verus! {

} // verus!
