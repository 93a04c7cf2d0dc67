use vstd::prelude::*;
use vstd::string::StringExecFns;

verus! {

/// Desired state of a workload, as declared by the user.
#[derive(Clone, Debug)]
pub struct MyWorkLoadSpec {
    pub image: String,
    pub replicas: u8,
}

/// State derived and reported by the controller.
#[derive(Clone, Copy, Debug, Default, PartialEq, Eq, Structural)]
pub struct MyWorkLoadStatus {
    pub hidden: bool,
}

/// A workload object as last read from the object store.
#[derive(Debug)]
pub struct MyWorkLoad {
    pub namespace: Option<String>,
    pub name: String,
    pub spec: MyWorkLoadSpec,
    pub status: Option<MyWorkLoadStatus>,
    pub finalizers: Vec<String>,
    /// Whether a deletion timestamp is set.
    pub deletion_requested: bool,
    pub resource_version: Option<String>,
}

/// The marker this controller puts on objects whose cleanup it owns.
pub open spec fn marker() -> Seq<char> {
    "documents.kube.rs"@
}

/// The name that is refused before any write.
pub open spec fn illegal_name() -> Seq<char> {
    "illegal"@
}

pub open spec fn api_version() -> Seq<char> {
    "mars.org/v1alpha1"@
}

pub open spec fn kind() -> Seq<char> {
    "MyWorkLoad"@
}

/// Field manager used for server-side apply of the status.
pub open spec fn field_manager() -> Seq<char> {
    "rustctrl"@
}

/// Identity under which lifecycle events are reported.
pub open spec fn reporter() -> Seq<char> {
    "myworkload-controller"@
}

/// The view of a list of strings.
pub open spec fn strings_view(v: Seq<String>) -> Seq<Seq<char>> {
    v.map_values(|s: String| s@)
}

pub open spec fn has_marker(finalizers: Seq<Seq<char>>) -> bool {
    finalizers.contains(marker())
}

/// Status that the controller derives from a spec.
pub open spec fn desired_status_of(spec: MyWorkLoadSpec) -> MyWorkLoadStatus {
    MyWorkLoadStatus { hidden: false }
}

pub fn finalizer_marker() -> (r: String)
    ensures
        r@ == marker(),
{
    String::from_str("documents.kube.rs")
}

pub fn field_manager_name() -> (r: String)
    ensures
        r@ == field_manager(),
{
    String::from_str("rustctrl")
}

pub fn reporter_name() -> (r: String)
    ensures
        r@ == reporter(),
{
    String::from_str("myworkload-controller")
}

impl MyWorkLoadSpec {
    pub fn desired_status(&self) -> (r: MyWorkLoadStatus)
        ensures
            r == desired_status_of(*self),
    {
        MyWorkLoadStatus { hidden: false }
    }
}

impl MyWorkLoad {
    pub open spec fn finalizers_view(&self) -> Seq<Seq<char>> {
        strings_view(self.finalizers@)
    }

    pub open spec fn alive(&self) -> bool {
        !self.deletion_requested
    }

    /// Whether the object carries this controller's marker.
    pub fn has_finalizer(&self) -> (r: bool)
        ensures
            r == has_marker(self.finalizers_view()),
    {
        let m = finalizer_marker();
        let mut i: usize = 0;
        while i < self.finalizers.len()
            invariant
                m@ == marker(),
                i <= self.finalizers@.len(),
                forall|j: int| 0 <= j < i ==> self.finalizers@[j]@ != marker(),
            decreases self.finalizers@.len() - i,
        {
            if self.finalizers[i] == m {
                assert(self.finalizers_view()[i as int] == marker());
                return true;
            }
            i += 1;
        }
        proof {
            if has_marker(self.finalizers_view()) {
                let k = choose|k: int| 0 <= k < self.finalizers_view().len() && self.finalizers_view()[k] == marker();
                assert(self.finalizers@[k]@ == marker());
            }
        }
        false
    }

    /// Whether the name is the one refused before any write.
    pub fn has_illegal_name(&self) -> (r: bool)
        ensures
            r == (self.name@ == illegal_name()),
    {
        let illegal = String::from_str("illegal");
        self.name == illegal
    }
}

} // verus!
