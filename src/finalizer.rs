use vstd::prelude::*;
use crate::resource::{finalizer_marker, has_marker, marker, strings_view, MyWorkLoad};

verus! {

/// What the finalizer protocol does with an object in its current state.
#[derive(Clone, Copy, Debug, PartialEq, Eq, Structural)]
pub enum FinalizerEvent {
    /// Alive and unclaimed: add the marker, then apply.
    AddMarker,
    /// Alive and claimed: apply.
    Apply,
    /// Deletion requested and claimed: clean up, then remove the marker.
    Cleanup,
    /// Deletion requested and unclaimed: nothing left to do.
    Nothing,
}

pub open spec fn event_of(o: MyWorkLoad) -> FinalizerEvent {
    if !o.deletion_requested {
        if has_marker(o.finalizers_view()) {
            FinalizerEvent::Apply
        } else {
            FinalizerEvent::AddMarker
        }
    } else if has_marker(o.finalizers_view()) {
        FinalizerEvent::Cleanup
    } else {
        FinalizerEvent::Nothing
    }
}

pub open spec fn is_other(s: Seq<char>) -> bool {
    s != marker()
}

/// The finalizer list with every copy of the marker taken out.
pub open spec fn without_marker_of(f: Seq<Seq<char>>) -> Seq<Seq<char>> {
    f.filter(|s: Seq<char>| is_other(s))
}

impl MyWorkLoad {
    /// Classifies the object for the finalizer protocol.
    pub fn finalizer_event(&self) -> (r: FinalizerEvent)
        ensures
            r == event_of(*self),
    {
        let claimed = self.has_finalizer();
        if !self.deletion_requested {
            if claimed {
                FinalizerEvent::Apply
            } else {
                FinalizerEvent::AddMarker
            }
        } else if claimed {
            FinalizerEvent::Cleanup
        } else {
            FinalizerEvent::Nothing
        }
    }
}

/// A copy of a list of strings.
pub fn copy_strings(v: &Vec<String>) -> (r: Vec<String>)
    ensures
        strings_view(r@) == strings_view(v@),
{
    let mut r: Vec<String> = Vec::new();
    let mut i: usize = 0;
    while i < v.len()
        invariant
            i <= v@.len(),
            strings_view(r@) == strings_view(v@.take(i as int)),
        decreases v@.len() - i,
    {
        let ghost prev = r@;
        r.push(v[i].clone());
        proof {
            assert(strings_view(prev).len() == prev.len());
            assert(strings_view(v@.take(i as int)).len() == i);
            assert forall|j: int| 0 <= j < i implies #[trigger] r@[j]@ == v@[j]@ by {
                assert(strings_view(prev)[j] == prev[j]@);
                assert(v@.take(i as int)[j] == v@[j]);
                assert(strings_view(prev)[j] == strings_view(v@.take(i as int))[j]);
            }
            assert(strings_view(r@) =~= strings_view(v@.take(i + 1)));
        }
        i += 1;
    }
    assert(v@.take(i as int) == v@);
    r
}

/// The finalizer list with the marker appended.
pub fn with_marker(finalizers: &Vec<String>) -> (r: Vec<String>)
    ensures
        strings_view(r@) == strings_view(finalizers@).push(marker()),
{
    let mut r = copy_strings(finalizers);
    let ghost prev = r@;
    r.push(finalizer_marker());
    assert(strings_view(prev).len() == prev.len());
    assert(strings_view(r@) =~= strings_view(prev).push(marker()));
    r
}

/// The finalizer list with the marker taken out; other markers keep their order.
pub fn without_marker(finalizers: &Vec<String>) -> (r: Vec<String>)
    ensures
        strings_view(r@) == without_marker_of(strings_view(finalizers@)),
        !has_marker(strings_view(r@)),
{
    let m = finalizer_marker();
    let mut r: Vec<String> = Vec::new();
    let mut i: usize = 0;
    while i < finalizers.len()
        invariant
            m@ == marker(),
            i <= finalizers@.len(),
            strings_view(r@) == without_marker_of(strings_view(finalizers@.take(i as int))),
        decreases finalizers@.len() - i,
    {
        let ghost before = strings_view(finalizers@.take(i as int));
        let ghost after = strings_view(finalizers@.take(i + 1));
        proof {
            assert(finalizers@.take(i + 1).drop_last() == finalizers@.take(i as int));
            assert(after.drop_last() == before);
            assert(after.last() == finalizers@[i as int]@);
            reveal(Seq::filter);
        }
        if finalizers[i] != m {
            let ghost prev = r@;
            r.push(finalizers[i].clone());
            assert(strings_view(r@) =~= strings_view(prev).push(finalizers@[i as int]@));
        }
        i += 1;
    }
    assert(finalizers@.take(i as int) == finalizers@);
    proof {
        let out = strings_view(r@);
        let all = strings_view(finalizers@);
        if has_marker(out) {
            let k = choose|k: int| 0 <= k < out.len() && out[k] == marker();
            all.lemma_filter_pred(|s: Seq<char>| is_other(s), k);
        }
    }
    r
}

} // verus!
