use vstd::prelude::*;
use crate::error::Error;
use crate::policy::{requeue_delay, requeue_delay_of, Action};

verus! {

/// Keys of objects, as the queue sees them: running, waiting to run, and
/// running with a trigger that came in meanwhile.
pub struct QueueView {
    pub running: Seq<u64>,
    pub queued: Seq<u64>,
    pub rerun: Seq<u64>,
}

impl QueueView {
    pub open spec fn wf(self) -> bool {
        &&& self.queued.no_duplicates()
        &&& forall|k: u64| self.queued.contains(k) ==> !self.running.contains(k)
        &&& forall|k: u64| self.rerun.contains(k) ==> self.running.contains(k)
    }
}

pub open spec fn is_not(k: u64, x: u64) -> bool {
    x != k
}

/// The queue once a change notification for `k` came in.
pub open spec fn trigger_of(q: QueueView, k: u64) -> QueueView {
    if q.running.contains(k) {
        if q.rerun.contains(k) {
            q
        } else {
            QueueView { rerun: q.rerun.push(k), ..q }
        }
    } else if q.queued.contains(k) {
        q
    } else {
        QueueView { queued: q.queued.push(k), ..q }
    }
}

/// The queue once the first waiting key started to run.
pub open spec fn next_of(q: QueueView) -> QueueView {
    QueueView { running: q.running.push(q.queued[0]), queued: q.queued.drop_first(), ..q }
}

/// The queue once the attempt for `k` ended.
pub open spec fn finish_of(q: QueueView, k: u64) -> QueueView {
    let running = q.running.filter(|x: u64| is_not(k, x));
    if q.rerun.contains(k) {
        QueueView {
            running,
            queued: q.queued.push(k),
            rerun: q.rerun.filter(|x: u64| is_not(k, x)),
        }
    } else {
        QueueView { running, ..q }
    }
}

/// Schedules reconciliations so that at most one runs per key, and triggers
/// that come in while a key runs collapse into one later run.
pub struct WorkQueue {
    running: Vec<u64>,
    queued: Vec<u64>,
    rerun: Vec<u64>,
}

impl View for WorkQueue {
    type V = QueueView;

    closed spec fn view(&self) -> QueueView {
        QueueView { running: self.running@, queued: self.queued@, rerun: self.rerun@ }
    }
}

fn contains_key(v: &Vec<u64>, k: u64) -> (r: bool)
    ensures
        r == v@.contains(k),
{
    let mut i: usize = 0;
    while i < v.len()
        invariant
            i <= v@.len(),
            forall|j: int| 0 <= j < i ==> v@[j] != k,
        decreases v@.len() - i,
    {
        if v[i] == k {
            assert(v@[i as int] == k);
            return true;
        }
        i += 1;
    }
    false
}

fn remove_key(v: &Vec<u64>, k: u64) -> (r: Vec<u64>)
    ensures
        r@ == v@.filter(|x: u64| is_not(k, x)),
{
    let mut r: Vec<u64> = Vec::new();
    let mut i: usize = 0;
    while i < v.len()
        invariant
            i <= v@.len(),
            r@ == v@.take(i as int).filter(|x: u64| is_not(k, x)),
        decreases v@.len() - i,
    {
        proof {
            assert(v@.take(i + 1).drop_last() == v@.take(i as int));
            reveal(Seq::filter);
        }
        if v[i] != k {
            r.push(v[i]);
        }
        i += 1;
    }
    assert(v@.take(i as int) == v@);
    r
}

proof fn lemma_filter_keeps(s: Seq<u64>, k: u64, x: u64)
    ensures
        s.filter(|y: u64| is_not(k, y)).contains(x) <==> (s.contains(x) && x != k),
{
    let f = s.filter(|y: u64| is_not(k, y));
    if f.contains(x) {
        let i = choose|i: int| 0 <= i < f.len() && f[i] == x;
        s.lemma_filter_pred(|y: u64| is_not(k, y), i);
        s.lemma_filter_contains_rev(|y: u64| is_not(k, y), x);
    }
    if s.contains(x) && x != k {
        let i = choose|i: int| 0 <= i < s.len() && s[i] == x;
        s.lemma_filter_contains(|y: u64| is_not(k, y), i);
    }
}

impl WorkQueue {
    pub fn new() -> (r: WorkQueue)
        ensures
            r@.running.len() == 0,
            r@.queued.len() == 0,
            r@.rerun.len() == 0,
            r@.wf(),
    {
        WorkQueue { running: Vec::new(), queued: Vec::new(), rerun: Vec::new() }
    }

    /// Records a change notification for `key`.
    pub fn trigger(&mut self, key: u64)
        requires
            old(self)@.wf(),
        ensures
            final(self)@ == trigger_of(old(self)@, key),
            final(self)@.wf(),
            final(self)@.running.contains(key) ==> final(self)@.rerun.contains(key),
            !final(self)@.running.contains(key) ==> final(self)@.queued.contains(key),
    {
        if contains_key(&self.running, key) {
            if !contains_key(&self.rerun, key) {
                self.rerun.push(key);
                assert(self@.rerun[self@.rerun.len() - 1] == key);
            }
        } else if !contains_key(&self.queued, key) {
            self.queued.push(key);
            assert(self@.queued[self@.queued.len() - 1] == key);
        }
    }

    /// Starts the key that has waited longest, if any.
    pub fn next(&mut self) -> (r: Option<u64>)
        requires
            old(self)@.wf(),
        ensures
            old(self)@.queued.len() == 0 ==> r is None && final(self)@ == old(self)@,
            old(self)@.queued.len() > 0 ==> r == Some(old(self)@.queued[0]) && final(self)@ == next_of(
                old(self)@,
            ),
            final(self)@.wf(),
            r matches Some(k) ==> final(self)@.running.contains(k) && !final(self)@.queued.contains(k),
    {
        if self.queued.len() == 0 {
            return None;
        }
        let key = self.queued.remove(0);
        self.running.push(key);
        let ghost q = old(self)@;
        assert(self.queued@ =~= q.queued.drop_first());
        assert(self@ == next_of(q));
        assert(self@.running[self@.running.len() - 1] == key);
        proof {
            assert forall|k: u64| self@.queued.contains(k) implies !self@.running.contains(k) by {
                let i = choose|i: int| 0 <= i < self@.queued.len() && self@.queued[i] == k;
                assert(q.queued[i + 1] == k);
                assert(q.queued.contains(k));
                assert(k != key);
                if self@.running.contains(k) {
                    let j = choose|j: int| 0 <= j < self@.running.len() && self@.running[j] == k;
                    assert(j < q.running.len());
                    assert(q.running[j] == k);
                }
            }
            assert forall|k: u64| self@.rerun.contains(k) implies self@.running.contains(k) by {
                let j = choose|j: int| 0 <= j < q.running.len() && q.running[j] == k;
                assert(self@.running[j] == k);
            }
        }
        Some(key)
    }

    /// Ends the attempt for `key`, which is running; queues it again if a
    /// trigger came in meanwhile. Returns the delay, in seconds, after which
    /// the key must be triggered again, or `None` to wait for a change.
    pub fn finish(&mut self, key: u64, outcome: &Result<Action, Error>) -> (r: Option<u64>)
        requires
            old(self)@.wf(),
            old(self)@.running.contains(key),
        ensures
            final(self)@ == finish_of(old(self)@, key),
            final(self)@.wf(),
            r == requeue_delay_of(*outcome),
    {
        let ghost q = old(self)@;
        self.running = remove_key(&self.running, key);
        if contains_key(&self.rerun, key) {
            self.rerun = remove_key(&self.rerun, key);
            self.queued.push(key);
        }
        proof {
            assert forall|k: u64| self@.queued.contains(k) implies !self@.running.contains(k) by {
                lemma_filter_keeps(q.running, key, k);
                if k != key {
                    let i = choose|i: int| 0 <= i < self@.queued.len() && self@.queued[i] == k;
                    assert(q.queued[i] == k);
                }
            }
            assert forall|k: u64| self@.rerun.contains(k) implies self@.running.contains(k) by {
                lemma_filter_keeps(q.running, key, k);
                lemma_filter_keeps(q.rerun, key, k);
            }
            if q.rerun.contains(key) {
                assert(!q.queued.contains(key));
                assert forall|i: int, j: int|
                    0 <= i < self@.queued.len() && 0 <= j < self@.queued.len() && i != j implies
                    self@.queued[i] != self@.queued[j] by {
                    if i == q.queued.len() as int {
                        assert(q.queued[j] == self@.queued[j]);
                    } else if j == q.queued.len() as int {
                        assert(q.queued[i] == self@.queued[i]);
                    }
                }
            }
        }
        requeue_delay(outcome)
    }
}

/// Triggers for a key that come in while it runs lead to exactly one more run:
/// a second trigger changes nothing, and when the attempt ends the key is
/// queued once.
pub proof fn triggers_while_running_coalesce(q: QueueView, k: u64)
    requires
        q.wf(),
        q.running.contains(k),
    ensures
        trigger_of(trigger_of(q, k), k) == trigger_of(q, k),
        finish_of(trigger_of(trigger_of(q, k), k), k) == finish_of(trigger_of(q, k), k),
        finish_of(trigger_of(q, k), k).queued == q.queued.push(k),
        !q.queued.contains(k),
{
    assert(trigger_of(q, k).rerun.contains(k)) by {
        if !q.rerun.contains(k) {
            assert(q.rerun.push(k)[q.rerun.len() as int] == k);
        }
    }
}

/// A key whose attempt failed is always scheduled again, within the backoff.
pub proof fn failed_key_is_rescheduled(error: Error)
    ensures
        requeue_delay_of(Err(error)) == Some(crate::policy::BACKOFF_SECS),
{
}

} // verus!
