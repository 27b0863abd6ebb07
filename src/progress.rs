//! Download progress accounting: a pair of counters (bytes so far, bytes
//! expected) that turns byte deltas into progress events.

use vstd::prelude::*;

verus! {

/// What the reporter hands to the UI channel after each call.
#[derive(Debug, Clone, Copy, PartialEq, Eq, Structural)]
pub enum ProgressEvent {
    /// `transferred` of `expected` bytes have arrived: the percentage is
    /// `transferred / expected * 100`, or 0 while `expected` is 0.
    Progress { transferred: u64, expected: u64 },
    /// The download finished.
    Complete,
}

/// Sum of a run of byte deltas.
pub open spec fn delta_sum(deltas: Seq<u64>) -> int
    decreases deltas.len(),
{
    if deltas.len() == 0 {
        0
    } else {
        delta_sum(deltas.drop_last()) + deltas.last()
    }
}

/// Taking one delta out of a run lowers its sum by that delta.
proof fn lemma_delta_sum_remove(s: Seq<u64>, j: int)
    requires
        0 <= j < s.len(),
    ensures
        delta_sum(s) == delta_sum(s.remove(j)) + s[j],
    decreases s.len(),
{
    if j == s.len() - 1 {
        assert(s.remove(j) =~= s.drop_last());
    } else {
        lemma_delta_sum_remove(s.drop_last(), j);
        assert(s.remove(j).drop_last() =~= s.drop_last().remove(j));
        assert(s.remove(j).last() == s.last());
    }
}

/// The order of `progress` calls does not change where the counter ends:
/// each call adds its delta, and two runs that hold the same deltas, in
/// whatever order they were issued, add the same sum.
pub proof fn lemma_progress_order_irrelevant(a: Seq<u64>, b: Seq<u64>)
    requires
        a.to_multiset() == b.to_multiset(),
    ensures
        delta_sum(a) == delta_sum(b),
    decreases a.len(),
{
    broadcast use vstd::seq_lib::group_to_multiset_ensures;
    broadcast use vstd::multiset::group_multiset_axioms;

    if a.len() == 0 {
        assert(a.to_multiset().len() == 0);
        assert(b.len() == 0);
    } else {
        let x = a.last();
        let rest = a.drop_last();
        assert(a =~= rest.push(x));
        assert(a.to_multiset() == rest.to_multiset().insert(x));
        assert(b.to_multiset().count(x) > 0);
        assert(b.contains(x));
        let j = choose|j: int| 0 <= j < b.len() && b[j] == x;
        assert(b.remove(j).to_multiset() == b.to_multiset().remove(x));
        assert(b.remove(j).to_multiset() =~= rest.to_multiset());
        lemma_progress_order_irrelevant(rest, b.remove(j));
        lemma_delta_sum_remove(b, j);
    }
}

/// Counters of one download operation.
pub struct ProgressTrack {
    current: u64,
    total: u64,
}

impl View for ProgressTrack {
    /// (bytes transferred so far, bytes expected)
    type V = (nat, nat);

    closed spec fn view(&self) -> (nat, nat) {
        (self.current as nat, self.total as nat)
    }
}

impl ProgressTrack {
    /// A reporter with both counters at zero.
    pub fn new() -> (r: Self)
        ensures
            r@ == (0nat, 0nat),
    {
        ProgressTrack { current: 0, total: 0 }
    }

    pub fn current(&self) -> (r: u64)
        ensures
            r == self@.0,
    {
        self.current
    }

    pub fn total(&self) -> (r: u64)
        ensures
            r == self@.1,
    {
        self.total
    }

    /// Records the expected byte count and announces 0% (nothing of it yet).
    pub fn setup(&mut self, max_progress: u64) -> (e: ProgressEvent)
        ensures
            final(self)@ == (old(self)@.0, max_progress as nat),
            e == (ProgressEvent::Progress { transferred: 0, expected: max_progress }),
    {
        self.total = max_progress;
        ProgressEvent::Progress { transferred: 0, expected: max_progress }
    }

    /// Adds `delta` bytes and announces the new count against the recorded
    /// total.
    pub fn progress(&mut self, delta: u64) -> (e: ProgressEvent)
        requires
            old(self)@.0 + delta <= u64::MAX,
        ensures
            final(self)@ == ((old(self)@.0 + delta) as nat, old(self)@.1),
            e == (ProgressEvent::Progress { transferred: final(self)@.0 as u64, expected: final(self)@.1 as u64 }),
    {
        self.current = self.current + delta;
        ProgressEvent::Progress { transferred: self.current, expected: self.total }
    }

    /// Announces the end of the download.
    pub fn done(&self) -> (e: ProgressEvent)
        ensures
            e == ProgressEvent::Complete,
    {
        ProgressEvent::Complete
    }
}

} // verus!
