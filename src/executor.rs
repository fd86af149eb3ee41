use vstd::prelude::*;

verus! {

/// The order in which one round polls the tasks: every live task, by
/// increasing index, each once.
pub open spec fn is_round(live: Seq<bool>, r: Seq<usize>) -> bool {
    &&& forall|a: int, b: int| 0 <= a < b < r.len() ==> r[a] < r[b]
    &&& forall|k: int| 0 <= k < r.len() ==> r[k] < live.len() && live[r[k] as int]
    &&& forall|t: int| 0 <= t < live.len() && live[t] ==> exists|k: int| 0 <= k < r.len() && r[k] == t
}

/// The fixed set of tasks that the executor drives, and which of them have
/// finished. A finished task leaves the rotation for good.
pub struct Executor {
    pub finished: Vec<bool>,
}

impl Executor {
    /// An executor over `n` tasks, none finished.
    pub fn new(n: usize) -> (e: Executor)
        ensures
            e.finished@.len() == n,
            forall|t: int| 0 <= t < n ==> !e.finished@[t],
    {
        let mut finished: Vec<bool> = Vec::new();
        let mut i: usize = 0;
        while i < n
            invariant
                i <= n,
                finished@.len() == i,
                forall|t: int| 0 <= t < i ==> !finished@[t],
            decreases n - i,
        {
            finished.push(false);
            i = i + 1;
        }
        Executor { finished }
    }

    /// Which tasks are still in the rotation.
    pub open spec fn live(&self) -> Seq<bool> {
        self.finished@.map_values(|f: bool| !f)
    }

    /// Whether every task has finished: the executor then returns.
    pub fn all_finished(&self) -> (r: bool)
        ensures
            r == (forall|t: int| 0 <= t < self.finished@.len() ==> self.finished@[t]),
    {
        let mut i: usize = 0;
        while i < self.finished.len()
            invariant
                i <= self.finished@.len(),
                forall|t: int| 0 <= t < i ==> self.finished@[t],
            decreases self.finished@.len() - i,
        {
            if !self.finished[i] {
                return false;
            }
            i = i + 1;
        }
        true
    }

    /// The tasks that the next round polls, in order.
    pub fn round(&self) -> (r: Vec<usize>)
        ensures
            is_round(self.live(), r@),
    {
        let mut r: Vec<usize> = Vec::new();
        let mut i: usize = 0;
        while i < self.finished.len()
            invariant
                i <= self.finished@.len(),
                forall|a: int, b: int| 0 <= a < b < r@.len() ==> r@[a] < r@[b],
                forall|k: int| 0 <= k < r@.len() ==> r@[k] < i && !self.finished@[r@[k] as int],
                forall|t: int|
                    0 <= t < i && !self.finished@[t] ==> exists|k: int| 0 <= k < r@.len() && r@[k] == t,
            decreases self.finished@.len() - i,
        {
            let ghost prev = r@;
            if !self.finished[i] {
                r.push(i);
                assert forall|t: int|
                    0 <= t <= i && !self.finished@[t] implies exists|k: int|
                    0 <= k < r@.len() && r@[k] == t by {
                    if t < i {
                        let k = choose|k: int| 0 <= k < prev.len() && prev[k] == t;
                        assert(r@[k] == t);
                    } else {
                        assert(r@[r@.len() - 1] == t);
                    }
                }
            }
            i = i + 1;
        }
        r
    }

    /// Records that task `t` reported completion when polled.
    pub fn finish(&mut self, t: usize)
        requires
            t < old(self).finished@.len(),
        ensures
            final(self).finished@ == old(self).finished@.update(t as int, true),
    {
        self.finished.set(t, true);
    }
}

/// Fairness of the rotation: polls run round after round, and between two
/// polls of one task every other live task is polled, and that task itself
/// is not polled again in between.
pub proof fn lemma_round_robin_fair(live: Seq<bool>, r: Seq<usize>, k: int)
    requires
        is_round(live, r),
        0 <= k < r.len(),
    ensures
        (r + r)[k + r.len()] == r[k],
        forall|m: int| k < m < k + r.len() ==> (r + r)[m] != r[k],
        forall|t: int|
            0 <= t < live.len() && live[t] && t != r[k] ==> exists|m: int|
                k < m < k + r.len() && (r + r)[m] == t,
{
    let rr = r + r;
    assert forall|m: int| k < m < k + r.len() implies rr[m] != r[k] by {
        if m < r.len() {
            assert(r[k] < r[m]);
        } else {
            assert(rr[m] == r[m - r.len()]);
            assert(r[m - r.len()] < r[k]);
        }
    }
    assert forall|t: int| 0 <= t < live.len() && live[t] && t != r[k] implies exists|m: int|
        k < m < k + r.len() && rr[m] == t by {
        let j = choose|j: int| 0 <= j < r.len() && r[j] == t;
        if j > k {
            assert(rr[j] == t);
        } else {
            assert(rr[j + r.len()] == t);
        }
    }
}

} // verus!
