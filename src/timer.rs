use vstd::prelude::*;

verus! {

/// What a timed wait asks of its task after one look at the clock.
#[derive(PartialEq, Eq, Structural, Clone, Copy, Debug)]
pub enum SleepStep {
    /// The deadline has passed; the wait is over after this many yields.
    Done(usize),
    /// The deadline lies ahead: yield once and look again.
    Yield,
}

/// A timed wait in progress: the absolute deadline in milliseconds, fixed
/// when the wait begins, and the number of times the task has yielded.
#[derive(PartialEq, Eq, Structural, Clone, Copy, Debug)]
pub struct Sleep {
    pub deadline: u64,
    pub polls: usize,
}

impl Sleep {
    /// Begins a wait of `dur` milliseconds at instant `now`.
    pub fn start(now: u64, dur: u64) -> (s: Sleep)
        requires
            now + dur <= u64::MAX,
        ensures
            s.deadline == now + dur,
            s.polls == 0,
    {
        Sleep { deadline: now + dur, polls: 0 }
    }

    /// One look at the clock. The wait ends exactly when `now` has reached
    /// the deadline; otherwise the task yields once more and the count of
    /// yields grows by one. The deadline never moves.
    pub fn poll(&mut self, now: u64) -> (r: SleepStep)
        requires
            now < old(self).deadline ==> old(self).polls < usize::MAX,
        ensures
            now >= old(self).deadline ==> r == SleepStep::Done(old(self).polls) && *final(self)
                == *old(self),
            now < old(self).deadline ==> r == SleepStep::Yield && final(self).deadline == old(
                self,
            ).deadline && final(self).polls == old(self).polls + 1,
    {
        if now >= self.deadline {
            SleepStep::Done(self.polls)
        } else {
            self.polls = self.polls + 1;
            SleepStep::Yield
        }
    }
}

} // verus!
