use vstd::prelude::*;

use crate::level::{level_step, Level, WaitStep};

verus! {

/// The byte that each completed low-then-high cycle broadcasts.
pub const BROADCAST_PAYLOAD: u8 = 123;

/// Which level the edge watcher is waiting for.
#[derive(PartialEq, Eq, Structural, Clone, Copy, Debug)]
pub enum Phase {
    AwaitLow,
    AwaitHigh,
}

/// What the edge watcher asks of its task after one sample of the input.
#[derive(PartialEq, Eq, Structural, Clone, Copy, Debug)]
pub enum EdgeAction {
    /// The awaited level has not come: sleep one poll interval, sample again.
    Poll,
    /// The line went low: put one token on the local channel.
    Signal,
    /// The line went high: put one token on the local channel, then
    /// broadcast the payload byte.
    SignalAndBroadcast,
}

/// The watcher's reaction to one sample in a given phase.
pub open spec fn watch_step(p: Phase, l: Level) -> (Phase, EdgeAction) {
    match p {
        Phase::AwaitLow => if l == Level::Low {
            (Phase::AwaitHigh, EdgeAction::Signal)
        } else {
            (Phase::AwaitLow, EdgeAction::Poll)
        },
        Phase::AwaitHigh => if l == Level::High {
            (Phase::AwaitLow, EdgeAction::SignalAndBroadcast)
        } else {
            (Phase::AwaitHigh, EdgeAction::Poll)
        },
    }
}

/// The phase of a watcher that started waiting for low and then saw `s`.
pub open spec fn phase_after(s: Seq<Level>) -> Phase
    decreases s.len(),
{
    if s.len() == 0 {
        Phase::AwaitLow
    } else {
        watch_step(phase_after(s.drop_last()), s.last()).0
    }
}

/// The action taken on the last sample of a non-empty trace.
pub open spec fn last_action(s: Seq<Level>) -> EdgeAction
    recommends
        s.len() > 0,
{
    watch_step(phase_after(s.drop_last()), s.last()).1
}

/// Tokens put on the local channel over the trace `s`.
pub open spec fn tokens(s: Seq<Level>) -> nat
    decreases s.len(),
{
    if s.len() == 0 {
        0
    } else {
        tokens(s.drop_last()) + if last_action(s) == EdgeAction::Poll {
            0nat
        } else {
            1nat
        }
    }
}

/// Broadcasts sent over the trace `s`.
pub open spec fn broadcasts(s: Seq<Level>) -> nat
    decreases s.len(),
{
    if s.len() == 0 {
        0
    } else {
        broadcasts(s.drop_last()) + if last_action(s) == EdgeAction::SignalAndBroadcast {
            1nat
        } else {
            0nat
        }
    }
}

/// Completed low-then-high transitions in the trace `s`: the places where a
/// high sample follows a low one.
pub open spec fn rises(s: Seq<Level>) -> nat
    decreases s.len(),
{
    if s.len() < 2 {
        0
    } else {
        rises(s.drop_last()) + if s[s.len() - 2] == Level::Low && s.last() == Level::High {
            1nat
        } else {
            0nat
        }
    }
}

/// A low cycle that has begun and not yet ended: the trace ends low.
pub open spec fn open_low(s: Seq<Level>) -> nat {
    if s.len() > 0 && s.last() == Level::Low {
        1
    } else {
        0
    }
}

/// After any trace, the watcher waits for high exactly when the last sample
/// was low.
pub proof fn lemma_phase_after(s: Seq<Level>)
    ensures
        phase_after(s) == (if s.len() > 0 && s.last() == Level::Low {
            Phase::AwaitHigh
        } else {
            Phase::AwaitLow
        }),
    decreases s.len(),
{
    if s.len() > 0 {
        lemma_phase_after(s.drop_last());
    }
}

/// Over every sequence of sampled levels, each completed low-then-high
/// transition yields exactly two local tokens and exactly one broadcast; a
/// trace that ends in the low phase has given its one low-entry token more.
pub proof fn lemma_edge_counts(s: Seq<Level>)
    ensures
        broadcasts(s) == rises(s),
        tokens(s) == 2 * rises(s) + open_low(s),
    decreases s.len(),
{
    if s.len() > 0 {
        let p = s.drop_last();
        lemma_edge_counts(p);
        lemma_phase_after(p);
        if s.len() >= 2 {
            assert(p.last() == s[s.len() - 2]);
        }
    }
}

/// The input-edge watcher: waits for low, signals, waits for high, signals
/// and broadcasts, and starts again.
#[derive(PartialEq, Eq, Structural, Clone, Copy, Debug)]
pub struct EdgeWatcher {
    pub phase: Phase,
}

impl EdgeWatcher {
    /// A watcher that first waits for the line to go low.
    pub fn new() -> (w: EdgeWatcher)
        ensures
            w.phase == Phase::AwaitLow,
    {
        EdgeWatcher { phase: Phase::AwaitLow }
    }

    /// The level the watcher is waiting for.
    pub fn awaited(&self) -> (r: Level)
        ensures
            r == (if self.phase == Phase::AwaitLow {
                Level::Low
            } else {
                Level::High
            }),
    {
        match self.phase {
            Phase::AwaitLow => Level::Low,
            Phase::AwaitHigh => Level::High,
        }
    }

    /// Reacts to one sample of the input line.
    pub fn on_sample(&mut self, sample: Level) -> (r: EdgeAction)
        ensures
            (final(self).phase, r) == watch_step(old(self).phase, sample),
    {
        let target = self.awaited();
        match level_step(target, sample) {
            WaitStep::Sleep(_) => EdgeAction::Poll,
            WaitStep::Ready => {
                match self.phase {
                    Phase::AwaitLow => {
                        self.phase = Phase::AwaitHigh;
                        EdgeAction::Signal
                    },
                    Phase::AwaitHigh => {
                        self.phase = Phase::AwaitLow;
                        EdgeAction::SignalAndBroadcast
                    },
                }
            },
        }
    }
}

} // verus!
