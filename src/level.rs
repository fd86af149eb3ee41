use vstd::prelude::*;

verus! {

/// The logic level of a digital line.
#[derive(PartialEq, Eq, Structural, Clone, Copy, Debug)]
pub enum Level {
    Low,
    High,
}

/// How long a level wait sleeps between two samples, in milliseconds.
pub const POLL_INTERVAL_MS: u64 = 1;

/// What a level wait asks of its task after one sample of the line.
#[derive(PartialEq, Eq, Structural, Clone, Copy, Debug)]
pub enum WaitStep {
    /// The line is at the awaited level: the wait is over.
    Ready,
    /// Sleep this many milliseconds, then sample again.
    Sleep(u64),
}

/// One sample of a wait for `target`: a line already at the level ends the
/// wait at once, without any suspension; any other sample sleeps one poll
/// interval.
pub fn level_step(target: Level, sample: Level) -> (r: WaitStep)
    ensures
        sample == target <==> r == WaitStep::Ready,
        sample != target <==> r == WaitStep::Sleep(POLL_INTERVAL_MS),
{
    if sample == target {
        WaitStep::Ready
    } else {
        WaitStep::Sleep(POLL_INTERVAL_MS)
    }
}

/// The level that a line, read through `is_low`, is at.
pub fn level_of(is_low: bool) -> (r: Level)
    ensures
        r == (if is_low {
            Level::Low
        } else {
            Level::High
        }),
{
    if is_low {
        Level::Low
    } else {
        Level::High
    }
}

} // verus!
