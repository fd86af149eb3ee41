use vstd::prelude::*;

use crate::timer::{Sleep, SleepStep};

verus! {

/// How long output A stays high for each remote event, in milliseconds.
pub const PULSE_MS: u64 = 1000;

/// What the pulse actuator asks of its task.
#[derive(PartialEq, Eq, Structural, Clone, Copy, Debug)]
pub enum PulseAction {
    /// Drive the output high.
    SetHigh,
    /// Nothing to drive yet: yield once.
    Wait,
    /// Drive the output low.
    SetLow,
}

/// Whether the actuator is waiting for an event or holding a pulse.
#[derive(PartialEq, Eq, Structural, Clone, Copy, Debug)]
pub enum Pulse {
    Idle,
    High(Sleep),
}

/// Something the actuator reacts to, at an instant in milliseconds.
#[derive(PartialEq, Eq, Structural, Clone, Copy, Debug)]
pub enum PulseEvent {
    /// A token was taken from the remote-event channel.
    Token(u64),
    /// The task was resumed and looked at the clock.
    Tick(u64),
}

/// The deadline of the pulse being held, if any.
pub open spec fn pending_deadline(p: Pulse) -> Option<int> {
    match p {
        Pulse::Idle => None,
        Pulse::High(s) => Some(s.deadline as int),
    }
}

/// The actuator's reaction to one event, given the deadline of the pulse it
/// holds. A token is taken only while idle; one that meets a held pulse is
/// left in the channel until the pulse has ended.
pub open spec fn pulse_step(d: Option<int>, e: PulseEvent) -> (Option<int>, PulseAction) {
    match (d, e) {
        (None, PulseEvent::Token(t)) => (Some(t + PULSE_MS), PulseAction::SetHigh),
        (Some(end), PulseEvent::Tick(t)) => if t >= end {
            (None, PulseAction::SetLow)
        } else {
            (d, PulseAction::Wait)
        },
        _ => (d, PulseAction::Wait),
    }
}

/// The instant an event happens at.
pub open spec fn event_time(e: PulseEvent) -> int {
    match e {
        PulseEvent::Token(t) => t as int,
        PulseEvent::Tick(t) => t as int,
    }
}

/// The changes of output A over a run of events, each as the level driven
/// (`true` for high) and the instant it was driven at.
pub open spec fn drives(d: Option<int>, es: Seq<PulseEvent>) -> Seq<(bool, int)>
    decreases es.len(),
{
    if es.len() == 0 {
        Seq::empty()
    } else {
        let (d2, a) = pulse_step(d, es[0]);
        let rest = drives(d2, es.drop_first());
        match a {
            PulseAction::SetHigh => seq![(true, event_time(es[0]))] + rest,
            PulseAction::SetLow => seq![(false, event_time(es[0]))] + rest,
            PulseAction::Wait => rest,
        }
    }
}

/// Pulses that never overlap and last long enough: the drives alternate
/// high and low, starting high (or, while a pulse ending at `d` is held,
/// low), and each low comes at least one pulse length after its high.
pub open spec fn paced(out: Seq<(bool, int)>, d: Option<int>) -> bool
    decreases out.len(),
{
    if out.len() == 0 {
        true
    } else {
        match d {
            None => out[0].0 && paced(out.drop_first(), Some(out[0].1 + PULSE_MS)),
            Some(end) => !out[0].0 && out[0].1 >= end && paced(out.drop_first(), None),
        }
    }
}

/// Whatever events arrive, however fast and in whatever order, output A is
/// driven in separate pulses, one after another, each held high for at
/// least one pulse length.
pub proof fn lemma_pulses_paced(d: Option<int>, es: Seq<PulseEvent>)
    ensures
        paced(drives(d, es), d),
    decreases es.len(),
{
    if es.len() > 0 {
        let (d2, a) = pulse_step(d, es[0]);
        lemma_pulses_paced(d2, es.drop_first());
        let rest = drives(d2, es.drop_first());
        let out = drives(d, es);
        if a != PulseAction::Wait {
            assert(out.drop_first() =~= rest);
        }
    }
}

/// The remote-event actuator: takes a token, drives output A high, sleeps
/// one pulse length while yielding, drives it low, and takes the next.
#[derive(PartialEq, Eq, Structural, Clone, Copy, Debug)]
pub struct PulseActuator {
    pub state: Pulse,
}

impl PulseActuator {
    /// An idle actuator with output A low.
    pub fn new() -> (a: PulseActuator)
        ensures
            a.state == Pulse::Idle,
    {
        PulseActuator { state: Pulse::Idle }
    }

    /// Whether the actuator is ready to take the next token.
    pub fn is_idle(&self) -> (r: bool)
        ensures
            r == (self.state == Pulse::Idle),
    {
        match self.state {
            Pulse::Idle => true,
            Pulse::High(_) => false,
        }
    }

    /// A token has been taken at instant `now`: the pulse begins.
    pub fn on_token(&mut self, now: u64) -> (r: PulseAction)
        requires
            old(self).state == Pulse::Idle,
            now + PULSE_MS <= u64::MAX,
        ensures
            r == PulseAction::SetHigh,
            final(self).state == Pulse::High(Sleep { deadline: (now + PULSE_MS) as u64, polls: 0 }),
            (pending_deadline(final(self).state), r) == pulse_step(
                pending_deadline(old(self).state),
                PulseEvent::Token(now),
            ),
    {
        self.state = Pulse::High(Sleep::start(now, PULSE_MS));
        PulseAction::SetHigh
    }

    /// The task was resumed at instant `now` while holding a pulse: the pulse
    /// ends once its deadline is reached, and otherwise the task yields.
    pub fn on_tick(&mut self, now: u64) -> (r: PulseAction)
        requires
            old(self).state matches Pulse::High(s) && (now < s.deadline ==> s.polls < usize::MAX),
        ensures
            (pending_deadline(final(self).state), r) == pulse_step(
                pending_deadline(old(self).state),
                PulseEvent::Tick(now),
            ),
    {
        match self.state {
            Pulse::Idle => PulseAction::Wait,
            Pulse::High(s) => {
                let mut s = s;
                match s.poll(now) {
                    SleepStep::Done(_) => {
                        self.state = Pulse::Idle;
                        PulseAction::SetLow
                    },
                    SleepStep::Yield => {
                        self.state = Pulse::High(s);
                        PulseAction::Wait
                    },
                }
            },
        }
    }
}

} // verus!
