use pin_relay::actuator::{Pulse, PulseAction, PulseActuator, PULSE_MS};
use pin_relay::channel::{EventChannel, CHANNEL_CAPACITY};
use pin_relay::executor::Executor;
use pin_relay::level::{level_of, level_step, Level, WaitStep, POLL_INTERVAL_MS};
use pin_relay::timer::{Sleep, SleepStep};
use pin_relay::watcher::{EdgeAction, EdgeWatcher, Phase, BROADCAST_PAYLOAD};

#[test]
fn sleep_of_zero_ends_without_yielding() {
    let mut s = Sleep::start(42, 0);
    assert_eq!(s.poll(42), SleepStep::Done(0));
}

#[test]
fn sleep_yields_until_deadline() {
    let mut s = Sleep::start(100, 3);
    assert_eq!(s.deadline, 103);
    assert_eq!(s.poll(100), SleepStep::Yield);
    assert_eq!(s.poll(101), SleepStep::Yield);
    assert_eq!(s.poll(102), SleepStep::Yield);
    assert_eq!(s.poll(103), SleepStep::Done(3));
    assert_eq!(s.deadline, 103);
}

#[test]
fn sleep_ends_on_overshoot() {
    let mut s = Sleep::start(0, 10);
    assert_eq!(s.poll(5), SleepStep::Yield);
    assert_eq!(s.poll(250), SleepStep::Done(1));
}

#[test]
fn level_wait_on_matching_line_returns_at_once() {
    assert_eq!(level_step(Level::Low, Level::Low), WaitStep::Ready);
    assert_eq!(level_step(Level::High, Level::High), WaitStep::Ready);
}

#[test]
fn level_wait_on_other_level_sleeps_one_interval() {
    assert_eq!(POLL_INTERVAL_MS, 1);
    assert_eq!(level_step(Level::Low, Level::High), WaitStep::Sleep(1));
    assert_eq!(level_step(Level::High, Level::Low), WaitStep::Sleep(1));
}

#[test]
fn level_from_pin_read() {
    assert_eq!(level_of(true), Level::Low);
    assert_eq!(level_of(false), Level::High);
}

fn run_watcher(samples: &[Level]) -> Vec<EdgeAction> {
    let mut w = EdgeWatcher::new();
    samples.iter().map(|l| w.on_sample(*l)).collect()
}

#[test]
fn low_for_500ms_then_high_gives_two_tokens_then_one_broadcast() {
    let mut samples = vec![Level::Low; 500];
    samples.push(Level::High);
    let actions = run_watcher(&samples);
    let mut local = EventChannel::new(CHANNEL_CAPACITY);
    let mut sent: Vec<Vec<u8>> = Vec::new();
    let mut log: Vec<&str> = Vec::new();
    for a in &actions {
        match a {
            EdgeAction::Poll => {}
            EdgeAction::Signal => {
                assert!(local.try_send());
                log.push("token");
            }
            EdgeAction::SignalAndBroadcast => {
                assert!(local.try_send());
                log.push("token");
                sent.push(vec![BROADCAST_PAYLOAD]);
                log.push("broadcast");
            }
        }
    }
    assert_eq!(actions[0], EdgeAction::Signal);
    assert_eq!(actions[500], EdgeAction::SignalAndBroadcast);
    assert_eq!(local.len(), 2);
    assert_eq!(sent, vec![vec![123u8]]);
    assert_eq!(log, vec!["token", "token", "broadcast"]);
}

#[test]
fn each_low_high_cycle_gives_two_tokens_and_one_broadcast() {
    let (h, l) = (Level::High, Level::Low);
    let samples = [h, l, l, h, h, l, h, h, l];
    let actions = run_watcher(&samples);
    let tokens = actions.iter().filter(|a| **a != EdgeAction::Poll).count();
    let broadcasts = actions
        .iter()
        .filter(|a| **a == EdgeAction::SignalAndBroadcast)
        .count();
    assert_eq!(broadcasts, 2);
    assert_eq!(tokens, 2 * 2 + 1);
}

#[test]
fn watcher_starts_waiting_for_low() {
    let mut w = EdgeWatcher::new();
    assert_eq!(w.phase, Phase::AwaitLow);
    assert_eq!(w.awaited(), Level::Low);
    assert_eq!(w.on_sample(Level::High), EdgeAction::Poll);
    assert_eq!(w.on_sample(Level::Low), EdgeAction::Signal);
    assert_eq!(w.awaited(), Level::High);
    assert_eq!(w.on_sample(Level::Low), EdgeAction::Poll);
}

#[test]
fn full_channel_drops_the_extra_token() {
    let mut c = EventChannel::new(CHANNEL_CAPACITY);
    for _ in 0..10 {
        assert!(c.try_send());
    }
    assert!(!c.try_send());
    assert_eq!(c.len(), 10);
    let mut received = 0;
    while c.try_recv() {
        received += 1;
    }
    assert_eq!(received, 10);
    assert_eq!(c.len(), 0);
}

#[test]
fn burst_keeps_only_what_fits() {
    let mut c = EventChannel::new(4);
    assert!(c.try_send());
    assert_eq!(c.send_burst(5), 3);
    assert_eq!(c.len(), 4);
    assert_eq!(c.send_burst(2), 0);
    assert!(c.try_recv());
    assert_eq!(c.send_burst(2), 1);
    assert_eq!(c.len(), 4);
}

#[test]
fn empty_channel_gives_nothing() {
    let mut c = EventChannel::new(1);
    assert!(!c.try_recv());
    assert!(c.try_send());
    assert!(!c.try_send());
    assert!(c.try_recv());
    assert!(!c.try_recv());
}

#[test]
fn round_polls_every_live_task_once_in_order() {
    let mut e = Executor::new(4);
    assert_eq!(e.round(), vec![0, 1, 2, 3]);
    assert!(!e.all_finished());
    e.finish(2);
    assert_eq!(e.round(), vec![0, 1, 3]);
    e.finish(0);
    e.finish(1);
    e.finish(3);
    assert_eq!(e.round(), Vec::<usize>::new());
    assert!(e.all_finished());
}

#[test]
fn no_task_polled_twice_before_the_others() {
    let e = Executor::new(4);
    let mut polls: Vec<usize> = Vec::new();
    for _ in 0..3 {
        polls.extend(e.round());
    }
    for (i, t) in polls.iter().enumerate() {
        if let Some(j) = polls[i + 1..].iter().position(|u| u == t) {
            let between = &polls[i + 1..i + 1 + j];
            for other in 0..4 {
                if other != *t {
                    assert!(between.contains(&other));
                }
            }
        }
    }
}

#[test]
fn three_remote_events_give_three_separate_pulses() {
    let mut remote = EventChannel::new(CHANNEL_CAPACITY);
    assert_eq!(remote.send_burst(3), 3);
    let mut a = PulseActuator::new();
    let mut drives: Vec<(bool, u64)> = Vec::new();
    let mut now: u64 = 0;
    while now < 5000 {
        if a.is_idle() {
            if remote.try_recv() {
                assert_eq!(a.on_token(now), PulseAction::SetHigh);
                drives.push((true, now));
            }
        } else {
            match a.on_tick(now) {
                PulseAction::SetLow => drives.push((false, now)),
                PulseAction::Wait => {}
                PulseAction::SetHigh => panic!("a tick never starts a pulse"),
            }
        }
        now += 1;
    }
    assert_eq!(drives.len(), 6);
    for k in 0..3 {
        let (up, t_up) = drives[2 * k];
        let (down, t_down) = drives[2 * k + 1];
        assert!(up && !down);
        assert!(t_down >= t_up + PULSE_MS);
        if k > 0 {
            assert!(t_up > drives[2 * k - 1].1);
        }
    }
    assert_eq!(drives[0], (true, 0));
    assert_eq!(drives[1], (false, 1000));
    assert_eq!(remote.len(), 0);
}

#[test]
fn pulse_holds_until_deadline() {
    let mut a = PulseActuator::new();
    assert_eq!(a.state, Pulse::Idle);
    assert_eq!(a.on_token(10), PulseAction::SetHigh);
    assert!(!a.is_idle());
    assert_eq!(a.on_tick(10), PulseAction::Wait);
    assert_eq!(a.on_tick(1009), PulseAction::Wait);
    assert_eq!(a.on_tick(1010), PulseAction::SetLow);
    assert!(a.is_idle());
}
