use kindle_dash::device::power::{
    button_pressed, parse_irq_count, SuspendError, Suspension, WaitAction, WaitEvent, WakeReason,
};
use kindle_dash::device::Device;

// A real /proc/interrupts line from a Kindle Voyage (single CPU column).
const IRQ_LINE: &str = "168:          7  max77696-topsys  max77696-onkey_press";

/// A host that answers a wait, one clock second per second slept.
struct Host {
    now: i64,
    /// Seconds after the start at which the button count goes up by one.
    presses_at: Vec<i64>,
    signal_at: Option<i64>,
    writes: Vec<bool>,
    start: i64,
    slept: u64,
    suspended_for: Option<i64>,
    armed: Vec<(usize, i64)>,
}

impl Host {
    fn new() -> Host {
        Host {
            now: 1_000_000,
            presses_at: Vec::new(),
            signal_at: None,
            writes: Vec::new(),
            start: 1_000_000,
            slept: 0,
            suspended_for: None,
            armed: Vec::new(),
        }
    }

    fn count(&self) -> Option<u64> {
        let elapsed = self.now - self.start;
        Some(40 + self.presses_at.iter().filter(|at| **at <= elapsed).count() as u64)
    }

    fn write(&mut self) -> bool {
        if self.writes.is_empty() {
            true
        } else {
            self.writes.remove(0)
        }
    }

    fn run(&mut self, mut wait: Suspension) -> Result<WakeReason, SuspendError> {
        loop {
            let event = match wait.action() {
                WaitAction::Poll => WaitEvent::Polled {
                    shutdown: self.signal_at.is_some_and(|at| self.now - self.start >= at),
                    presses: self.count(),
                },
                WaitAction::Sleep(secs) => {
                    self.slept += secs;
                    self.now += secs as i64;
                    WaitEvent::Slept
                }
                WaitAction::ClearAlarm { .. } => WaitEvent::Wrote(self.write()),
                WaitAction::SetAlarm { node, at } => {
                    let ok = self.write();
                    if ok {
                        self.armed.push((node, at));
                    }
                    WaitEvent::Wrote(ok)
                }
                WaitAction::ReadClock => WaitEvent::Clock(self.now),
                WaitAction::EnterSuspend => {
                    let ok = self.write();
                    if ok {
                        let wake = self.armed.iter().map(|a| a.1).min().unwrap();
                        let press = self
                            .presses_at
                            .iter()
                            .map(|at| self.start + at)
                            .filter(|at| *at > self.now)
                            .min();
                        let until = press.map_or(wake, |p| p.min(wake));
                        self.suspended_for = Some(until - self.now);
                        self.now = until;
                    }
                    WaitEvent::Wrote(ok)
                }
                WaitAction::ReadButton => WaitEvent::Presses(self.count()),
                WaitAction::Finish(reason) => return Ok(reason),
                WaitAction::Fail(error) => return Err(error),
            };
            wait = wait.step(event);
        }
    }

    fn wait(&mut self, secs: i64, sleep_only: bool) -> Result<WakeReason, SuspendError> {
        let wait = Device::Voyage.suspend_for(secs, sleep_only, self.now, self.count());
        self.run(wait)
    }
}

#[test]
fn parses_power_button_irq_count() {
    assert_eq!(parse_irq_count(IRQ_LINE, "max77696-onkey_press"), Some(7));
}

#[test]
fn sums_multi_cpu_counts() {
    let line = "168:   3   4   max77696-topsys  max77696-onkey_press";
    assert_eq!(parse_irq_count(line, "max77696-onkey_press"), Some(7));
}

#[test]
fn missing_label_is_none() {
    assert_eq!(parse_irq_count(IRQ_LINE, "max77696-rtc"), None);
}

#[test]
fn first_line_with_the_label_is_summed() {
    let text = "           CPU0  CPU1\n 1:  5  6  gic  other\n 2:  1  2  gic  key  \n 3:  9  9  gic  key\n";
    assert_eq!(parse_irq_count(text, "key"), Some(3));
    assert_eq!(parse_irq_count(text, ""), Some(0));
    assert_eq!(parse_irq_count("key", "key"), Some(0));
    assert_eq!(parse_irq_count("1: 18446744073709551615 3 key", "key"), Some(2));
    assert_eq!(Device::Voyage.power_button_irq_count(Some(IRQ_LINE)), Some(7));
    assert_eq!(Device::Voyage.power_button_irq_count(Some("nothing")), None);
    assert_eq!(Device::Voyage.power_button_irq_count(None), None);
}

#[test]
fn button_pressed_only_on_strict_increase_with_known_counts() {
    assert!(button_pressed(Some(3), Some(4)));
    assert!(!button_pressed(Some(3), Some(3)));
    assert!(!button_pressed(Some(4), Some(3)));
    // An unreadable count on either side never counts as a press.
    assert!(!button_pressed(None, Some(4)));
    assert!(!button_pressed(Some(3), None));
}

#[test]
fn non_positive_wait_returns_timer_immediately_without_suspending() {
    // A refresh slot that passed while the previous frame was serviced gives a negative wait. It
    // has to end at once, so that the loop plans anew.
    let mut host = Host::new();
    let start = std::time::Instant::now();
    let reason = host.wait(-8, false).unwrap();
    assert_eq!(reason, WakeReason::Timer);
    assert!(start.elapsed() < std::time::Duration::from_secs(2));
    assert_eq!(host.slept, 0);
    assert_eq!(host.suspended_for, None);
    assert!(host.armed.is_empty());
}

#[test]
fn preset_shutdown_flag_interrupts_the_wait() {
    // The flag is checked before the first nap, so a wait of 20 s ends at once.
    let mut host = Host::new();
    host.signal_at = Some(0);
    let start = std::time::Instant::now();
    let reason = host.wait(20, true).unwrap();
    assert_eq!(reason, WakeReason::Signal);
    assert!(start.elapsed() < std::time::Duration::from_secs(2));
    assert_eq!(host.slept, 0);
}

#[test]
fn short_wait_is_slept_awake() {
    let mut host = Host::new();
    assert_eq!(host.wait(44, false), Ok(WakeReason::Timer));
    assert_eq!(host.slept, 44);
    assert_eq!(host.suspended_for, None);
    let mut host = Host::new();
    assert_eq!(host.wait(500, true), Ok(WakeReason::Timer));
    assert_eq!(host.slept, 500);
    assert_eq!(host.suspended_for, None);
}

#[test]
fn long_wait_suspends_until_the_fixed_instant() {
    let mut host = Host::new();
    assert_eq!(host.wait(45, false), Ok(WakeReason::Timer));
    assert_eq!(host.slept, 10);
    assert_eq!(host.armed, [(0, 1_000_045), (1, 1_000_045)]);
    assert_eq!(host.suspended_for, Some(35));
    assert_eq!(host.now, 1_000_045);
}

#[test]
fn one_armed_node_is_enough() {
    // The first node cannot be cleared, so it is skipped.
    let mut host = Host::new();
    host.writes = vec![false, true, true, true];
    assert_eq!(host.wait(3600, false), Ok(WakeReason::Timer));
    assert_eq!(host.armed, [(1, 1_003_600)]);
    // The first node is cleared but cannot be armed.
    let mut host = Host::new();
    host.writes = vec![true, false, true, true, true];
    assert_eq!(host.wait(3600, false), Ok(WakeReason::Timer));
    assert_eq!(host.armed, [(1, 1_003_600)]);
}

#[test]
fn failures_are_reported() {
    let mut host = Host::new();
    host.writes = vec![false, true, false];
    assert_eq!(host.wait(3600, false), Err(SuspendError::NoAlarmArmed));
    assert_eq!(host.suspended_for, None);
    let mut host = Host::new();
    host.writes = vec![true, true, true, true, false];
    assert_eq!(host.wait(3600, false), Err(SuspendError::EnterRefused));
}

#[test]
fn too_little_time_left_is_slept_awake() {
    // The abort window overslept: 30 s are left when the clock decides.
    let mut wait = Device::Voyage.suspend_for(60, false, 1000, Some(0));
    let quiet = WaitEvent::Polled { shutdown: false, presses: Some(0) };
    while wait.action() != (WaitAction::ClearAlarm { node: 0 }) {
        wait = match wait.action() {
            WaitAction::Poll => wait.step(quiet),
            _ => wait.step(WaitEvent::Slept),
        };
    }
    for _ in 0..4 {
        wait = wait.step(WaitEvent::Wrote(true));
    }
    assert_eq!(wait.action(), WaitAction::ReadClock);
    assert_eq!(wait.step(WaitEvent::Clock(1029)).action(), WaitAction::EnterSuspend);
    let mut awake = wait.step(WaitEvent::Clock(1030));
    let mut slept = 0;
    while awake.action() != WaitAction::Finish(WakeReason::Timer) {
        awake = match awake.action() {
            WaitAction::Poll => awake.step(quiet),
            WaitAction::Sleep(nap) => {
                slept += nap;
                awake.step(WaitEvent::Slept)
            }
            other => panic!("{other:?}"),
        };
    }
    assert_eq!(slept, 30);
    let late = wait.step(WaitEvent::Clock(1061)).step(quiet);
    assert_eq!(late.action(), WaitAction::Finish(WakeReason::Timer));
}

#[test]
fn presses_are_counted_up() {
    // One press in the abort window: refresh, without suspending.
    let mut host = Host::new();
    host.presses_at = vec![4];
    assert_eq!(host.wait(3600, false), Ok(WakeReason::PowerButtonRefresh));
    assert_eq!(host.now, 1_000_006);
    assert_eq!(host.suspended_for, None);
    // Two presses are still a refresh; the second restarts the quiet window.
    let mut host = Host::new();
    host.presses_at = vec![4, 5];
    assert_eq!(host.wait(3600, false), Ok(WakeReason::PowerButtonRefresh));
    assert_eq!(host.now, 1_000_007);
    // Three presses, each within the window of the one before, exit.
    let mut host = Host::new();
    host.presses_at = vec![4, 6, 8];
    assert_eq!(host.wait(3600, false), Ok(WakeReason::PowerButtonExit));
    // A press while suspended wakes the device and is counted too.
    let mut host = Host::new();
    host.presses_at = vec![100];
    assert_eq!(host.wait(3600, false), Ok(WakeReason::PowerButtonRefresh));
    assert_eq!(host.suspended_for, Some(90));
    let mut host = Host::new();
    host.presses_at = vec![100, 101, 102];
    assert_eq!(host.wait(3600, false), Ok(WakeReason::PowerButtonExit));
}

#[test]
fn counting_presses_sleeps_at_most_six_seconds() {
    // Counts as late as they can come, with unreadable and falling ones among them.
    let counts = [None, Some(41), Some(39), Some(42), None, Some(40), None, None];
    for first in 0..counts.len() {
        let mut wait = Device::Voyage.suspend_for(20, false, 0, Some(40));
        wait = wait.step(WaitEvent::Polled { shutdown: false, presses: Some(41) });
        let mut next = first;
        let mut slept = 0;
        while !matches!(wait.action(), WaitAction::Finish(_)) {
            wait = match wait.action() {
                WaitAction::Poll => {
                    let presses = counts[next % counts.len()];
                    next += 1;
                    wait.step(WaitEvent::Polled { shutdown: false, presses })
                }
                WaitAction::Sleep(nap) => {
                    slept += nap;
                    wait.step(WaitEvent::Slept)
                }
                other => panic!("{other:?}"),
            };
        }
        assert!(slept <= 6);
    }
    // The bound is reached: each of two presses is seen just before the window closes.
    let mut wait = Device::Voyage.suspend_for(20, false, 0, Some(40));
    wait = wait.step(WaitEvent::Polled { shutdown: false, presses: Some(41) });
    let mut slept = 0;
    while !matches!(wait.action(), WaitAction::Finish(_)) {
        wait = match wait.action() {
            WaitAction::Poll => {
                let presses = match slept {
                    0..=1 => None,
                    2..=3 => Some(41),
                    _ => Some(42),
                };
                wait.step(WaitEvent::Polled { shutdown: false, presses })
            }
            WaitAction::Sleep(nap) => {
                slept += nap;
                wait.step(WaitEvent::Slept)
            }
            other => panic!("{other:?}"),
        };
    }
    assert_eq!(slept, 6);
    assert_eq!(wait.action(), WaitAction::Finish(WakeReason::PowerButtonRefresh));
}

#[test]
fn signal_wins_while_presses_are_counted() {
    let mut host = Host::new();
    host.presses_at = vec![4];
    host.signal_at = Some(5);
    assert_eq!(host.wait(3600, false), Ok(WakeReason::Signal));
}

#[test]
fn unreadable_counts_are_no_press() {
    let wait = Device::Voyage.suspend_for(0, false, 0, None);
    let wait = wait.step(WaitEvent::Polled { shutdown: false, presses: Some(9) });
    assert_eq!(wait.action(), WaitAction::Finish(WakeReason::Timer));
    // While presses are counted up, an unreadable count keeps the last known number.
    let mut wait = Device::Voyage.suspend_for(9, false, 0, Some(1));
    wait = wait.step(WaitEvent::Polled { shutdown: false, presses: Some(2) });
    for _ in 0..2 {
        wait = wait.step(WaitEvent::Polled { shutdown: false, presses: None });
        assert_eq!(wait.action(), WaitAction::Sleep(1));
        wait = wait.step(WaitEvent::Slept);
    }
    wait = wait.step(WaitEvent::Polled { shutdown: false, presses: None });
    assert_eq!(wait.action(), WaitAction::Finish(WakeReason::PowerButtonRefresh));
}

#[test]
fn unexpected_events_change_nothing() {
    let wait = Device::Voyage.suspend_for(9, false, 0, Some(1));
    for event in [
        WaitEvent::Slept,
        WaitEvent::Wrote(true),
        WaitEvent::Clock(5),
        WaitEvent::Presses(Some(9)),
    ] {
        assert_eq!(wait.step(event), wait);
    }
}
