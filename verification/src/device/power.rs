//! Power management: the wait between two frames, suspended to RAM where that is safe.
//!
//! A wait is a state machine. [`Device::suspend_for`] starts one; its owner performs whatever
//! [`Suspension::action`] asks for and reports the outcome to [`Suspension::step`] until the
//! action is [`WaitAction::Finish`] or [`WaitAction::Fail`].
use vstd::prelude::*;

use super::sys::{command, Command, CommandView, FileWrite, FileWriteView};
use super::Device;
use crate::text::{
    decimal, ends_with, has_suffix, lines, lines_of, parse_decimal, slices, trim, trim_end,
    trimmed, trimmed_end, words, words_of, CharClass,
};

verus! {

/// Where the CPU scaling governor is read and set.
pub const GOVERNOR_PATH: &'static str = "/sys/devices/system/cpu/cpu0/cpufreq/scaling_governor";

/// Where writing `mem` suspends the device to RAM.
pub const POWER_STATE_PATH: &'static str = "/sys/power/state";

/// The interrupt that a press of the physical power button raises.
pub const POWER_BUTTON_IRQ_LABEL: &'static str = "max77696-onkey_press";

/// The number of distinct 64-bit counts.
pub const COUNT_MODULUS: u128 = 0x1_0000_0000_0000_0000;

/// Waits shorter than this never suspend to RAM. An alarm armed only a few seconds out can fire
/// while the kernel is still entering suspend; the one-shot alarm is then spent before the
/// transition completes and the device sleeps with no wake source left.
pub const MIN_SUSPEND_SECS: i64 = 45;

/// Awake window before each suspend, in which a press or a signal still calls it off.
pub const SUSPEND_ABORT_WINDOW_SECS: u64 = 10;

/// Greatest time until the wake instant, on entering suspend, that is slept off awake instead.
pub const MIN_ACTUAL_SUSPEND_SECS: i64 = 30;

/// Longest nap between two looks at the shutdown flag and the power button.
pub const POLL_INTERVAL_SECS: u64 = 1;

/// Quiet time after the last press before the presses are counted up.
pub const WAKE_SETTLE_SECS: u64 = 2;

/// Number of presses that means "exit to Home"; fewer mean "refresh now".
pub const EXIT_PRESS_COUNT: u64 = 3;

/// Why a wait ended.
#[derive(Debug, Clone, Copy, PartialEq, Eq, Structural)]
pub enum WakeReason {
    /// The requested time elapsed.
    Timer,
    /// The power button was pressed, fewer than [`EXIT_PRESS_COUNT`] times: render again now.
    PowerButtonRefresh,
    /// The power button was pressed at least [`EXIT_PRESS_COUNT`] times: exit to Home.
    PowerButtonExit,
    /// The shutdown flag was set.
    Signal,
}

/// Why a wait could not be carried out.
#[derive(Debug, Clone, Copy, PartialEq, Eq, Structural)]
pub enum SuspendError {
    /// No RTC wake alarm could be armed.
    NoAlarmArmed,
    /// The kernel refused to suspend.
    EnterRefused,
}

/// Where a wait stands.
#[derive(Debug, Clone, Copy, PartialEq, Eq, Structural)]
pub enum WaitPhase {
    /// Sleeping awake: `remaining` seconds are left, of which the next `nap` are due now.
    Awake { remaining: u64, nap: u64 },
    /// As `Awake`, but suspending to RAM follows.
    AbortWindow { remaining: u64, nap: u64 },
    /// The button was pressed; `last_delta` presses were seen and `quiet` seconds without a
    /// further one are left to pass.
    Settling { last_delta: u64, quiet: u64, nap: u64 },
    /// The pending alarm of an RTC node is to be cleared.
    ClearingAlarm { node: usize, armed: usize },
    /// An RTC node is to be armed.
    SettingAlarm { node: usize, armed: usize },
    /// The alarms are armed; the clock decides whether to suspend.
    Deciding { armed: usize },
    /// Suspending: at the last reading the clock showed `now`.
    Entering { armed: usize, now: i64 },
    /// The device has resumed; the button count tells a press from the alarm.
    Resumed,
    /// The wait is over.
    Over(WakeReason),
    /// The wait failed.
    Failed(SuspendError),
}

/// A wait in progress.
#[derive(Debug, Clone, Copy, PartialEq, Eq, Structural)]
pub struct Suspension {
    pub device: Device,
    /// The requested wait.
    pub secs: i64,
    /// Whether suspending to RAM is ruled out.
    pub sleep_only: bool,
    /// The wake instant, in epoch seconds, fixed when the wait began.
    pub wake_at: i64,
    /// The power-button count when the wait began.
    pub baseline: Option<u64>,
    pub phase: WaitPhase,
}

/// What the owner of a wait has to do next.
#[derive(Debug, Clone, Copy, PartialEq, Eq, Structural)]
pub enum WaitAction {
    /// Read the shutdown flag and the power-button count.
    Poll,
    /// Sleep this many seconds.
    Sleep(u64),
    /// Clear the pending alarm of an RTC node.
    ClearAlarm { node: usize },
    /// Arm an RTC node to fire at the given epoch second.
    SetAlarm { node: usize, at: i64 },
    /// Read the clock.
    ReadClock,
    /// Suspend to RAM.
    EnterSuspend,
    /// Read the power-button count.
    ReadButton,
    /// Nothing: the wait ended.
    Finish(WakeReason),
    /// Nothing: the wait failed.
    Fail(SuspendError),
}

/// What came of an action.
#[derive(Debug, Clone, Copy, PartialEq, Eq, Structural)]
pub enum WaitEvent {
    /// The shutdown flag and the power-button count.
    Polled { shutdown: bool, presses: Option<u64> },
    /// The nap is over.
    Slept,
    /// Whether a file write succeeded.
    Wrote(bool),
    /// The clock, in epoch seconds.
    Clock(i64),
    /// The power-button count.
    Presses(Option<u64>),
}

/// Whether the button was pressed since `baseline`: a strictly higher count, both readable.
pub open spec fn pressed_since(baseline: Option<u64>, now: Option<u64>) -> bool {
    match (baseline, now) {
        (Some(b), Some(n)) => n > b,
        _ => false,
    }
}

/// The phase that follows a press: without a baseline presses cannot be counted.
pub open spec fn settle(baseline: Option<u64>) -> WaitPhase {
    match baseline {
        Some(_) => WaitPhase::Settling { last_delta: 0, quiet: WAKE_SETTLE_SECS, nap: 0 },
        None => WaitPhase::Over(WakeReason::PowerButtonRefresh),
    }
}

/// Presses since `base`; an unreadable count leaves the last known number standing.
pub open spec fn presses_seen(base: u64, last_delta: u64, presses: Option<u64>) -> u64 {
    match presses {
        Some(n) => if n > base {
            (n - base) as u64
        } else {
            0
        },
        None => last_delta,
    }
}

pub open spec fn lesser(a: u64, b: u64) -> u64 {
    if a <= b {
        a
    } else {
        b
    }
}

/// One look at flag and button while sleeping awake. `expired` is what follows once the time
/// has run out; `napping` is the same sleep with its next nap due.
pub open spec fn awake_poll(
    baseline: Option<u64>,
    remaining: u64,
    shutdown: bool,
    presses: Option<u64>,
    expired: WaitPhase,
    napping: WaitPhase,
) -> WaitPhase {
    if shutdown {
        WaitPhase::Over(WakeReason::Signal)
    } else if pressed_since(baseline, presses) {
        settle(baseline)
    } else if remaining == 0 {
        expired
    } else {
        napping
    }
}

/// One look at flag and button while further presses may follow.
pub open spec fn settle_poll(
    base: u64,
    last_delta: u64,
    quiet: u64,
    shutdown: bool,
    presses: Option<u64>,
) -> WaitPhase {
    let delta = presses_seen(base, last_delta, presses);
    let seen = if delta > last_delta {
        delta
    } else {
        last_delta
    };
    let left = if delta > last_delta {
        WAKE_SETTLE_SECS
    } else {
        quiet
    };
    if shutdown {
        WaitPhase::Over(WakeReason::Signal)
    } else if delta >= EXIT_PRESS_COUNT {
        WaitPhase::Over(WakeReason::PowerButtonExit)
    } else if left == 0 {
        WaitPhase::Over(WakeReason::PowerButtonRefresh)
    } else {
        WaitPhase::Settling {
            last_delta: seen,
            quiet: left,
            nap: lesser(left, POLL_INTERVAL_SECS),
        }
    }
}

/// Seconds that can still be slept while presses are counted up: the rest of the quiet window, and
/// a whole one for each further press short of those that exit.
pub open spec fn settling_budget(phase: WaitPhase) -> int {
    match phase {
        WaitPhase::Settling { last_delta, quiet, .. } => quiet + WAKE_SETTLE_SECS * (
        EXIT_PRESS_COUNT - 1 - last_delta),
        _ => 0,
    }
}

/// The phase after the last write to an RTC node, `armed` nodes being armed so far.
pub open spec fn node_done(device: Device, node: usize, armed: usize) -> WaitPhase {
    if node + 1 < device.rtc_nodes().len() {
        WaitPhase::ClearingAlarm { node: (node + 1) as usize, armed }
    } else if armed == 0 {
        WaitPhase::Failed(SuspendError::NoAlarmArmed)
    } else {
        WaitPhase::Deciding { armed }
    }
}

impl Suspension {
    /// Whether the wait may suspend to RAM at all.
    pub open spec fn may_suspend(self) -> bool {
        !self.sleep_only && self.secs >= MIN_SUSPEND_SECS
    }

    /// What holds of every wait, from its start to its end.
    pub open spec fn wf(self) -> bool {
        let nodes = self.device.rtc_nodes().len();
        match self.phase {
            WaitPhase::Awake { remaining, nap } => nap <= remaining,
            WaitPhase::AbortWindow { remaining, nap } => {
                &&& nap <= remaining <= SUSPEND_ABORT_WINDOW_SECS
                &&& self.may_suspend()
            },
            WaitPhase::Settling { last_delta, quiet, nap } => {
                &&& self.baseline is Some
                &&& last_delta < EXIT_PRESS_COUNT
                &&& nap <= quiet <= WAKE_SETTLE_SECS
            },
            WaitPhase::ClearingAlarm { node, armed } => {
                &&& armed <= node < nodes
                &&& self.may_suspend()
            },
            WaitPhase::SettingAlarm { node, armed } => {
                &&& armed <= node < nodes
                &&& self.may_suspend()
            },
            WaitPhase::Deciding { armed } => {
                &&& 1 <= armed <= nodes
                &&& self.may_suspend()
            },
            WaitPhase::Entering { armed, now } => {
                &&& 1 <= armed <= nodes
                &&& self.may_suspend()
                &&& self.wake_at - now > MIN_ACTUAL_SUSPEND_SECS
            },
            WaitPhase::Resumed => self.may_suspend(),
            WaitPhase::Over(_) => true,
            WaitPhase::Failed(_) => true,
        }
    }

    /// A wait of `secs` seconds that begins at `now`.
    pub open spec fn begun(
        device: Device,
        secs: i64,
        sleep_only: bool,
        now: i64,
        baseline: Option<u64>,
    ) -> Suspension {
        Suspension {
            device,
            secs,
            sleep_only,
            wake_at: (now + secs) as i64,
            baseline,
            phase: if sleep_only || secs < MIN_SUSPEND_SECS {
                WaitPhase::Awake {
                    remaining: if secs > 0 {
                        secs as u64
                    } else {
                        0
                    },
                    nap: 0,
                }
            } else {
                WaitPhase::AbortWindow { remaining: SUSPEND_ABORT_WINDOW_SECS, nap: 0 }
            },
        }
    }

    /// What has to be done next.
    pub open spec fn pending(self) -> WaitAction {
        match self.phase {
            WaitPhase::Awake { nap, .. } => if nap > 0 {
                WaitAction::Sleep(nap)
            } else {
                WaitAction::Poll
            },
            WaitPhase::AbortWindow { nap, .. } => if nap > 0 {
                WaitAction::Sleep(nap)
            } else {
                WaitAction::Poll
            },
            WaitPhase::Settling { nap, .. } => if nap > 0 {
                WaitAction::Sleep(nap)
            } else {
                WaitAction::Poll
            },
            WaitPhase::ClearingAlarm { node, .. } => WaitAction::ClearAlarm { node },
            WaitPhase::SettingAlarm { node, .. } => WaitAction::SetAlarm { node, at: self.wake_at },
            WaitPhase::Deciding { .. } => WaitAction::ReadClock,
            WaitPhase::Entering { .. } => WaitAction::EnterSuspend,
            WaitPhase::Resumed => WaitAction::ReadButton,
            WaitPhase::Over(reason) => WaitAction::Finish(reason),
            WaitPhase::Failed(error) => WaitAction::Fail(error),
        }
    }

    /// Whether `event` is an outcome of the pending action.
    pub open spec fn expects(self, event: WaitEvent) -> bool {
        match self.pending() {
            WaitAction::Poll => event is Polled,
            WaitAction::Sleep(_) => event is Slept,
            WaitAction::ClearAlarm { .. } => event is Wrote,
            WaitAction::SetAlarm { .. } => event is Wrote,
            WaitAction::ReadClock => event is Clock,
            WaitAction::EnterSuspend => event is Wrote,
            WaitAction::ReadButton => event is Presses,
            WaitAction::Finish(_) => false,
            WaitAction::Fail(_) => false,
        }
    }

    /// The phase after an expected `event`.
    pub open spec fn next_phase(self, event: WaitEvent) -> WaitPhase {
        match (self.phase, event) {
            (
                WaitPhase::Awake { remaining, .. },
                WaitEvent::Polled { shutdown, presses },
            ) => awake_poll(
                self.baseline,
                remaining,
                shutdown,
                presses,
                WaitPhase::Over(WakeReason::Timer),
                WaitPhase::Awake { remaining, nap: lesser(remaining, POLL_INTERVAL_SECS) },
            ),
            (
                WaitPhase::AbortWindow { remaining, .. },
                WaitEvent::Polled { shutdown, presses },
            ) => awake_poll(
                self.baseline,
                remaining,
                shutdown,
                presses,
                WaitPhase::ClearingAlarm { node: 0, armed: 0 },
                WaitPhase::AbortWindow { remaining, nap: lesser(remaining, POLL_INTERVAL_SECS) },
            ),
            (
                WaitPhase::Settling { last_delta, quiet, .. },
                WaitEvent::Polled { shutdown, presses },
            ) => settle_poll(self.baseline->0, last_delta, quiet, shutdown, presses),
            (WaitPhase::Awake { remaining, nap }, WaitEvent::Slept) => WaitPhase::Awake {
                remaining: (remaining - nap) as u64,
                nap: 0,
            },
            (WaitPhase::AbortWindow { remaining, nap }, WaitEvent::Slept) => WaitPhase::AbortWindow {
                remaining: (remaining - nap) as u64,
                nap: 0,
            },
            (
                WaitPhase::Settling { last_delta, quiet, nap },
                WaitEvent::Slept,
            ) => WaitPhase::Settling { last_delta, quiet: (quiet - nap) as u64, nap: 0 },
            (WaitPhase::ClearingAlarm { node, armed }, WaitEvent::Wrote(ok)) => if ok {
                WaitPhase::SettingAlarm { node, armed }
            } else {
                node_done(self.device, node, armed)
            },
            (WaitPhase::SettingAlarm { node, armed }, WaitEvent::Wrote(ok)) => node_done(
                self.device,
                node,
                if ok {
                    (armed + 1) as usize
                } else {
                    armed
                },
            ),
            (WaitPhase::Deciding { armed }, WaitEvent::Clock(now)) => if self.wake_at - now
                > MIN_ACTUAL_SUSPEND_SECS {
                WaitPhase::Entering { armed, now }
            } else {
                WaitPhase::Awake {
                    remaining: if self.wake_at > now {
                        (self.wake_at - now) as u64
                    } else {
                        0
                    },
                    nap: 0,
                }
            },
            (WaitPhase::Entering { .. }, WaitEvent::Wrote(ok)) => if ok {
                WaitPhase::Resumed
            } else {
                WaitPhase::Failed(SuspendError::EnterRefused)
            },
            (WaitPhase::Resumed, WaitEvent::Presses(now)) => if pressed_since(self.baseline, now) {
                settle(self.baseline)
            } else {
                WaitPhase::Over(WakeReason::Timer)
            },
            (phase, _) => phase,
        }
    }

    /// The wait after `event`. One that is no outcome of the pending action changes nothing.
    pub open spec fn after(self, event: WaitEvent) -> Suspension {
        if self.expects(event) {
            Suspension { phase: self.next_phase(event), ..self }
        } else {
            self
        }
    }

    /// The wait after a series of events.
    pub open spec fn run(self, events: Seq<WaitEvent>) -> Suspension
        decreases events.len(),
    {
        if events.len() == 0 {
            self
        } else {
            self.run(events.drop_last()).after(events.last())
        }
    }

    /// Seconds that the owner slept during a series of events.
    pub open spec fn slept(self, events: Seq<WaitEvent>) -> nat
        decreases events.len(),
    {
        if events.len() == 0 {
            0
        } else {
            let before = self.run(events.drop_last());
            self.slept(events.drop_last()) + match (before.pending(), events.last()) {
                (WaitAction::Sleep(nap), WaitEvent::Slept) => nap as nat,
                _ => 0,
            }
        }
    }

    /// The pending action.
    pub fn action(&self) -> (a: WaitAction)
        ensures
            a == self.pending(),
    {
        match self.phase {
            WaitPhase::Awake { nap, .. } => if nap > 0 {
                WaitAction::Sleep(nap)
            } else {
                WaitAction::Poll
            },
            WaitPhase::AbortWindow { nap, .. } => if nap > 0 {
                WaitAction::Sleep(nap)
            } else {
                WaitAction::Poll
            },
            WaitPhase::Settling { nap, .. } => if nap > 0 {
                WaitAction::Sleep(nap)
            } else {
                WaitAction::Poll
            },
            WaitPhase::ClearingAlarm { node, .. } => WaitAction::ClearAlarm { node },
            WaitPhase::SettingAlarm { node, .. } => WaitAction::SetAlarm { node, at: self.wake_at },
            WaitPhase::Deciding { .. } => WaitAction::ReadClock,
            WaitPhase::Entering { .. } => WaitAction::EnterSuspend,
            WaitPhase::Resumed => WaitAction::ReadButton,
            WaitPhase::Over(reason) => WaitAction::Finish(reason),
            WaitPhase::Failed(error) => WaitAction::Fail(error),
        }
    }

    /// Advances the wait by one event.
    pub fn step(self, event: WaitEvent) -> (next: Suspension)
        requires
            self.wf(),
        ensures
            next == self.after(event),
            next.wf(),
    {
        let phase: WaitPhase = match (self.phase, event) {
            (WaitPhase::Awake { remaining, nap }, WaitEvent::Polled { shutdown, presses }) => {
                if nap > 0 {
                    self.phase
                } else {
                    self.interruptible_sleep(
                        remaining,
                        shutdown,
                        presses,
                        WaitPhase::Over(WakeReason::Timer),
                        WaitPhase::Awake { remaining, nap: remaining.min(POLL_INTERVAL_SECS) },
                    )
                }
            },
            (WaitPhase::AbortWindow { remaining, nap }, WaitEvent::Polled { shutdown, presses }) => {
                if nap > 0 {
                    self.phase
                } else {
                    self.interruptible_sleep(
                        remaining,
                        shutdown,
                        presses,
                        WaitPhase::ClearingAlarm { node: 0, armed: 0 },
                        WaitPhase::AbortWindow { remaining, nap: remaining.min(POLL_INTERVAL_SECS) },
                    )
                }
            },
            (
                WaitPhase::Settling { last_delta, quiet, nap },
                WaitEvent::Polled { shutdown, presses },
            ) => {
                if nap > 0 {
                    self.phase
                } else {
                    self.classify_button_wake(last_delta, quiet, shutdown, presses)
                }
            },
            (WaitPhase::Awake { remaining, nap }, WaitEvent::Slept) => {
                WaitPhase::Awake { remaining: remaining - nap, nap: 0 }
            },
            (WaitPhase::AbortWindow { remaining, nap }, WaitEvent::Slept) => {
                WaitPhase::AbortWindow { remaining: remaining - nap, nap: 0 }
            },
            (WaitPhase::Settling { last_delta, quiet, nap }, WaitEvent::Slept) => {
                WaitPhase::Settling { last_delta, quiet: quiet - nap, nap: 0 }
            },
            (WaitPhase::ClearingAlarm { .. }, WaitEvent::Wrote(ok)) => self.suspend_to_ram(ok),
            (WaitPhase::SettingAlarm { .. }, WaitEvent::Wrote(ok)) => self.suspend_to_ram(ok),
            (WaitPhase::Entering { .. }, WaitEvent::Wrote(ok)) => self.suspend_to_ram(ok),
            (WaitPhase::Deciding { armed }, WaitEvent::Clock(now)) => self.decide(armed, now),
            (WaitPhase::Resumed, WaitEvent::Presses(now)) => {
                if button_pressed(self.baseline, now) {
                    begin_settling(self.baseline)
                } else {
                    WaitPhase::Over(WakeReason::Timer)
                }
            },
            _ => self.phase,
        };
        Suspension { phase, ..self }
    }

    /// One look at flag and button while sleeping awake.
    fn interruptible_sleep(
        &self,
        remaining: u64,
        shutdown: bool,
        presses: Option<u64>,
        expired: WaitPhase,
        napping: WaitPhase,
    ) -> (phase: WaitPhase)
        ensures
            phase == awake_poll(self.baseline, remaining, shutdown, presses, expired, napping),
    {
        if shutdown {
            return WaitPhase::Over(WakeReason::Signal);
        }
        if button_pressed(self.baseline, presses) {
            return begin_settling(self.baseline);
        }
        if remaining == 0 {
            return expired;
        }
        napping
    }

    /// One look at flag and button while further presses may follow. Each new press restarts
    /// the quiet window, so that a deliberate series of presses has time to land; since only so
    /// many presses fall short of an exit, no look ever adds to the time that may still be slept.
    pub fn classify_button_wake(
        &self,
        last_delta: u64,
        quiet: u64,
        shutdown: bool,
        presses: Option<u64>,
    ) -> (phase: WaitPhase)
        ensures
            phase == match self.baseline {
                Some(base) => settle_poll(base, last_delta, quiet, shutdown, presses),
                None => WaitPhase::Over(WakeReason::PowerButtonRefresh),
            },
            last_delta < EXIT_PRESS_COUNT && quiet <= WAKE_SETTLE_SECS ==> 0 <= settling_budget(
                phase,
            ) <= settling_budget(WaitPhase::Settling { last_delta, quiet, nap: 0 })
                <= EXIT_PRESS_COUNT * WAKE_SETTLE_SECS,
    {
        let base: u64 = match self.baseline {
            Some(base) => base,
            None => return WaitPhase::Over(WakeReason::PowerButtonRefresh),
        };
        if shutdown {
            return WaitPhase::Over(WakeReason::Signal);
        }
        let delta: u64 = match presses {
            Some(n) => n.saturating_sub(base),
            None => last_delta,
        };
        if delta >= EXIT_PRESS_COUNT {
            return WaitPhase::Over(WakeReason::PowerButtonExit);
        }
        let (seen, left): (u64, u64) = if delta > last_delta {
            (delta, WAKE_SETTLE_SECS)
        } else {
            (last_delta, quiet)
        };
        if left == 0 {
            return WaitPhase::Over(WakeReason::PowerButtonRefresh);
        }
        WaitPhase::Settling { last_delta: seen, quiet: left, nap: left.min(POLL_INTERVAL_SECS) }
    }

    /// What follows a write to an RTC node or to the power state.
    fn suspend_to_ram(&self, ok: bool) -> (phase: WaitPhase)
        requires
            self.wf(),
            self.expects(WaitEvent::Wrote(ok)),
        ensures
            phase == self.next_phase(WaitEvent::Wrote(ok)),
    {
        match self.phase {
            WaitPhase::ClearingAlarm { node, armed } => {
                if ok {
                    WaitPhase::SettingAlarm { node, armed }
                } else {
                    self.after_node(node, armed)
                }
            },
            WaitPhase::SettingAlarm { node, armed } => {
                let armed: usize = if ok {
                    armed + 1
                } else {
                    armed
                };
                self.after_node(node, armed)
            },
            _ => {
                if ok {
                    WaitPhase::Resumed
                } else {
                    WaitPhase::Failed(SuspendError::EnterRefused)
                }
            },
        }
    }

    fn after_node(&self, node: usize, armed: usize) -> (phase: WaitPhase)
        requires
            node < self.device.rtc_nodes().len(),
        ensures
            phase == node_done(self.device, node, armed),
    {
        let nodes: usize = self.device.rtc_wakealarm_paths().len();
        assert(nodes == self.device.rtc_nodes().len());
        if node + 1 < nodes {
            WaitPhase::ClearingAlarm { node: node + 1, armed }
        } else if armed == 0 {
            WaitPhase::Failed(SuspendError::NoAlarmArmed)
        } else {
            WaitPhase::Deciding { armed }
        }
    }

    /// The last look at the clock before the point of no return: too little time left is slept
    /// off awake, and the armed alarms then fire harmlessly.
    fn decide(&self, armed: usize, now: i64) -> (phase: WaitPhase)
        ensures
            phase == (if self.wake_at - now > MIN_ACTUAL_SUSPEND_SECS {
                WaitPhase::Entering { armed, now }
            } else {
                WaitPhase::Awake {
                    remaining: if self.wake_at > now {
                        (self.wake_at - now) as u64
                    } else {
                        0
                    },
                    nap: 0,
                }
            }),
    {
        let remaining: i128 = self.wake_at as i128 - now as i128;
        if remaining > MIN_ACTUAL_SUSPEND_SECS as i128 {
            return WaitPhase::Entering { armed, now };
        }
        let left: u64 = if remaining > 0 {
            remaining as u64
        } else {
            0
        };
        WaitPhase::Awake { remaining: left, nap: 0 }
    }
}

/// Whether the power button was pressed since `baseline`. An unreadable count on either side
/// means that no press was detected.
pub fn button_pressed(baseline: Option<u64>, now: Option<u64>) -> (r: bool)
    ensures
        r == pressed_since(baseline, now),
{
    match (baseline, now) {
        (Some(b), Some(n)) => n > b,
        _ => false,
    }
}

fn begin_settling(baseline: Option<u64>) -> (phase: WaitPhase)
    ensures
        phase == settle(baseline),
{
    match baseline {
        Some(_) => WaitPhase::Settling { last_delta: 0, quiet: WAKE_SETTLE_SECS, nap: 0 },
        None => WaitPhase::Over(WakeReason::PowerButtonRefresh),
    }
}

/// The first line whose text ends with `label`, white space at its end aside.
pub open spec fn labelled_line(all: Seq<Seq<char>>, label: Seq<char>) -> Option<Seq<char>>
    decreases all.len(),
{
    if all.len() == 0 {
        None
    } else if ends_with(trim_end(all[0], CharClass::Whitespace), label) {
        Some(all[0])
    } else {
        labelled_line(all.skip(1), label)
    }
}

/// The sum of the numbers at the front of `columns`, up to the first column that is none.
pub open spec fn leading_sum(columns: Seq<Seq<char>>) -> nat
    decreases columns.len(),
{
    if columns.len() == 0 {
        0
    } else {
        match decimal(columns[0], u64::MAX as nat) {
            Some(n) => n + leading_sum(columns.skip(1)),
            None => 0,
        }
    }
}

/// The per-CPU columns of an interrupt line: its words but the first.
pub open spec fn cpu_columns(line: Seq<char>) -> Seq<Seq<char>> {
    if words(line).len() == 0 {
        Seq::empty()
    } else {
        words(line).skip(1)
    }
}

/// The cumulative count of the interrupt that `label` names in the contents of
/// `/proc/interrupts`: the sum of its per-CPU counts, modulo the range of a 64-bit count.
pub open spec fn irq_count(interrupts: Seq<char>, label: Seq<char>) -> Option<nat> {
    match labelled_line(lines(interrupts), label) {
        Some(line) => Some(leading_sum(cpu_columns(line)) % (COUNT_MODULUS as nat)),
        None => None,
    }
}

/// Sums the per-CPU counts of the interrupt whose line ends in `label`.
pub fn parse_irq_count(interrupts: &str, label: &str) -> (count: Option<u64>)
    ensures
        match count {
            Some(n) => irq_count(interrupts@, label@) == Some(n as nat),
            None => irq_count(interrupts@, label@) is None,
        },
{
    let all = lines_of(interrupts);
    let mut i: usize = 0;
    assert(slices(all@).skip(0) =~= slices(all@));
    while i < all.len()
        invariant
            i <= all.len(),
            slices(all@) == lines(interrupts@),
            labelled_line(slices(all@), label@) == labelled_line(
                slices(all@).skip(i as int),
                label@,
            ),
        decreases all.len() - i,
    {
        let ghost rest = slices(all@).skip(i as int);
        assert(rest[0] == all@[i as int]@);
        if has_suffix(trimmed_end(all[i], CharClass::Whitespace), label) {
            return Some(sum_columns(all[i]));
        }
        assert(rest.skip(1) =~= slices(all@).skip(i + 1));
        i += 1;
    }
    None
}

fn sum_columns(line: &str) -> (total: u64)
    ensures
        total == leading_sum(cpu_columns(line@)) % (COUNT_MODULUS as nat),
{
    let columns = words_of(line);
    if columns.len() == 0 {
        return 0;
    }
    let ghost all = slices(columns@);
    let mut total: u64 = 0;
    let mut i: usize = 1;
    while i < columns.len()
        invariant
            1 <= i <= columns.len(),
            all == slices(columns@),
            all == words(line@),
            (total + leading_sum(all.skip(i as int))) % (COUNT_MODULUS as int) == leading_sum(
                all.skip(1),
            ) % (COUNT_MODULUS as nat),
        decreases columns.len() - i,
    {
        let ghost rest = all.skip(i as int);
        assert(rest[0] == columns@[i as int]@);
        assert(rest.skip(1) =~= all.skip(i + 1));
        match parse_decimal(columns[i], u64::MAX) {
            Some(n) => {
                total = total.wrapping_add(n);
            },
            None => {
                return total;
            },
        }
        i += 1;
    }
    assert(all.skip(i as int) =~= Seq::<Seq<char>>::empty());
    total
}

/// Puts a value into a property of a system service.
pub open spec fn set_property(
    service: Seq<char>,
    property: Seq<char>,
    value: Seq<char>,
) -> CommandView {
    CommandView { program: "lipc-set-prop"@, args: seq![service, property, value] }
}

fn set_prop(service: &str, property: &str, value: &str) -> (c: Command)
    ensures
        c@ == set_property(service@, property@, value@),
{
    let c = command("lipc-set-prop", vec![service, property, value]);
    assert(c@.args =~= set_property(service@, property@, value@).args);
    c
}

/// Turns screensaver suppression on or off.
pub open spec fn screensaver_command(on: bool) -> CommandView {
    set_property(
        "com.lab126.powerd"@,
        "preventScreenSaver"@,
        if on {
            "1"@
        } else {
            "0"@
        },
    )
}

/// Returns to the native Home UI.
pub open spec fn home_command() -> CommandView {
    set_property("com.lab126.appmgrd"@, "start"@, "app://com.lab126.booklet.home"@)
}

/// Sets the CPU scaling governor.
pub open spec fn governor_write(governor: Seq<char>) -> FileWriteView {
    FileWriteView { path: GOVERNOR_PATH@, text: governor }
}

impl Device {
    /// Stops the UI framework.
    pub open spec fn stop_command(self) -> CommandView {
        CommandView { program: "/sbin/stop"@, args: seq![self.service()] }
    }

    /// Starts the UI framework.
    pub open spec fn start_command(self) -> CommandView {
        CommandView { program: "/sbin/start"@, args: seq![self.service()] }
    }

    /// The upstart job that owns the UI.
    pub open spec fn service(self) -> Seq<char> {
        match self {
            Device::Voyage => "framework"@,
        }
    }

    /// The upstart job that owns the UI and the framebuffer; it is stopped while the dashboard
    /// runs, so that it neither fights for the screen nor drains the battery.
    pub fn framework_service(self) -> (name: &'static str)
        ensures
            name@ == self.service(),
    {
        match self {
            Device::Voyage => "framework",
        }
    }

    /// The command that stops the UI framework.
    pub fn stop_framework(self) -> (c: Command)
        ensures
            c@ == self.stop_command(),
    {
        let c = command("/sbin/stop", vec![self.framework_service()]);
        assert(c@.args =~= seq![self.service()]);
        c
    }

    /// The command that restarts the UI framework.
    pub fn start_framework(self) -> (c: Command)
        ensures
            c@ == self.start_command(),
    {
        let c = command("/sbin/start", vec![self.framework_service()]);
        assert(c@.args =~= seq![self.service()]);
        c
    }

    /// The CPU scaling governor, from the contents of [`GOVERNOR_PATH`] where it is readable.
    pub fn read_cpu_governor(self, contents: Option<&str>) -> (governor: Option<String>)
        ensures
            match governor {
                Some(name) => contents matches Some(raw) && name@ == trim(
                    raw@,
                    CharClass::Whitespace,
                ),
                None => contents is None,
            },
    {
        match contents {
            Some(raw) => Some(trimmed(raw, CharClass::Whitespace).to_string()),
            None => None,
        }
    }

    /// The write that sets the CPU scaling governor.
    pub fn set_cpu_governor(self, governor: &str) -> (w: FileWrite)
        ensures
            w@ == governor_write(governor@),
    {
        FileWrite { path: GOVERNOR_PATH.to_string(), text: governor.to_string() }
    }

    /// The command that turns screensaver suppression on or off.
    pub fn prevent_screensaver(self, on: bool) -> (c: Command)
        ensures
            c@ == screensaver_command(on),
    {
        let value: &str = if on {
            "1"
        } else {
            "0"
        };
        set_prop("com.lab126.powerd", "preventScreenSaver", value)
    }

    /// The command that returns to the native Home UI.
    pub fn launch_home(self) -> (c: Command)
        ensures
            c@ == home_command(),
    {
        set_prop("com.lab126.appmgrd", "start", "app://com.lab126.booklet.home")
    }

    /// The cumulative number of power-button presses, from the contents of `/proc/interrupts`
    /// where they are readable.
    pub fn power_button_irq_count(self, interrupts: Option<&str>) -> (count: Option<u64>)
        ensures
            match (count, interrupts) {
                (Some(n), Some(text)) => irq_count(text@, POWER_BUTTON_IRQ_LABEL@) == Some(
                    n as nat,
                ),
                (None, Some(text)) => irq_count(text@, POWER_BUTTON_IRQ_LABEL@) is None,
                (count, None) => count is None,
            },
    {
        match interrupts {
            Some(text) => parse_irq_count(text, POWER_BUTTON_IRQ_LABEL),
            None => None,
        }
    }

    /// Starts a wait of `secs` seconds at `now` (epoch seconds), `baseline` being the current
    /// power-button count.
    ///
    /// With `sleep_only`, or where the wait is shorter than [`MIN_SUSPEND_SECS`], the device
    /// stays awake; a wait that is not positive ends at the first poll. Otherwise the wait stays
    /// awake for [`SUSPEND_ABORT_WINDOW_SECS`], arms the RTC for the wake instant, and suspends
    /// unless [`MIN_ACTUAL_SUSPEND_SECS`] or less is left by then.
    pub fn suspend_for(
        self,
        secs: i64,
        sleep_only: bool,
        now: i64,
        baseline: Option<u64>,
    ) -> (wait: Suspension)
        requires
            i64::MIN <= now + secs <= i64::MAX,
        ensures
            wait == Suspension::begun(self, secs, sleep_only, now, baseline),
            wait.wf(),
    {
        let phase: WaitPhase = if sleep_only || secs < MIN_SUSPEND_SECS {
            let remaining: u64 = if secs > 0 {
                secs as u64
            } else {
                0
            };
            WaitPhase::Awake { remaining, nap: 0 }
        } else {
            WaitPhase::AbortWindow { remaining: SUSPEND_ABORT_WINDOW_SECS, nap: 0 }
        };
        Suspension { device: self, secs, sleep_only, wake_at: now + secs, baseline, phase }
    }
}

} // verus!
