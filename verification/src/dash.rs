//! The main loop: what each cycle shows, and how long the device then sleeps.
//!
//! The loop is a state machine. Its owner performs whatever [`Dash::action`] asks for and reports
//! the outcome to [`Dash::step`] until the action is [`Action::Exit`] or [`Action::Fail`].
use vstd::prelude::*;

use crate::clock::{whole_secs, Timestamp};
use crate::config::{Config, Settings};
use crate::device::display::{Cadence, RefreshCycle, RefreshKind};
use crate::device::power::WakeReason;
use crate::schedule::{next_refresh, next_refresh_from, ScheduleError};
use crate::zone::Zone;

verus! {

/// Longest nap between two looks at the shutdown flag during the delay before a suspend.
pub const DELAY_POLL_SECS: u64 = 5;

/// Why the main loop stopped.
#[derive(Debug, Clone, Copy, PartialEq, Eq, Structural)]
pub enum ExitReason {
    PowerButton,
    Signal,
}

/// Where the loop stands.
#[derive(Debug)]
pub enum Phase {
    /// A cycle begins: the shutdown flag is due.
    CheckingSignal,
    /// The battery charge is due.
    ReadingBattery,
    /// The clock is due, to plan the next refresh.
    Planning { low: bool },
    /// The low-battery screen is to be shown.
    ShowingLowBattery { next_at: Timestamp },
    /// The sleep screen is to be shown.
    ShowingSleep { next_at: Timestamp },
    /// The image is to be fetched.
    Fetching { next_at: Timestamp },
    /// The fetched image is to be shown.
    ShowingDashboard { next_at: Timestamp, kind: RefreshKind },
    /// The delay before the suspend.
    Delaying { low: bool, next_at: Timestamp },
    /// The clock is due, to work out the sleep.
    Timing { next_at: Timestamp },
    /// The device waits.
    Waiting { secs: i64 },
    /// The loop stopped.
    Stopped(ExitReason),
    /// The next refresh could not be computed.
    Unscheduled(ScheduleError),
}

/// The main loop.
#[derive(Debug)]
pub struct Dash {
    pub cycle: RefreshCycle,
    pub phase: Phase,
}

/// What has to be done next.
#[derive(Debug, Clone, Copy, PartialEq, Eq, Structural)]
pub enum Action {
    /// Read the shutdown flag.
    CheckSignal,
    /// Read the battery charge.
    ReadBattery,
    /// Read the clock.
    ReadClock,
    /// Show the low-battery screen.
    ShowLowBattery,
    /// Show the sleep screen.
    ShowSleep,
    /// Fetch the image.
    Fetch,
    /// Show the fetched image.
    ShowDashboard(RefreshKind),
    /// Sleep so many seconds, looking at the shutdown flag now and then.
    Delay(u64),
    /// Wait so many seconds, suspended where possible.
    Wait(i64),
    /// Nothing: the loop stopped.
    Exit(ExitReason),
    /// Nothing: the schedule failed.
    Fail,
}

/// What came of an action.
#[derive(Debug, Clone, Copy)]
pub enum Event {
    /// The shutdown flag.
    Signal(bool),
    /// The battery charge, where it could be read.
    Battery(Option<u8>),
    /// The clock.
    Clock(Timestamp),
    /// The screen was shown.
    Shown,
    /// Whether the image was fetched.
    Fetched(bool),
    /// The delay is over; the shutdown flag.
    Delayed(bool),
    /// The wait ended.
    Woke(WakeReason),
}

/// Where the loop stands, with instants in nanoseconds since the epoch.
pub enum Stage {
    CheckingSignal,
    ReadingBattery,
    Planning { low: bool },
    ShowingLowBattery { next_at: int },
    ShowingSleep { next_at: int },
    Fetching { next_at: int },
    ShowingDashboard { next_at: int, kind: RefreshKind },
    Delaying { low: bool, next_at: int },
    Timing { next_at: int },
    Waiting { secs: int },
    Stopped(ExitReason),
    /// No refresh could be computed from this schedule.
    Unscheduled { schedule: Seq<char> },
}

/// What came of an action, with instants in nanoseconds since the epoch.
pub enum Outcome {
    Signal(bool),
    Battery(Option<u8>),
    Clock(int),
    Shown,
    Fetched(bool),
    Delayed(bool),
    Woke(WakeReason),
}

/// The state of the main loop.
pub struct State {
    pub cadence: Cadence,
    pub stage: Stage,
}

impl View for Phase {
    type V = Stage;

    open spec fn view(&self) -> Stage {
        match self {
            Phase::CheckingSignal => Stage::CheckingSignal,
            Phase::ReadingBattery => Stage::ReadingBattery,
            Phase::Planning { low } => Stage::Planning { low: *low },
            Phase::ShowingLowBattery { next_at } => Stage::ShowingLowBattery { next_at: next_at@ },
            Phase::ShowingSleep { next_at } => Stage::ShowingSleep { next_at: next_at@ },
            Phase::Fetching { next_at } => Stage::Fetching { next_at: next_at@ },
            Phase::ShowingDashboard { next_at, kind } => Stage::ShowingDashboard {
                next_at: next_at@,
                kind: *kind,
            },
            Phase::Delaying { low, next_at } => Stage::Delaying { low: *low, next_at: next_at@ },
            Phase::Timing { next_at } => Stage::Timing { next_at: next_at@ },
            Phase::Waiting { secs } => Stage::Waiting { secs: *secs as int },
            Phase::Stopped(reason) => Stage::Stopped(*reason),
            Phase::Unscheduled(e) => Stage::Unscheduled { schedule: e.schedule@ },
        }
    }
}

impl View for Event {
    type V = Outcome;

    open spec fn view(&self) -> Outcome {
        match self {
            Event::Signal(flag) => Outcome::Signal(*flag),
            Event::Battery(level) => Outcome::Battery(*level),
            Event::Clock(now) => Outcome::Clock(now@),
            Event::Shown => Outcome::Shown,
            Event::Fetched(ok) => Outcome::Fetched(*ok),
            Event::Delayed(flag) => Outcome::Delayed(*flag),
            Event::Woke(reason) => Outcome::Woke(*reason),
        }
    }
}

impl View for Dash {
    type V = State;

    open spec fn view(&self) -> State {
        State { cadence: self.cycle@, stage: self.phase@ }
    }
}

/// Whether a battery charge is low: it is known, and at or below the threshold.
pub open spec fn is_low(level: Option<u8>, threshold: int) -> bool {
    level matches Some(n) && n <= threshold
}

/// The stage once the next refresh is planned: the low-battery screen goes before the sleep
/// screen, and that before a fresh dashboard.
pub open spec fn screen(low: bool, next_at: int, now: int, sleep_screen_interval: int) -> Stage {
    if low {
        Stage::ShowingLowBattery { next_at }
    } else if whole_secs(next_at - now) >= sleep_screen_interval {
        Stage::ShowingSleep { next_at }
    } else {
        Stage::Fetching { next_at }
    }
}

/// The stage once a wait ended. A lone press refreshes at once, as if the time had come.
pub open spec fn woken(reason: WakeReason) -> Stage {
    match reason {
        WakeReason::Timer => Stage::CheckingSignal,
        WakeReason::PowerButtonRefresh => Stage::CheckingSignal,
        WakeReason::PowerButtonExit => Stage::Stopped(ExitReason::PowerButton),
        WakeReason::Signal => Stage::Stopped(ExitReason::Signal),
    }
}

impl State {
    /// The loop at its start.
    pub open spec fn start(full_every: nat) -> State {
        State { cadence: Cadence::fresh(full_every), stage: Stage::CheckingSignal }
    }

    /// The state after an outcome; one that the stage does not await changes nothing.
    pub open spec fn after(self, c: Settings, zone: Seq<char>, outcome: Outcome) -> State {
        match (self.stage, outcome) {
            (Stage::CheckingSignal, Outcome::Signal(flag)) => State {
                stage: if flag {
                    Stage::Stopped(ExitReason::Signal)
                } else {
                    Stage::ReadingBattery
                },
                ..self
            },
            (Stage::ReadingBattery, Outcome::Battery(level)) => State {
                stage: Stage::Planning { low: is_low(level, c.low_battery_pct) },
                ..self
            },
            (Stage::Planning { low }, Outcome::Clock(now)) => State {
                stage: match next_refresh(c.refresh_schedule, zone, now) {
                    Some(next_at) => screen(low, next_at, now, c.sleep_screen_interval),
                    None => Stage::Unscheduled { schedule: c.refresh_schedule },
                },
                ..self
            },
            (Stage::ShowingLowBattery { next_at }, Outcome::Shown) => State {
                cadence: self.cadence.forced(),
                stage: Stage::Delaying { low: true, next_at },
            },
            (Stage::ShowingSleep { next_at }, Outcome::Shown) => State {
                cadence: self.cadence.forced(),
                stage: Stage::Delaying { low: false, next_at },
            },
            (Stage::Fetching { next_at }, Outcome::Fetched(ok)) => if ok {
                State {
                    cadence: self.cadence.advanced(),
                    stage: Stage::ShowingDashboard { next_at, kind: self.cadence.due() },
                }
            } else {
                State { stage: Stage::Delaying { low: false, next_at }, ..self }
            },
            (Stage::ShowingDashboard { next_at, .. }, Outcome::Shown) => State {
                stage: Stage::Delaying { low: false, next_at },
                ..self
            },
            (Stage::Delaying { low, next_at }, Outcome::Delayed(flag)) => State {
                stage: if flag {
                    Stage::Stopped(ExitReason::Signal)
                } else if low {
                    Stage::Waiting { secs: c.low_battery_sleep_secs }
                } else {
                    Stage::Timing { next_at }
                },
                ..self
            },
            (Stage::Timing { next_at }, Outcome::Clock(now)) => State {
                stage: Stage::Waiting { secs: whole_secs(next_at - now) },
                ..self
            },
            (Stage::Waiting { .. }, Outcome::Woke(reason)) => State {
                stage: woken(reason),
                ..self
            },
            _ => self,
        }
    }

    /// The state after a series of outcomes.
    pub open spec fn run(self, c: Settings, zone: Seq<char>, outcomes: Seq<Outcome>) -> State
        decreases outcomes.len(),
    {
        if outcomes.len() == 0 {
            self
        } else {
            self.run(c, zone, outcomes.drop_last()).after(c, zone, outcomes.last())
        }
    }

    /// The refresh that the current cycle was planned for, from the choice of the screen to the
    /// start of the wait.
    pub open spec fn planned(self) -> Option<int> {
        match self.stage {
            Stage::ShowingLowBattery { next_at } => Some(next_at),
            Stage::ShowingSleep { next_at } => Some(next_at),
            Stage::Fetching { next_at } => Some(next_at),
            Stage::ShowingDashboard { next_at, .. } => Some(next_at),
            Stage::Delaying { next_at, .. } => Some(next_at),
            Stage::Timing { next_at } => Some(next_at),
            _ => None,
        }
    }
}

impl Dash {
    /// What has to be done next.
    pub open spec fn pending(&self, c: Settings) -> Action {
        match self.phase {
            Phase::CheckingSignal => Action::CheckSignal,
            Phase::ReadingBattery => Action::ReadBattery,
            Phase::Planning { .. } => Action::ReadClock,
            Phase::ShowingLowBattery { .. } => Action::ShowLowBattery,
            Phase::ShowingSleep { .. } => Action::ShowSleep,
            Phase::Fetching { .. } => Action::Fetch,
            Phase::ShowingDashboard { kind, .. } => Action::ShowDashboard(kind),
            Phase::Delaying { .. } => Action::Delay(c.pre_suspend_delay_secs as u64),
            Phase::Timing { .. } => Action::ReadClock,
            Phase::Waiting { secs } => Action::Wait(secs),
            Phase::Stopped(reason) => Action::Exit(reason),
            Phase::Unscheduled(_) => Action::Fail,
        }
    }

    /// The loop at its start.
    pub fn new(config: &Config) -> (dash: Dash)
        ensures
            dash@ == State::start(config@.full_display_refresh_rate as nat),
    {
        Dash {
            cycle: RefreshCycle::new(config.full_display_refresh_rate),
            phase: Phase::CheckingSignal,
        }
    }

    /// The pending action.
    pub fn action(&self, config: &Config) -> (a: Action)
        ensures
            a == self.pending(config@),
    {
        match &self.phase {
            Phase::CheckingSignal => Action::CheckSignal,
            Phase::ReadingBattery => Action::ReadBattery,
            Phase::Planning { .. } => Action::ReadClock,
            Phase::ShowingLowBattery { .. } => Action::ShowLowBattery,
            Phase::ShowingSleep { .. } => Action::ShowSleep,
            Phase::Fetching { .. } => Action::Fetch,
            Phase::ShowingDashboard { kind, .. } => Action::ShowDashboard(*kind),
            Phase::Delaying { .. } => Action::Delay(config.pre_suspend_delay_secs),
            Phase::Timing { .. } => Action::ReadClock,
            Phase::Waiting { secs } => Action::Wait(*secs),
            Phase::Stopped(reason) => Action::Exit(*reason),
            Phase::Unscheduled(_) => Action::Fail,
        }
    }

    /// Advances the loop by one event, the schedule being read in `zone`.
    pub fn step(&mut self, config: &Config, zone: &Zone, event: Event)
        ensures
            final(self)@ == old(self)@.after(config@, zone@, event@),
            old(self)@.stage is Unscheduled ==> *final(self) == *old(self),
    {
        match (&self.phase, event) {
            (Phase::CheckingSignal, Event::Signal(flag)) => {
                self.phase = if flag {
                    Phase::Stopped(ExitReason::Signal)
                } else {
                    Phase::ReadingBattery
                };
            },
            (Phase::ReadingBattery, Event::Battery(level)) => {
                self.phase = Phase::Planning { low: battery_is_low(level, config) };
            },
            (Phase::Planning { low }, Event::Clock(now)) => {
                self.phase = plan(*low, config, zone, &now);
            },
            (Phase::ShowingLowBattery { next_at }, Event::Shown) => {
                let next_at = *next_at;
                self.cycle.force_full_next();
                self.phase = Phase::Delaying { low: true, next_at };
            },
            (Phase::ShowingSleep { next_at }, Event::Shown) => {
                let next_at = *next_at;
                self.cycle.force_full_next();
                self.phase = Phase::Delaying { low: false, next_at };
            },
            (Phase::Fetching { next_at }, Event::Fetched(ok)) => {
                let next_at = *next_at;
                self.phase = if ok {
                    let kind = self.cycle.next_kind();
                    Phase::ShowingDashboard { next_at, kind }
                } else {
                    Phase::Delaying { low: false, next_at }
                };
            },
            (Phase::ShowingDashboard { next_at, .. }, Event::Shown) => {
                self.phase = Phase::Delaying { low: false, next_at: *next_at };
            },
            (Phase::Delaying { low, next_at }, Event::Delayed(flag)) => {
                self.phase = if flag {
                    Phase::Stopped(ExitReason::Signal)
                } else if *low {
                    Phase::Waiting { secs: config.low_battery_sleep_secs }
                } else {
                    Phase::Timing { next_at: *next_at }
                };
            },
            (Phase::Timing { next_at }, Event::Clock(now)) => {
                self.phase = Phase::Waiting { secs: next_at.secs_since(&now) };
            },
            (Phase::Waiting { .. }, Event::Woke(reason)) => {
                self.phase = match reason {
                    WakeReason::Timer => Phase::CheckingSignal,
                    WakeReason::PowerButtonRefresh => Phase::CheckingSignal,
                    WakeReason::PowerButtonExit => Phase::Stopped(ExitReason::PowerButton),
                    WakeReason::Signal => Phase::Stopped(ExitReason::Signal),
                };
            },
            _ => {},
        }
    }
}

fn battery_is_low(level: Option<u8>, config: &Config) -> (low: bool)
    ensures
        low == is_low(level, config@.low_battery_pct),
{
    match level {
        Some(n) => n <= config.low_battery_pct,
        None => false,
    }
}

/// Plans the next refresh and chooses the screen.
fn plan(low: bool, config: &Config, zone: &Zone, now: &Timestamp) -> (phase: Phase)
    ensures
        phase@ == match next_refresh(config@.refresh_schedule, zone@, now@) {
            Some(next_at) => screen(low, next_at, now@, config@.sleep_screen_interval),
            None => Stage::Unscheduled { schedule: config@.refresh_schedule },
        },
{
    match next_refresh_from(config.refresh_schedule.as_str(), zone, now) {
        Ok(next_at) => {
            if low {
                Phase::ShowingLowBattery { next_at }
            } else if next_at.secs_since(now) >= config.sleep_screen_interval {
                Phase::ShowingSleep { next_at }
            } else {
                Phase::Fetching { next_at }
            }
        },
        Err(e) => Phase::Unscheduled(e),
    }
}

/// The next nap of a sleep that a signal cuts short, `remaining` seconds being left: nothing
/// where it is over.
pub fn interruptible_sleep(remaining: u64, shutdown: bool) -> (nap: Option<u64>)
    ensures
        nap == next_nap(remaining, shutdown),
{
    if remaining == 0 || shutdown {
        None
    } else {
        Some(remaining.min(DELAY_POLL_SECS))
    }
}

pub open spec fn next_nap(remaining: u64, shutdown: bool) -> Option<u64> {
    if remaining == 0 || shutdown {
        None
    } else if remaining <= DELAY_POLL_SECS {
        Some(remaining)
    } else {
        Some(DELAY_POLL_SECS)
    }
}

/// Seconds slept in all by naps that no signal cuts short.
pub open spec fn naps(remaining: u64) -> nat
    decreases remaining,
{
    match next_nap(remaining, false) {
        Some(nap) => nap as nat + naps((remaining - nap) as u64),
        None => 0,
    }
}

/// A delay that no signal cuts short lasts exactly as long as it was asked to.
pub proof fn law_delay_is_exact(secs: u64)
    ensures
        naps(secs) == secs,
    decreases secs,
{
    if let Some(nap) = next_nap(secs, false) {
        law_delay_is_exact((secs - nap) as u64);
    }
}

/// The screen is chosen in this order: low battery, then a next refresh at least
/// `sleep_screen_interval` away, then a fresh dashboard.
pub proof fn law_screen_choice(
    s: State,
    c: Settings,
    zone: Seq<char>,
    low: bool,
    now: int,
    next_at: int,
)
    requires
        s.stage == (Stage::Planning { low }),
        next_refresh(c.refresh_schedule, zone, now) == Some(next_at),
    ensures
        ({
            let chosen = s.after(c, zone, Outcome::Clock(now)).stage;
            let far = whole_secs(next_at - now) >= c.sleep_screen_interval;
            &&& chosen is ShowingLowBattery <==> low
            &&& chosen is ShowingSleep <==> !low && far
            &&& chosen is Fetching <==> !low && !far
        }),
{
}

/// A stage of a cycle in which the battery is low.
pub open spec fn in_low_cycle(stage: Stage) -> bool {
    match stage {
        Stage::Planning { low } => low,
        Stage::ShowingLowBattery { .. } => true,
        Stage::Delaying { low, .. } => low,
        _ => false,
    }
}

/// While the battery is low nothing is fetched: from reading the charge to the wait the cycle
/// only shows the low-battery screen, and the wait is the one set for a low battery.
pub proof fn law_low_battery_pauses_refreshing(
    s: State,
    c: Settings,
    zone: Seq<char>,
    outcome: Outcome,
)
    requires
        in_low_cycle(s.stage),
    ensures
        match s.after(c, zone, outcome).stage {
            Stage::Waiting { secs } => secs == c.low_battery_sleep_secs,
            Stage::Stopped(reason) => reason == ExitReason::Signal,
            Stage::Unscheduled { schedule } => schedule == c.refresh_schedule,
            stage => in_low_cycle(stage),
        },
{
}

/// A known charge at or below the threshold, and no other, starts such a cycle.
pub proof fn law_low_battery_threshold(
    s: State,
    c: Settings,
    zone: Seq<char>,
    level: Option<u8>,
)
    requires
        s.stage is ReadingBattery,
    ensures
        in_low_cycle(s.after(c, zone, Outcome::Battery(level)).stage) <==> (level matches Some(n)
            && n <= c.low_battery_pct),
{
}

/// Whether a sleep screen or a low-battery screen is being shown.
pub open spec fn is_static(stage: Stage) -> bool {
    stage is ShowingSleep || stage is ShowingLowBattery
}

/// Whatever happens after a sleep screen or a low-battery screen, the first dashboard that follows
/// it is a full refresh.
pub proof fn law_first_dashboard_after_a_static_screen_is_full(
    s: State,
    c: Settings,
    zone: Seq<char>,
    outcomes: Seq<Outcome>,
)
    requires
        is_static(s.stage),
        forall|k: int|
            0 <= k < outcomes.len() ==> !(#[trigger] s.run(
                c,
                zone,
                outcomes.take(k),
            ).stage is ShowingDashboard),
    ensures
        s.run(c, zone, outcomes).stage matches Stage::ShowingDashboard { kind, .. } ==> kind
            == RefreshKind::Full,
{
    if outcomes.len() > 0 {
        let last = outcomes.len() - 1;
        assert(outcomes.take(last) =~= outcomes.drop_last());
        lemma_static_screen_keeps_full_refresh_due(s, c, zone, outcomes.drop_last(), outcomes);
    }
}

/// From a static screen on, a full refresh stays due until a dashboard is shown.
proof fn lemma_static_screen_keeps_full_refresh_due(
    s: State,
    c: Settings,
    zone: Seq<char>,
    outcomes: Seq<Outcome>,
    all: Seq<Outcome>,
)
    requires
        is_static(s.stage),
        outcomes.len() < all.len(),
        outcomes == all.take(outcomes.len() as int),
        forall|k: int|
            0 <= k < all.len() ==> !(#[trigger] s.run(
                c,
                zone,
                all.take(k),
            ).stage is ShowingDashboard),
    ensures
        is_static(s.run(c, zone, outcomes).stage) || s.run(c, zone, outcomes).cadence.due()
            == RefreshKind::Full,
    decreases outcomes.len(),
{
    if outcomes.len() > 0 {
        let before = outcomes.drop_last();
        assert(before =~= all.take(before.len() as int));
        lemma_static_screen_keeps_full_refresh_due(s, c, zone, before, all);
        assert(!(s.run(c, zone, all.take(outcomes.len() as int)).stage is ShowingDashboard));
    }
}

/// The dashboard is shown only once its image was fetched, in the way that is due.
pub proof fn law_dashboard_needs_an_image(s: State, c: Settings, zone: Seq<char>, outcome: Outcome)
    requires
        !(s.stage is ShowingDashboard),
        s.after(c, zone, outcome).stage is ShowingDashboard,
    ensures
        s.stage is Fetching,
        outcome == Outcome::Fetched(true),
        s.after(c, zone, outcome).stage matches Stage::ShowingDashboard { kind, .. } && kind
            == s.cadence.due(),
{
}

/// A fetch that failed leaves the screen, the cadence and the plan as they were.
pub proof fn law_failed_fetch_changes_nothing(s: State, c: Settings, zone: Seq<char>)
    requires
        s.stage is Fetching,
    ensures
        s.after(c, zone, Outcome::Fetched(false)).stage is Delaying,
        s.after(c, zone, Outcome::Fetched(false)).cadence == s.cadence,
        s.after(c, zone, Outcome::Fetched(false)).planned() == s.planned(),
{
}

/// The refresh that a cycle is planned for stays the same from the choice of the screen to the
/// start of the wait, and the wait lasts until that same refresh: the choice of the screen and
/// the length of the sleep never straddle a slot.
pub proof fn law_one_instant_per_cycle(
    s: State,
    c: Settings,
    zone: Seq<char>,
    outcome: Outcome,
    next_at: int,
)
    requires
        s.planned() == Some(next_at),
    ensures
        match s.after(c, zone, outcome).stage {
            Stage::Waiting { secs } => if in_low_cycle(s.stage) {
                secs == c.low_battery_sleep_secs
            } else {
                outcome matches Outcome::Clock(now) && secs == whole_secs(next_at - now)
            },
            Stage::Stopped(reason) => reason == ExitReason::Signal,
            _ => s.after(c, zone, outcome).planned() == Some(next_at),
        },
{
}

/// The loop exits for the power button exactly where a wait ended with enough presses, and for a
/// signal exactly where one was seen.
pub proof fn law_exit_reasons(s: State, c: Settings, zone: Seq<char>, outcome: Outcome)
    requires
        !(s.stage is Stopped),
    ensures
        s.after(c, zone, outcome).stage == Stage::Stopped(ExitReason::PowerButton) <==> s.stage is Waiting
            && outcome == Outcome::Woke(WakeReason::PowerButtonExit),
        s.after(c, zone, outcome).stage == Stage::Stopped(ExitReason::Signal) <==> {
            ||| s.stage is CheckingSignal && outcome == Outcome::Signal(true)
            ||| s.stage is Delaying && outcome == Outcome::Delayed(true)
            ||| s.stage is Waiting && outcome == Outcome::Woke(WakeReason::Signal)
        },
{
}

/// The loop goes on after the alarm and after a lone press.
pub proof fn law_loop_goes_on(s: State, c: Settings, zone: Seq<char>, reason: WakeReason)
    requires
        s.stage is Waiting,
        reason == WakeReason::Timer || reason == WakeReason::PowerButtonRefresh,
    ensures
        s.after(c, zone, Outcome::Woke(reason)).stage is CheckingSignal,
        s.after(c, zone, Outcome::Woke(reason)).cadence == s.cadence,
{
}

/// Once stopped, the loop stays stopped whatever follows.
pub proof fn law_stopped_is_final(
    s: State,
    c: Settings,
    zone: Seq<char>,
    reason: ExitReason,
    outcomes: Seq<Outcome>,
)
    requires
        s.stage == Stage::Stopped(reason),
    ensures
        s.run(c, zone, outcomes) == s,
    decreases outcomes.len(),
{
    if outcomes.len() > 0 {
        law_stopped_is_final(s, c, zone, reason, outcomes.drop_last());
    }
}

/// Over any run of the loop the number of partial refreshes since the last full one never
/// exceeds the configured rate, which itself never changes.
pub proof fn law_cadence_is_bounded(
    full_every: nat,
    c: Settings,
    zone: Seq<char>,
    outcomes: Seq<Outcome>,
)
    ensures
        State::start(full_every).run(c, zone, outcomes).cadence.full_every == full_every,
        State::start(full_every).run(c, zone, outcomes).cadence.count <= full_every,
    decreases outcomes.len(),
{
    if outcomes.len() > 0 {
        law_cadence_is_bounded(full_every, c, zone, outcomes.drop_last());
    }
}

} // verus!
