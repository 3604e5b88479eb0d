//! Whole cycles of the main loop, from the first look at the shutdown flag to the wait.
use vstd::prelude::*;

use crate::clock::{whole_secs, Timestamp};
use crate::config::Settings;
use crate::dash::{
    in_low_cycle, next_nap, Action, Dash, Event, ExitReason, Outcome, Phase, Stage, State,
    DELAY_POLL_SECS,
};
use crate::device::display::{Cadence, RefreshKind};
use crate::device::power::WakeReason;
use crate::schedule::{next_refresh, ScheduleError};

verus! {

/// The state of a cycle that saw no signal, read `level` as the charge and `now` as the time.
pub open spec fn planned_at(
    s: State,
    c: Settings,
    zone: Seq<char>,
    level: Option<u8>,
    now: int,
) -> State {
    s.after(c, zone, Outcome::Signal(false)).after(c, zone, Outcome::Battery(level)).after(
        c,
        zone,
        Outcome::Clock(now),
    )
}

/// The state once the delay passed without a signal and the clock then showed `later`.
pub open spec fn timed_at(s: State, c: Settings, zone: Seq<char>, later: int) -> State {
    s.after(c, zone, Outcome::Delayed(false)).after(c, zone, Outcome::Clock(later))
}

/// A cycle with a charge that is not low, the next refresh at least `sleep_screen_interval` away:
/// it shows the sleep screen and waits until that refresh, and a full refresh is then due.
pub proof fn law_cycle_with_the_sleep_screen(
    s: State,
    c: Settings,
    zone: Seq<char>,
    level: Option<u8>,
    now: int,
    next_at: int,
    later: int,
)
    requires
        s.stage is CheckingSignal,
        !(level matches Some(n) && n <= c.low_battery_pct),
        next_refresh(c.refresh_schedule, zone, now) == Some(next_at),
        next_at > now,
        next_at - now >= c.sleep_screen_interval * 1_000_000_000,
    ensures
        ({
            let chosen = planned_at(s, c, zone, level, now);
            let shown = chosen.after(c, zone, Outcome::Shown);
            let end = timed_at(shown, c, zone, later);
            &&& chosen.stage == (Stage::ShowingSleep { next_at })
            &&& chosen.cadence == s.cadence
            &&& shown.stage is Delaying
            &&& end.stage == (Stage::Waiting { secs: whole_secs(next_at - later) })
            &&& end.cadence == (Cadence { count: s.cadence.full_every, ..s.cadence })
        }),
{
}

/// A cycle with a charge that is not low, the next refresh nearer than `sleep_screen_interval`,
/// and an image that was fetched: it shows the image, full where as many partial refreshes were
/// made as the rate asks for, and waits until the planned refresh.
pub proof fn law_cycle_with_the_dashboard(
    s: State,
    c: Settings,
    zone: Seq<char>,
    level: Option<u8>,
    now: int,
    next_at: int,
    later: int,
)
    requires
        s.stage is CheckingSignal,
        !(level matches Some(n) && n <= c.low_battery_pct),
        next_refresh(c.refresh_schedule, zone, now) == Some(next_at),
        next_at > now,
        next_at - now < c.sleep_screen_interval * 1_000_000_000,
    ensures
        ({
            let chosen = planned_at(s, c, zone, level, now);
            let fetched = chosen.after(c, zone, Outcome::Fetched(true));
            let shown = fetched.after(c, zone, Outcome::Shown);
            let end = timed_at(shown, c, zone, later);
            let full = s.cadence.count >= s.cadence.full_every;
            &&& chosen == (State { stage: Stage::Fetching { next_at }, ..s })
            &&& fetched.stage == (Stage::ShowingDashboard {
                next_at,
                kind: if full {
                    RefreshKind::Full
                } else {
                    RefreshKind::Partial
                },
            })
            &&& shown.stage is Delaying
            &&& end.stage == (Stage::Waiting { secs: whole_secs(next_at - later) })
            &&& end.cadence.full_every == s.cadence.full_every
            &&& end.cadence.count == if full {
                0
            } else {
                s.cadence.count + 1
            }
        }),
{
}

/// The same cycle without an image shows nothing, keeps the cadence, and waits until the same
/// refresh.
pub proof fn law_cycle_without_an_image(
    s: State,
    c: Settings,
    zone: Seq<char>,
    level: Option<u8>,
    now: int,
    next_at: int,
    later: int,
)
    requires
        s.stage is CheckingSignal,
        !(level matches Some(n) && n <= c.low_battery_pct),
        next_refresh(c.refresh_schedule, zone, now) == Some(next_at),
        next_at > now,
        next_at - now < c.sleep_screen_interval * 1_000_000_000,
    ensures
        ({
            let failed = planned_at(s, c, zone, level, now).after(c, zone, Outcome::Fetched(false));
            let end = timed_at(failed, c, zone, later);
            &&& failed.stage is Delaying
            &&& end.stage == (Stage::Waiting { secs: whole_secs(next_at - later) })
            &&& end.cadence == s.cadence
        }),
{
}

/// A cycle with a low charge shows the low-battery screen, whatever the schedule, and waits as
/// long as is set for a low battery, without a further look at the clock.
pub proof fn law_cycle_with_a_low_battery(
    s: State,
    c: Settings,
    zone: Seq<char>,
    level: u8,
    now: int,
    next_at: int,
)
    requires
        s.stage is CheckingSignal,
        level <= c.low_battery_pct,
        next_refresh(c.refresh_schedule, zone, now) == Some(next_at),
    ensures
        ({
            let chosen = planned_at(s, c, zone, Some(level), now);
            let shown = chosen.after(c, zone, Outcome::Shown);
            let end = shown.after(c, zone, Outcome::Delayed(false));
            &&& chosen.stage == (Stage::ShowingLowBattery { next_at })
            &&& chosen.cadence == s.cadence
            &&& shown.stage is Delaying
            &&& end.stage == (Stage::Waiting { secs: c.low_battery_sleep_secs })
            &&& end.cadence == (Cadence { count: s.cadence.full_every, ..s.cadence })
        }),
{
}

/// A cycle for whose schedule there is no next refresh ends the loop, which then names that
/// schedule, whatever follows.
pub proof fn law_cycle_without_a_refresh(
    s: State,
    c: Settings,
    zone: Seq<char>,
    level: Option<u8>,
    now: int,
    outcome: Outcome,
)
    requires
        s.stage is CheckingSignal,
        next_refresh(c.refresh_schedule, zone, now) is None,
    ensures
        ({
            let end = planned_at(s, c, zone, level, now);
            &&& end == (State {
                stage: Stage::Unscheduled { schedule: c.refresh_schedule },
                ..s
            })
            &&& end.after(c, zone, outcome) == end
        }),
{
}

/// The steps of a cycle that lead from the first look at the flag to the plan.
pub proof fn law_a_cycle_reads_the_charge_and_then_the_clock(
    s: State,
    c: Settings,
    zone: Seq<char>,
    level: Option<u8>,
)
    requires
        s.stage is CheckingSignal,
    ensures
        ({
            let looked = s.after(c, zone, Outcome::Signal(false));
            let read = looked.after(c, zone, Outcome::Battery(level));
            &&& looked == (State { stage: Stage::ReadingBattery, ..s })
            &&& read.stage is Planning
            &&& read.cadence == s.cadence
        }),
{
}

/// No stage is part of a cycle with a low battery unless a low charge was read in that cycle.
pub proof fn law_only_a_low_charge_starts_a_low_cycle(
    s: State,
    c: Settings,
    zone: Seq<char>,
    outcome: Outcome,
)
    requires
        in_low_cycle(s.after(c, zone, outcome).stage),
    ensures
        in_low_cycle(s.stage) || (s.stage is ReadingBattery && (outcome matches Outcome::Battery(
            Some(n),
        ) && n <= c.low_battery_pct)),
{
}

/// What counts as a stage of a cycle with a low battery.
pub proof fn law_stages_of_a_low_cycle(low: bool, next_at: int, kind: RefreshKind, secs: int)
    ensures
        in_low_cycle(Stage::Planning { low }) <==> low,
        in_low_cycle(Stage::Delaying { low, next_at }) <==> low,
        in_low_cycle(Stage::ShowingLowBattery { next_at }),
        !in_low_cycle(Stage::ShowingSleep { next_at }),
        !in_low_cycle(Stage::Fetching { next_at }),
        !in_low_cycle(Stage::ShowingDashboard { next_at, kind }),
        !in_low_cycle(Stage::Timing { next_at }),
        !in_low_cycle(Stage::Waiting { secs }),
{
}

/// An outcome of another kind than the one awaited changes nothing.
pub proof fn law_unawaited_outcomes_change_nothing(
    s: State,
    c: Settings,
    zone: Seq<char>,
    outcome: Outcome,
)
    requires
        match s.stage {
            Stage::CheckingSignal => !(outcome is Signal),
            Stage::ReadingBattery => !(outcome is Battery),
            Stage::Planning { .. } => !(outcome is Clock),
            Stage::ShowingLowBattery { .. } => !(outcome is Shown),
            Stage::ShowingSleep { .. } => !(outcome is Shown),
            Stage::Fetching { .. } => !(outcome is Fetched),
            Stage::ShowingDashboard { .. } => !(outcome is Shown),
            Stage::Delaying { .. } => !(outcome is Delayed),
            Stage::Timing { .. } => !(outcome is Clock),
            Stage::Waiting { .. } => !(outcome is Woke),
            Stage::Stopped(_) => true,
            Stage::Unscheduled { .. } => true,
        },
    ensures
        s.after(c, zone, outcome) == s,
{
}

/// The loop starts with a look at the shutdown flag and a cadence at its beginning.
pub proof fn law_loop_starts_afresh(full_every: nat)
    ensures
        State::start(full_every).stage is CheckingSignal,
        State::start(full_every).cadence.full_every == full_every,
        State::start(full_every).cadence.count == 0,
{
}

/// After any wait that does not end the loop, the next cycle begins with a look at the flag; a
/// signal then stops the loop before anything is read or shown.
pub proof fn law_the_next_cycle_begins(s: State, c: Settings, zone: Seq<char>)
    requires
        s.stage is Waiting,
    ensures
        s.after(c, zone, Outcome::Woke(WakeReason::Timer)) == (State {
            stage: Stage::CheckingSignal,
            ..s
        }),
        s.after(c, zone, Outcome::Woke(WakeReason::PowerButtonRefresh)) == (State {
            stage: Stage::CheckingSignal,
            ..s
        }),
        s.after(c, zone, Outcome::Woke(WakeReason::PowerButtonExit)) == (State {
            stage: Stage::Stopped(ExitReason::PowerButton),
            ..s
        }),
        s.after(c, zone, Outcome::Woke(WakeReason::Signal)) == (State {
            stage: Stage::Stopped(ExitReason::Signal),
            ..s
        }),
        s.after(c, zone, Outcome::Woke(WakeReason::Timer)).after(
            c,
            zone,
            Outcome::Signal(true),
        ).stage == Stage::Stopped(ExitReason::Signal),
{
}

/// A signal during the delay stops the loop before it waits.
pub proof fn law_signal_during_the_delay_stops(s: State, c: Settings, zone: Seq<char>)
    requires
        s.stage is Delaying,
    ensures
        s.after(c, zone, Outcome::Delayed(true)) == (State {
            stage: Stage::Stopped(ExitReason::Signal),
            ..s
        }),
{
}

/// What has to be done at each stage.
pub proof fn law_each_stage_has_its_action(d: Dash, c: Settings)
    requires
        0 <= c.pre_suspend_delay_secs <= u64::MAX,
    ensures
        match d@.stage {
            Stage::CheckingSignal => d.pending(c) == Action::CheckSignal,
            Stage::ReadingBattery => d.pending(c) == Action::ReadBattery,
            Stage::Planning { .. } => d.pending(c) == Action::ReadClock,
            Stage::ShowingLowBattery { .. } => d.pending(c) == Action::ShowLowBattery,
            Stage::ShowingSleep { .. } => d.pending(c) == Action::ShowSleep,
            Stage::Fetching { .. } => d.pending(c) == Action::Fetch,
            Stage::ShowingDashboard { kind, .. } => d.pending(c) == Action::ShowDashboard(kind),
            Stage::Delaying { .. } => d.pending(c) matches Action::Delay(secs) && secs
                == c.pre_suspend_delay_secs,
            Stage::Timing { .. } => d.pending(c) == Action::ReadClock,
            Stage::Waiting { secs } => d.pending(c) matches Action::Wait(n) && n == secs,
            Stage::Stopped(reason) => d.pending(c) == Action::Exit(reason),
            Stage::Unscheduled { .. } => d.pending(c) == Action::Fail,
        },
{
}

/// A phase stands for the stage of its own kind, with the same instants.
pub proof fn law_phases_stand_for_stages(
    low: bool,
    at: Timestamp,
    kind: RefreshKind,
    secs: i64,
    reason: ExitReason,
    e: ScheduleError,
)
    ensures
        Phase::CheckingSignal@ == Stage::CheckingSignal,
        Phase::ReadingBattery@ == Stage::ReadingBattery,
        (Phase::Planning { low })@ == (Stage::Planning { low }),
        (Phase::ShowingLowBattery { next_at: at })@ == (Stage::ShowingLowBattery { next_at: at@ }),
        (Phase::ShowingSleep { next_at: at })@ == (Stage::ShowingSleep { next_at: at@ }),
        (Phase::Fetching { next_at: at })@ == (Stage::Fetching { next_at: at@ }),
        (Phase::ShowingDashboard { next_at: at, kind })@ == (Stage::ShowingDashboard {
            next_at: at@,
            kind,
        }),
        (Phase::Delaying { low, next_at: at })@ == (Stage::Delaying { low, next_at: at@ }),
        (Phase::Timing { next_at: at })@ == (Stage::Timing { next_at: at@ }),
        (Phase::Waiting { secs })@ == (Stage::Waiting { secs: secs as int }),
        Phase::Stopped(reason)@ == Stage::Stopped(reason),
        Phase::Unscheduled(e)@ == (Stage::Unscheduled { schedule: e.schedule@ }),
{
}

/// An event stands for the outcome of its own kind, with the same content; the loop stands for its
/// cadence and its stage.
pub proof fn law_events_stand_for_outcomes(
    d: Dash,
    flag: bool,
    level: Option<u8>,
    at: Timestamp,
    reason: WakeReason,
)
    ensures
        Event::Signal(flag)@ == Outcome::Signal(flag),
        Event::Battery(level)@ == Outcome::Battery(level),
        Event::Clock(at)@ == Outcome::Clock(at@),
        Event::Shown@ == Outcome::Shown,
        Event::Fetched(flag)@ == Outcome::Fetched(flag),
        Event::Delayed(flag)@ == Outcome::Delayed(flag),
        Event::Woke(reason)@ == Outcome::Woke(reason),
        d@.cadence == d.cycle@,
        d@.stage == d.phase@,
{
}

/// A delay is slept in naps of five seconds, and what is left over in the last one; a signal ends
/// it at once.
pub proof fn law_delay_naps(remaining: u64)
    ensures
        next_nap(remaining, true) is None,
        remaining == 0 ==> next_nap(remaining, false) is None,
        1 <= remaining <= 5 ==> next_nap(remaining, false) == Some(remaining),
        remaining > 5 ==> next_nap(remaining, false) == Some(5u64),
        DELAY_POLL_SECS == 5,
{
}

} // verus!
