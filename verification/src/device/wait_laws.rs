//! What holds of every wait, whatever happens during it.
use vstd::prelude::*;

use super::power::{
    pressed_since, presses_seen, settle, settling_budget, Suspension, WaitAction, WaitEvent, WaitPhase, WakeReason,
    EXIT_PRESS_COUNT, MIN_ACTUAL_SUSPEND_SECS, MIN_SUSPEND_SECS, POLL_INTERVAL_SECS,
    SUSPEND_ABORT_WINDOW_SECS, WAKE_SETTLE_SECS,
};
use super::Device;

verus! {

/// A step keeps the invariant, and what was fixed when the wait began.
pub proof fn lemma_after_keeps(wait: Suspension, event: WaitEvent)
    requires
        wait.wf(),
    ensures
        wait.after(event).wf(),
        wait.after(event).device == wait.device,
        wait.after(event).secs == wait.secs,
        wait.after(event).sleep_only == wait.sleep_only,
        wait.after(event).wake_at == wait.wake_at,
        wait.after(event).baseline == wait.baseline,
{
}

/// The invariant holds after any series of events, and the wake instant, the requested wait and
/// the button baseline stay as they were fixed at the start: the abort window does not shift
/// the scheduled wakeup.
pub proof fn law_wake_instant_is_fixed(wait: Suspension, events: Seq<WaitEvent>)
    requires
        wait.wf(),
    ensures
        wait.run(events).wf(),
        wait.run(events).device == wait.device,
        wait.run(events).secs == wait.secs,
        wait.run(events).sleep_only == wait.sleep_only,
        wait.run(events).wake_at == wait.wake_at,
        wait.run(events).baseline == wait.baseline,
    decreases events.len(),
{
    if events.len() > 0 {
        law_wake_instant_is_fixed(wait, events.drop_last());
        lemma_after_keeps(wait.run(events.drop_last()), events.last());
    }
}

/// The number of alarms that were really set during a series of events.
pub open spec fn alarms_set(wait: Suspension, events: Seq<WaitEvent>) -> nat
    decreases events.len(),
{
    if events.len() == 0 {
        0
    } else {
        let before = wait.run(events.drop_last());
        alarms_set(wait, events.drop_last()) + match (before.pending(), events.last()) {
            (WaitAction::SetAlarm { .. }, WaitEvent::Wrote(true)) => 1nat,
            _ => 0nat,
        }
    }
}

/// On the way to a suspend the abort window is slept off first, and the alarms that count as armed
/// are those that were set.
proof fn lemma_suspend_balance(wait: Suspension, events: Seq<WaitEvent>)
    requires
        wait.wf(),
        wait.phase == (WaitPhase::AbortWindow { remaining: SUSPEND_ABORT_WINDOW_SECS, nap: 0 })
            || wait.phase is Awake,
    ensures
        match wait.run(events).phase {
            WaitPhase::AbortWindow { remaining, .. } => {
                &&& wait.slept(events) + remaining == SUSPEND_ABORT_WINDOW_SECS
                &&& alarms_set(wait, events) == 0
            },
            WaitPhase::ClearingAlarm { armed, .. } => {
                &&& wait.slept(events) == SUSPEND_ABORT_WINDOW_SECS
                &&& alarms_set(wait, events) == armed
            },
            WaitPhase::SettingAlarm { armed, .. } => {
                &&& wait.slept(events) == SUSPEND_ABORT_WINDOW_SECS
                &&& alarms_set(wait, events) == armed
            },
            WaitPhase::Deciding { armed } => {
                &&& wait.slept(events) == SUSPEND_ABORT_WINDOW_SECS
                &&& alarms_set(wait, events) == armed
            },
            WaitPhase::Entering { armed, .. } => {
                &&& wait.slept(events) == SUSPEND_ABORT_WINDOW_SECS
                &&& alarms_set(wait, events) == armed
            },
            _ => true,
        },
    decreases events.len(),
{
    if events.len() > 0 {
        lemma_suspend_balance(wait, events.drop_last());
        law_wake_instant_is_fixed(wait, events.drop_last());
    }
}

/// The device suspends to RAM only where the wait asked for at least the suspend threshold, the
/// whole abort window was slept off, at least one alarm was set, and more than the safe margin was
/// left at the last clock reading.
pub proof fn law_suspend_only_with_margin(
    device: Device,
    secs: i64,
    sleep_only: bool,
    now: i64,
    baseline: Option<u64>,
    events: Seq<WaitEvent>,
)
    requires
        i64::MIN <= now + secs <= i64::MAX,
    ensures
        ({
            let start = Suspension::begun(device, secs, sleep_only, now, baseline);
            let wait = start.run(events);
            wait.pending() == WaitAction::EnterSuspend ==> {
                &&& !sleep_only
                &&& secs >= MIN_SUSPEND_SECS
                &&& start.slept(events) == SUSPEND_ABORT_WINDOW_SECS
                &&& alarms_set(start, events) >= 1
                &&& wait.phase matches WaitPhase::Entering { now: reading, .. }
                &&& now + secs - reading > MIN_ACTUAL_SUSPEND_SECS
            }
        }),
{
    let start = Suspension::begun(device, secs, sleep_only, now, baseline);
    law_wake_instant_is_fixed(start, events);
    lemma_suspend_balance(start, events);
}

/// An alarm is only ever armed for the instant at which the wait was asked to end.
pub proof fn law_alarm_is_armed_for_the_wake_instant(
    device: Device,
    secs: i64,
    sleep_only: bool,
    now: i64,
    baseline: Option<u64>,
    events: Seq<WaitEvent>,
)
    requires
        i64::MIN <= now + secs <= i64::MAX,
    ensures
        ({
            let wait = Suspension::begun(device, secs, sleep_only, now, baseline).run(events);
            wait.pending() matches WaitAction::SetAlarm { node, at } ==> {
                &&& at == now + secs
                &&& node < device.rtc_nodes().len()
            }
        }),
{
    law_wake_instant_is_fixed(Suspension::begun(device, secs, sleep_only, now, baseline), events);
}

/// A wait below the threshold, or one that may only sleep, never touches the RTC, never suspends
/// and never fails.
pub proof fn law_short_wait_stays_awake(
    device: Device,
    secs: i64,
    sleep_only: bool,
    now: i64,
    baseline: Option<u64>,
    events: Seq<WaitEvent>,
)
    requires
        i64::MIN <= now + secs <= i64::MAX,
        sleep_only || secs < MIN_SUSPEND_SECS,
    ensures
        ({
            let wait = Suspension::begun(device, secs, sleep_only, now, baseline).run(events);
            wait.phase is Awake || wait.phase is Settling || wait.phase is Over
        }),
    decreases events.len(),
{
    let start = Suspension::begun(device, secs, sleep_only, now, baseline);
    law_wake_instant_is_fixed(start, events);
    if events.len() > 0 {
        law_short_wait_stays_awake(device, secs, sleep_only, now, baseline, events.drop_last());
    }
}

/// A wait that is not positive, a slot that has passed, is over at the first quiet poll, and
/// nothing but that poll is asked for.
pub proof fn law_past_slot_ends_at_once(
    device: Device,
    secs: i64,
    sleep_only: bool,
    now: i64,
    baseline: Option<u64>,
    presses: Option<u64>,
)
    requires
        i64::MIN <= now + secs <= i64::MAX,
        secs <= 0,
        !pressed_since(baseline, presses),
    ensures
        ({
            let start = Suspension::begun(device, secs, sleep_only, now, baseline);
            &&& start.pending() == WaitAction::Poll
            &&& start.after(WaitEvent::Polled { shutdown: false, presses }).pending()
                == WaitAction::Finish(WakeReason::Timer)
        }),
{
}

/// A shutdown signal wins at every poll.
pub proof fn law_signal_wins(wait: Suspension, presses: Option<u64>)
    requires
        wait.wf(),
        wait.pending() == WaitAction::Poll,
    ensures
        wait.after(WaitEvent::Polled { shutdown: true, presses }).pending() == WaitAction::Finish(
            WakeReason::Signal,
        ),
{
}

/// No nap is longer than the poll interval, so a signal or a press is noticed within it.
pub proof fn law_naps_are_short(
    device: Device,
    secs: i64,
    sleep_only: bool,
    now: i64,
    baseline: Option<u64>,
    events: Seq<WaitEvent>,
)
    requires
        i64::MIN <= now + secs <= i64::MAX,
    ensures
        Suspension::begun(device, secs, sleep_only, now, baseline).run(
            events,
        ).pending() matches WaitAction::Sleep(nap) ==> nap <= POLL_INTERVAL_SECS,
    decreases events.len(),
{
    if events.len() > 0 {
        law_naps_are_short(device, secs, sleep_only, now, baseline, events.drop_last());
    }
}

/// A wait that stays awake and runs out has slept exactly the seconds that were asked for.
pub proof fn law_awake_wait_sleeps_exactly(
    device: Device,
    secs: i64,
    sleep_only: bool,
    now: i64,
    baseline: Option<u64>,
    events: Seq<WaitEvent>,
)
    requires
        i64::MIN <= now + secs <= i64::MAX,
        sleep_only || secs < MIN_SUSPEND_SECS,
    ensures
        ({
            let start = Suspension::begun(device, secs, sleep_only, now, baseline);
            start.run(events).pending() == WaitAction::Finish(WakeReason::Timer) ==> start.slept(
                events,
            ) == if secs > 0 {
                secs as nat
            } else {
                0
            }
        }),
{
    lemma_awake_balance(device, secs, sleep_only, now, baseline, events);
}

/// While a wait sleeps awake, what was slept and what remains add up to what was asked for.
proof fn lemma_awake_balance(
    device: Device,
    secs: i64,
    sleep_only: bool,
    now: i64,
    baseline: Option<u64>,
    events: Seq<WaitEvent>,
)
    requires
        i64::MIN <= now + secs <= i64::MAX,
        sleep_only || secs < MIN_SUSPEND_SECS,
    ensures
        ({
            let start = Suspension::begun(device, secs, sleep_only, now, baseline);
            let total: nat = if secs > 0 {
                secs as nat
            } else {
                0
            };
            match start.run(events).phase {
                WaitPhase::Awake { remaining, .. } => start.slept(events) + remaining == total,
                WaitPhase::Over(WakeReason::Timer) => start.slept(events) == total,
                _ => true,
            }
        }),
    decreases events.len(),
{
    let start = Suspension::begun(device, secs, sleep_only, now, baseline);
    if events.len() > 0 {
        lemma_awake_balance(device, secs, sleep_only, now, baseline, events.drop_last());
        law_wake_instant_is_fixed(start, events.drop_last());
        law_short_wait_stays_awake(device, secs, sleep_only, now, baseline, events.drop_last());
    }
}

/// A wait exits to Home only at a poll that shows at least the exit number of presses since the
/// wait began.
pub proof fn law_exit_takes_enough_presses(wait: Suspension, event: WaitEvent)
    requires
        wait.wf(),
        !(wait.phase is Over),
        wait.after(event).pending() == WaitAction::Finish(WakeReason::PowerButtonExit),
    ensures
        wait.baseline matches Some(base) && event matches WaitEvent::Polled {
            shutdown,
            presses: Some(count),
        } && !shutdown && count >= base + EXIT_PRESS_COUNT,
{
}

/// Once a press was seen, a poll that shows the exit number of presses exits to Home.
pub proof fn law_enough_presses_exit(wait: Suspension, base: u64, count: u64)
    requires
        wait.wf(),
        wait.phase is Settling,
        wait.pending() == WaitAction::Poll,
        wait.baseline == Some(base),
        count >= base + EXIT_PRESS_COUNT,
    ensures
        wait.after(WaitEvent::Polled { shutdown: false, presses: Some(count) }).pending()
            == WaitAction::Finish(WakeReason::PowerButtonExit),
{
}

/// Each further press restarts the whole quiet window.
pub proof fn law_press_restarts_the_quiet_window(
    wait: Suspension,
    base: u64,
    count: u64,
    last_delta: u64,
    quiet: u64,
)
    requires
        wait.wf(),
        wait.phase == (WaitPhase::Settling { last_delta, quiet, nap: 0 }),
        wait.baseline == Some(base),
        base + last_delta < count < base + EXIT_PRESS_COUNT,
    ensures
        wait.after(WaitEvent::Polled { shutdown: false, presses: Some(count) }).phase matches
            WaitPhase::Settling { last_delta: seen, quiet: left, .. } && seen == count - base
            && left == WAKE_SETTLE_SECS,
{
}

/// A refresh is decided only at a poll that finds the quiet window over and shows no further
/// press.
pub proof fn law_refresh_takes_a_quiet_poll(wait: Suspension, event: WaitEvent)
    requires
        wait.wf(),
        !(wait.phase is Over),
        wait.baseline is Some,
        wait.after(event).pending() == WaitAction::Finish(WakeReason::PowerButtonRefresh),
    ensures
        ({
            &&& wait.phase matches WaitPhase::Settling { last_delta, quiet, .. }
            &&& quiet == 0
            &&& event matches WaitEvent::Polled { shutdown, presses }
            &&& !shutdown
            &&& presses_seen(wait.baseline->0, last_delta, presses) <= last_delta
        }),
{
}

/// From a point at which `quiet` seconds of the window are left, at least so many are slept before
/// a refresh is decided.
pub proof fn law_refresh_takes_the_quiet_window(wait: Suspension, events: Seq<WaitEvent>)
    requires
        wait.wf(),
        wait.phase is Settling,
        wait.run(events).phase == WaitPhase::Over(WakeReason::PowerButtonRefresh),
    ensures
        wait.phase matches WaitPhase::Settling { quiet, .. } && wait.slept(events) >= quiet,
{
    lemma_quiet_balance(wait, events);
}

proof fn lemma_quiet_balance(wait: Suspension, events: Seq<WaitEvent>)
    requires
        wait.wf(),
        wait.phase is Settling,
    ensures
        match wait.run(events).phase {
            WaitPhase::Settling { quiet, .. } => wait.slept(events) + quiet
                >= wait.phase->Settling_quiet,
            WaitPhase::Over(WakeReason::PowerButtonRefresh) => wait.slept(events)
                >= wait.phase->Settling_quiet,
            WaitPhase::Over(_) => true,
            _ => false,
        },
    decreases events.len(),
{
    if events.len() > 0 {
        lemma_quiet_balance(wait, events.drop_last());
        law_wake_instant_is_fixed(wait, events.drop_last());
    }
}

/// From the first press on, whatever the counts show (unreadable and falling ones too), at most
/// six seconds are slept before the presses are counted up: the quiet window can only be restarted
/// until the presses suffice to exit.
pub proof fn law_counting_presses_is_short(wait: Suspension, events: Seq<WaitEvent>)
    requires
        wait.wf(),
        wait.phase == settle(wait.baseline),
    ensures
        wait.slept(events) <= EXIT_PRESS_COUNT * WAKE_SETTLE_SECS,
        wait.slept(events) <= 6,
{
    lemma_settling_budget(wait, events);
}

proof fn lemma_settling_budget(wait: Suspension, events: Seq<WaitEvent>)
    requires
        wait.wf(),
        wait.phase is Settling || wait.phase is Over,
    ensures
        wait.run(events).phase is Settling || wait.run(events).phase is Over,
        wait.slept(events) + settling_budget(wait.run(events).phase) <= settling_budget(wait.phase),
        settling_budget(wait.run(events).phase) >= 0,
    decreases events.len(),
{
    if events.len() > 0 {
        lemma_settling_budget(wait, events.drop_last());
        law_wake_instant_is_fixed(wait, events.drop_last());
    }
}

/// A poll without a signal that shows the given count.
pub open spec fn quiet_poll(count: u64) -> WaitEvent {
    WaitEvent::Polled { shutdown: false, presses: Some(count) }
}

/// Fewer presses than it takes to exit, with no further one after them, end an awake wait in a
/// refresh once the quiet window has passed.
pub proof fn law_lone_press_refreshes(wait: Suspension, base: u64, count: u64)
    requires
        wait.wf(),
        wait.phase is Awake || wait.phase is AbortWindow,
        wait.pending() == WaitAction::Poll,
        wait.baseline == Some(base),
        base < count < base + EXIT_PRESS_COUNT,
    ensures
        wait.after(quiet_poll(count)).after(quiet_poll(count)).after(WaitEvent::Slept).after(
            quiet_poll(count),
        ).after(WaitEvent::Slept).after(quiet_poll(count)).pending() == WaitAction::Finish(
            WakeReason::PowerButtonRefresh,
        ),
{
}

/// Enough presses end an awake wait in an exit to Home, as soon as they are counted up.
pub proof fn law_series_of_presses_exits(wait: Suspension, base: u64, first: u64, second: u64)
    requires
        wait.wf(),
        wait.phase is Awake || wait.phase is AbortWindow,
        wait.pending() == WaitAction::Poll,
        wait.baseline == Some(base),
        base < first,
        base + EXIT_PRESS_COUNT <= second,
    ensures
        wait.after(quiet_poll(first)).after(quiet_poll(second)).pending() == WaitAction::Finish(
            WakeReason::PowerButtonExit,
        ),
{
}

/// A press that woke the device from suspend is counted up as one that came while it was awake.
pub proof fn law_press_wakes_the_device(wait: Suspension, base: u64, count: u64)
    requires
        wait.wf(),
        wait.phase is Resumed,
        wait.baseline == Some(base),
        base < count,
    ensures
        wait.after(WaitEvent::Presses(Some(count))).phase == (WaitPhase::Settling {
            last_delta: 0,
            quiet: WAKE_SETTLE_SECS,
            nap: 0,
        }),
{
}

/// A press that woke the device from suspend, or that came while it slept awake, is never taken
/// for the alarm: the presses are counted up.
pub proof fn law_press_is_never_a_timer_wake(wait: Suspension, event: WaitEvent)
    requires
        wait.wf(),
        !(wait.phase is Over),
        wait.after(event).pending() == WaitAction::Finish(WakeReason::Timer),
    ensures
        match event {
            WaitEvent::Polled { presses, .. } => !pressed_since(
                wait.baseline,
                presses,
            ),
            WaitEvent::Presses(presses) => !pressed_since(wait.baseline, presses),
            _ => false,
        },
{
}

/// A bound on the number of outcomes that a wait still takes in.
pub open spec fn fuel(wait: Suspension) -> int {
    let nodes = wait.device.rtc_nodes().len() as int;
    match wait.phase {
        WaitPhase::AbortWindow { remaining, nap } => 100 + 2 * nodes + 2 * remaining + idle(nap),
        WaitPhase::ClearingAlarm { node, .. } => 90 + 2 * (nodes - node),
        WaitPhase::SettingAlarm { node, .. } => 89 + 2 * (nodes - node),
        WaitPhase::Deciding { .. } => 89,
        WaitPhase::Awake { remaining, nap } => 21 + 2 * remaining + idle(nap),
        WaitPhase::Entering { .. } => 21,
        WaitPhase::Resumed => 20,
        WaitPhase::Settling { last_delta, quiet, nap } => 1 + 6 * (EXIT_PRESS_COUNT - 1
            - last_delta) + 2 * quiet + idle(nap),
        WaitPhase::Over(_) => 0,
        WaitPhase::Failed(_) => 0,
    }
}

pub open spec fn idle(nap: u64) -> int {
    if nap == 0 {
        1
    } else {
        0
    }
}

/// Every outcome brings a wait closer to its end.
pub proof fn law_every_outcome_is_progress(wait: Suspension, event: WaitEvent)
    requires
        wait.wf(),
        wait.expects(event),
    ensures
        0 <= fuel(wait.after(event)) < fuel(wait),
{
    assert(wait.device.rtc_nodes().len() == 2);
}

/// The number of outcomes that a wait took in during a series of events.
pub open spec fn taken(wait: Suspension, events: Seq<WaitEvent>) -> nat
    decreases events.len(),
{
    if events.len() == 0 {
        0
    } else {
        taken(wait, events.drop_last()) + if wait.run(events.drop_last()).expects(events.last()) {
            1nat
        } else {
            0nat
        }
    }
}

proof fn lemma_fuel_is_spent(wait: Suspension, events: Seq<WaitEvent>)
    requires
        wait.wf(),
    ensures
        taken(wait, events) + fuel(wait.run(events)) <= fuel(wait),
    decreases events.len(),
{
    if events.len() > 0 {
        let before = wait.run(events.drop_last());
        lemma_fuel_is_spent(wait, events.drop_last());
        law_wake_instant_is_fixed(wait, events.drop_last());
        if before.expects(events.last()) {
            law_every_outcome_is_progress(before, events.last());
        }
    }
}

/// Every wait ends: once it took in as many outcomes as its bound allows, it is over, well or
/// badly.
pub proof fn law_every_wait_ends(wait: Suspension, events: Seq<WaitEvent>)
    requires
        wait.wf(),
        taken(wait, events) >= fuel(wait),
    ensures
        wait.run(events).phase is Over || wait.run(events).phase is Failed,
{
    lemma_fuel_is_spent(wait, events);
    law_wake_instant_is_fixed(wait, events);
}

} // verus!
