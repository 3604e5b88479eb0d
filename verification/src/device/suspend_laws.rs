//! Whole waits: a long one does suspend, a short one is slept off, and presses are counted up.
use vstd::prelude::*;

use super::power::{
    pressed_since, SuspendError, Suspension, WaitAction, WaitEvent, WaitPhase, WakeReason,
    EXIT_PRESS_COUNT, MIN_ACTUAL_SUSPEND_SECS, MIN_SUSPEND_SECS, POLL_INTERVAL_SECS,
    SUSPEND_ABORT_WINDOW_SECS, WAKE_SETTLE_SECS,
};
use super::Device;

verus! {

/// Whether a count shows no press since the wait began: it is not known to be higher.
pub open spec fn calm(baseline: Option<u64>, count: Option<u64>) -> bool {
    match (baseline, count) {
        (Some(b), Some(n)) => n <= b,
        (None, _) => true,
        (_, None) => true,
    }
}

/// A look without a signal that shows the given count.
pub open spec fn look(count: Option<u64>) -> WaitEvent {
    WaitEvent::Polled { shutdown: false, presses: count }
}

/// The wait after as many looks as there are counts, with a nap after each.
pub open spec fn idled(wait: Suspension, counts: Seq<Option<u64>>) -> Suspension
    decreases counts.len(),
{
    if counts.len() == 0 {
        wait
    } else {
        idled(wait, counts.drop_last()).after(look(counts.last())).after(WaitEvent::Slept)
    }
}

/// A press is a count that is strictly higher than a known one.
pub proof fn law_press_is_a_higher_count(b: u64, n: u64, other: Option<u64>)
    ensures
        pressed_since(Some(b), Some(n)) <==> n > b,
        !pressed_since(None, other),
        !pressed_since(other, None),
{
}

/// The values that waits go by, in seconds and presses.
pub proof fn law_wait_constants()
    ensures
        MIN_SUSPEND_SECS == 45,
        SUSPEND_ABORT_WINDOW_SECS == 10,
        MIN_ACTUAL_SUSPEND_SECS == 30,
        POLL_INTERVAL_SECS == 1,
        WAKE_SETTLE_SECS == 2,
        EXIT_PRESS_COUNT == 3,
{
}

/// A wait keeps what it was asked for, and ends as many seconds after its start.
pub proof fn law_wait_begins_as_asked(
    device: Device,
    secs: i64,
    sleep_only: bool,
    now: i64,
    baseline: Option<u64>,
)
    requires
        i64::MIN <= now + secs <= i64::MAX,
    ensures
        ({
            let wait = Suspension::begun(device, secs, sleep_only, now, baseline);
            &&& wait.device == device
            &&& wait.secs == secs
            &&& wait.sleep_only == sleep_only
            &&& wait.wake_at == now + secs
            &&& wait.baseline == baseline
            &&& wait.pending() == WaitAction::Poll
        }),
{
}

proof fn lemma_idling(wait: Suspension, counts: Seq<Option<u64>>, left: u64)
    requires
        wait.phase == (WaitPhase::Awake { remaining: left, nap: 0 }) || wait.phase == (
        WaitPhase::AbortWindow { remaining: left, nap: 0 }),
        counts.len() <= left,
        forall|i: int| 0 <= i < counts.len() ==> calm(wait.baseline, #[trigger] counts[i]),
    ensures
        ({
            let end = idled(wait, counts);
            &&& wait.phase is Awake ==> end == (Suspension {
                phase: WaitPhase::Awake { remaining: (left - counts.len()) as u64, nap: 0 },
                ..wait
            })
            &&& wait.phase is AbortWindow ==> end == (Suspension {
                phase: WaitPhase::AbortWindow { remaining: (left - counts.len()) as u64, nap: 0 },
                ..wait
            })
        }),
    decreases counts.len(),
{
    if counts.len() > 0 {
        lemma_idling(wait, counts.drop_last(), left);
        assert(counts.last() == counts[counts.len() - 1]);
    }
}

/// While nothing happens, every look of an awake stretch is followed by a nap of one second.
pub proof fn law_undisturbed_naps_take_a_second(
    wait: Suspension,
    counts: Seq<Option<u64>>,
    count: Option<u64>,
    left: u64,
)
    requires
        wait.phase == (WaitPhase::Awake { remaining: left, nap: 0 }) || wait.phase == (
        WaitPhase::AbortWindow { remaining: left, nap: 0 }),
        counts.len() < left,
        forall|i: int| 0 <= i < counts.len() ==> calm(wait.baseline, #[trigger] counts[i]),
        calm(wait.baseline, count),
    ensures
        idled(wait, counts).pending() == WaitAction::Poll,
        idled(wait, counts).after(look(count)).pending() == WaitAction::Sleep(1),
{
    lemma_idling(wait, counts, left);
}

/// A wait below 45 seconds, or one that may only sleep, ends with the alarm after exactly as many
/// undisturbed naps as it has seconds; one that is not positive ends at the first look.
pub proof fn law_short_wait_is_slept_off(
    device: Device,
    secs: i64,
    sleep_only: bool,
    now: i64,
    baseline: Option<u64>,
    counts: Seq<Option<u64>>,
    last: Option<u64>,
)
    requires
        i64::MIN <= now + secs <= i64::MAX,
        sleep_only || secs < 45,
        counts.len() == if secs > 0 {
            secs as int
        } else {
            0
        },
        forall|i: int| 0 <= i < counts.len() ==> calm(baseline, #[trigger] counts[i]),
        calm(baseline, last),
    ensures
        idled(Suspension::begun(device, secs, sleep_only, now, baseline), counts).after(
            look(last),
        ).pending() == WaitAction::Finish(WakeReason::Timer),
{
    let start = Suspension::begun(device, secs, sleep_only, now, baseline);
    lemma_idling(start, counts, counts.len() as u64);
}

/// The wait once both writes to an RTC node came out as given: the alarm is set only after it was
/// cleared.
pub open spec fn tried(wait: Suspension, cleared: bool, set: bool) -> Suspension {
    if cleared {
        wait.after(WaitEvent::Wrote(true)).after(WaitEvent::Wrote(set))
    } else {
        wait.after(WaitEvent::Wrote(false))
    }
}

/// A wait of 45 seconds or more that may suspend, however long, does suspend: after ten
/// undisturbed seconds it clears and arms both alarms for its wake instant, one of them being
/// enough, and with more than thirty seconds left at the last reading it enters suspend. With
/// fewer left it sleeps off exactly those; without an alarm it fails.
pub proof fn law_long_wait_suspends(
    device: Device,
    secs: i64,
    now: i64,
    baseline: Option<u64>,
    counts: Seq<Option<u64>>,
    last: Option<u64>,
    first: (bool, bool),
    second: (bool, bool),
    reading: i64,
)
    requires
        i64::MIN <= now + secs <= i64::MAX,
        secs >= 45,
        counts.len() == 10,
        forall|i: int| 0 <= i < counts.len() ==> calm(baseline, #[trigger] counts[i]),
        calm(baseline, last),
    ensures
        ({
            let start = Suspension::begun(device, secs, false, now, baseline);
            let idle = idled(start, counts);
            let at = (now + secs) as i64;
            let clearing = idle.after(look(last));
            let next = tried(clearing, first.0, first.1);
            let deciding = tried(next, second.0, second.1);
            let armed = (first.0 && first.1) || (second.0 && second.1);
            let decided = deciding.after(WaitEvent::Clock(reading));
            let left = at - reading;
            &&& idle.pending() == WaitAction::Poll
            &&& clearing.pending() == (WaitAction::ClearAlarm { node: 0 })
            &&& clearing.after(WaitEvent::Wrote(true)).pending() == (WaitAction::SetAlarm {
                node: 0,
                at,
            })
            &&& next.pending() == (WaitAction::ClearAlarm { node: 1 })
            &&& next.after(WaitEvent::Wrote(true)).pending() == (WaitAction::SetAlarm {
                node: 1,
                at,
            })
            &&& !armed ==> deciding.pending() == WaitAction::Fail(SuspendError::NoAlarmArmed)
            &&& armed ==> deciding.pending() == WaitAction::ReadClock
            &&& armed && left > 30 ==> decided.pending() == WaitAction::EnterSuspend
            &&& armed && 0 <= left <= 30 ==> decided.phase == (WaitPhase::Awake {
                remaining: left as u64,
                nap: 0,
            })
            &&& armed && left < 0 ==> decided.phase == (WaitPhase::Awake { remaining: 0, nap: 0 })
        }),
{
    let start = Suspension::begun(device, secs, false, now, baseline);
    lemma_idling(start, counts, 10);
    assert(device.rtc_nodes().len() == 2);
}

/// Entering suspend comes out in one of two ways; after it the button count tells the alarm from a
/// press.
pub proof fn law_resume_looks_at_the_button(wait: Suspension, count: Option<u64>)
    requires
        wait.pending() == WaitAction::EnterSuspend,
    ensures
        wait.after(WaitEvent::Wrote(false)).pending() == WaitAction::Fail(
            SuspendError::EnterRefused,
        ),
        wait.after(WaitEvent::Wrote(true)).pending() == WaitAction::ReadButton,
        calm(wait.baseline, count) ==> wait.after(WaitEvent::Wrote(true)).after(
            WaitEvent::Presses(count),
        ).pending() == WaitAction::Finish(WakeReason::Timer),
        !calm(wait.baseline, count) ==> wait.after(WaitEvent::Wrote(true)).after(
            WaitEvent::Presses(count),
        ).phase == (WaitPhase::Settling { last_delta: 0, quiet: 2, nap: 0 }),
{
}

/// A press at any look of an awake stretch, even the last one, starts to count presses up.
pub proof fn law_press_is_noticed(wait: Suspension, b: u64, n: u64, left: u64)
    requires
        wait.phase == (WaitPhase::Awake { remaining: left, nap: 0 }) || wait.phase == (
        WaitPhase::AbortWindow { remaining: left, nap: 0 }),
        wait.baseline == Some(b),
        n > b,
    ensures
        wait.after(look(Some(n))) == (Suspension {
            phase: WaitPhase::Settling { last_delta: 0, quiet: 2, nap: 0 },
            ..wait
        }),
{
}

/// A quiet look once the time has run out ends an awake stretch with the alarm, and the abort
/// window in arming the first alarm.
pub proof fn law_time_runs_out(wait: Suspension, count: Option<u64>)
    requires
        calm(wait.baseline, count),
    ensures
        wait.phase == (WaitPhase::Awake { remaining: 0, nap: 0 }) ==> wait.after(look(count))
            == (Suspension { phase: WaitPhase::Over(WakeReason::Timer), ..wait }),
        wait.phase == (WaitPhase::AbortWindow { remaining: 0, nap: 0 }) ==> wait.after(
            look(count),
        ).pending() == (WaitAction::ClearAlarm { node: 0 }),
{
}

/// One look while presses are counted up: three since the wait began exit; a further one restarts
/// two seconds of quiet; without one, quiet goes on second by second and ends in a refresh. An
/// unreadable count, or a falling one, is no further press.
pub proof fn law_counting_presses(
    wait: Suspension,
    base: u64,
    seen: u64,
    quiet: u64,
    n: u64,
)
    requires
        wait.phase == (WaitPhase::Settling { last_delta: seen, quiet, nap: 0 }),
        wait.baseline == Some(base),
        seen < 3,
    ensures
        wait.pending() == WaitAction::Poll,
        n >= base + 3 ==> wait.after(look(Some(n))).pending() == WaitAction::Finish(
            WakeReason::PowerButtonExit,
        ),
        base + seen < n < base + 3 ==> wait.after(look(Some(n))).phase == (WaitPhase::Settling {
            last_delta: (n - base) as u64,
            quiet: 2,
            nap: 1,
        }),
        n <= base + seen && quiet > 0 ==> wait.after(look(Some(n))).phase == (WaitPhase::Settling {
            last_delta: seen,
            quiet,
            nap: 1,
        }),
        n <= base + seen && quiet == 0 ==> wait.after(look(Some(n))).pending()
            == WaitAction::Finish(WakeReason::PowerButtonRefresh),
        n == base + seen ==> wait.after(look(None)) == wait.after(look(Some(n))),
        quiet > 0 ==> wait.after(look(None)).phase == (WaitPhase::Settling {
            last_delta: seen,
            quiet,
            nap: 1,
        }),
        quiet == 0 ==> wait.after(look(None)).pending() == WaitAction::Finish(
            WakeReason::PowerButtonRefresh,
        ),
{
}

/// A nap takes its seconds off what is left, and a look follows it.
pub proof fn law_naps_count_down(wait: Suspension, left: u64, nap: u64, seen: u64)
    requires
        0 < nap <= left,
    ensures
        wait.phase == (WaitPhase::Awake { remaining: left, nap }) ==> {
            &&& wait.pending() == WaitAction::Sleep(nap)
            &&& wait.after(WaitEvent::Slept).phase == (WaitPhase::Awake {
                remaining: (left - nap) as u64,
                nap: 0,
            })
        },
        wait.phase == (WaitPhase::AbortWindow { remaining: left, nap }) ==> {
            &&& wait.pending() == WaitAction::Sleep(nap)
            &&& wait.after(WaitEvent::Slept).phase == (WaitPhase::AbortWindow {
                remaining: (left - nap) as u64,
                nap: 0,
            })
        },
        wait.phase == (WaitPhase::Settling { last_delta: seen, quiet: left, nap }) ==> {
            &&& wait.pending() == WaitAction::Sleep(nap)
            &&& wait.after(WaitEvent::Slept).phase == (WaitPhase::Settling {
                last_delta: seen,
                quiet: (left - nap) as u64,
                nap: 0,
            })
        },
{
}

/// A signal at any look ends the wait as one, whatever the button shows.
pub proof fn law_signal_ends_any_look(wait: Suspension, presses: Option<u64>)
    requires
        wait.pending() == WaitAction::Poll,
        wait.phase is Settling ==> wait.baseline is Some,
    ensures
        wait.after(WaitEvent::Polled { shutdown: true, presses }) == (Suspension {
            phase: WaitPhase::Over(WakeReason::Signal),
            ..wait
        }),
{
}

/// An event of another kind than the pending action brings changes nothing, and neither does any
/// event once the wait ended.
pub proof fn law_unexpected_events_change_nothing(wait: Suspension, event: WaitEvent)
    requires
        match wait.pending() {
            WaitAction::Poll => !(event is Polled),
            WaitAction::Sleep(_) => !(event is Slept),
            WaitAction::ClearAlarm { .. } => !(event is Wrote),
            WaitAction::SetAlarm { .. } => !(event is Wrote),
            WaitAction::ReadClock => !(event is Clock),
            WaitAction::EnterSuspend => !(event is Wrote),
            WaitAction::ReadButton => !(event is Presses),
            WaitAction::Finish(_) => true,
            WaitAction::Fail(_) => true,
        },
    ensures
        wait.after(event) == wait,
{
}

/// A wait that is over, or that failed, says so.
pub proof fn law_ends_are_reported(wait: Suspension, reason: WakeReason, error: SuspendError)
    ensures
        wait.pending() == WaitAction::Finish(reason) <==> wait.phase == WaitPhase::Over(reason),
        wait.pending() == WaitAction::Fail(error) <==> wait.phase == WaitPhase::Failed(error),
{
}

} // verus!
