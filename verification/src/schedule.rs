//! Cron-based wakeup scheduling.
use vstd::prelude::*;

use crate::clock::{clock_showed, in_calendar, is_instant, whole_secs, Timestamp, NANOS_PER_SEC};
use crate::zone::{known_zone, Zone};

verus! {

/// When the next slot is nearer than this, the current frame is taken to service that slot (the
/// device woke a beat early for it) and the slot after it is the next one. The clock can wake
/// the device a second or so before the alarm; without this roll a wake at 20:59:59 would see
/// the 21:00 slot as a sleep of one second, and the real gap would only surface a frame later.
/// Cron works in minutes, so any threshold between that jitter and a minute is safe.
pub const MIN_SLEEP_SECS: i64 = 5;

pub const NANOS_PER_MINUTE: i64 = 60_000_000_000;

/// A cron expression that could not be evaluated.
#[verifier::external_type_specification]
#[verifier::external_body]
pub struct ExCronParseError(cron_parser::ParseError);

/// The first instant strictly after `after` at which `schedule` fires in `zone`, both in
/// nanoseconds since the epoch; none where the expression is malformed, can never fire, or has
/// no further occurrence.
pub uninterp spec fn cron_next(schedule: Seq<char>, zone: Seq<char>, after: int) -> Option<int>;

/// Whether `t` is a slot: `schedule` fires then in `zone`, as the next time after some instant.
pub open spec fn is_slot(schedule: Seq<char>, zone: Seq<char>, t: int) -> bool {
    exists|after: int| in_calendar(after) && #[trigger] cron_next(schedule, zone, after) == Some(t)
}

/// `cron_parser::parse`, evaluated in the named zone at the given instant. The outcome depends
/// on these alone. An occurrence lies strictly after the instant, falls on a whole second, and is
/// the first: no slot lies between the instant and it. In UTC, where local time never shifts, it
/// falls on a whole minute. Which minutes an expression selects is left to its name.
#[verifier::external_body]
fn cron_parse(schedule: &str, zone: &str, secs: i64, nanos: u32) -> (r: Result<
    (i64, u32),
    cron_parser::ParseError,
>)
    requires
        known_zone(zone@),
        is_instant(secs as int, nanos as int),
    ensures
        match r {
            Ok((s, n)) => {
                &&& cron_next(schedule@, zone@, secs * (NANOS_PER_SEC as int) + nanos) == Some(
                    s * (NANOS_PER_SEC as int) + n,
                )
                &&& is_instant(s as int, n as int)
                &&& s * (NANOS_PER_SEC as int) + n > secs * (NANOS_PER_SEC as int) + nanos
                &&& n == 0
                &&& forall|other: int| #[trigger]
                    is_slot(schedule@, zone@, other) && other > secs * (NANOS_PER_SEC as int)
                        + nanos ==> other >= s * (NANOS_PER_SEC as int) + n
                &&& zone@ == "UTC"@ ==> s as int % 60 == 0
            },
            Err(_) => cron_next(schedule@, zone@, secs * (NANOS_PER_SEC as int) + nanos) is None,
        },
{
    let tz: chrono_tz::Tz = zone.parse().unwrap();
    let after = chrono::DateTime::from_timestamp(secs, nanos).unwrap().with_timezone(&tz);
    cron_parser::parse(schedule, &after).map(|t| (t.timestamp(), t.timestamp_subsec_nanos()))
}

/// A schedule that is no usable cron expression.
#[derive(Debug)]
pub struct ScheduleError {
    pub schedule: String,
    pub cause: cron_parser::ParseError,
}

/// Whether a frame made at `now` services `slot`: the slot is too near to sleep until it.
pub open spec fn services(slot: int, now: int) -> bool {
    whole_secs(slot - now) < MIN_SLEEP_SECS
}

/// The next scheduled refresh after `now`, rolled past a slot that is being serviced.
pub open spec fn next_refresh(schedule: Seq<char>, zone: Seq<char>, now: int) -> Option<int> {
    match cron_next(schedule, zone, now) {
        Some(slot) => if services(slot, now) {
            cron_next(schedule, zone, slot)
        } else {
            Some(slot)
        },
        None => None,
    }
}

/// Whether no slot that leaves room to sleep after `now` comes before `t`.
pub open spec fn no_earlier_refresh(
    schedule: Seq<char>,
    zone: Seq<char>,
    now: int,
    t: int,
) -> bool {
    forall|other: int| #[trigger]
        is_slot(schedule, zone, other) && !services(other, now) ==> other >= t
}

/// Whether every slot falls on a whole minute, as it does in a zone whose offset from UTC is a
/// fixed number of minutes.
pub open spec fn on_minutes(schedule: Seq<char>, zone: Seq<char>) -> bool {
    forall|s: int| #[trigger] is_slot(schedule, zone, s) ==> s % (NANOS_PER_MINUTE as int) == 0
}

/// Whether `t` is the first slot that lies at least [`MIN_SLEEP_SECS`] after `now`.
pub open spec fn first_with_room(
    schedule: Seq<char>,
    zone: Seq<char>,
    now: int,
    t: int,
) -> bool {
    &&& is_slot(schedule, zone, t)
    &&& t - now >= MIN_SLEEP_SECS * (NANOS_PER_SEC as int)
    &&& forall|other: int| #[trigger]
        is_slot(schedule, zone, other) && other - now >= MIN_SLEEP_SECS * (NANOS_PER_SEC as int)
            ==> other >= t
}

/// Whether a frame made at `now` services `slot`.
pub fn is_serviced(slot: &Timestamp, now: &Timestamp) -> (r: bool)
    ensures
        r == services(slot@, now@),
{
    slot.secs_since(now) < MIN_SLEEP_SECS
}

fn next_slot(schedule: &str, zone: &Zone, after: &Timestamp) -> (r: Result<
    Timestamp,
    ScheduleError,
>)
    ensures
        match r {
            Ok(t) => {
                &&& cron_next(schedule@, zone@, after@) == Some(t@)
                &&& t@ > after@
                &&& t@ % (NANOS_PER_SEC as int) == 0
                &&& is_slot(schedule@, zone@, t@)
                &&& forall|other: int| #[trigger]
                    is_slot(schedule@, zone@, other) && other > after@ ==> other >= t@
                &&& zone@ == "UTC"@ ==> t@ % (NANOS_PER_MINUTE as int) == 0
            },
            Err(e) => cron_next(schedule@, zone@, after@) is None && e.schedule@ == schedule@,
        },
{
    match cron_parse(schedule, zone.name(), after.epoch_secs(), after.subsec_nanos()) {
        Ok((s, n)) => {
            proof {
                assert(in_calendar(after@));
                if s as int % 60 == 0 {
                    let minutes = s as int / 60;
                    assert(s == 60 * minutes);
                    assert(s * (NANOS_PER_SEC as int) == minutes * (NANOS_PER_MINUTE as int));
                    vstd::arithmetic::div_mod::lemma_mod_multiples_basic(
                        minutes,
                        NANOS_PER_MINUTE as int,
                    );
                }
            }
            Ok(Timestamp::new(s, n).unwrap())
        },
        Err(cause) => Err(ScheduleError { schedule: schedule.to_string(), cause }),
    }
}

/// The instant of the next scheduled refresh in `zone`, as of now. Both the choice of screen and
/// the length of the following sleep derive from this one instant, so that the two can never
/// straddle a slot boundary.
pub fn next_refresh_at(schedule: &str, zone: &Zone) -> (r: Result<Timestamp, ScheduleError>)
    ensures
        match r {
            Ok(t) => exists|now: int|
                {
                    &&& in_calendar(now)
                    &&& clock_showed(now)
                    &&& #[trigger] next_refresh(schedule@, zone@, now) == Some(t@)
                    &&& t@ > now
                    &&& is_slot(schedule@, zone@, t@)
                    &&& no_earlier_refresh(schedule@, zone@, now, t@)
                    &&& on_minutes(schedule@, zone@) || zone@ == "UTC"@ ==> first_with_room(
                        schedule@,
                        zone@,
                        now,
                        t@,
                    )
                },
            Err(e) => e.schedule@ == schedule@ && exists|now: int|
                in_calendar(now) && clock_showed(now) && #[trigger] next_refresh(schedule@, zone@, now) is None,
        },
{
    let now = Timestamp::now();
    next_refresh_from(schedule, zone, &now)
}

/// The instant of the next scheduled refresh in `zone`, as of `now`: the first slot that leaves
/// room to sleep. Only where a zone once shifted by odd seconds can two slots lie so near each
/// other that the one after a serviced slot leaves no room either; that never happens in UTC, nor
/// wherever slots fall on whole minutes.
pub fn next_refresh_from(schedule: &str, zone: &Zone, now: &Timestamp) -> (r: Result<
    Timestamp,
    ScheduleError,
>)
    ensures
        match r {
            Ok(t) => {
                &&& next_refresh(schedule@, zone@, now@) == Some(t@)
                &&& t@ > now@
                &&& t@ % (NANOS_PER_SEC as int) == 0
                &&& cron_next(schedule@, zone@, now@) matches Some(slot)
                &&& slot > now@
                &&& is_slot(schedule@, zone@, slot)
                &&& if services(slot, now@) {
                    t@ > slot
                } else {
                    t@ == slot
                }
                &&& is_slot(schedule@, zone@, t@)
                &&& no_earlier_refresh(schedule@, zone@, now@, t@)
                &&& on_minutes(schedule@, zone@) || zone@ == "UTC"@ ==> first_with_room(
                    schedule@,
                    zone@,
                    now@,
                    t@,
                )
            },
            Err(e) => next_refresh(schedule@, zone@, now@) is None && e.schedule@ == schedule@,
        },
{
    let slot = match next_slot(schedule, zone, now) {
        Ok(slot) => slot,
        Err(e) => return Err(e),
    };
    if is_serviced(&slot, now) {
        let following = next_slot(schedule, zone, &slot);
        assert(following matches Ok(t) ==> {
            &&& no_earlier_refresh(schedule@, zone@, now@, t@)
            &&& on_minutes(schedule@, zone@) || zone@ == "UTC"@ ==> t@ - slot@ >= NANOS_PER_MINUTE
        });
        following
    } else {
        Ok(slot)
    }
}

/// Checks that `schedule` is a cron expression with an occurrence still to come.
pub fn validate(schedule: &str) -> (r: Result<(), ScheduleError>)
    ensures
        match r {
            Ok(()) => exists|now: int|
                in_calendar(now) && clock_showed(now) && #[trigger] cron_next(schedule@, "UTC"@, now) is Some,
            Err(e) => e.schedule@ == schedule@ && exists|now: int|
                in_calendar(now) && clock_showed(now) && #[trigger] cron_next(schedule@, "UTC"@, now) is None,
        },
{
    let now = Timestamp::now();
    validate_from(schedule, &now)
}

/// Checks that `schedule` is a cron expression with an occurrence after `now`.
pub fn validate_from(schedule: &str, now: &Timestamp) -> (r: Result<(), ScheduleError>)
    ensures
        match r {
            Ok(()) => cron_next(schedule@, "UTC"@, now@) is Some,
            Err(e) => cron_next(schedule@, "UTC"@, now@) is None && e.schedule@ == schedule@,
        },
{
    let zone = Zone::utc();
    match next_slot(schedule, &zone, now) {
        Ok(_) => Ok(()),
        Err(e) => Err(e),
    }
}

/// Waking a beat early for a slot plans the same refresh as waking on time for it, provided that
/// the slot after it, if there is one, leaves room to sleep.
pub proof fn law_early_wake_plans_like_a_timely_one(
    schedule: Seq<char>,
    zone: Seq<char>,
    now: int,
    slot: int,
)
    requires
        cron_next(schedule, zone, now) == Some(slot),
        services(slot, now),
        cron_next(schedule, zone, slot) matches Some(following) ==> !services(following, slot),
    ensures
        next_refresh(schedule, zone, now) == next_refresh(schedule, zone, slot),
        next_refresh(schedule, zone, now) == cron_next(schedule, zone, slot),
{
}

/// A slot that leaves room to sleep is not rolled past.
pub proof fn law_distant_slot_is_kept(schedule: Seq<char>, zone: Seq<char>, now: int, slot: int)
    requires
        cron_next(schedule, zone, now) == Some(slot),
        slot - now >= MIN_SLEEP_SECS * (NANOS_PER_SEC as int),
    ensures
        next_refresh(schedule, zone, now) == Some(slot),
{
}

/// A planned refresh leaves at least [`MIN_SLEEP_SECS`] to sleep, provided that the slot after a
/// serviced one comes at least so long after it. Slots a minute apart always do.
pub proof fn law_planned_refresh_leaves_the_minimum_sleep(
    schedule: Seq<char>,
    zone: Seq<char>,
    now: int,
    slot: int,
)
    requires
        cron_next(schedule, zone, now) == Some(slot),
        slot > now,
        services(slot, now) ==> (cron_next(schedule, zone, slot) matches Some(following)
            ==> following - slot >= MIN_SLEEP_SECS * (NANOS_PER_SEC as int)),
    ensures
        next_refresh(schedule, zone, now) matches Some(t) ==> {
            &&& !services(t, now)
            &&& t - now >= MIN_SLEEP_SECS * (NANOS_PER_SEC as int)
        },
{
}

/// A later clock never plans an earlier refresh: where `t1` is planned at `now1`, and `t2` at
/// `now2` with room to sleep, `t1` does not come after `t2`.
pub proof fn law_refresh_grows_with_the_clock(
    schedule: Seq<char>,
    zone: Seq<char>,
    now1: int,
    t1: int,
    now2: int,
    t2: int,
)
    requires
        now1 <= now2,
        no_earlier_refresh(schedule, zone, now1, t1),
        is_slot(schedule, zone, t2),
        !services(t2, now2),
    ensures
        t1 <= t2,
{
    assert(!services(t2, now1));
}

/// Where refreshes are the first slots with room to sleep, a later clock never plans an earlier
/// one, and two plans made at the same instant agree.
pub proof fn law_first_slot_with_room_grows_with_the_clock(
    schedule: Seq<char>,
    zone: Seq<char>,
    now1: int,
    t1: int,
    now2: int,
    t2: int,
)
    requires
        now1 <= now2,
        first_with_room(schedule, zone, now1, t1),
        first_with_room(schedule, zone, now2, t2),
    ensures
        t1 <= t2,
        now1 == now2 ==> t1 == t2,
{
}

/// A frame services a slot exactly where the slot is less than five seconds away.
pub proof fn law_slots_nearer_than_five_seconds_are_serviced(slot: int, now: int)
    ensures
        services(slot, now) <==> slot - now < 5_000_000_000,
{
}

/// The next refresh is the next slot; where that is less than five seconds away it is the slot
/// after it. There is none only where that slot does not exist.
pub proof fn law_refresh_is_the_next_slot_or_the_one_after(
    schedule: Seq<char>,
    zone: Seq<char>,
    now: int,
)
    ensures
        match cron_next(schedule, zone, now) {
            None => next_refresh(schedule, zone, now) is None,
            Some(slot) => {
                &&& slot - now >= 5_000_000_000 ==> next_refresh(schedule, zone, now) == Some(slot)
                &&& slot - now < 5_000_000_000 ==> next_refresh(schedule, zone, now) == cron_next(
                    schedule,
                    zone,
                    slot,
                )
            },
        },
{
}

/// The slots are the instants that come next after some instant of the calendar.
pub proof fn law_slots_are_what_comes_next(schedule: Seq<char>, zone: Seq<char>, t: int)
    ensures
        is_slot(schedule, zone, t) <==> exists|after: int|
            -8_334_601_228_800_000_000_000 <= after < 8_210_266_876_800_000_000_000 && #[trigger]
            cron_next(schedule, zone, after) == Some(t),
{
    if is_slot(schedule, zone, t) {
        let after = choose|after: int|
            in_calendar(after) && #[trigger] cron_next(schedule, zone, after) == Some(t);
        assert(cron_next(schedule, zone, after) == Some(t));
    }
    if exists|after: int|
        -8_334_601_228_800_000_000_000 <= after < 8_210_266_876_800_000_000_000 && #[trigger]
        cron_next(schedule, zone, after) == Some(t) {
        let after = choose|after: int|
            -8_334_601_228_800_000_000_000 <= after < 8_210_266_876_800_000_000_000 && #[trigger]
            cron_next(schedule, zone, after) == Some(t);
        assert(in_calendar(after) && cron_next(schedule, zone, after) == Some(t));
    }
}

/// What no slot with room comes before, and what the first slot with room is, in seconds.
pub proof fn law_first_slot_with_room(
    schedule: Seq<char>,
    zone: Seq<char>,
    now: int,
    t: int,
    other: int,
)
    requires
        is_slot(schedule, zone, other),
        other - now >= 5_000_000_000,
    ensures
        no_earlier_refresh(schedule, zone, now, t) ==> t <= other,
        first_with_room(schedule, zone, now, t) ==> {
            &&& is_slot(schedule, zone, t)
            &&& now + 5_000_000_000 <= t <= other
        },
        on_minutes(schedule, zone) ==> other % 60_000_000_000 == 0,
{
}

/// Wherever every slot falls on a whole minute, the premise of the exact plan holds.
pub proof fn law_minute_slots_are_on_minutes(schedule: Seq<char>, zone: Seq<char>)
    requires
        forall|s: int| #[trigger] is_slot(schedule, zone, s) ==> s % 60_000_000_000 == 0,
    ensures
        on_minutes(schedule, zone),
{
}

} // verus!
