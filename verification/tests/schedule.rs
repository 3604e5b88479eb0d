use chrono::TimeZone;
use kindle_dash::clock::{Timestamp, MAX_EPOCH_SECS, MIN_EPOCH_SECS};
use kindle_dash::schedule::{
    is_serviced, next_refresh_at, next_refresh_from, validate, validate_from,
};
use kindle_dash::zone::Zone;

fn utc(y: i32, mo: u32, d: u32, h: u32, mi: u32, s: u32) -> Timestamp {
    let at = chrono_tz::UTC.with_ymd_and_hms(y, mo, d, h, mi, s).unwrap();
    Timestamp::new(at.timestamp(), at.timestamp_subsec_nanos()).unwrap()
}

fn now() -> Timestamp {
    let now = chrono::Utc::now();
    Timestamp::new(now.timestamp(), now.timestamp_subsec_nanos()).unwrap()
}

/// Seconds from `now` until the computed refresh.
fn secs_from(schedule: &str, now: Timestamp) -> i64 {
    next_refresh_from(schedule, &Zone::utc(), &now).unwrap().secs_since(&now)
}

#[test]
fn every_minute_is_within_the_next_minute() {
    // On-time wake at :30 past: the next minute boundary is 30 s away and is kept.
    assert_eq!(secs_from("* * * * *", utc(2026, 1, 1, 12, 0, 30)), 30);
}

#[test]
fn early_wake_rolls_to_the_following_slot() {
    // Woke 1 s before the top of the hour on an hourly schedule.
    assert_eq!(secs_from("0 * * * *", utc(2026, 1, 1, 12, 59, 59)), 3601);
}

#[test]
fn last_active_slot_yields_the_long_overnight_gap() {
    assert_eq!(
        secs_from("*/5 6-21 * * *", utc(2026, 1, 1, 21, 54, 59)),
        8 * 3600 + 5 * 60 + 1
    );
}

#[test]
fn mid_window_slot_is_not_rolled() {
    assert_eq!(secs_from("*/5 6-21 * * *", utc(2026, 1, 1, 10, 0, 0)), 300);
}

#[test]
fn timezone_is_accepted() {
    let zone = Zone::named("Europe/Amsterdam").unwrap();
    let at = next_refresh_at("2,32 8-17 * * MON-FRI", &zone).unwrap();
    assert!(at.secs_since(&now()) > 0);
}

#[test]
fn garbage_schedule_is_rejected() {
    assert!(validate("not a cron expression").is_err());
    assert!(next_refresh_at("nope", &Zone::utc()).is_err());
}

#[test]
fn valid_schedule_passes_validation() {
    assert!(validate("2,32 8-17 * * MON-FRI").is_ok());
}

#[test]
fn roll_threshold_is_five_whole_seconds() {
    let slot = utc(2026, 1, 1, 13, 0, 0);
    assert_eq!(secs_from("0 * * * *", utc(2026, 1, 1, 12, 59, 55)), 5);
    assert_eq!(secs_from("0 * * * *", utc(2026, 1, 1, 12, 59, 56)), 3604);
    // Half a second more is still five whole seconds, half a second less is four.
    let early = utc(2026, 1, 1, 12, 59, 54).epoch_secs();
    let before = Timestamp::new(early, 500_000_000).unwrap();
    assert!(!is_serviced(&slot, &before));
    let after = Timestamp::new(early + 1, 500_000_000).unwrap();
    assert!(is_serviced(&slot, &after));
    assert_eq!(secs_from("0 * * * *", before), 5);
    assert_eq!(secs_from("0 * * * *", after), 3604);
}

#[test]
fn early_and_timely_wakes_plan_the_same_refresh() {
    let zone = Zone::utc();
    let early = next_refresh_from("*/5 6-21 * * *", &zone, &utc(2026, 1, 1, 9, 59, 57)).unwrap();
    let timely = next_refresh_from("*/5 6-21 * * *", &zone, &utc(2026, 1, 1, 10, 0, 0)).unwrap();
    assert_eq!(early.epoch_secs(), timely.epoch_secs());
    assert_eq!(early.epoch_secs(), utc(2026, 1, 1, 10, 5, 0).epoch_secs());
    assert_eq!(early.subsec_nanos(), 0);
}

/// The refreshes planned at every seventh second of a span of seconds.
fn planned(schedule: &str, zone: &Zone, from: i64, secs: i64) -> Vec<(i64, i64)> {
    let mut out = Vec::new();
    let mut now = from;
    while now < from + secs {
        let at = Timestamp::new(now, 0).unwrap();
        out.push((now, next_refresh_from(schedule, zone, &at).unwrap().epoch_secs()));
        now += 7;
    }
    out
}

#[test]
fn planned_refresh_is_the_first_slot_with_room() {
    let zone = Zone::utc();
    let from = utc(2026, 1, 1, 5, 50, 0).epoch_secs();
    for (now, at) in planned("*/5 6-21 * * *", &zone, from, 4000) {
        // Slots are the multiples of five minutes from six o'clock on.
        let first_with_room = (now + 5 + 299).div_euclid(300) * 300;
        assert_eq!(at, first_with_room.max(utc(2026, 1, 1, 6, 0, 0).epoch_secs()));
    }
}

#[test]
fn planned_refresh_leaves_room_in_fixed_zones() {
    for name in ["Etc/GMT+5", "Etc/GMT-14", "EST", "Zulu"] {
        let zone = match Zone::named(name) {
            Some(zone) => zone,
            None => panic!("{name}"),
        };
        let from = utc(2026, 1, 1, 5, 50, 0).epoch_secs();
        for (now, at) in planned("* * * * *", &zone, from, 600) {
            assert_eq!(at, (now + 5 + 59).div_euclid(60) * 60);
        }
    }
}

#[test]
fn later_clock_never_plans_an_earlier_refresh() {
    let amsterdam = Zone::named("Europe/Amsterdam").unwrap();
    // Summer time ends on 2026-10-25 and begins on 2026-03-29, both at 01:00 UTC.
    for from in [utc(2026, 10, 24, 23, 0, 0), utc(2026, 3, 28, 23, 0, 0)] {
        for schedule in ["* * * * *", "15 * * * *", "30 2 * * *"] {
            let mut last = 0;
            for (now, at) in planned(schedule, &amsterdam, from.epoch_secs(), 4 * 3600) {
                assert!(at >= now + 5);
                assert!(at >= last);
                last = at;
            }
        }
    }
}

#[test]
fn each_pass_of_a_repeated_hour_fires() {
    let zone = Zone::named("Europe/Amsterdam").unwrap();
    // 02:30 comes twice on the day on which summer time ends: at 00:30 and at 01:30 UTC.
    let first = next_refresh_from("30 2 * * *", &zone, &utc(2026, 10, 25, 0, 0, 0)).unwrap();
    assert_eq!(first.epoch_secs(), utc(2026, 10, 25, 0, 30, 0).epoch_secs());
    let second = next_refresh_from("30 2 * * *", &zone, &utc(2026, 10, 25, 0, 45, 0)).unwrap();
    assert_eq!(second.epoch_secs(), utc(2026, 10, 25, 1, 30, 0).epoch_secs());
}

#[test]
fn shift_by_odd_seconds_brings_slots_close() {
    // Local mean time in Los Angeles gave way to standard time on 1883-11-18, at 20:00 UTC.
    let zone = Zone::named("America/Los_Angeles").unwrap();
    let shift = utc(1883, 11, 18, 20, 0, 0);
    let now = Timestamp::new(shift.epoch_secs() - 3, 0).unwrap();
    let at = next_refresh_from("* * * * *", &zone, &now).unwrap();
    assert_eq!(at.secs_since(&now), 3);
}

#[test]
fn schedule_is_read_in_its_zone() {
    let zone = Zone::named("Europe/Amsterdam").unwrap();
    assert_eq!(zone.name(), "Europe/Amsterdam");
    // 08:00 in Amsterdam is 07:00 UTC in winter and 06:00 UTC in summer.
    let winter = next_refresh_from("0 8 * * *", &zone, &utc(2026, 1, 1, 0, 0, 0)).unwrap();
    assert_eq!(winter.epoch_secs(), utc(2026, 1, 1, 7, 0, 0).epoch_secs());
    let summer = next_refresh_from("0 8 * * *", &zone, &utc(2026, 7, 1, 0, 0, 0)).unwrap();
    assert_eq!(summer.epoch_secs(), utc(2026, 7, 1, 6, 0, 0).epoch_secs());
}

#[test]
fn unknown_zone_is_refused() {
    assert!(Zone::named("Mars/Phobos").is_none());
    assert!(Zone::named("").is_none());
    assert_eq!(Zone::utc().name(), "UTC");
}

#[test]
fn rejected_schedule_is_named() {
    let e = validate_from("61 * * * *", &utc(2026, 1, 1, 0, 0, 0)).unwrap_err();
    assert_eq!(e.schedule, "61 * * * *");
    // Nothing comes after the end of the calendar.
    let end = Timestamp::new(MAX_EPOCH_SECS, 0).unwrap();
    assert!(validate_from("* * * * *", &end).is_err());
    assert!(next_refresh_from("* * * * *", &Zone::utc(), &end).is_err());
    let start = Timestamp::new(MIN_EPOCH_SECS, 0).unwrap();
    assert!(validate_from("* * * * *", &start).is_ok());
    let zone = Zone::named("America/New_York").unwrap();
    assert!(next_refresh_from("* * * * *", &zone, &start).is_ok());
    assert!(next_refresh_from("* * * * *", &zone, &end).is_err());
}

#[test]
fn instants_cover_the_calendar() {
    assert_eq!(MIN_EPOCH_SECS, chrono::DateTime::<chrono::Utc>::MIN_UTC.timestamp());
    assert_eq!(MAX_EPOCH_SECS, chrono::DateTime::<chrono::Utc>::MAX_UTC.timestamp());
    assert!(Timestamp::new(MIN_EPOCH_SECS - 1, 0).is_none());
    assert!(Timestamp::new(MAX_EPOCH_SECS + 1, 0).is_none());
    assert!(Timestamp::new(0, 1_000_000_000).is_none());
}

#[test]
fn seconds_between_instants_round_toward_zero() {
    let t = |secs, nanos| Timestamp::new(secs, nanos).unwrap();
    for (a, b) in [
        (t(10, 0), t(7, 0)),
        (t(10, 1), t(7, 2)),
        (t(7, 2), t(10, 1)),
        (t(7, 1), t(10, 2)),
        (t(0, 5), t(0, 9)),
        (t(-3, 999_999_999), t(2, 0)),
    ] {
        let chrono_at = |x: &Timestamp| {
            chrono::DateTime::from_timestamp(x.epoch_secs(), x.subsec_nanos()).unwrap()
        };
        let expected = chrono_at(&a).signed_duration_since(chrono_at(&b)).num_seconds();
        assert_eq!(a.secs_since(&b), expected);
    }
}
