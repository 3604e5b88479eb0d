//! Instants of time.
use vstd::prelude::*;

verus! {

/// The first representable epoch second.
pub const MIN_EPOCH_SECS: i64 = -8_334_601_228_800;

/// The last representable epoch second.
pub const MAX_EPOCH_SECS: i64 = 8_210_266_876_799;

pub const NANOS_PER_SEC: u32 = 1_000_000_000;

/// An instant, to the nanosecond, within the calendar that schedules are computed in.
#[derive(Debug, Clone, Copy)]
pub struct Timestamp {
    secs: i64,
    nanos: u32,
}

/// Whole seconds in a span of nanoseconds, rounded toward zero.
pub open spec fn whole_secs(nanos: int) -> int {
    if nanos >= 0 {
        nanos / (NANOS_PER_SEC as int)
    } else {
        -((-nanos) / (NANOS_PER_SEC as int))
    }
}

/// Whether an epoch second with so many nanoseconds past it is an instant.
pub open spec fn is_instant(secs: int, nanos: int) -> bool {
    MIN_EPOCH_SECS <= secs <= MAX_EPOCH_SECS && 0 <= nanos < NANOS_PER_SEC
}

/// Whether so many nanoseconds since the epoch are an instant.
pub open spec fn in_calendar(nanos: int) -> bool {
    MIN_EPOCH_SECS * (NANOS_PER_SEC as int) <= nanos < (MAX_EPOCH_SECS + 1) * (NANOS_PER_SEC as int)
}

impl View for Timestamp {
    type V = int;

    /// Nanoseconds since the epoch.
    closed spec fn view(&self) -> int {
        self.secs * (NANOS_PER_SEC as int) + self.nanos
    }
}

impl Timestamp {
    #[verifier::type_invariant]
    closed spec fn inv(self) -> bool {
        is_instant(self.secs as int, self.nanos as int)
    }

    /// The instant `nanos` nanoseconds past the epoch second `secs`.
    pub fn new(secs: i64, nanos: u32) -> (r: Option<Timestamp>)
        ensures
            match r {
                Some(t) => is_instant(secs as int, nanos as int) && t@ == secs * (
                NANOS_PER_SEC as int) + nanos,
                None => !is_instant(secs as int, nanos as int),
            },
    {
        if MIN_EPOCH_SECS <= secs && secs <= MAX_EPOCH_SECS && nanos < NANOS_PER_SEC {
            Some(Timestamp { secs, nanos })
        } else {
            None
        }
    }

    /// The epoch second that the instant lies in.
    pub fn epoch_secs(&self) -> (secs: i64)
        ensures
            secs == self@ / (NANOS_PER_SEC as int),
            MIN_EPOCH_SECS <= secs <= MAX_EPOCH_SECS,
    {
        proof {
            use_type_invariant(self);
        }
        self.secs
    }

    /// Nanoseconds past [`Timestamp::epoch_secs`].
    pub fn subsec_nanos(&self) -> (nanos: u32)
        ensures
            nanos == self@ % (NANOS_PER_SEC as int),
    {
        proof {
            use_type_invariant(self);
        }
        self.nanos
    }

    /// Whole seconds from `earlier` to this instant, rounded toward zero; negative where this
    /// instant comes first.
    pub fn secs_since(&self, earlier: &Timestamp) -> (secs: i64)
        ensures
            secs == whole_secs(self@ - earlier@),
    {
        proof {
            use_type_invariant(self);
            use_type_invariant(earlier);
        }
        let diff: i64 = self.secs - earlier.secs;
        if diff > 0 && self.nanos < earlier.nanos {
            diff - 1
        } else if diff < 0 && self.nanos > earlier.nanos {
            diff + 1
        } else {
            diff
        }
    }

    /// Reads the system clock with `chrono::Utc::now`. What it shows depends on the machine, so
    /// nothing is claimed of it. On a machine whose clock stands before 1970 the call panics.
    #[verifier::external_body]
    pub(crate) fn read_clock() -> (t: Timestamp) {
        let now = chrono::Utc::now();
        Timestamp { secs: now.timestamp(), nanos: now.timestamp_subsec_nanos() }
    }

    /// The instant that the system clock shows.
    pub(crate) fn now() -> (t: Timestamp)
        ensures
            in_calendar(t@),
            clock_showed(t@),
    {
        let t = outcome_of(Timestamp::read_clock);
        proof {
            use_type_invariant(&t);
            assert(call_ensures(Timestamp::read_clock, (), t));
        }
        t
    }
}

/// Whether a reading of the system clock gave this instant.
pub closed spec fn clock_showed(instant: int) -> bool {
    exists|t: Timestamp| #[trigger] call_ensures(Timestamp::read_clock, (), t) && t@ == instant
}

/// Calls a function and keeps, as a fact, that this is what the call gave.
fn outcome_of<F: Fn() -> Timestamp>(f: F) -> (t: Timestamp)
    requires
        call_requires(f, ()),
    ensures
        call_ensures(f, (), t),
{
    f()
}

/// An instant counts as shown by the clock only where a reading of the clock gave it.
pub(crate) proof fn law_clock_showed_only_its_readings(instant: int)
    ensures
        clock_showed(instant) ==> exists|t: Timestamp| #[trigger]
            call_ensures(Timestamp::read_clock, (), t) && t@ == instant,
{
}

/// The instants are the nanoseconds of the calendar, counted from the epoch without a gap.
pub proof fn law_instants_fill_the_calendar(secs: int, nanos: int)
    ensures
        is_instant(secs, nanos) <==> -8_334_601_228_800 <= secs <= 8_210_266_876_799 && 0 <= nanos
            <= 999_999_999,
        0 <= nanos <= 999_999_999 ==> (in_calendar(secs * 1_000_000_000 + nanos) <==> is_instant(
            secs,
            nanos,
        )),
{
}

/// Whole seconds leave less than a second over, and count alike in both directions.
pub proof fn law_whole_secs_round_toward_zero(nanos: int)
    ensures
        nanos >= 0 ==> 0 <= nanos - whole_secs(nanos) * 1_000_000_000 < 1_000_000_000,
        whole_secs(-nanos) == -whole_secs(nanos),
{
}

} // verus!
