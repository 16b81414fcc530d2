//! Points in time, as packets carry them.
use chrono::{DateTime, Utc};
use vstd::prelude::*;
use vstd::string::*;

verus! {

/// The first second of the calendar that timestamps can name.
pub const FIRST_SECOND: i64 = -8_334_601_228_800;

/// The last second of that calendar.
pub const LAST_SECOND: i64 = 8_210_266_876_799;

/// A point in time: whole seconds since the start of 1970 in UTC, and nanoseconds within the
/// second. During a leap second the nanoseconds run on to two seconds.
#[derive(Clone, Copy, Debug, PartialEq, Eq, Structural)]
pub struct Timestamp {
    pub secs: i64,
    pub nanos: u32,
}

impl Timestamp {
    /// The calendar has such a point in time.
    pub open spec fn valid(self) -> bool {
        &&& FIRST_SECOND <= self.secs <= LAST_SECOND
        &&& self.nanos < 1_000_000_000 || (self.nanos < 2_000_000_000 && self.secs % 60 == 59)
    }

    /// The second of the day.
    pub open spec fn second_of_day(self) -> int {
        self.secs as int % 86400
    }

    /// Tests whether the calendar has such a point in time.
    pub fn is_valid(&self) -> (b: bool)
        ensures
            b == self.valid(),
    {
        if self.secs < FIRST_SECOND || self.secs > LAST_SECOND {
            return false;
        }
        if self.nanos < 1_000_000_000 {
            return true;
        }
        if self.nanos >= 2_000_000_000 {
            return false;
        }
        // The remainder has the sign of the dividend.
        let r: i64 = (self.secs - FIRST_SECOND) % 60;
        assert(r == self.secs % 60) by {
            assert(FIRST_SECOND == -138_910_020_480 * 60);
        }
        r == 59
    }
}

/// The nanoseconds from `b` to `a`. A leap second between them counts when it belongs to the
/// earlier of the two times of day.
pub open spec fn nanos_between(a: Timestamp, b: Timestamp) -> int {
    let leap: int = if a.second_of_day() > b.second_of_day() && b.nanos >= 1_000_000_000 {
        1
    } else if a.second_of_day() < b.second_of_day() && a.nanos >= 1_000_000_000 {
        -1
    } else {
        0
    };
    (a.secs - b.secs + leap) * 1_000_000_000 + (a.nanos - b.nanos)
}

/// The milliseconds from `b` to `a`, rounded towards zero.
pub open spec fn millis_between(a: Timestamp, b: Timestamp) -> int {
    let n = nanos_between(a, b);
    if n >= 0 {
        n / 1_000_000
    } else {
        -((-n) / 1_000_000)
    }
}

/// What `<chrono::DateTime<chrono::Utc> as Display>` prints of a point in time.
pub uninterp spec fn timestamp_text(secs: i64, nanos: u32) -> Seq<char>;

/// Calls `chrono::Utc::now`: the machine's time, which lies after the start of 1970 and in no
/// leap second.
#[verifier::external_body]
pub(crate) fn utc_now() -> (now: Timestamp)
    ensures
        now.valid(),
        now.secs >= 0,
        now.nanos < 1_000_000_000,
{
    let now = Utc::now();
    Timestamp { secs: now.timestamp(), nanos: now.timestamp_subsec_nanos() }
}

/// Calls `chrono::DateTime::signed_duration_since` and takes the result in milliseconds, as
/// `num_milliseconds` rounds it.
#[verifier::external_body]
fn signed_millis(a: Timestamp, b: Timestamp) -> (ms: i64)
    requires
        a.valid(),
        b.valid(),
    ensures
        ms == millis_between(a, b),
{
    let a = DateTime::<Utc>::from_timestamp(a.secs, a.nanos).unwrap();
    let b = DateTime::<Utc>::from_timestamp(b.secs, b.nanos).unwrap();
    a.signed_duration_since(b).num_milliseconds()
}

/// Calls `<chrono::DateTime<chrono::Utc> as Display>::fmt` (through `to_string`).
#[verifier::external_body]
fn utc_text(t: Timestamp) -> (r: String)
    requires
        t.valid(),
    ensures
        r@ == timestamp_text(t.secs, t.nanos),
{
    DateTime::<Utc>::from_timestamp(t.secs, t.nanos).unwrap().to_string()
}

/// The milliseconds that have passed at `now` since a packet was stamped `sent`: the round trip
/// time that a reply to it shows.
pub fn round_trip_millis(now: Timestamp, sent: Timestamp) -> (ms: i64)
    requires
        now.valid(),
        sent.valid(),
    ensures
        ms == millis_between(now, sent),
{
    signed_millis(now, sent)
}

impl Timestamp {
    /// The machine's time.
    pub fn now() -> (now: Self)
        ensures
            now.valid(),
            now.secs >= 0,
            now.nanos < 1_000_000_000,
    {
        utc_now()
    }

    /// The point in time as text.
    pub fn to_string(&self) -> (r: String)
        requires
            self.valid(),
        ensures
            r@ == timestamp_text(self.secs, self.nanos),
    {
        utc_text(*self)
    }
}

/// Outside leap seconds, the milliseconds between two points in time are their difference in
/// nanoseconds, cut to whole milliseconds: a later `a` never gives less than zero, and the other
/// way round the same number comes out with its sign turned.
pub proof fn law_millis_are_the_difference(a: Timestamp, b: Timestamp)
    requires
        a.nanos < 1_000_000_000,
        b.nanos < 1_000_000_000,
    ensures
        ({
            let d = (a.secs as int * 1_000_000_000 + a.nanos) - (b.secs as int * 1_000_000_000
                + b.nanos);
            let m = millis_between(a, b);
            &&& d >= 0 ==> 0 <= d - m * 1_000_000 < 1_000_000
            &&& d < 0 ==> 0 <= m * 1_000_000 - d < 1_000_000
            &&& millis_between(b, a) == -m
        }),
{
    assert(nanos_between(b, a) == -nanos_between(a, b));
}

/// Every second of the calendar has its thousand million nanoseconds; only the last second of a
/// minute may run on, for as long again.
pub proof fn law_only_the_end_of_a_minute_runs_on(t: Timestamp)
    ensures
        t.nanos < 1_000_000_000 ==> (t.valid() <==> -8_334_601_228_800 <= t.secs
            <= 8_210_266_876_799),
        t.nanos >= 2_000_000_000 ==> !t.valid(),
        1_000_000_000 <= t.nanos < 2_000_000_000 && t.valid() ==> t.secs % 60 == 59,
        1_000_000_000 <= t.nanos < 2_000_000_000 && t.secs % 60 == 59 ==> (t.valid()
            <==> -8_334_601_228_800 <= t.secs <= 8_210_266_876_799),
{
}

} // verus!
