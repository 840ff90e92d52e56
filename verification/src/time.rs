//! Instants and zoned times as plain values, and the Dhaka wall clock that
//! the statistics API uses for its default time windows.
use chrono::{DateTime, Datelike, Offset, TimeZone, Timelike};
use chrono::offset::LocalResult;
use chrono_tz::Asia::Dhaka;
use std::time::{SystemTime, UNIX_EPOCH};
use vstd::prelude::*;

verus! {

/// An instant in UTC: seconds since the Unix epoch and the nanoseconds
/// within that second.
#[derive(Clone, Copy, Debug, PartialEq, Eq)]
pub struct Timestamp {
    pub secs: i64,
    pub nanos: u32,
}

/// An instant together with the fixed offset (seconds east of UTC) in which
/// it is shown.
#[derive(Clone, Copy, Debug, PartialEq, Eq)]
pub struct OffsetTime {
    pub secs: i64,
    pub nanos: u32,
    pub offset_secs: i32,
}

/// The last second since the epoch that chrono represents
/// (262142-12-31T23:59:59Z).
pub const LAST_CHRONO_SECS: i64 = 8210266876799;

/// Seconds in a day.
pub const DAY_SECS: i64 = 86400;

/// Dhaka's offset at an instant since 1970, as the bundled tz table gives
/// it: UTC+6, but UTC+7 during the daylight-saving time of 2009
/// (2009-06-19T17:00Z up to 2009-12-31T17:00Z).
pub open spec fn dhaka_offset_since_1970(secs: int) -> int {
    if 1245430800 <= secs && secs < 1262278800 { 25200 } else { 21600 }
}

/// Dhaka's offset at a local midnight from 1970 on, given as a local
/// timestamp (seconds since 1970-01-01T00:00 on the Dhaka wall clock): UTC+7
/// from 2009-06-20 up to 2009-12-31, UTC+6 otherwise.
pub open spec fn dhaka_midnight_offset_since_1970(local: int) -> int {
    if 1245456000 <= local && local < 1262304000 { 25200 } else { 21600 }
}

/// The offset, in seconds east of UTC, that the Asia/Dhaka zone of the
/// bundled time-zone database has at the instant `secs`; `None` where the
/// instant lies outside what chrono represents.
pub uninterp spec fn dhaka_offset(secs: int) -> Option<int>;

/// The day of the month and the seconds since local midnight of the Dhaka
/// wall clock at the instant `secs`; `None` where chrono does not represent
/// the instant.
pub uninterp spec fn dhaka_day_and_time(secs: int) -> Option<(int, int)>;

/// The instant (seconds since the epoch) and offset that the Dhaka wall
/// clock reading `local` (a local timestamp) denotes, where it denotes
/// exactly one.
pub uninterp spec fn dhaka_local_instant(local: int) -> Option<(int, int)>;

#[verifier::external_type_specification]
#[verifier::external_body]
pub struct ExSystemTime(SystemTime);

/// Reads the system clock through std's `SystemTime::now`. Which time it
/// gives is the clock's; nothing is claimed of it.
#[verifier::external_body]
fn system_now() -> (res: SystemTime)
{
    SystemTime::now()
}

/// The duration from the Unix epoch to a system time, as seconds and
/// nanoseconds, through std's `SystemTime::duration_since(UNIX_EPOCH)`;
/// `None` when the time lies before the epoch. Stated is what
/// `Duration::subsec_nanos` documents: the nanoseconds are below one second.
#[verifier::external_body]
fn since_epoch(t: &SystemTime) -> (res: Option<(u64, u32)>)
    ensures
        is_epoch_reading(res),
{
    let d = t.duration_since(UNIX_EPOCH).ok()?;
    Some((d.as_secs(), d.subsec_nanos()))
}

/// A reading of the clock as a duration since the epoch (seconds,
/// nanoseconds), or `None` for a clock before the epoch.
pub open spec fn is_epoch_reading(reading: Option<(u64, u32)>) -> bool {
    reading matches Some(d) ==> d.1 < 1_000_000_000
}

/// An instant that the clock can give and chrono can represent: from the
/// epoch to the end of chrono's range.
pub open spec fn is_clock_reading(t: Timestamp) -> bool {
    0 <= t.secs <= LAST_CHRONO_SECS && t.nanos < 1_000_000_000
}

/// The instant of a clock reading: `None` for a clock before 1970 or beyond
/// the range of chrono's date-times (where chrono's `Utc::now` would panic).
pub open spec fn spec_clock_instant(reading: Option<(u64, u32)>) -> Option<Timestamp> {
    match reading {
        Some(d) => if d.0 <= LAST_CHRONO_SECS {
            Some(Timestamp { secs: d.0 as i64, nanos: d.1 })
        } else {
            None
        },
        None => None,
    }
}

/// The instant of a clock reading, as `spec_clock_instant` says.
pub fn clock_instant(reading: Option<(u64, u32)>) -> (res: Option<Timestamp>)
    ensures
        res == spec_clock_instant(reading),
        is_epoch_reading(reading) && res is Some ==> is_clock_reading(res.unwrap()),
{
    match reading {
        Some(d) => {
            if d.0 <= 8210266876799u64 {
                Some(Timestamp { secs: d.0 as i64, nanos: d.1 })
            } else {
                None
            }
        },
        None => None,
    }
}

/// The current instant: the instant of what the clock reads.
pub fn utc_now() -> (res: Option<Timestamp>)
    ensures
        exists|reading: Option<(u64, u32)>| #[trigger] is_epoch_reading(reading)
            && res == spec_clock_instant(reading),
        res matches Some(t) ==> is_clock_reading(t),
{
    let now = system_now();
    let reading = since_epoch(&now);
    let res = clock_instant(reading);
    assert(is_epoch_reading(reading));
    res
}

/// The offset of Asia/Dhaka at an instant, through chrono-tz's
/// `TimeZone::from_utc_datetime`. The result is named: it is what the
/// bundled tz table says, and depends on `secs` alone. Stated is what that
/// table gives from 1970 to the end of chrono's range, where chrono
/// represents every instant.
#[verifier::external_body]
fn dhaka_offset_at(secs: i64) -> (res: Option<i32>)
    ensures
        res matches Some(o) ==> dhaka_offset(secs as int) == Some(o as int),
        res is None ==> dhaka_offset(secs as int) is None,
        0 <= secs <= LAST_CHRONO_SECS ==> res == Some(dhaka_offset_since_1970(secs as int) as i32),
{
    let utc = DateTime::from_timestamp(secs, 0)?;
    Some(Dhaka.from_utc_datetime(&utc.naive_utc()).offset().fix().local_minus_utc())
}

/// The Dhaka wall-clock day of the month and seconds since local midnight at
/// an instant, through chrono-tz's `from_utc_datetime` and chrono's
/// `Datelike::day` and `Timelike::num_seconds_from_midnight`. Named. Stated
/// besides, from chrono's documentation and the local time being the instant
/// plus the offset: the day lies in 1..=31; from 1970 on, the seconds are
/// those of the local timestamp within its day, and the first of that local
/// month is not before 1970-01-01.
#[verifier::external_body]
fn dhaka_day_and_time_at(secs: i64) -> (res: Option<(u32, u32)>)
    ensures
        res matches Some(p) ==> dhaka_day_and_time(secs as int) == Some((p.0 as int, p.1 as int))
            && 1 <= p.0 <= 31,
        res is None ==> dhaka_day_and_time(secs as int) is None,
        0 <= secs <= LAST_CHRONO_SECS ==> res is Some
            && res.unwrap().1 == (secs + dhaka_offset_since_1970(secs as int)) % 86400,
        0 <= secs <= LAST_CHRONO_SECS ==> res is Some
            && secs + dhaka_offset_since_1970(secs as int) - res.unwrap().1 - (res.unwrap().0 - 1) * 86400 >= 0,
{
    let utc = DateTime::from_timestamp(secs, 0)?;
    let local = Dhaka.from_utc_datetime(&utc.naive_utc());
    Some((local.day(), local.num_seconds_from_midnight()))
}

/// The instant that a Dhaka wall-clock reading denotes, through chrono's
/// `TimeZone::from_local_datetime`; `None` unless it denotes exactly one.
/// Named. Stated besides: the instant plus the offset is the local reading;
/// and every local midnight from 1970 to the end of chrono's range denotes
/// exactly one instant, the 2009 clock changes (at 23:00 on June 19 and at
/// 24:00 on December 31) never touching a midnight.
#[verifier::external_body]
fn dhaka_local_instant_of(local: i64) -> (res: Option<(i64, i32)>)
    ensures
        res matches Some(r) ==> dhaka_local_instant(local as int) == Some((r.0 as int, r.1 as int))
            && r.0 + r.1 == local,
        res is None ==> dhaka_local_instant(local as int) is None,
        0 <= local <= LAST_CHRONO_SECS && local % 86400 == 0 ==> res is Some
            && res.unwrap().1 == dhaka_midnight_offset_since_1970(local as int),
{
    let naive = DateTime::from_timestamp(local, 0)?.naive_utc();
    match Dhaka.from_local_datetime(&naive) {
        LocalResult::Single(t) => Some((t.timestamp(), t.offset().fix().local_minus_utc())),
        LocalResult::Ambiguous(_, _) => None,
        LocalResult::None => None,
    }
}

/// The instant `t` shown on the Dhaka wall clock.
pub open spec fn spec_in_dhaka(t: Timestamp) -> Option<OffsetTime> {
    match dhaka_offset(t.secs as int) {
        Some(o) => Some(OffsetTime { secs: t.secs, nanos: t.nanos, offset_secs: o as i32 }),
        None => None,
    }
}

/// Shows an instant on the Dhaka wall clock (same instant, Dhaka's
/// offset). From 1970 on that offset is UTC+6, but UTC+7 in the second half
/// of 2009.
pub fn in_dhaka(t: &Timestamp) -> (res: Option<OffsetTime>)
    ensures
        res == spec_in_dhaka(*t),
        0 <= t.secs <= LAST_CHRONO_SECS ==> res == Some(OffsetTime {
            secs: t.secs,
            nanos: t.nanos,
            offset_secs: dhaka_offset_since_1970(t.secs as int) as i32,
        }),
{
    match dhaka_offset_at(t.secs) {
        Some(o) => Some(OffsetTime { secs: t.secs, nanos: t.nanos, offset_secs: o }),
        None => None,
    }
}

/// The local timestamp of midnight on the first of the Dhaka month of an
/// instant with offset `offset`, day of month `day` and seconds since local
/// midnight `time`.
pub open spec fn month_start_local(secs: int, offset: int, day: int, time: int) -> int {
    secs + offset - time - (day - 1) * 86400
}

/// Midnight in Dhaka on the first day of the Dhaka month in which the
/// instant `t` falls, for instants from 1970 to the end of chrono's range.
pub open spec fn spec_month_start_in_dhaka(t: Timestamp) -> Option<OffsetTime> {
    if 0 <= t.secs <= LAST_CHRONO_SECS {
        match (dhaka_offset(t.secs as int), dhaka_day_and_time(t.secs as int)) {
            (Some(o), Some(p)) => match dhaka_local_instant(month_start_local(t.secs as int, o, p.0, p.1)) {
                Some(m) => Some(OffsetTime { secs: m.0 as i64, nanos: 0, offset_secs: m.1 as i32 }),
                None => None,
            },
            _ => None,
        }
    } else {
        None
    }
}

/// The start of the Dhaka month that contains the instant `t`. It exists for
/// every instant from 1970 up to a day before the end of chrono's range; it
/// is a Dhaka midnight, not after `t` and less than 31 days before it on the
/// Dhaka wall clock.
pub fn month_start_in_dhaka(t: &Timestamp) -> (res: Option<OffsetTime>)
    ensures
        res == spec_month_start_in_dhaka(*t),
        res matches Some(r) ==> r.nanos == 0,
        0 <= t.secs <= LAST_CHRONO_SECS - 86400 ==> res is Some,
        0 <= t.secs <= LAST_CHRONO_SECS - 86400 ==> ({
            let r = res.unwrap();
            let local_start = r.secs + r.offset_secs;
            let local_now = t.secs + dhaka_offset_since_1970(t.secs as int);
            &&& local_start % 86400 == 0
            &&& local_start <= local_now < local_start + 31 * 86400
            &&& r.offset_secs == dhaka_midnight_offset_since_1970(local_start)
        }),
{
    if t.secs < 0 || t.secs > LAST_CHRONO_SECS {
        return None;
    }
    let o = match dhaka_offset_at(t.secs) {
        Some(o) => o,
        None => return None,
    };
    let p = match dhaka_day_and_time_at(t.secs) {
        Some(p) => p,
        None => return None,
    };
    let local: i64 = t.secs + (o as i64) - (p.1 as i64) - ((p.0 as i64) - 1) * DAY_SECS;
    proof {
        let ghost l = month_start_local(t.secs as int, o as int, p.0 as int, p.1 as int);
        assert(local == l);
        if t.secs <= LAST_CHRONO_SECS - 86400 {
            let lt = t.secs + dhaka_offset_since_1970(t.secs as int);
            assert(lt % 86400 == p.1);
            assert((lt - p.1) % 86400 == 0) by (nonlinear_arith)
                requires lt % 86400 == p.1, lt >= 0;
            assert(l % 86400 == 0) by (nonlinear_arith)
                requires (lt - p.1) % 86400 == 0, l == lt - p.1 - (p.0 - 1) * 86400;
        }
    }
    match dhaka_local_instant_of(local) {
        Some(m) => Some(OffsetTime { secs: m.0, nanos: 0, offset_secs: m.1 }),
        None => None,
    }
}

/// The current time on the Dhaka wall clock at a clock reading.
pub open spec fn spec_now_dhaka(reading: Option<(u64, u32)>) -> Option<OffsetTime> {
    match spec_clock_instant(reading) {
        Some(t) => spec_in_dhaka(t),
        None => None,
    }
}

/// The start of the current Dhaka month at a clock reading.
pub open spec fn spec_start_of_month_dhaka(reading: Option<(u64, u32)>) -> Option<OffsetTime> {
    match spec_clock_instant(reading) {
        Some(t) => spec_month_start_in_dhaka(t),
        None => None,
    }
}

/// The current time on the Dhaka wall clock: the instant the clock reads,
/// at UTC+6 (UTC+7 in the second half of 2009); `None` when the clock reads
/// before 1970 or beyond chrono's range.
pub fn now_dhaka() -> (res: Option<OffsetTime>)
    ensures
        exists|reading: Option<(u64, u32)>| #[trigger] is_epoch_reading(reading)
            && res == spec_now_dhaka(reading),
        res matches Some(r) ==> {
            &&& is_clock_reading(Timestamp { secs: r.secs, nanos: r.nanos })
            &&& spec_in_dhaka(Timestamp { secs: r.secs, nanos: r.nanos }) == Some(r)
            &&& r.offset_secs == dhaka_offset_since_1970(r.secs as int)
        },
{
    let now = system_now();
    let reading = since_epoch(&now);
    assert(is_epoch_reading(reading));
    match clock_instant(reading) {
        Some(t) => in_dhaka(&t),
        None => None,
    }
}

/// Midnight, Dhaka time, on the first day of the current Dhaka month: the
/// month start of the instant the clock reads. `None` when the clock reads
/// before 1970 or beyond chrono's range, and possibly within a day of the
/// end of that range.
pub fn start_of_month_dhaka() -> (res: Option<OffsetTime>)
    ensures
        exists|reading: Option<(u64, u32)>| #[trigger] is_epoch_reading(reading)
            && res == spec_start_of_month_dhaka(reading),
        res matches Some(r) ==> r.nanos == 0,
{
    let now = system_now();
    let reading = since_epoch(&now);
    assert(is_epoch_reading(reading));
    match clock_instant(reading) {
        Some(t) => month_start_in_dhaka(&t),
        None => None,
    }
}

} // verus!
