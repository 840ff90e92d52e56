//! The statistics API's endpoint decisions: the default time window and
//! limit, and the HTTP answer to a query's outcome. Routing, query-string
//! parsing and JSON are the application's part.
use crate::queries::{ListAlbum, ListArtist, ListPlay, ListStats, ListTrack, spec_rows_or_none};
use crate::time::{
    LAST_CHRONO_SECS, OffsetTime, Timestamp, dhaka_midnight_offset_since_1970,
    dhaka_offset_since_1970, in_dhaka, is_clock_reading, is_epoch_reading, month_start_in_dhaka,
    spec_clock_instant, spec_in_dhaka, spec_month_start_in_dhaka, utc_now,
};
use vstd::prelude::*;

verus! {

/// The status of an answer whose query failed.
pub const INTERNAL_SERVER_ERROR: u16 = 500;

/// How many entries a top list has unless `lim` says otherwise.
pub const DEFAULT_LIMIT: i32 = 10;

/// The query parameters of the top-list endpoints.
#[derive(Clone, Copy, Debug, PartialEq, Eq)]
pub struct TopParams {
    pub from: Option<OffsetTime>,
    pub to: Option<OffsetTime>,
    pub lim: Option<i32>,
}

/// The query parameters of the statistics endpoint.
#[derive(Clone, Copy, Debug, PartialEq, Eq)]
pub struct StatsParams {
    pub from: Option<OffsetTime>,
    pub to: Option<OffsetTime>,
}

/// The query parameters of the history endpoint; both bounds are required.
#[derive(Clone, Copy, Debug, PartialEq, Eq)]
pub struct HistoryParams {
    pub from: OffsetTime,
    pub to: OffsetTime,
}

/// A time window with its missing bounds filled in at the instant `now`:
/// `from` defaults to the start of the Dhaka month of `now`, `to` to `now`
/// on the Dhaka clock; `None` when a needed default does not exist.
pub open spec fn spec_resolve_window(
    from: Option<OffsetTime>,
    to: Option<OffsetTime>,
    now: Timestamp,
) -> Option<(OffsetTime, OffsetTime)> {
    let f = match from {
        Some(f) => Some(f),
        None => spec_month_start_in_dhaka(now),
    };
    let t = match to {
        Some(t) => Some(t),
        None => spec_in_dhaka(now),
    };
    match (f, t) {
        (Some(f), Some(t)) => Some((f, t)),
        _ => None,
    }
}

/// The window and limit of a top-list request at the instant `now`; the
/// limit defaults to 10.
pub open spec fn spec_resolve_top_params(params: TopParams, now: Timestamp) -> Option<(OffsetTime, OffsetTime, i32)> {
    match spec_resolve_window(params.from, params.to, now) {
        Some(w) => Some((w.0, w.1, match params.lim {
            Some(l) => l,
            None => DEFAULT_LIMIT,
        })),
        None => None,
    }
}

/// `r` is the default end of a window at the clock reading `now`: `now` on
/// the Dhaka clock, at UTC+6 (UTC+7 in the second half of 2009).
pub open spec fn is_default_to(r: OffsetTime, now: Timestamp) -> bool {
    r == OffsetTime { secs: now.secs, nanos: now.nanos, offset_secs: dhaka_offset_since_1970(now.secs as int) as i32 }
}

/// `r` is the default start of a window at the clock reading `now`: a Dhaka
/// midnight, not after `now` and less than 31 days before it on the Dhaka
/// wall clock.
pub open spec fn is_default_from(r: OffsetTime, now: Timestamp) -> bool {
    let local_start = r.secs + r.offset_secs;
    let local_now = now.secs + dhaka_offset_since_1970(now.secs as int);
    &&& r.nanos == 0
    &&& local_start % 86400 == 0
    &&& local_start <= local_now < local_start + 31 * 86400
    &&& r.offset_secs == dhaka_midnight_offset_since_1970(local_start)
}

/// What the defaults of a window filled in at the clock reading `now` are.
pub open spec fn defaults_hold(
    from: Option<OffsetTime>,
    to: Option<OffsetTime>,
    now: Timestamp,
    w0: OffsetTime,
    w1: OffsetTime,
) -> bool {
    &&& (from matches Some(f) ==> w0 == f)
    &&& (to matches Some(t) ==> w1 == t)
    &&& (to is None && is_clock_reading(now) ==> is_default_to(w1, now))
    &&& (from is None && is_clock_reading(now) && now.secs <= LAST_CHRONO_SECS - 86400
        ==> is_default_from(w0, now))
}

fn resolve_window(from: Option<OffsetTime>, to: Option<OffsetTime>, now: &Timestamp) -> (res: Option<(OffsetTime, OffsetTime)>)
    ensures
        res == spec_resolve_window(from, to, *now),
        is_clock_reading(*now) && (from is Some || now.secs <= LAST_CHRONO_SECS - 86400) ==> res is Some,
        from is Some && to is Some ==> res is Some,
        res matches Some(w) ==> defaults_hold(from, to, *now, w.0, w.1),
{
    let f = match from {
        Some(f) => f,
        None => match month_start_in_dhaka(now) {
            Some(m) => m,
            None => return None,
        },
    };
    let t = match to {
        Some(t) => t,
        None => match in_dhaka(now) {
            Some(d) => d,
            None => return None,
        },
    };
    Some((f, t))
}

/// The window and limit of a top-list request, with the defaults taken at
/// the instant `now`. A default exists for every instant the clock can give,
/// except that the month start may not exist within a day of the end of
/// chrono's range.
pub fn resolve_top_params_at(params: TopParams, now: &Timestamp) -> (res: Option<(OffsetTime, OffsetTime, i32)>)
    ensures
        res == spec_resolve_top_params(params, *now),
        is_clock_reading(*now) && (params.from is Some || now.secs <= LAST_CHRONO_SECS - 86400) ==> res is Some,
        params.from is Some && params.to is Some ==> res is Some,
        res matches Some(r) ==> defaults_hold(params.from, params.to, *now, r.0, r.1),
{
    match resolve_window(params.from, params.to, now) {
        Some(w) => {
            let lim = match params.lim {
                Some(l) => l,
                None => DEFAULT_LIMIT,
            };
            Some((w.0, w.1, lim))
        },
        None => None,
    }
}

/// The window of a statistics request, with the defaults taken at the
/// instant `now`, as for the top lists.
pub fn resolve_stats_params_at(params: StatsParams, now: &Timestamp) -> (res: Option<(OffsetTime, OffsetTime)>)
    ensures
        res == spec_resolve_window(params.from, params.to, *now),
        is_clock_reading(*now) && (params.from is Some || now.secs <= LAST_CHRONO_SECS - 86400) ==> res is Some,
        params.from is Some && params.to is Some ==> res is Some,
        res matches Some(r) ==> defaults_hold(params.from, params.to, *now, r.0, r.1),
{
    resolve_window(params.from, params.to, now)
}

/// The window and limit of a top-list request at a clock reading.
pub open spec fn spec_resolve_top_params_read(params: TopParams, reading: Option<(u64, u32)>) -> Option<(OffsetTime, OffsetTime, i32)> {
    match spec_clock_instant(reading) {
        Some(now) => spec_resolve_top_params(params, now),
        None => None,
    }
}

/// The window of a statistics request at a clock reading.
pub open spec fn spec_resolve_stats_params_read(params: StatsParams, reading: Option<(u64, u32)>) -> Option<(OffsetTime, OffsetTime)> {
    match spec_clock_instant(reading) {
        Some(now) => spec_resolve_window(params.from, params.to, now),
        None => None,
    }
}

/// The window and limit of a top-list request: `from` defaults to the start
/// of the current Dhaka month, `to` to the current Dhaka time, `lim` to 10.
/// With both bounds given the clock is not read; otherwise the defaults are
/// those of the instant the clock reads, and `None` comes when the clock
/// reads before 1970 or beyond chrono's range (or, for the month start,
/// possibly within a day of its end).
pub fn resolve_top_params(params: TopParams) -> (res: Option<(OffsetTime, OffsetTime, i32)>)
    ensures
        params.from is Some && params.to is Some ==> res == spec_resolve_top_params(params, Timestamp { secs: 0, nanos: 0 })
            && res is Some,
        params.from is None || params.to is None ==> exists|reading: Option<(u64, u32)>|
            #[trigger] is_epoch_reading(reading) && res == spec_resolve_top_params_read(params, reading),
        res matches Some(r) ==> exists|now: Timestamp| #[trigger] is_clock_reading(now)
            && res == spec_resolve_top_params(params, now)
            && defaults_hold(params.from, params.to, now, r.0, r.1),
        res matches Some(r) ==> {
            &&& (params.from matches Some(f) ==> r.0 == f)
            &&& (params.to matches Some(t) ==> r.1 == t)
            &&& r.2 == (match params.lim {
                Some(l) => l,
                None => DEFAULT_LIMIT,
            })
        },
{
    if params.from.is_some() && params.to.is_some() {
        let origin = Timestamp { secs: 0, nanos: 0 };
        let res = resolve_top_params_at(params, &origin);
        assert(is_clock_reading(origin));
        return res;
    }
    let clock = utc_now();
    let ghost reading = choose|r: Option<(u64, u32)>| #[trigger] is_epoch_reading(r) && clock == spec_clock_instant(r);
    match clock {
        Some(now) => {
            let res = resolve_top_params_at(params, &now);
            assert(is_clock_reading(now));
            assert(is_epoch_reading(reading) && res == spec_resolve_top_params_read(params, reading));
            res
        },
        None => {
            assert(is_epoch_reading(reading) && spec_resolve_top_params_read(params, reading) is None);
            None
        },
    }
}

/// The window of a statistics request, with the same defaults as the top
/// lists.
pub fn resolve_stats_params(params: StatsParams) -> (res: Option<(OffsetTime, OffsetTime)>)
    ensures
        params.from is Some && params.to is Some ==> res == spec_resolve_window(params.from, params.to, Timestamp { secs: 0, nanos: 0 })
            && res is Some,
        params.from is None || params.to is None ==> exists|reading: Option<(u64, u32)>|
            #[trigger] is_epoch_reading(reading) && res == spec_resolve_stats_params_read(params, reading),
        res matches Some(r) ==> exists|now: Timestamp| #[trigger] is_clock_reading(now)
            && res == spec_resolve_window(params.from, params.to, now)
            && defaults_hold(params.from, params.to, now, r.0, r.1),
        res matches Some(r) ==> {
            &&& (params.from matches Some(f) ==> r.0 == f)
            &&& (params.to matches Some(t) ==> r.1 == t)
        },
{
    if params.from.is_some() && params.to.is_some() {
        let origin = Timestamp { secs: 0, nanos: 0 };
        let res = resolve_stats_params_at(params, &origin);
        assert(is_clock_reading(origin));
        return res;
    }
    let clock = utc_now();
    let ghost reading = choose|r: Option<(u64, u32)>| #[trigger] is_epoch_reading(r) && clock == spec_clock_instant(r);
    match clock {
        Some(now) => {
            let res = resolve_stats_params_at(params, &now);
            assert(is_clock_reading(now));
            assert(is_epoch_reading(reading) && res == spec_resolve_stats_params_read(params, reading));
            res
        },
        None => {
            assert(is_epoch_reading(reading) && spec_resolve_stats_params_read(params, reading) is None);
            None
        },
    }
}

/// The HTTP answer to a query outcome: its rows (an empty list when it found
/// none) or, when it failed, status 500.
pub open spec fn spec_reply<T, E>(outcome: Result<Option<Vec<T>>, E>) -> Result<Seq<T>, u16> {
    match outcome {
        Ok(Some(v)) => Ok(v@),
        Ok(None) => Ok(Seq::empty()),
        Err(_) => Err(INTERNAL_SERVER_ERROR),
    }
}

pub open spec fn reply_view<T>(r: Result<Vec<T>, u16>) -> Result<Seq<T>, u16> {
    match r {
        Ok(v) => Ok(v@),
        Err(s) => Err(s),
    }
}

fn reply<T, E>(outcome: Result<Option<Vec<T>>, E>) -> (res: Result<Vec<T>, u16>)
    ensures
        reply_view(res) == spec_reply(outcome),
{
    match outcome {
        Ok(Some(v)) => Ok(v),
        Ok(None) => Ok(Vec::new()),
        Err(_) => Err(INTERNAL_SERVER_ERROR),
    }
}

/// The answer of `GET /top/artists` to the top-artists query's outcome.
pub fn get_top_artists<E>(outcome: Result<Option<Vec<ListArtist>>, E>) -> (res: Result<Vec<ListArtist>, u16>)
    ensures
        reply_view(res) == spec_reply(outcome),
{
    reply(outcome)
}

/// The answer of `GET /top/albums` to the top-albums query's outcome.
pub fn get_top_albums<E>(outcome: Result<Option<Vec<ListAlbum>>, E>) -> (res: Result<Vec<ListAlbum>, u16>)
    ensures
        reply_view(res) == spec_reply(outcome),
{
    reply(outcome)
}

/// The answer of `GET /top/tracks` to the top-tracks query's outcome.
pub fn get_top_tracks<E>(outcome: Result<Option<Vec<ListTrack>>, E>) -> (res: Result<Vec<ListTrack>, u16>)
    ensures
        reply_view(res) == spec_reply(outcome),
{
    reply(outcome)
}

/// The answer of `GET /stats` to the statistics query's outcome.
pub fn get_stats<E>(outcome: Result<Option<Vec<ListStats>>, E>) -> (res: Result<Vec<ListStats>, u16>)
    ensures
        reply_view(res) == spec_reply(outcome),
{
    reply(outcome)
}

/// The answer of `GET /history` to the play-history query's outcome.
pub fn get_play_history<E>(outcome: Result<Option<Vec<ListPlay>>, E>) -> (res: Result<Vec<ListPlay>, u16>)
    ensures
        reply_view(res) == spec_reply(outcome),
{
    reply(outcome)
}

/// The answer of `GET /recents` to the recents query's outcome.
pub fn get_recents<E>(outcome: Result<Option<Vec<ListPlay>>, E>) -> (res: Result<Vec<ListPlay>, u16>)
    ensures
        reply_view(res) == spec_reply(outcome),
{
    reply(outcome)
}

/// Whatever rows a query fetches reach the client unchanged, with status
/// 200; in particular an empty result is answered with an empty list, not a
/// missing resource.
pub proof fn lemma_fetched_rows_reach_client<T, E>(rows: Vec<T>)
    ensures
        spec_reply::<T, E>(Ok(spec_rows_or_none(rows))) == Ok::<Seq<T>, u16>(rows@),
{
    if rows@.len() == 0 {
        assert(rows@ =~= Seq::<T>::empty());
    }
}

/// A failed query is answered with status 500, whatever the error.
pub proof fn lemma_failed_query_is_server_error<T, E>(e: E)
    ensures
        spec_reply::<T, E>(Err(e)) == Err::<Seq<T>, u16>(INTERNAL_SERVER_ERROR),
{
}

} // verus!
