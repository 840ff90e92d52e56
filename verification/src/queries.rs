//! The rows that the statistics API answers with, what becomes of a query's
//! rows, and the listening totals rendered as text. The SQL itself runs in
//! PostgreSQL, from the application.
use crate::text::{decimal, format_int};
use crate::time::OffsetTime;
use vstd::prelude::*;

verus! {

/// An artist of the top-artists list; `play_time` in minutes.
#[derive(Debug)]
pub struct ListArtist {
    pub name: String,
    pub play_count: i64,
    pub play_time: i64,
    pub first_listened: OffsetTime,
    pub first_listened_track: String,
}

/// An album of the top-albums list; `artists` is the comma-separated,
/// alphabetical list of its credited artists.
#[derive(Debug)]
pub struct ListAlbum {
    pub name: String,
    pub play_count: i64,
    pub play_time: i64,
    pub artists: String,
    pub first_listened: OffsetTime,
    pub first_listened_track: String,
}

/// A track of the top-tracks list.
#[derive(Debug)]
pub struct ListTrack {
    pub name: String,
    pub play_count: i64,
    pub play_time: i64,
    pub artists: String,
    pub album: String,
    pub first_listened: OffsetTime,
}

/// One listen of the history and recents lists.
#[derive(Debug)]
pub struct ListPlay {
    pub name: String,
    pub artists: String,
    pub album: String,
    pub played_at: OffsetTime,
}

/// The aggregate listening statistics of a time range.
#[derive(Debug)]
pub struct ListStats {
    pub total_plays: i64,
    pub unique_tracks: i64,
    pub unique_artists: i64,
    pub unique_albums: i64,
    pub total_playtime: String,
    pub avg_release_year: String,
}

/// The totals that the statistics query sums up over a time range: the
/// counts, the summed track durations in milliseconds, and the sum and
/// number of the known release years.
#[derive(Clone, Copy, Debug, PartialEq, Eq)]
pub struct StatsTotals {
    pub total_plays: i64,
    pub unique_tracks: i64,
    pub unique_artists: i64,
    pub unique_albums: i64,
    pub total_duration_ms: i64,
    pub release_year_sum: i64,
    pub release_year_count: i64,
}

/// A query's rows, or `None` when it found none.
pub open spec fn spec_rows_or_none<T>(rows: Vec<T>) -> Option<Vec<T>> {
    if rows@.len() == 0 { None } else { Some(rows) }
}

fn rows_or_none<T>(rows: Vec<T>) -> (res: Option<Vec<T>>)
    ensures
        res == spec_rows_or_none(rows),
{
    if rows.len() == 0 { None } else { Some(rows) }
}

/// The answer of the top-artists query for the rows it fetched.
pub fn query_top_artists(rows: Vec<ListArtist>) -> (res: Option<Vec<ListArtist>>)
    ensures
        res == spec_rows_or_none(rows),
{
    rows_or_none(rows)
}

/// The answer of the top-albums query for the rows it fetched.
pub fn query_top_albums(rows: Vec<ListAlbum>) -> (res: Option<Vec<ListAlbum>>)
    ensures
        res == spec_rows_or_none(rows),
{
    rows_or_none(rows)
}

/// The answer of the top-tracks query for the rows it fetched.
pub fn query_top_tracks(rows: Vec<ListTrack>) -> (res: Option<Vec<ListTrack>>)
    ensures
        res == spec_rows_or_none(rows),
{
    rows_or_none(rows)
}

/// The answer of the play-history query for the rows it fetched.
pub fn query_play_history(rows: Vec<ListPlay>) -> (res: Option<Vec<ListPlay>>)
    ensures
        res == spec_rows_or_none(rows),
{
    rows_or_none(rows)
}

/// The answer of the recents query for the rows it fetched.
pub fn query_recents(rows: Vec<ListPlay>) -> (res: Option<Vec<ListPlay>>)
    ensures
        res == spec_rows_or_none(rows),
{
    rows_or_none(rows)
}

/// The answer of the statistics query for the totals it fetched: each
/// totals row rendered as a statistics row.
pub fn query_stats(rows: Vec<StatsTotals>) -> (res: Option<Vec<ListStats>>)
    ensures
        match res {
            None => rows@.len() == 0,
            Some(v) => rows@.len() > 0 && v@.len() == rows@.len()
                && forall|i: int| 0 <= i < rows@.len() ==> stats_row_matches(#[trigger] v@[i], rows@[i]),
        },
{
    if rows.len() == 0 {
        return None;
    }
    let mut out: Vec<ListStats> = Vec::new();
    let mut i: usize = 0;
    while i < rows.len()
        invariant
            i <= rows.len(),
            out@.len() == i,
            forall|j: int| 0 <= j < i ==> stats_row_matches(#[trigger] out@[j], rows@[j]),
        decreases rows.len() - i,
    {
        out.push(stats_row(&rows[i]));
        i = i + 1;
    }
    Some(out)
}

/// Integer division that rounds toward zero, as Rust's and PostgreSQL's
/// integer `/` do (`b > 0`).
pub open spec fn trunc_div(a: int, b: int) -> int {
    if a >= 0 { a / b } else { -((-a) / b) }
}

/// The remainder that goes with `trunc_div`: it has the sign of `a`.
pub open spec fn trunc_rem(a: int, b: int) -> int {
    a - b * trunc_div(a, b)
}

/// The whole hours of a duration in milliseconds.
pub open spec fn playtime_hours(ms: int) -> int {
    trunc_div(ms, 3600000)
}

/// The whole minutes of a duration in milliseconds, beyond its whole hours.
pub open spec fn playtime_minutes(ms: int) -> int {
    trunc_div(trunc_rem(ms, 3600000), 60000)
}

/// `{hours}h {minutes}m` for a total listening time in milliseconds.
pub open spec fn spec_playtime_text(ms: int) -> Seq<char> {
    decimal(playtime_hours(ms)) + "h "@ + decimal(playtime_minutes(ms)) + "m"@
}

/// The nearest integer to `s / c` (`c > 0`), halves rounded away from zero,
/// as PostgreSQL's `ROUND` does with an average.
pub open spec fn round_half_away(s: int, c: int) -> int {
    if s >= 0 { (2 * s + c) / (2 * c) } else { -((2 * (-s) + c) / (2 * c)) }
}

/// The average release year as text: the rounded average, or "0" when no
/// release year is known.
pub open spec fn spec_avg_year_text(sum: int, count: int) -> Seq<char> {
    if count <= 0 { "0"@ } else { decimal(round_half_away(sum, count)) }
}

/// The statistics row `row` shows the totals `t`.
pub open spec fn stats_row_matches(row: ListStats, t: StatsTotals) -> bool {
    &&& row.total_plays == t.total_plays
    &&& row.unique_tracks == t.unique_tracks
    &&& row.unique_artists == t.unique_artists
    &&& row.unique_albums == t.unique_albums
    &&& row.total_playtime@ == spec_playtime_text(t.total_duration_ms as int)
    &&& row.avg_release_year@ == spec_avg_year_text(t.release_year_sum as int, t.release_year_count as int)
}

/// The listening time `ms` (milliseconds) as `{hours}h {minutes}m`, e.g.
/// `14h 32m`.
pub fn format_playtime(ms: i64) -> (res: String)
    ensures
        res@ == spec_playtime_text(ms as int),
{
    let mag: u64 = if ms < 0 {
        if ms == i64::MIN { 9223372036854775808u64 } else { (-ms) as u64 }
    } else {
        ms as u64
    };
    let h: u64 = mag / 3600000;
    let r: u64 = mag % 3600000;
    let m: u64 = r / 60000;
    let (hours, minutes): (i128, i128) = if ms < 0 {
        (-(h as i128), -(m as i128))
    } else {
        (h as i128, m as i128)
    };
    proof {
        assert(mag == 3600000 * h + r) by (nonlinear_arith)
            requires h == mag / 3600000, r == mag % 3600000;
        if ms < 0 {
            assert(trunc_div(ms as int, 3600000) == -(h as int));
            assert(trunc_rem(ms as int, 3600000) == -(r as int));
        } else {
            assert(trunc_rem(ms as int, 3600000) == r as int);
        }
    }
    let mut out = format_int(hours);
    out.append("h ");
    let mins = format_int(minutes);
    out.append(mins.as_str());
    out.append("m");
    out
}

/// The rounded average release year as text, "0" when there is none.
pub fn format_avg_year(sum: i64, count: i64) -> (res: String)
    ensures
        res@ == spec_avg_year_text(sum as int, count as int),
{
    if count <= 0 {
        return String::from_str("0");
    }
    let c: u128 = count as u128;
    let mag: u128 = if sum < 0 {
        if sum == i64::MIN { 9223372036854775808u128 } else { (-sum) as u128 }
    } else {
        sum as u128
    };
    let q: u128 = (2 * mag + c) / (2 * c);
    proof {
        assert(q <= 2 * mag + c) by (nonlinear_arith)
            requires q == (2 * mag + c) / (2 * c), c > 0;
    }
    let v: i128 = if sum < 0 { -(q as i128) } else { q as i128 };
    format_int(v)
}

/// The statistics row for the totals of a time range.
pub fn stats_row(t: &StatsTotals) -> (res: ListStats)
    ensures
        stats_row_matches(res, *t),
{
    ListStats {
        total_plays: t.total_plays,
        unique_tracks: t.unique_tracks,
        unique_artists: t.unique_artists,
        unique_albums: t.unique_albums,
        total_playtime: format_playtime(t.total_duration_ms),
        avg_release_year: format_avg_year(t.release_year_sum, t.release_year_count),
    }
}

/// For a non-negative listening time, the minutes shown lie in 0..60 and,
/// with the hours, make up exactly the whole minutes of the total.
pub proof fn lemma_playtime_splits_whole_minutes(ms: int)
    requires
        ms >= 0,
    ensures
        0 <= playtime_minutes(ms) < 60,
        60 * playtime_hours(ms) + playtime_minutes(ms) == ms / 60000,
{
    let h = ms / 3600000;
    let r = ms % 3600000;
    assert(ms == 3600000 * h + r && 0 <= r < 3600000) by (nonlinear_arith)
        requires ms >= 0, h == ms / 3600000, r == ms % 3600000;
    assert(trunc_rem(ms, 3600000) == r);
    let m = r / 60000;
    assert(0 <= m < 60) by (nonlinear_arith)
        requires 0 <= r < 3600000, m == r / 60000;
    assert(ms / 60000 == 60 * h + m) by (nonlinear_arith)
        requires ms == 3600000 * h + r, 0 <= r < 3600000, m == r / 60000, h >= 0;
}

/// The rounded average is the integer nearest to `s / c`, and a tie goes
/// to the one farther from zero.
pub proof fn lemma_round_half_away_is_nearest(s: int, c: int)
    requires
        c > 0,
    ensures
        -c <= 2 * (s - round_half_away(s, c) * c) <= c,
        2 * (s - round_half_away(s, c) * c) == c ==> s < 0,
        2 * (s - round_half_away(s, c) * c) == -c ==> s > 0,
{
    let a = if s >= 0 { s } else { -s };
    let q = (2 * a + c) / (2 * c);
    let r = (2 * a + c) % (2 * c);
    assert(2 * a + c == 2 * c * q + r && 0 <= r < 2 * c) by (nonlinear_arith)
        requires c > 0, a >= 0, q == (2 * a + c) / (2 * c), r == (2 * a + c) % (2 * c);
    assert(2 * (a - q * c) == r - c) by (nonlinear_arith)
        requires 2 * a + c == 2 * c * q + r;
    if r == 0 {
        assert(a != 0) by (nonlinear_arith)
            requires 2 * a + c == 2 * c * q, c > 0, a >= 0;
    }
    if s >= 0 {
        assert(round_half_away(s, c) == q);
    } else {
        assert(round_half_away(s, c) == -q);
        assert(2 * (s - (-q) * c) == -(2 * (a - q * c))) by (nonlinear_arith)
            requires s == -a;
    }
}

} // verus!
