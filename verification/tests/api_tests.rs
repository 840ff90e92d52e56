use spotter::handle::{
    get_play_history, get_recents, get_stats, get_top_albums, get_top_artists, get_top_tracks,
    resolve_stats_params, resolve_stats_params_at, resolve_top_params, resolve_top_params_at,
    StatsParams, TopParams, INTERNAL_SERVER_ERROR,
};
use spotter::queries::{
    format_avg_year, format_playtime, query_play_history, query_recents, query_stats,
    query_top_albums, query_top_artists, query_top_tracks, stats_row, ListAlbum, ListArtist,
    ListPlay, ListTrack, StatsTotals,
};
use spotter::time::{OffsetTime, Timestamp};

fn t(secs: i64) -> OffsetTime {
    OffsetTime { secs, nanos: 0, offset_secs: 21600 }
}

fn artist_row(name: &str, count: i64) -> ListArtist {
    ListArtist { name: name.to_string(), play_count: count, play_time: 3, first_listened: t(1), first_listened_track: "x".to_string() }
}

#[test]
fn playtime_reads_hours_and_minutes() {
    assert_eq!(format_playtime(52320000), "14h 32m");
    assert_eq!(format_playtime(52379999), "14h 32m");
    assert_eq!(format_playtime(0), "0h 0m");
    assert_eq!(format_playtime(59999), "0h 0m");
    assert_eq!(format_playtime(3600000), "1h 0m");
    assert_eq!(format_playtime(-300000), "0h -5m");
    assert_eq!(format_playtime(-3960000), "-1h -6m");
}

#[test]
fn average_year_rounds_half_away_from_zero() {
    assert_eq!(format_avg_year(0, 0), "0");
    assert_eq!(format_avg_year(4038, 2), "2019");
    assert_eq!(format_avg_year(4039, 2), "2020");
    assert_eq!(format_avg_year(6058, 3), "2019");
    assert_eq!(format_avg_year(-5, 2), "-3");
    assert_eq!(format_avg_year(-4, 3), "-1");
    assert_eq!(format_avg_year(1, 3), "0");
}

#[test]
fn stats_row_formats_totals() {
    let s = stats_row(&StatsTotals {
        total_plays: 40,
        unique_tracks: 30,
        unique_artists: 12,
        unique_albums: 9,
        total_duration_ms: 52320000,
        release_year_sum: 2019 * 39 + 2021,
        release_year_count: 40,
    });
    assert_eq!((s.total_plays, s.unique_tracks, s.unique_artists, s.unique_albums), (40, 30, 12, 9));
    assert_eq!(s.total_playtime, "14h 32m");
    assert_eq!(s.avg_release_year, "2019");
}

#[test]
fn empty_queries_answer_none() {
    assert!(query_top_artists(vec![]).is_none());
    assert!(query_top_albums(vec![]).is_none());
    assert!(query_top_tracks(vec![]).is_none());
    assert!(query_play_history(vec![]).is_none());
    assert!(query_recents(vec![]).is_none());
    assert!(query_stats(vec![]).is_none());
    assert_eq!(query_top_artists(vec![artist_row("a", 5)]).unwrap().len(), 1);
    let stats = query_stats(vec![StatsTotals {
        total_plays: 0, unique_tracks: 0, unique_artists: 0, unique_albums: 0,
        total_duration_ms: 0, release_year_sum: 0, release_year_count: 0,
    }]).unwrap();
    assert_eq!(stats.len(), 1);
    assert_eq!(stats[0].total_playtime, "0h 0m");
    assert_eq!(stats[0].avg_release_year, "0");
}

#[test]
fn endpoints_answer_empty_lists_and_errors() {
    let ok: Result<Option<Vec<ListArtist>>, ()> = Ok(Some(vec![artist_row("a", 5), artist_row("b", 2)]));
    let v = get_top_artists(ok).unwrap();
    assert_eq!(v.iter().map(|a| a.name.as_str()).collect::<Vec<_>>(), vec!["a", "b"]);
    let none: Result<Option<Vec<ListArtist>>, ()> = Ok(None);
    assert!(get_top_artists(none).unwrap().is_empty());
    let err: Result<Option<Vec<ListArtist>>, &str> = Err("db down");
    assert_eq!(get_top_artists(err).unwrap_err(), 500);
    assert_eq!(INTERNAL_SERVER_ERROR, 500);
    let e2: Result<Option<Vec<ListAlbum>>, ()> = Err(());
    assert_eq!(get_top_albums(e2).unwrap_err(), 500);
    let e3: Result<Option<Vec<ListTrack>>, ()> = Ok(None);
    assert!(get_top_tracks(e3).unwrap().is_empty());
    let e4: Result<Option<Vec<ListPlay>>, ()> = Ok(None);
    assert!(get_play_history(e4).unwrap().is_empty());
    let e5: Result<Option<Vec<ListPlay>>, ()> = Err(());
    assert_eq!(get_recents(e5).unwrap_err(), 500);
    let e6: Result<Option<Vec<spotter::queries::ListStats>>, ()> = Ok(None);
    assert!(get_stats(e6).unwrap().is_empty());
}

#[test]
fn fetched_rows_reach_the_client() {
    // The law of the endpoints on concrete rows: query, then answer.
    let rows = vec![artist_row("a", 5)];
    let answered = get_top_artists::<()>(Ok(query_top_artists(rows))).unwrap();
    assert_eq!(answered.len(), 1);
    assert_eq!(answered[0].name, "a");
    let empty = get_top_artists::<()>(Ok(query_top_artists(vec![]))).unwrap();
    assert!(empty.is_empty());
}

#[test]
fn top_params_keep_given_values() {
    let r = resolve_top_params(TopParams { from: Some(t(100)), to: Some(t(200)), lim: Some(3) }).unwrap();
    assert_eq!(r, (t(100), t(200), 3));
    let r = resolve_top_params(TopParams { from: Some(t(100)), to: Some(t(200)), lim: None }).unwrap();
    assert_eq!(r.2, 10);
}

#[test]
fn top_params_default_to_this_dhaka_month() {
    let r = resolve_top_params(TopParams { from: None, to: None, lim: None }).unwrap();
    assert_eq!(r.0.nanos, 0);
    assert_eq!(r.0.offset_secs, 21600);
    assert_eq!((r.0.secs + 21600) % 86400, 0);
    assert_eq!(r.1.offset_secs, 21600);
    assert!(r.0.secs <= r.1.secs);
    assert_eq!(r.2, 10);
}

#[test]
fn stats_params_default_like_top_params() {
    let r = resolve_stats_params(StatsParams { from: Some(t(5)), to: None }).unwrap();
    assert_eq!(r.0, t(5));
    assert_eq!(r.1.offset_secs, 21600);
    let r = resolve_stats_params(StatsParams { from: Some(t(5)), to: Some(t(6)) }).unwrap();
    assert_eq!(r, (t(5), t(6)));
}

#[test]
fn defaults_at_a_given_instant() {
    // 2025-03-15T00:00Z: March in Dhaka, which began 2025-02-28T18:00Z.
    let now = Timestamp { secs: 1741996800, nanos: 7 };
    let r = resolve_top_params_at(TopParams { from: None, to: None, lim: None }, &now).unwrap();
    assert_eq!(r.0, OffsetTime { secs: 1740765600, nanos: 0, offset_secs: 21600 });
    assert_eq!(r.1, OffsetTime { secs: 1741996800, nanos: 7, offset_secs: 21600 });
    assert_eq!(r.2, 10);
    let r = resolve_top_params_at(TopParams { from: Some(t(1)), to: None, lim: Some(4) }, &now).unwrap();
    assert_eq!((r.0, r.1.secs, r.2), (t(1), 1741996800, 4));
    let r = resolve_stats_params_at(StatsParams { from: None, to: Some(t(9)) }, &now).unwrap();
    assert_eq!(r, (OffsetTime { secs: 1740765600, nanos: 0, offset_secs: 21600 }, t(9)));
}
