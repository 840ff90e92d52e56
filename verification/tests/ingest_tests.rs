use spotter::database::{insert_album_artist, insert_track_album, insert_track_artist, DbWrite};
use spotter::spotify_data::{
    build_album, build_artist, build_play_data, first_image_url, get_recent_plays, RecentAlbum,
    RecentArtist, RecentItem, RecentTrack,
};
use spotter::sync::{
    inserted_message, insert_plan, on_write_failure, poll_steps, recent_request, OnWriteFailure,
    PollStep, POLL_INTERVAL_SECS, RECENT_LIMIT,
};
use spotter::time::Timestamp;

fn artist(id: Option<&str>, name: &str, images: Option<Vec<&str>>) -> RecentArtist {
    RecentArtist {
        id: id.map(|s| s.to_string()),
        name: name.to_string(),
        href: id.map(|s| format!("https://api.spotify.com/v1/artists/{}", s)),
        images: images.map(|v| v.into_iter().map(|s| s.to_string()).collect()),
    }
}

fn album() -> RecentAlbum {
    RecentAlbum {
        id: Some("alb1".to_string()),
        name: "Album One".to_string(),
        album_type: Some("album".to_string()),
        release_date: Some("2019-05-03".to_string()),
        images: vec!["https://i.scdn.co/big".to_string(), "https://i.scdn.co/small".to_string()],
        href: Some("https://api.spotify.com/v1/albums/alb1".to_string()),
    }
}

fn item(id: Option<&str>, name: &str, secs: i64) -> RecentItem {
    RecentItem {
        track: RecentTrack {
            id: id.map(|s| s.to_string()),
            name: name.to_string(),
            duration_ms: 215000,
            popularity: 63,
            href: None,
            artists: vec![
                artist(Some("art1"), "First", Some(vec!["https://img/a1"])),
                artist(None, "Local", None),
                artist(Some("art2"), "Second", None),
            ],
            album: album(),
        },
        played_at: Timestamp { secs, nanos: 0 },
    }
}

#[test]
fn artist_rows_need_an_id() {
    let a = build_artist(&artist(Some("art1"), "First", Some(vec!["u1", "u2"]))).unwrap();
    assert_eq!(a.id, "spotify:artist:art1");
    assert_eq!(a.name, "First");
    assert_eq!(a.image_link, "u1");
    assert_eq!(a.link, "https://api.spotify.com/v1/artists/art1");
    assert!(build_artist(&artist(None, "Local", Some(vec!["u"]))).is_none());
}

#[test]
fn artist_without_images_gets_empty_link() {
    let a = build_artist(&artist(Some("x"), "X", Some(vec![]))).unwrap();
    assert_eq!(a.image_link, "");
    let b = build_artist(&artist(Some("x"), "X", None)).unwrap();
    assert_eq!(b.image_link, "");
}

#[test]
fn first_image_url_takes_the_first() {
    assert_eq!(first_image_url(&vec!["a".to_string(), "b".to_string()]), Some("a".to_string()));
    assert_eq!(first_image_url(&vec![]), None);
}

#[test]
fn album_row_fills_defaults() {
    let a = build_album(&album());
    assert_eq!(a.id, "spotify:album:alb1");
    assert_eq!(a.album_type, "\"album\"");
    assert_eq!(a.release_date, "2019-05-03");
    assert_eq!(a.image_link, "https://i.scdn.co/big");
    let bare = RecentAlbum {
        id: None,
        name: "Loose".to_string(),
        album_type: None,
        release_date: None,
        images: vec![],
        href: None,
    };
    let b = build_album(&bare);
    assert_eq!((b.id.as_str(), b.album_type.as_str(), b.release_date.as_str(), b.image_link.as_str(), b.link.as_str()), ("", "", "", "", ""));
    assert_eq!(b.name, "Loose");
}

#[test]
fn track_row_truncates_like_a_cast() {
    let mut it = item(Some("t1"), "Song", 100);
    it.track.duration_ms = (1i64 << 32) + 5;
    it.track.popularity = u32::MAX;
    let d = build_play_data(&it).unwrap();
    assert_eq!(d.track.duration, 5);
    assert_eq!(d.track.popularity, -1);
    assert_eq!(d.track.link, "");
}

#[test]
fn recent_plays_skip_local_tracks() {
    let items = vec![item(Some("t1"), "One", 10), item(None, "Local", 20), item(Some("t3"), "Three", 30)];
    let plays = get_recent_plays(&items);
    assert_eq!(plays.len(), 2);
    assert_eq!(plays[0].track.id, "spotify:track:t1");
    assert_eq!(plays[1].track.id, "spotify:track:t3");
    assert_eq!(plays[1].track.name, "Three");
    assert_eq!(plays[1].track.duration, 215000);
    assert_eq!(plays[1].track.popularity, 63);
    assert_eq!(plays[1].play.played_at, Timestamp { secs: 30, nanos: 0 });
    for p in &plays {
        assert_eq!(p.play.track_id, p.track.id);
        assert_eq!(p.artists.len(), 2);
        assert_eq!(p.artists[0].id, "spotify:artist:art1");
        assert_eq!(p.artists[0].image_link, "https://img/a1");
        assert_eq!(p.artists[1].id, "spotify:artist:art2");
        assert_eq!(p.artists[1].image_link, "");
        assert_eq!(p.album.id, "spotify:album:alb1");
    }
    assert!(get_recent_plays(&vec![]).is_empty());
}

#[test]
fn insert_plan_writes_rows_before_links() {
    let d = build_play_data(&item(Some("t1"), "One", 10)).unwrap();
    let plan = insert_plan(&d);
    assert_eq!(plan.len(), 2 + 3 + 4 + 1);
    let tags: Vec<String> = plan
        .iter()
        .map(|w| match w {
            DbWrite::Artist(a) => format!("artist {}", a.id),
            DbWrite::Album(a) => format!("album {}", a.id),
            DbWrite::Track(t) => format!("track {}", t.id),
            DbWrite::Play(p) => format!("play {} {}", p.track_id, p.played_at.secs),
            DbWrite::AlbumArtist { album_id, artist_id } => format!("album_artist {} {}", album_id, artist_id),
            DbWrite::TrackArtist { track_id, artist_id } => format!("track_artist {} {}", track_id, artist_id),
            DbWrite::TrackAlbum { track_id, album_id } => format!("track_album {} {}", track_id, album_id),
        })
        .collect();
    assert_eq!(
        tags,
        vec![
            "artist spotify:artist:art1",
            "artist spotify:artist:art2",
            "album spotify:album:alb1",
            "track spotify:track:t1",
            "play spotify:track:t1 10",
            "album_artist spotify:album:alb1 spotify:artist:art1",
            "track_artist spotify:track:t1 spotify:artist:art1",
            "album_artist spotify:album:alb1 spotify:artist:art2",
            "track_artist spotify:track:t1 spotify:artist:art2",
            "track_album spotify:track:t1 spotify:album:alb1",
        ]
    );
}

#[test]
fn only_artist_failures_are_tolerated() {
    let d = build_play_data(&item(Some("t1"), "One", 10)).unwrap();
    let plan = insert_plan(&d);
    for w in &plan {
        let expected = if matches!(w, DbWrite::Artist(_)) { OnWriteFailure::LogAndContinue } else { OnWriteFailure::Stop };
        assert_eq!(on_write_failure(w), expected);
    }
}

#[test]
fn poll_asks_for_fifty_after_the_last_play() {
    let r = recent_request(Some(Timestamp { secs: 99, nanos: 1 }));
    assert_eq!(r.limit, 50);
    assert_eq!(RECENT_LIMIT, 50);
    assert_eq!(r.after, Some(Timestamp { secs: 99, nanos: 1 }));
    assert_eq!(recent_request(None).after, None);
}

#[test]
fn inserted_message_names_the_track() {
    let d = build_play_data(&item(Some("t1"), "One", 10)).unwrap();
    assert_eq!(inserted_message(&d), "Inserted One :)");
}

#[test]
fn poll_steps_store_each_listen_then_report_it() {
    let items = vec![item(Some("t1"), "One", 10), item(None, "Local", 20), item(Some("t3"), "Three", 30)];
    let steps = poll_steps(&items);
    assert_eq!(steps.len(), 2 * (10 + 1));
    let reports: Vec<(usize, String)> = steps
        .iter()
        .enumerate()
        .filter_map(|(i, s)| match s {
            PollStep::Report(line) => Some((i, line.clone())),
            PollStep::Write(_) => None,
        })
        .collect();
    assert_eq!(reports, vec![(10, "Inserted One :)".to_string()), (21, "Inserted Three :)".to_string())]);
    match &steps[15] {
        PollStep::Write(DbWrite::Play(p)) => assert_eq!(p.track_id, "spotify:track:t3"),
        other => panic!("unexpected step {:?}", other),
    }
    assert!(poll_steps(&vec![item(None, "Local", 1)]).is_empty());
}

#[test]
fn every_link_follows_its_rows() {
    // The ordering law on a concrete poll: each row a write refers to was written before.
    let items = vec![item(Some("t1"), "One", 10), item(Some("t3"), "Three", 30)];
    let steps = poll_steps(&items);
    let mut seen: Vec<String> = Vec::new();
    for s in &steps {
        if let PollStep::Write(w) = s {
            match w {
                DbWrite::Artist(a) => seen.push(a.id.clone()),
                DbWrite::Album(a) => seen.push(a.id.clone()),
                DbWrite::Track(t) => seen.push(t.id.clone()),
                DbWrite::Play(p) => assert!(seen.contains(&p.track_id)),
                DbWrite::AlbumArtist { album_id, artist_id } => assert!(seen.contains(album_id) && seen.contains(artist_id)),
                DbWrite::TrackArtist { track_id, artist_id } => assert!(seen.contains(track_id) && seen.contains(artist_id)),
                DbWrite::TrackAlbum { track_id, album_id } => assert!(seen.contains(track_id) && seen.contains(album_id)),
            }
        }
    }
}

#[test]
fn polls_every_five_minutes() {
    assert_eq!(POLL_INTERVAL_SECS, 300);
}

#[test]
fn rows_describe_their_own_inserts() {
    let d = build_play_data(&item(Some("t1"), "One", 10)).unwrap();
    match d.artists[0].insert() {
        DbWrite::Artist(a) => assert_eq!((a.id.as_str(), a.name.as_str()), ("spotify:artist:art1", "First")),
        other => panic!("unexpected write {:?}", other),
    }
    match d.album.insert() {
        DbWrite::Album(a) => assert_eq!(a.release_date, "2019-05-03"),
        other => panic!("unexpected write {:?}", other),
    }
    match d.track.insert() {
        DbWrite::Track(t) => assert_eq!(t.duration, 215000),
        other => panic!("unexpected write {:?}", other),
    }
    match d.play.insert() {
        DbWrite::Play(p) => assert_eq!(p.played_at, Timestamp { secs: 10, nanos: 0 }),
        other => panic!("unexpected write {:?}", other),
    }
    match insert_album_artist("al", "ar") {
        DbWrite::AlbumArtist { album_id, artist_id } => assert_eq!((album_id.as_str(), artist_id.as_str()), ("al", "ar")),
        other => panic!("unexpected write {:?}", other),
    }
    match insert_track_artist("tr", "ar") {
        DbWrite::TrackArtist { track_id, artist_id } => assert_eq!((track_id.as_str(), artist_id.as_str()), ("tr", "ar")),
        other => panic!("unexpected write {:?}", other),
    }
    match insert_track_album("tr", "al") {
        DbWrite::TrackAlbum { track_id, album_id } => assert_eq!((track_id.as_str(), album_id.as_str()), ("tr", "al")),
        other => panic!("unexpected write {:?}", other),
    }
}

#[test]
fn artist_images_only_for_stored_artists() {
    assert!(spotter::spotify_data::fetches_artist_images(true, true));
    assert!(!spotter::spotify_data::fetches_artist_images(false, true));
    assert!(!spotter::spotify_data::fetches_artist_images(true, false));
    assert!(!spotter::spotify_data::fetches_artist_images(false, false));
}

#[test]
fn failure_reports_name_the_error() {
    assert_eq!(spotter::sync::poll_failure_report("timeout"), "Poll failed: timeout");
    assert_eq!(spotter::sync::artist_failure_report("duplicate"), "Failed to insert artist: duplicate");
}
