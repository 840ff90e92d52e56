//! The logger's polling decisions: what to ask Spotify for, which rows to
//! write for each listen and in which order, and what a failed write means.
//! The application runs the loop: it waits, queries, fetches and writes.
use crate::database::{
    ArtistView, DbWrite, DbWriteView, insert_album_artist, insert_track_album, insert_track_artist,
};
use crate::spotify_data::{
    PlayData, PlayDataView, RecentItem, get_recent_plays, play_data_views,
    spec_recent_plays, lemma_plays_refer_to_their_tracks,
};
use crate::time::Timestamp;
use vstd::prelude::*;

verus! {

/// Seconds between two polls of the recently-played history.
pub const POLL_INTERVAL_SECS: u64 = 300;

/// How many listens one poll asks for.
pub const RECENT_LIMIT: u32 = 50;

/// A request for the recently-played history: at most `limit` listens,
/// only those after `after` when it is given.
#[derive(Clone, Copy, Debug, PartialEq, Eq)]
pub struct RecentRequest {
    pub limit: u32,
    pub after: Option<Timestamp>,
}

/// The request of one poll, given the latest listen already stored.
pub fn recent_request(last_played: Option<Timestamp>) -> (res: RecentRequest)
    ensures
        res.limit == RECENT_LIMIT,
        res.after == last_played,
{
    RecentRequest { limit: RECENT_LIMIT, after: last_played }
}

pub open spec fn write_views(v: Seq<DbWrite>) -> Seq<DbWriteView> {
    v.map_values(|w: DbWrite| w@)
}

/// The junction rows of a listen: for each artist in turn, its album link
/// and then its track link.
pub open spec fn spec_links(album_id: Seq<char>, track_id: Seq<char>, artists: Seq<ArtistView>) -> Seq<DbWriteView> {
    Seq::new(
        2 * artists.len(),
        |k: int|
            if k % 2 == 0 {
                DbWriteView::AlbumArtist { album_id: album_id, artist_id: artists[k / 2].id }
            } else {
                DbWriteView::TrackArtist { track_id: track_id, artist_id: artists[k / 2].id }
            },
    )
}

/// The writes for one listen, in order: the artists, the album, the track,
/// the play, the album and track links of each artist, and the link of the
/// track to its album.
pub open spec fn spec_insert_plan(d: PlayDataView) -> Seq<DbWriteView> {
    d.artists.map_values(|a: ArtistView| DbWriteView::Artist(a))
        + seq![DbWriteView::Album(d.album), DbWriteView::Track(d.track), DbWriteView::Play(d.play)]
        + spec_links(d.album.id, d.track.id, d.artists)
        + seq![DbWriteView::TrackAlbum { track_id: d.track.id, album_id: d.album.id }]
}

/// The writes for a listen hold, in order: each artist's row, the album,
/// the track and the play, then for each artist in turn its album link and
/// its track link (exactly two links per artist, with that artist's id), and
/// last the track-album link.
pub proof fn lemma_every_artist_is_linked(d: PlayDataView)
    ensures
        spec_insert_plan(d).len() == 3 * d.artists.len() + 4,
        forall|i: int| 0 <= i < d.artists.len() ==> #[trigger] spec_insert_plan(d)[i] == DbWriteView::Artist(d.artists[i]),
        spec_insert_plan(d)[d.artists.len() as int] == DbWriteView::Album(d.album),
        spec_insert_plan(d)[d.artists.len() + 1int] == DbWriteView::Track(d.track),
        spec_insert_plan(d)[d.artists.len() + 2int] == DbWriteView::Play(d.play),
        forall|i: int| 0 <= i < d.artists.len() ==> {
            &&& #[trigger] spec_insert_plan(d)[d.artists.len() + 3 + 2 * i]
                == (DbWriteView::AlbumArtist { album_id: d.album.id, artist_id: d.artists[i].id })
            &&& spec_insert_plan(d)[d.artists.len() + 4 + 2 * i]
                == (DbWriteView::TrackArtist { track_id: d.track.id, artist_id: d.artists[i].id })
        },
        spec_insert_plan(d)[3 * d.artists.len() + 3int]
            == (DbWriteView::TrackAlbum { track_id: d.track.id, album_id: d.album.id }),
{
    let m = d.artists.len() as int;
    let plan = spec_insert_plan(d);
    let links = spec_links(d.album.id, d.track.id, d.artists);
    assert(links.len() == 2 * m);
    assert forall|i: int| 0 <= i < m implies {
        &&& #[trigger] plan[m + 3 + 2 * i]
            == (DbWriteView::AlbumArtist { album_id: d.album.id, artist_id: d.artists[i].id })
        &&& plan[m + 4 + 2 * i]
            == (DbWriteView::TrackArtist { track_id: d.track.id, artist_id: d.artists[i].id })
    } by {
        assert(plan[m + 3 + 2 * i] == links[2 * i]);
        assert(plan[m + 4 + 2 * i] == links[2 * i + 1]);
        assert((2 * i) / 2 == i);
        assert((2 * i + 1) / 2 == i);
        assert((2 * i) % 2 == 0);
        assert((2 * i + 1) % 2 == 1);
    }
}

/// The writes that store one listen, in the order the logger makes them.
pub fn insert_plan(song: &PlayData) -> (res: Vec<DbWrite>)
    ensures
        write_views(res@) == spec_insert_plan(song@),
        res@.len() == 3 * song.artists@.len() + 4,
        forall|i: int| 0 <= i < song.artists@.len() ==> {
            &&& (#[trigger] res@[song.artists@.len() + 3 + 2 * i])@
                == (DbWriteView::AlbumArtist { album_id: song.album.id@, artist_id: song.artists@[i].id@ })
            &&& res@[song.artists@.len() + 4 + 2 * i]@
                == (DbWriteView::TrackArtist { track_id: song.track.id@, artist_id: song.artists@[i].id@ })
        },
{
    let ghost d = song@;
    let n = song.artists.len();
    let mut out: Vec<DbWrite> = Vec::new();
    let mut i: usize = 0;
    while i < n
        invariant
            n == song.artists.len(),
            d == song@,
            i <= n,
            write_views(out@) == d.artists.take(i as int).map_values(|a: ArtistView| DbWriteView::Artist(a)),
        decreases n - i,
    {
        let ghost before = out@;
        let w = song.artists[i].insert();
        let ghost wv = w@;
        out.push(w);
        proof {
            assert(wv == DbWriteView::Artist(d.artists[i as int]));
            assert(write_views(out@) =~= write_views(before).push(wv));
            assert(write_views(out@) =~= d.artists.take(i + 1).map_values(|a: ArtistView| DbWriteView::Artist(a)));
        }
        i = i + 1;
    }
    let ghost artists_part = write_views(out@);
    proof {
        assert(d.artists.take(n as int) =~= d.artists);
    }
    out.push(song.album.insert());
    out.push(song.track.insert());
    out.push(song.play.insert());
    let ghost head = seq![DbWriteView::Album(d.album), DbWriteView::Track(d.track), DbWriteView::Play(d.play)];
    proof {
        assert(write_views(out@) =~= artists_part + head);
    }
    let ghost prefix = write_views(out@);
    let mut j: usize = 0;
    while j < n
        invariant
            n == song.artists.len(),
            d == song@,
            j <= n,
            write_views(out@) =~= prefix + spec_links(d.album.id, d.track.id, d.artists.take(j as int)),
        decreases n - j,
    {
        let ghost before = write_views(out@);
        out.push(insert_album_artist(song.album.id.as_str(), song.artists[j].id.as_str()));
        out.push(insert_track_artist(song.track.id.as_str(), song.artists[j].id.as_str()));
        proof {
            assert(d.artists[j as int] == song.artists@[j as int]@);
            let links = spec_links(d.album.id, d.track.id, d.artists.take(j + 1));
            let old_links = spec_links(d.album.id, d.track.id, d.artists.take(j as int));
            assert forall|k: int| 0 <= k < 2 * j implies links[k] == old_links[k] by {
                assert(k / 2 < j);
            }
            assert(links =~= old_links.push(links[2 * j]).push(links[2 * j + 1]));
            assert(write_views(out@) =~= before.push(links[2 * j]).push(links[2 * j + 1]));
        }
        j = j + 1;
    }
    proof {
        assert(d.artists.take(n as int) =~= d.artists);
    }
    let ghost before_last = write_views(out@);
    out.push(insert_track_album(song.track.id.as_str(), song.album.id.as_str()));
    proof {
        assert(write_views(out@) =~= before_last.push(DbWriteView::TrackAlbum { track_id: d.track.id, album_id: d.album.id }));
        assert(write_views(out@) =~= spec_insert_plan(d));
        lemma_every_artist_is_linked(d);
        let n = song.artists@.len();
        assert forall|i: int| 0 <= i < n implies {
            &&& (#[trigger] out@[n + 3 + 2 * i])@
                == (DbWriteView::AlbumArtist { album_id: song.album.id@, artist_id: song.artists@[i].id@ })
            &&& out@[n + 4 + 2 * i]@
                == (DbWriteView::TrackArtist { track_id: song.track.id@, artist_id: song.artists@[i].id@ })
        } by {
            assert(write_views(out@)[n + 3 + 2 * i] == out@[n + 3 + 2 * i]@);
            assert(write_views(out@)[n + 4 + 2 * i] == out@[n + 4 + 2 * i]@);
            assert(d.artists[i] == song.artists@[i]@);
            assert(spec_insert_plan(d)[d.artists.len() + 3 + 2 * i]
                == (DbWriteView::AlbumArtist { album_id: d.album.id, artist_id: d.artists[i].id }));
        }
    }
    out
}

/// What the logger does when a write fails.
#[derive(Clone, Copy, Debug, PartialEq, Eq)]
pub enum OnWriteFailure {
    /// Report the failure and go on with the next write.
    LogAndContinue,
    /// Stop the logger with the error.
    Stop,
}

/// A failed artist insert is reported and skipped; any other failed write
/// stops the logger.
pub fn on_write_failure(w: &DbWrite) -> (res: OnWriteFailure)
    ensures
        res == (if w is Artist { OnWriteFailure::LogAndContinue } else { OnWriteFailure::Stop }),
{
    match w {
        DbWrite::Artist(_) => OnWriteFailure::LogAndContinue,
        _ => OnWriteFailure::Stop,
    }
}

/// The line the logger prints when a poll fails (the request for the
/// history, with its error text); the poll is then given up until the next
/// tick.
pub fn poll_failure_report(error: &str) -> (res: String)
    ensures
        res@ == "Poll failed: "@ + error@,
{
    let mut out = String::from_str("Poll failed: ");
    out.append(error);
    out
}

/// The line the logger prints when an artist insert fails (with the error
/// text), before it goes on with the next write.
pub fn artist_failure_report(error: &str) -> (res: String)
    ensures
        res@ == "Failed to insert artist: "@ + error@,
{
    let mut out = String::from_str("Failed to insert artist: ");
    out.append(error);
    out
}

/// The line the logger prints once a listen is stored.
pub fn inserted_message(song: &PlayData) -> (res: String)
    ensures
        res@ == "Inserted "@ + song.track.name@ + " :)"@,
{
    let mut out = String::from_str("Inserted ");
    out.append(song.track.name.as_str());
    out.append(" :)");
    out
}

/// One step of a poll, once the history has been fetched.
#[derive(Debug)]
pub enum PollStep {
    /// Make this write.
    Write(DbWrite),
    /// Print this line.
    Report(String),
}

pub enum PollStepView {
    Write(DbWriteView),
    Report(Seq<char>),
}

impl View for PollStep {
    type V = PollStepView;

    open spec fn view(&self) -> PollStepView {
        match self {
            PollStep::Write(w) => PollStepView::Write(w@),
            PollStep::Report(s) => PollStepView::Report(s@),
        }
    }
}

pub open spec fn step_views(v: Seq<PollStep>) -> Seq<PollStepView> {
    v.map_values(|s: PollStep| s@)
}

/// The line printed once a listen is stored.
pub open spec fn spec_inserted_text(d: PlayDataView) -> Seq<char> {
    "Inserted "@ + d.track.name + " :)"@
}

/// The steps for one listen: its writes, then its report.
pub open spec fn spec_song_steps(d: PlayDataView) -> Seq<PollStepView> {
    spec_insert_plan(d).map_values(|w: DbWriteView| PollStepView::Write(w)).push(
        PollStepView::Report(spec_inserted_text(d)),
    )
}

/// The steps of a poll: the steps of each listen in turn.
pub open spec fn spec_poll_steps(plays: Seq<PlayDataView>) -> Seq<PollStepView>
    decreases plays.len(),
{
    if plays.len() == 0 {
        Seq::empty()
    } else {
        spec_poll_steps(plays.drop_last()) + spec_song_steps(plays.last())
    }
}

fn push_song_steps(out: &mut Vec<PollStep>, song: &PlayData)
    ensures
        step_views(final(out)@) == step_views(old(out)@) + spec_song_steps(song@),
{
    let mut plan = insert_plan(song);
    let ghost full = write_views(plan@);
    let ghost start = step_views(out@);
    let total = plan.len();
    let mut k: usize = 0;
    while plan.len() > 0
        invariant
            k + plan.len() == total,
            total == full.len(),
            write_views(plan@) == full.skip(k as int),
            step_views(out@) == start + full.take(k as int).map_values(|w: DbWriteView| PollStepView::Write(w)),
        decreases plan.len(),
    {
        let ghost before = step_views(out@);
        let ghost rest = plan@;
        let w = plan.remove(0);
        proof {
            assert(write_views(rest)[0] == rest[0]@);
            assert(full.skip(k as int)[0] == full[k as int]);
            assert(w@ == full[k as int]);
            assert forall|j: int| 0 <= j < plan@.len() implies #[trigger] write_views(plan@)[j] == full.skip(k + 1)[j] by {
                assert(plan@[j] == rest[j + 1]);
                assert(write_views(rest)[j + 1] == rest[j + 1]@);
                assert(full.skip(k as int)[j + 1] == full[k + 1 + j]);
            }
            assert(write_views(plan@) =~= full.skip(k + 1));
        }
        out.push(PollStep::Write(w));
        proof {
            assert(step_views(out@) =~= before.push(PollStepView::Write(full[k as int])));
            assert(full.take(k + 1).map_values(|w: DbWriteView| PollStepView::Write(w))
                =~= full.take(k as int).map_values(|w: DbWriteView| PollStepView::Write(w)).push(PollStepView::Write(full[k as int])));
        }
        k = k + 1;
    }
    proof {
        assert(full.take(k as int) =~= full);
    }
    let ghost before = step_views(out@);
    let line = inserted_message(song);
    out.push(PollStep::Report(line));
    proof {
        assert(step_views(out@) =~= before.push(PollStepView::Report(spec_inserted_text(song@))));
        assert(step_views(out@) =~= start + spec_song_steps(song@));
    }
}

/// What a poll does with the history it fetched: for each listen that is
/// stored, its writes in order and then the line that reports it.
pub fn poll_steps(items: &Vec<RecentItem>) -> (res: Vec<PollStep>)
    ensures
        step_views(res@) == spec_poll_steps(spec_recent_plays(items@)),
{
    let songs = get_recent_plays(items);
    let ghost plays = play_data_views(songs@);
    let mut out: Vec<PollStep> = Vec::new();
    let mut i: usize = 0;
    while i < songs.len()
        invariant
            i <= songs.len(),
            plays == play_data_views(songs@),
            step_views(out@) == spec_poll_steps(plays.take(i as int)),
        decreases songs.len() - i,
    {
        push_song_steps(&mut out, &songs[i]);
        proof {
            assert(plays.take(i + 1).drop_last() =~= plays.take(i as int));
            assert(plays.take(i + 1).last() == songs@[i as int]@);
        }
        i = i + 1;
    }
    proof {
        assert(plays.take(songs.len() as int) =~= plays);
    }
    out
}

/// The step writes an artist row with id `id`.
pub open spec fn writes_artist(s: PollStepView, id: Seq<char>) -> bool {
    match s {
        PollStepView::Write(DbWriteView::Artist(a)) => a.id == id,
        _ => false,
    }
}

/// The step writes an album row with id `id`.
pub open spec fn writes_album(s: PollStepView, id: Seq<char>) -> bool {
    match s {
        PollStepView::Write(DbWriteView::Album(a)) => a.id == id,
        _ => false,
    }
}

/// The step writes a track row with id `id`.
pub open spec fn writes_track(s: PollStepView, id: Seq<char>) -> bool {
    match s {
        PollStepView::Write(DbWriteView::Track(t)) => t.id == id,
        _ => false,
    }
}

pub open spec fn artist_before(steps: Seq<PollStepView>, k: int, id: Seq<char>) -> bool {
    exists|j: int| 0 <= j < k && #[trigger] writes_artist(steps[j], id)
}

pub open spec fn album_before(steps: Seq<PollStepView>, k: int, id: Seq<char>) -> bool {
    exists|j: int| 0 <= j < k && #[trigger] writes_album(steps[j], id)
}

pub open spec fn track_before(steps: Seq<PollStepView>, k: int, id: Seq<char>) -> bool {
    exists|j: int| 0 <= j < k && #[trigger] writes_track(steps[j], id)
}

/// Every row that the step at position `k` refers to by id has been
/// written by an earlier step.
pub open spec fn refers_to_earlier_rows(steps: Seq<PollStepView>, k: int) -> bool {
    match steps[k] {
        PollStepView::Write(w) => match w {
            DbWriteView::Play(p) => track_before(steps, k, p.track_id),
            DbWriteView::AlbumArtist { album_id, artist_id } =>
                album_before(steps, k, album_id) && artist_before(steps, k, artist_id),
            DbWriteView::TrackArtist { track_id, artist_id } =>
                track_before(steps, k, track_id) && artist_before(steps, k, artist_id),
            DbWriteView::TrackAlbum { track_id, album_id } =>
                track_before(steps, k, track_id) && album_before(steps, k, album_id),
            _ => true,
        },
        PollStepView::Report(_) => true,
    }
}

proof fn lemma_song_steps_refer_to_earlier_rows(d: PlayDataView)
    requires
        d.play.track_id == d.track.id,
    ensures
        forall|k: int| 0 <= k < spec_song_steps(d).len()
            ==> #[trigger] refers_to_earlier_rows(spec_song_steps(d), k),
{
    let steps = spec_song_steps(d);
    let plan = spec_insert_plan(d);
    let m = d.artists.len() as int;
    let links = spec_links(d.album.id, d.track.id, d.artists);
    assert forall|i: int| 0 <= i < plan.len() implies steps[i] == PollStepView::Write(#[trigger] plan[i]) by {}
    assert(writes_album(steps[m], d.album.id)) by { assert(plan[m] == DbWriteView::Album(d.album)); }
    assert(writes_track(steps[m + 1], d.track.id)) by { assert(plan[m + 1] == DbWriteView::Track(d.track)); }
    assert forall|k: int| 0 <= k < steps.len() implies #[trigger] refers_to_earlier_rows(steps, k) by {
        if k < m {
            assert(plan[k] == DbWriteView::Artist(d.artists[k]));
        } else if k == m || k == m + 1 {
            assert(plan[k] is Album || plan[k] is Track);
        } else if k == m + 2 {
            assert(plan[k] == DbWriteView::Play(d.play));
            assert(track_before(steps, k, d.play.track_id));
        } else if k < m + 3 + 2 * m {
            let t = k - (m + 3);
            let a = t / 2;
            assert(plan[k] == links[t]);
            assert(plan[a] == DbWriteView::Artist(d.artists[a]));
            assert(writes_artist(steps[a], d.artists[a].id));
            assert(artist_before(steps, k, d.artists[a].id));
            assert(album_before(steps, k, d.album.id));
            assert(track_before(steps, k, d.track.id));
        } else if k == m + 3 + 2 * m {
            assert(plan[k] == DbWriteView::TrackAlbum { track_id: d.track.id, album_id: d.album.id });
            assert(album_before(steps, k, d.album.id));
            assert(track_before(steps, k, d.track.id));
        } else {
            assert(steps[k] is Report);
        }
    }
}

proof fn lemma_poll_steps_refer_to_earlier_rows(plays: Seq<PlayDataView>)
    requires
        forall|i: int| 0 <= i < plays.len() ==> (#[trigger] plays[i]).play.track_id == plays[i].track.id,
    ensures
        forall|k: int| 0 <= k < spec_poll_steps(plays).len()
            ==> #[trigger] refers_to_earlier_rows(spec_poll_steps(plays), k),
    decreases plays.len(),
{
    if plays.len() > 0 {
        let prefix = plays.drop_last();
        let d = plays.last();
        assert forall|i: int| 0 <= i < prefix.len() implies (#[trigger] prefix[i]).play.track_id == prefix[i].track.id by {
            assert(prefix[i] == plays[i]);
        }
        lemma_poll_steps_refer_to_earlier_rows(prefix);
        lemma_song_steps_refer_to_earlier_rows(d);
        let prev = spec_poll_steps(prefix);
        let song = spec_song_steps(d);
        let all = spec_poll_steps(plays);
        let o = prev.len() as int;
        assert(all == prev + song);
        assert forall|k: int| 0 <= k < all.len() implies #[trigger] refers_to_earlier_rows(all, k) by {
            if k < o {
                assert(all[k] == prev[k]);
                assert(refers_to_earlier_rows(prev, k));
                assert forall|id: Seq<char>| artist_before(prev, k, id) implies artist_before(all, k, id) by {
                    let j = choose|j: int| 0 <= j < k && #[trigger] writes_artist(prev[j], id);
                    assert(all[j] == prev[j]);
                }
                assert forall|id: Seq<char>| album_before(prev, k, id) implies album_before(all, k, id) by {
                    let j = choose|j: int| 0 <= j < k && #[trigger] writes_album(prev[j], id);
                    assert(all[j] == prev[j]);
                }
                assert forall|id: Seq<char>| track_before(prev, k, id) implies track_before(all, k, id) by {
                    let j = choose|j: int| 0 <= j < k && #[trigger] writes_track(prev[j], id);
                    assert(all[j] == prev[j]);
                }
            } else {
                let i = k - o;
                assert(all[k] == song[i]);
                assert(refers_to_earlier_rows(song, i));
                assert forall|id: Seq<char>| artist_before(song, i, id) implies artist_before(all, k, id) by {
                    let j = choose|j: int| 0 <= j < i && #[trigger] writes_artist(song[j], id);
                    assert(all[o + j] == song[j]);
                    assert(writes_artist(all[o + j], id));
                }
                assert forall|id: Seq<char>| album_before(song, i, id) implies album_before(all, k, id) by {
                    let j = choose|j: int| 0 <= j < i && #[trigger] writes_album(song[j], id);
                    assert(all[o + j] == song[j]);
                    assert(writes_album(all[o + j], id));
                }
                assert forall|id: Seq<char>| track_before(song, i, id) implies track_before(all, k, id) by {
                    let j = choose|j: int| 0 <= j < i && #[trigger] writes_track(song[j], id);
                    assert(all[o + j] == song[j]);
                    assert(writes_track(all[o + j], id));
                }
            }
        }
    }
}

/// For any recently-played history, the steps of the poll that stores it
/// insert every row before any play or link that refers to it: each play
/// after its track, each artist link after the artist and the album or
/// track, each track-album link after both.
pub proof fn lemma_writes_follow_referenced_rows(items: Seq<RecentItem>)
    ensures
        forall|k: int| 0 <= k < spec_poll_steps(spec_recent_plays(items)).len()
            ==> #[trigger] refers_to_earlier_rows(spec_poll_steps(spec_recent_plays(items)), k),
{
    lemma_plays_refer_to_their_tracks(items);
    let plays = spec_recent_plays(items);
    assert forall|i: int| 0 <= i < plays.len() implies (#[trigger] plays[i]).play.track_id == plays[i].track.id by {
        assert(spec_recent_plays(items)[i].play.track_id == spec_recent_plays(items)[i].track.id);
    }
    lemma_poll_steps_refer_to_earlier_rows(plays);
}

} // verus!
