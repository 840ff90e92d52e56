//! Turning the recently-played listens that the Spotify API reports into the
//! rows the logger stores. The requests to Spotify are the application's
//! part; it hands their answers over as the plain values below.
use crate::database::{Album, AlbumView, Artist, ArtistView, Play, PlayView, Track, TrackView};
use crate::text::{debug_form, debug_string, spotify_uri, spotify_uri_of};
use crate::time::Timestamp;
use vstd::prelude::*;

verus! {

/// An artist credited on a listened track. `id` is the bare Spotify id
/// (absent for local files); `images` holds the URLs of the artist's images
/// as a separate artist request returned them, or `None` when that request
/// failed or was not made.
pub struct RecentArtist {
    pub id: Option<String>,
    pub name: String,
    pub href: Option<String>,
    pub images: Option<Vec<String>>,
}

/// The album of a listened track; `images` holds the URLs of its images in
/// the order Spotify lists them.
pub struct RecentAlbum {
    pub id: Option<String>,
    pub name: String,
    pub album_type: Option<String>,
    pub release_date: Option<String>,
    pub images: Vec<String>,
    pub href: Option<String>,
}

/// A listened track as Spotify describes it; `duration_ms` is its length in
/// whole milliseconds.
pub struct RecentTrack {
    pub id: Option<String>,
    pub name: String,
    pub duration_ms: i64,
    pub popularity: u32,
    pub href: Option<String>,
    pub artists: Vec<RecentArtist>,
    pub album: RecentAlbum,
}

/// One entry of the recently-played history.
pub struct RecentItem {
    pub track: RecentTrack,
    pub played_at: Timestamp,
}

/// Everything the logger stores for one listen.
#[derive(Debug)]
pub struct PlayData {
    pub artists: Vec<Artist>,
    pub album: Album,
    pub track: Track,
    pub play: Play,
}

pub struct PlayDataView {
    pub artists: Seq<ArtistView>,
    pub album: AlbumView,
    pub track: TrackView,
    pub play: PlayView,
}

pub open spec fn artist_views(v: Seq<Artist>) -> Seq<ArtistView> {
    v.map_values(|a: Artist| a@)
}

impl View for PlayData {
    type V = PlayDataView;

    open spec fn view(&self) -> PlayDataView {
        PlayDataView {
            artists: artist_views(self.artists@),
            album: self.album@,
            track: self.track@,
            play: self.play@,
        }
    }
}

pub open spec fn play_data_views(v: Seq<PlayData>) -> Seq<PlayDataView> {
    v.map_values(|d: PlayData| d@)
}

/// The text of an optional string, or the empty text.
pub open spec fn text_or_empty(o: Option<String>) -> Seq<char> {
    match o {
        Some(s) => s@,
        None => Seq::empty(),
    }
}

/// The first of a list of image URLs, if there is one.
pub open spec fn spec_first_image(images: Seq<String>) -> Option<Seq<char>> {
    if images.len() > 0 { Some(images[0]@) } else { None }
}

/// The artist row for a credited artist that has an id.
pub open spec fn spec_artist(a: RecentArtist) -> ArtistView {
    ArtistView {
        id: spotify_uri_of("artist"@, a.id->0@),
        name: a.name@,
        image_link: match a.images {
            Some(v) => match spec_first_image(v@) {
                Some(u) => u,
                None => Seq::empty(),
            },
            None => Seq::empty(),
        },
        link: text_or_empty(a.href),
    }
}

/// The artist rows of a track's credits: one per credited artist with an
/// id, in credit order.
pub open spec fn spec_artists(s: Seq<RecentArtist>) -> Seq<ArtistView>
    decreases s.len(),
{
    if s.len() == 0 {
        Seq::empty()
    } else if s.last().id is Some {
        spec_artists(s.drop_last()).push(spec_artist(s.last()))
    } else {
        spec_artists(s.drop_last())
    }
}

pub open spec fn spec_album(a: RecentAlbum) -> AlbumView {
    AlbumView {
        id: match a.id {
            Some(i) => spotify_uri_of("album"@, i@),
            None => Seq::empty(),
        },
        name: a.name@,
        album_type: match a.album_type {
            Some(t) => debug_form(t@),
            None => Seq::empty(),
        },
        release_date: text_or_empty(a.release_date),
        image_link: match spec_first_image(a.images@) {
            Some(u) => u,
            None => Seq::empty(),
        },
        link: text_or_empty(a.href),
    }
}

/// The track row of a track that has an id.
pub open spec fn spec_track(t: RecentTrack) -> TrackView {
    TrackView {
        id: spotify_uri_of("track"@, t.id->0@),
        name: t.name@,
        duration: t.duration_ms as i32,
        popularity: t.popularity as i32,
        link: text_or_empty(t.href),
    }
}

/// What the logger stores for a listen of a track that has an id.
pub open spec fn spec_play_data(item: RecentItem) -> PlayDataView {
    PlayDataView {
        artists: spec_artists(item.track.artists@),
        album: spec_album(item.track.album),
        track: spec_track(item.track),
        play: PlayView {
            track_id: spotify_uri_of("track"@, item.track.id->0@),
            played_at: item.played_at,
        },
    }
}

/// What the logger stores for a recently-played history: one entry per
/// listen of a track with an id, in history order; listens of tracks
/// without an id (local files) are left out.
pub open spec fn spec_recent_plays(items: Seq<RecentItem>) -> Seq<PlayDataView>
    decreases items.len(),
{
    if items.len() == 0 {
        Seq::empty()
    } else if items.last().track.id is Some {
        spec_recent_plays(items.drop_last()).push(spec_play_data(items.last()))
    } else {
        spec_recent_plays(items.drop_last())
    }
}

/// Every listen the logger stores refers to the track stored with it: the
/// play's track id is the track row's id, the track's Spotify URI.
pub proof fn lemma_plays_refer_to_their_tracks(items: Seq<RecentItem>)
    ensures
        forall|i: int| 0 <= i < spec_recent_plays(items).len() ==> {
            &&& (#[trigger] spec_recent_plays(items)[i]).play.track_id == spec_recent_plays(items)[i].track.id
            &&& exists|id: Seq<char>| spec_recent_plays(items)[i].track.id == spotify_uri_of("track"@, id)
        },
    decreases items.len(),
{
    if items.len() > 0 {
        lemma_plays_refer_to_their_tracks(items.drop_last());
        let prev = spec_recent_plays(items.drop_last());
        let all = spec_recent_plays(items);
        assert forall|i: int| 0 <= i < all.len() implies {
            &&& (#[trigger] all[i]).play.track_id == all[i].track.id
            &&& exists|id: Seq<char>| all[i].track.id == spotify_uri_of("track"@, id)
        } by {
            if i < prev.len() {
                assert(all[i] == prev[i]);
            } else {
                let id = items.last().track.id->0@;
                assert(all[i].track.id == spotify_uri_of("track"@, id));
            }
        }
    }
}

/// Whether the logger asks Spotify for a credited artist's images: only for
/// an artist with an id on a track with an id, the only artists whose rows
/// it stores.
pub fn fetches_artist_images(track_has_id: bool, artist_has_id: bool) -> (res: bool)
    ensures
        res == (track_has_id && artist_has_id),
{
    track_has_id && artist_has_id
}

/// The listens that are stored: those of tracks with an id.
pub open spec fn is_identified_listen() -> spec_fn(RecentItem) -> bool {
    |item: RecentItem| item.track.id is Some
}

/// The logger stores exactly one row per listen of a track with an id, in
/// history order: as many rows as such listens, the k-th row holding the
/// k-th such listen (its instant, its track's URI and name). A repeated
/// listen of the same track is stored again; only listens of tracks without
/// an id are left out.
pub proof fn lemma_one_row_per_identified_listen(items: Seq<RecentItem>)
    ensures
        spec_recent_plays(items).len() == items.filter(is_identified_listen()).len(),
        forall|k: int| 0 <= k < spec_recent_plays(items).len() ==> {
            let row = #[trigger] spec_recent_plays(items)[k];
            let listen = items.filter(is_identified_listen())[k];
            &&& row.play.played_at == listen.played_at
            &&& row.track.id == spotify_uri_of("track"@, listen.track.id->0@)
            &&& row.play.track_id == row.track.id
            &&& row.track.name == listen.track.name@
        },
    decreases items.len(),
{
    reveal_with_fuel(Seq::<_>::filter, 1);
    if items.len() > 0 {
        lemma_one_row_per_identified_listen(items.drop_last());
        let prev = spec_recent_plays(items.drop_last());
        let all = spec_recent_plays(items);
        let fprev = items.drop_last().filter(is_identified_listen());
        let fall = items.filter(is_identified_listen());
        if items.last().track.id is Some {
            assert(fall == fprev.push(items.last()));
        } else {
            assert(fall == fprev);
        }
        assert forall|k: int| 0 <= k < all.len() implies {
            let row = #[trigger] all[k];
            let listen = fall[k];
            &&& row.play.played_at == listen.played_at
            &&& row.track.id == spotify_uri_of("track"@, listen.track.id->0@)
            &&& row.play.track_id == row.track.id
            &&& row.track.name == listen.track.name@
        } by {
            if k < prev.len() {
                assert(all[k] == prev[k]);
                assert(fall[k] == fprev[k]);
            }
        }
    }
}

fn clone_or_empty(o: &Option<String>) -> (res: String)
    ensures
        res@ == text_or_empty(*o),
{
    match o {
        Some(s) => s.clone(),
        None => String::new(),
    }
}

/// The URL of the first image in a list, as the artist image lookup takes it.
pub fn first_image_url(images: &Vec<String>) -> (res: Option<String>)
    ensures
        match res {
            Some(u) => spec_first_image(images@) == Some(u@),
            None => spec_first_image(images@) is None,
        },
{
    if images.len() > 0 {
        Some(images[0].clone())
    } else {
        None
    }
}

/// The artist row for a credited artist, or `None` when the artist has no
/// id. A missing image or link becomes the empty string.
pub fn build_artist(artist: &RecentArtist) -> (res: Option<Artist>)
    ensures
        match res {
            Some(a) => artist.id is Some && a@ == spec_artist(*artist),
            None => artist.id is None,
        },
{
    let id = match &artist.id {
        Some(id) => id,
        None => return None,
    };
    let image_link = match &artist.images {
        Some(v) => match first_image_url(v) {
            Some(u) => u,
            None => String::new(),
        },
        None => String::new(),
    };
    Some(Artist {
        id: spotify_uri("artist", id.as_str()),
        name: artist.name.clone(),
        image_link,
        link: clone_or_empty(&artist.href),
    })
}

fn build_artists(credits: &Vec<RecentArtist>) -> (res: Vec<Artist>)
    ensures
        artist_views(res@) == spec_artists(credits@),
{
    let mut out: Vec<Artist> = Vec::new();
    let mut i: usize = 0;
    while i < credits.len()
        invariant
            i <= credits.len(),
            artist_views(out@) == spec_artists(credits@.take(i as int)),
        decreases credits.len() - i,
    {
        proof {
            assert(credits@.take(i + 1).drop_last() =~= credits@.take(i as int));
            assert(credits@.take(i + 1).last() == credits@[i as int]);
        }
        match build_artist(&credits[i]) {
            Some(a) => {
                let ghost before = out@;
                out.push(a);
                proof {
                    assert(artist_views(out@) =~= artist_views(before).push(a@));
                }
            },
            None => {},
        }
        i = i + 1;
    }
    proof {
        assert(credits@.take(credits.len() as int) =~= credits@);
    }
    out
}

/// The album row for a listened track's album. A missing id, type, release
/// date, image or link becomes the empty string; the type is stored in its
/// `Debug` form.
pub fn build_album(album: &RecentAlbum) -> (res: Album)
    ensures
        res@ == spec_album(*album),
{
    let id = match &album.id {
        Some(i) => spotify_uri("album", i.as_str()),
        None => String::new(),
    };
    let album_type = match &album.album_type {
        Some(t) => debug_string(t.as_str()),
        None => String::new(),
    };
    let image_link = match first_image_url(&album.images) {
        Some(u) => u,
        None => String::new(),
    };
    Album {
        id,
        name: album.name.clone(),
        album_type,
        release_date: clone_or_empty(&album.release_date),
        image_link,
        link: clone_or_empty(&album.href),
    }
}

/// The rows for one listen, or `None` when the track has no id.
pub fn build_play_data(item: &RecentItem) -> (res: Option<PlayData>)
    ensures
        match res {
            Some(d) => item.track.id is Some && d@ == spec_play_data(*item),
            None => item.track.id is None,
        },
{
    let raw = &item.track;
    let track_id = match &raw.id {
        Some(id) => spotify_uri("track", id.as_str()),
        None => return None,
    };
    let track = Track {
        id: track_id.clone(),
        name: raw.name.clone(),
        duration: raw.duration_ms as i32,
        popularity: raw.popularity as i32,
        link: clone_or_empty(&raw.href),
    };
    let artists = build_artists(&raw.artists);
    let album = build_album(&raw.album);
    let play = Play { track_id, played_at: item.played_at };
    Some(PlayData { artists, album, track, play })
}

/// The rows for a recently-played history, as the logger stores them.
pub fn get_recent_plays(items: &Vec<RecentItem>) -> (res: Vec<PlayData>)
    ensures
        play_data_views(res@) == spec_recent_plays(items@),
        res@.len() == items@.filter(is_identified_listen()).len(),
        forall|k: int| 0 <= k < res@.len() ==> {
            let listen = items@.filter(is_identified_listen())[k];
            &&& (#[trigger] res@[k]).play.played_at == listen.played_at
            &&& res@[k].track.id@ == spotify_uri_of("track"@, listen.track.id->0@)
            &&& res@[k].play.track_id@ == res@[k].track.id@
            &&& res@[k].track.name@ == listen.track.name@
        },
{
    let mut out: Vec<PlayData> = Vec::new();
    let mut i: usize = 0;
    while i < items.len()
        invariant
            i <= items.len(),
            play_data_views(out@) == spec_recent_plays(items@.take(i as int)),
        decreases items.len() - i,
    {
        proof {
            assert(items@.take(i + 1).drop_last() =~= items@.take(i as int));
            assert(items@.take(i + 1).last() == items@[i as int]);
        }
        match build_play_data(&items[i]) {
            Some(d) => {
                let ghost before = out@;
                out.push(d);
                proof {
                    assert(play_data_views(out@) =~= play_data_views(before).push(d@));
                }
            },
            None => {},
        }
        i = i + 1;
    }
    proof {
        assert(items@.take(items.len() as int) =~= items@);
        lemma_one_row_per_identified_listen(items@);
        assert forall|k: int| 0 <= k < out@.len() implies play_data_views(out@)[k] == (#[trigger] out@[k])@ by {}
    }
    out
}

} // verus!
