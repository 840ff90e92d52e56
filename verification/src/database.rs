//! The rows that the logger stores, and the writes it makes to store them.
//! Running the writes against PostgreSQL (each an `INSERT ... ON CONFLICT DO
//! NOTHING`) is the application's part.
use crate::time::Timestamp;
use vstd::prelude::*;

verus! {

/// A row of `artists`.
#[derive(Debug)]
pub struct Artist {
    pub id: String,
    pub name: String,
    pub image_link: String,
    pub link: String,
}

/// A row of `albums`.
#[derive(Debug)]
pub struct Album {
    pub id: String,
    pub name: String,
    pub album_type: String,
    pub release_date: String,
    pub image_link: String,
    pub link: String,
}

/// A row of `tracks`; `duration` is in milliseconds.
#[derive(Debug)]
pub struct Track {
    pub id: String,
    pub name: String,
    pub duration: i32,
    pub popularity: i32,
    pub link: String,
}

/// A row of `plays`: one listen of a track.
#[derive(Debug)]
pub struct Play {
    pub track_id: String,
    pub played_at: Timestamp,
}

pub struct ArtistView {
    pub id: Seq<char>,
    pub name: Seq<char>,
    pub image_link: Seq<char>,
    pub link: Seq<char>,
}

pub struct AlbumView {
    pub id: Seq<char>,
    pub name: Seq<char>,
    pub album_type: Seq<char>,
    pub release_date: Seq<char>,
    pub image_link: Seq<char>,
    pub link: Seq<char>,
}

pub struct TrackView {
    pub id: Seq<char>,
    pub name: Seq<char>,
    pub duration: i32,
    pub popularity: i32,
    pub link: Seq<char>,
}

pub struct PlayView {
    pub track_id: Seq<char>,
    pub played_at: Timestamp,
}

impl View for Artist {
    type V = ArtistView;

    open spec fn view(&self) -> ArtistView {
        ArtistView { id: self.id@, name: self.name@, image_link: self.image_link@, link: self.link@ }
    }
}

impl View for Album {
    type V = AlbumView;

    open spec fn view(&self) -> AlbumView {
        AlbumView {
            id: self.id@,
            name: self.name@,
            album_type: self.album_type@,
            release_date: self.release_date@,
            image_link: self.image_link@,
            link: self.link@,
        }
    }
}

impl View for Track {
    type V = TrackView;

    open spec fn view(&self) -> TrackView {
        TrackView {
            id: self.id@,
            name: self.name@,
            duration: self.duration,
            popularity: self.popularity,
            link: self.link@,
        }
    }
}

impl View for Play {
    type V = PlayView;

    open spec fn view(&self) -> PlayView {
        PlayView { track_id: self.track_id@, played_at: self.played_at }
    }
}

/// One insertion into the logger's tables. The junction variants link rows
/// by their ids.
#[derive(Debug)]
pub enum DbWrite {
    Artist(Artist),
    Album(Album),
    Track(Track),
    Play(Play),
    AlbumArtist { album_id: String, artist_id: String },
    TrackArtist { track_id: String, artist_id: String },
    TrackAlbum { track_id: String, album_id: String },
}

pub enum DbWriteView {
    Artist(ArtistView),
    Album(AlbumView),
    Track(TrackView),
    Play(PlayView),
    AlbumArtist { album_id: Seq<char>, artist_id: Seq<char> },
    TrackArtist { track_id: Seq<char>, artist_id: Seq<char> },
    TrackAlbum { track_id: Seq<char>, album_id: Seq<char> },
}

impl View for DbWrite {
    type V = DbWriteView;

    open spec fn view(&self) -> DbWriteView {
        match self {
            DbWrite::Artist(a) => DbWriteView::Artist(a@),
            DbWrite::Album(a) => DbWriteView::Album(a@),
            DbWrite::Track(t) => DbWriteView::Track(t@),
            DbWrite::Play(p) => DbWriteView::Play(p@),
            DbWrite::AlbumArtist { album_id, artist_id } => DbWriteView::AlbumArtist {
                album_id: album_id@,
                artist_id: artist_id@,
            },
            DbWrite::TrackArtist { track_id, artist_id } => DbWriteView::TrackArtist {
                track_id: track_id@,
                artist_id: artist_id@,
            },
            DbWrite::TrackAlbum { track_id, album_id } => DbWriteView::TrackAlbum {
                track_id: track_id@,
                album_id: album_id@,
            },
        }
    }
}

impl Artist {
    /// The write that inserts this artist (kept as it is if the id is
    /// already stored).
    pub fn insert(&self) -> (res: DbWrite)
        ensures
            res@ == DbWriteView::Artist(self@),
    {
        DbWrite::Artist(self.duplicate())
    }

    /// A copy of the row.
    pub(crate) fn duplicate(&self) -> (res: Artist)
        ensures
            res@ == self@,
    {
        Artist {
            id: self.id.clone(),
            name: self.name.clone(),
            image_link: self.image_link.clone(),
            link: self.link.clone(),
        }
    }
}

impl Album {
    /// The write that inserts this album (kept as it is if the id is
    /// already stored).
    pub fn insert(&self) -> (res: DbWrite)
        ensures
            res@ == DbWriteView::Album(self@),
    {
        DbWrite::Album(self.duplicate())
    }

    /// A copy of the row.
    pub(crate) fn duplicate(&self) -> (res: Album)
        ensures
            res@ == self@,
    {
        Album {
            id: self.id.clone(),
            name: self.name.clone(),
            album_type: self.album_type.clone(),
            release_date: self.release_date.clone(),
            image_link: self.image_link.clone(),
            link: self.link.clone(),
        }
    }
}

impl Track {
    /// The write that inserts this track (kept as it is if the id is
    /// already stored).
    pub fn insert(&self) -> (res: DbWrite)
        ensures
            res@ == DbWriteView::Track(self@),
    {
        DbWrite::Track(self.duplicate())
    }

    /// A copy of the row.
    pub(crate) fn duplicate(&self) -> (res: Track)
        ensures
            res@ == self@,
    {
        Track {
            id: self.id.clone(),
            name: self.name.clone(),
            duration: self.duration,
            popularity: self.popularity,
            link: self.link.clone(),
        }
    }
}

impl Play {
    /// The write that inserts this play (kept as it is if a play at the same
    /// instant is already stored).
    pub fn insert(&self) -> (res: DbWrite)
        ensures
            res@ == DbWriteView::Play(self@),
    {
        DbWrite::Play(self.duplicate())
    }

    /// A copy of the row.
    pub(crate) fn duplicate(&self) -> (res: Play)
        ensures
            res@ == self@,
    {
        Play { track_id: self.track_id.clone(), played_at: self.played_at }
    }
}

/// The write that links an album to one of its artists.
pub fn insert_album_artist(album_id: &str, artist_id: &str) -> (res: DbWrite)
    ensures
        res@ == (DbWriteView::AlbumArtist { album_id: album_id@, artist_id: artist_id@ }),
{
    DbWrite::AlbumArtist { album_id: album_id.to_owned(), artist_id: artist_id.to_owned() }
}

/// The write that links a track to one of its artists.
pub fn insert_track_artist(track_id: &str, artist_id: &str) -> (res: DbWrite)
    ensures
        res@ == (DbWriteView::TrackArtist { track_id: track_id@, artist_id: artist_id@ }),
{
    DbWrite::TrackArtist { track_id: track_id.to_owned(), artist_id: artist_id.to_owned() }
}

/// The write that links a track to its album.
pub fn insert_track_album(track_id: &str, album_id: &str) -> (res: DbWrite)
    ensures
        res@ == (DbWriteView::TrackAlbum { track_id: track_id@, album_id: album_id@ }),
{
    DbWrite::TrackAlbum { track_id: track_id.to_owned(), album_id: album_id.to_owned() }
}

} // verus!
