//! The data the views of one item need: which to fetch from the daemon
//! when a view opens, and how what came back goes into the view data.
use vstd::prelude::*;

use crate::state::library::{
    AlbumBrief, AlbumDetails, ArtistBrief, ArtistDetails, CollectionBrief, DynamicPlaylist, PlaylistBrief, RecordId,
    SongBrief, SongDetails, Ulid,
};
use crate::ui::components::content_view::ActiveView;
use crate::ui::components::content_view::views::{
    AlbumViewProps, ArtistViewProps, CollectionViewProps, DynamicPlaylistViewProps, PlaylistViewProps,
    RadioViewProps, RandomViewProps, SongViewProps, ViewData,
};

verus! {

/// What to fetch from the daemon for a view.
#[derive(Debug, Clone, PartialEq, Eq)]
pub enum ViewDataRequest {
    Song(Ulid),
    Album(Ulid),
    Artist(Ulid),
    Playlist(Ulid),
    DynamicPlaylist(Ulid),
    Collection(Ulid),
    /// This many songs similar to the things.
    Radio(Vec<RecordId>, u32),
    /// A random album, artist and song.
    Random,
}

/// What to fetch when `view` opens: the item of an item view, similar
/// songs for a radio (as many as `radio_count`), three random things for
/// the random view; the library and search views need nothing more.
pub fn view_data_request(view: &ActiveView, radio_count: u32) -> (r: Option<ViewDataRequest>)
    ensures
        match *view {
            ActiveView::Song(id) => r == Some(ViewDataRequest::Song(id)),
            ActiveView::Album(id) => r == Some(ViewDataRequest::Album(id)),
            ActiveView::Artist(id) => r == Some(ViewDataRequest::Artist(id)),
            ActiveView::Playlist(id) => r == Some(ViewDataRequest::Playlist(id)),
            ActiveView::DynamicPlaylist(id) => r == Some(ViewDataRequest::DynamicPlaylist(id)),
            ActiveView::Collection(id) => r == Some(ViewDataRequest::Collection(id)),
            ActiveView::Radio(ids) => r matches Some(ViewDataRequest::Radio(things, count)) && things@
                == ids@ && count == radio_count,
            ActiveView::Random => r == Some(ViewDataRequest::Random),
            _ => r is None,
        },
{
    match view {
        ActiveView::Song(id) => Some(ViewDataRequest::Song(id.clone())),
        ActiveView::Album(id) => Some(ViewDataRequest::Album(id.clone())),
        ActiveView::Artist(id) => Some(ViewDataRequest::Artist(id.clone())),
        ActiveView::Playlist(id) => Some(ViewDataRequest::Playlist(id.clone())),
        ActiveView::DynamicPlaylist(id) => Some(ViewDataRequest::DynamicPlaylist(id.clone())),
        ActiveView::Collection(id) => Some(ViewDataRequest::Collection(id.clone())),
        ActiveView::Radio(ids) => {
            let things = ids.clone();
            assert(things@ =~= ids@);
            Some(ViewDataRequest::Radio(things, radio_count))
        },
        ActiveView::Random => Some(ViewDataRequest::Random),
        _ => None,
    }
}

/// What came back for a view: its new data, or nothing if the daemon did
/// not have all of it.
#[derive(Debug, Clone, PartialEq, Eq)]
pub enum ViewDataReply {
    Song(Option<SongViewProps>),
    Album(Option<AlbumViewProps>),
    Artist(Option<ArtistViewProps>),
    Playlist(Option<PlaylistViewProps>),
    DynamicPlaylist(Option<DynamicPlaylistViewProps>),
    Collection(Option<CollectionViewProps>),
    Radio(Option<RadioViewProps>),
    Random(Option<RandomViewProps>),
}

/// The reply when fetching `request`'s data failed: that view has no data.
pub open spec fn spec_failed_reply(request: ViewDataRequest) -> ViewDataReply {
    match request {
        ViewDataRequest::Song(_) => ViewDataReply::Song(None),
        ViewDataRequest::Album(_) => ViewDataReply::Album(None),
        ViewDataRequest::Artist(_) => ViewDataReply::Artist(None),
        ViewDataRequest::Playlist(_) => ViewDataReply::Playlist(None),
        ViewDataRequest::DynamicPlaylist(_) => ViewDataReply::DynamicPlaylist(None),
        ViewDataRequest::Collection(_) => ViewDataReply::Collection(None),
        ViewDataRequest::Radio(..) => ViewDataReply::Radio(None),
        ViewDataRequest::Random => ViewDataReply::Random(None),
    }
}

/// The reply when fetching `request`'s data failed (see
/// [`spec_failed_reply`]): merged into the view data, it clears that
/// view's part.
pub fn failed_reply(request: &ViewDataRequest) -> (r: ViewDataReply)
    ensures
        r == spec_failed_reply(*request),
{
    match request {
        ViewDataRequest::Song(_) => ViewDataReply::Song(None),
        ViewDataRequest::Album(_) => ViewDataReply::Album(None),
        ViewDataRequest::Artist(_) => ViewDataReply::Artist(None),
        ViewDataRequest::Playlist(_) => ViewDataReply::Playlist(None),
        ViewDataRequest::DynamicPlaylist(_) => ViewDataReply::DynamicPlaylist(None),
        ViewDataRequest::Collection(_) => ViewDataReply::Collection(None),
        ViewDataRequest::Radio(..) => ViewDataReply::Radio(None),
        ViewDataRequest::Random => ViewDataReply::Random(None),
    }
}

/// The view data with the reply's view's part replaced; the other views'
/// parts stay.
pub open spec fn spec_merge(data: ViewData, reply: ViewDataReply) -> ViewData {
    match reply {
        ViewDataReply::Song(p) => ViewData { song: p, ..data },
        ViewDataReply::Album(p) => ViewData { album: p, ..data },
        ViewDataReply::Artist(p) => ViewData { artist: p, ..data },
        ViewDataReply::Playlist(p) => ViewData { playlist: p, ..data },
        ViewDataReply::DynamicPlaylist(p) => ViewData { dynamic_playlist: p, ..data },
        ViewDataReply::Collection(p) => ViewData { collection: p, ..data },
        ViewDataReply::Radio(p) => ViewData { radio: p, ..data },
        ViewDataReply::Random(p) => ViewData { random: p, ..data },
    }
}

/// Puts the reply into the view data (see [`spec_merge`]).
pub fn merge_view_data(data: ViewData, reply: ViewDataReply) -> (r: ViewData)
    ensures
        r == spec_merge(data, reply),
{
    let mut data = data;
    match reply {
        ViewDataReply::Song(p) => data.song = p,
        ViewDataReply::Album(p) => data.album = p,
        ViewDataReply::Artist(p) => data.artist = p,
        ViewDataReply::Playlist(p) => data.playlist = p,
        ViewDataReply::DynamicPlaylist(p) => data.dynamic_playlist = p,
        ViewDataReply::Collection(p) => data.collection = p,
        ViewDataReply::Radio(p) => data.radio = p,
        ViewDataReply::Random(p) => data.random = p,
    }
    data
}

/// The result of [`song_view_props`].
pub open spec fn spec_song_view_props(
    song: Option<(SongBrief, SongDetails)>,
    artists: Option<Vec<ArtistBrief>>,
    album: Option<AlbumBrief>,
    playlists: Option<Vec<PlaylistBrief>>,
    collections: Option<Vec<CollectionBrief>>,
) -> Option<SongViewProps> {
    match (song, artists, album, playlists, collections) {
        (Some((s, d)), Some(a), Some(al), Some(p), Some(c)) => Some(
            SongViewProps { id: s.id, song: s, details: d, artists: a, album: al, playlists: p, collections: c },
        ),
        _ => None,
    }
}

/// The result of [`album_view_props`].
pub open spec fn spec_album_view_props(
    album: Option<(AlbumBrief, AlbumDetails)>,
    artists: Option<Vec<ArtistBrief>>,
    songs: Option<Vec<SongBrief>>,
) -> Option<AlbumViewProps> {
    match (album, artists, songs) {
        (Some((al, d)), Some(a), Some(s)) => Some(
            AlbumViewProps { id: al.id, album: al, details: d, artists: a, songs: s },
        ),
        _ => None,
    }
}

/// The result of [`artist_view_props`].
pub open spec fn spec_artist_view_props(
    artist: Option<(ArtistBrief, ArtistDetails)>,
    albums: Option<Vec<AlbumBrief>>,
    songs: Option<Vec<SongBrief>>,
) -> Option<ArtistViewProps> {
    match (artist, albums, songs) {
        (Some((ar, d)), Some(a), Some(s)) => Some(
            ArtistViewProps { id: ar.id, artist: ar, details: d, albums: a, songs: s },
        ),
        _ => None,
    }
}

/// The result of [`playlist_view_props`].
pub open spec fn spec_playlist_view_props(playlist: Option<PlaylistBrief>, songs: Option<Vec<SongBrief>>) -> Option<PlaylistViewProps> {
    match (playlist, songs) {
        (Some(p), Some(s)) => Some(PlaylistViewProps { id: p.id, playlist: p, songs: s }),
        _ => None,
    }
}

/// The result of [`dynamic_playlist_view_props`].
pub open spec fn spec_dynamic_playlist_view_props(dynamic_playlist: Option<DynamicPlaylist>, songs: Option<Vec<SongBrief>>) -> Option<DynamicPlaylistViewProps> {
    match (dynamic_playlist, songs) {
        (Some(d), Some(s)) => Some(DynamicPlaylistViewProps { id: d.id, dynamic_playlist: d, songs: s }),
        _ => None,
    }
}

/// The result of [`collection_view_props`].
pub open spec fn spec_collection_view_props(collection: Option<CollectionBrief>, songs: Option<Vec<SongBrief>>) -> Option<CollectionViewProps> {
    match (collection, songs) {
        (Some(c), Some(s)) => Some(CollectionViewProps { id: c.id, collection: c, songs: s }),
        _ => None,
    }
}

/// The result of [`radio_view_props`].
pub open spec fn spec_radio_view_props(count: u32, songs: Option<Vec<SongBrief>>) -> Option<RadioViewProps> {
    match songs {
        Some(s) => Some(RadioViewProps { count, songs: s }),
        None => None,
    }
}

/// The result of [`random_view_props`].
pub open spec fn spec_random_view_props(album: Option<AlbumBrief>, artist: Option<ArtistBrief>, song: Option<SongBrief>) -> Option<RandomViewProps> {
    match (album, artist, song) {
        (Some(al), Some(ar), Some(s)) => Some(RandomViewProps { album: al.id, artist: ar.id, song: s.id }),
        _ => None,
    }
}

/// The song view's data, if the daemon had all of it.
pub fn song_view_props(
    song: Option<(SongBrief, SongDetails)>,
    artists: Option<Vec<ArtistBrief>>,
    album: Option<AlbumBrief>,
    playlists: Option<Vec<PlaylistBrief>>,
    collections: Option<Vec<CollectionBrief>>,
) -> (r: Option<SongViewProps>)
    ensures
        r == spec_song_view_props(song, artists, album, playlists, collections),
{
    match (song, artists, album, playlists, collections) {
        (Some((s, d)), Some(a), Some(al), Some(p), Some(c)) => {
            let id = s.id.clone();
            Some(SongViewProps { id, song: s, details: d, artists: a, album: al, playlists: p, collections: c })
        },
        _ => None,
    }
}

/// The album view's data, if the daemon had all of it.
pub fn album_view_props(
    album: Option<(AlbumBrief, AlbumDetails)>,
    artists: Option<Vec<ArtistBrief>>,
    songs: Option<Vec<SongBrief>>,
) -> (r: Option<AlbumViewProps>)
    ensures
        r == spec_album_view_props(album, artists, songs),
{
    match (album, artists, songs) {
        (Some((al, d)), Some(a), Some(s)) => {
            let id = al.id.clone();
            Some(AlbumViewProps { id, album: al, details: d, artists: a, songs: s })
        },
        _ => None,
    }
}

/// The artist view's data, if the daemon had all of it.
pub fn artist_view_props(
    artist: Option<(ArtistBrief, ArtistDetails)>,
    albums: Option<Vec<AlbumBrief>>,
    songs: Option<Vec<SongBrief>>,
) -> (r: Option<ArtistViewProps>)
    ensures
        r == spec_artist_view_props(artist, albums, songs),
{
    match (artist, albums, songs) {
        (Some((ar, d)), Some(a), Some(s)) => {
            let id = ar.id.clone();
            Some(ArtistViewProps { id, artist: ar, details: d, albums: a, songs: s })
        },
        _ => None,
    }
}

/// The playlist view's data, if the daemon had all of it.
pub fn playlist_view_props(playlist: Option<PlaylistBrief>, songs: Option<Vec<SongBrief>>) -> (r: Option<PlaylistViewProps>)
    ensures
        r == spec_playlist_view_props(playlist, songs),
{
    match (playlist, songs) {
        (Some(p), Some(s)) => {
            let id = p.id.clone();
            Some(PlaylistViewProps { id, playlist: p, songs: s })
        },
        _ => None,
    }
}

/// The dynamic playlist view's data, if the daemon had all of it.
pub fn dynamic_playlist_view_props(dynamic_playlist: Option<DynamicPlaylist>, songs: Option<Vec<SongBrief>>) -> (r: Option<DynamicPlaylistViewProps>)
    ensures
        r == spec_dynamic_playlist_view_props(dynamic_playlist, songs),
{
    match (dynamic_playlist, songs) {
        (Some(d), Some(s)) => {
            let id = d.id.clone();
            Some(DynamicPlaylistViewProps { id, dynamic_playlist: d, songs: s })
        },
        _ => None,
    }
}

/// The collection view's data, if the daemon had all of it.
pub fn collection_view_props(collection: Option<CollectionBrief>, songs: Option<Vec<SongBrief>>) -> (r: Option<CollectionViewProps>)
    ensures
        r == spec_collection_view_props(collection, songs),
{
    match (collection, songs) {
        (Some(c), Some(s)) => {
            let id = c.id.clone();
            Some(CollectionViewProps { id, collection: c, songs: s })
        },
        _ => None,
    }
}

/// The radio view's data: the similar songs, if the daemon found them, and
/// how many were asked for.
pub fn radio_view_props(count: u32, songs: Option<Vec<SongBrief>>) -> (r: Option<RadioViewProps>)
    ensures
        r == spec_radio_view_props(count, songs),
{
    match songs {
        Some(s) => Some(RadioViewProps { count, songs: s }),
        None => None,
    }
}

/// The random view's data, if the daemon found a random album, artist and
/// song.
pub fn random_view_props(album: Option<AlbumBrief>, artist: Option<ArtistBrief>, song: Option<SongBrief>) -> (r: Option<RandomViewProps>)
    ensures
        r == spec_random_view_props(album, artist, song),
{
    match (album, artist, song) {
        (Some(al), Some(ar), Some(s)) => Some(RandomViewProps { album: al.id, artist: ar.id, song: s.id }),
        _ => None,
    }
}

/// What the daemon handed back for a view, each part `None` where it had
/// nothing; or that the fetch failed.
#[derive(Debug, Clone, PartialEq, Eq)]
pub enum Fetched {
    Song {
        song: Option<(SongBrief, SongDetails)>,
        artists: Option<Vec<ArtistBrief>>,
        album: Option<AlbumBrief>,
        playlists: Option<Vec<PlaylistBrief>>,
        collections: Option<Vec<CollectionBrief>>,
    },
    Album { album: Option<(AlbumBrief, AlbumDetails)>, artists: Option<Vec<ArtistBrief>>, songs: Option<Vec<SongBrief>> },
    Artist { artist: Option<(ArtistBrief, ArtistDetails)>, albums: Option<Vec<AlbumBrief>>, songs: Option<Vec<SongBrief>> },
    Playlist { playlist: Option<PlaylistBrief>, songs: Option<Vec<SongBrief>> },
    DynamicPlaylist { dynamic_playlist: Option<DynamicPlaylist>, songs: Option<Vec<SongBrief>> },
    Collection { collection: Option<CollectionBrief>, songs: Option<Vec<SongBrief>> },
    Radio { songs: Option<Vec<SongBrief>> },
    Random { album: Option<AlbumBrief>, artist: Option<ArtistBrief>, song: Option<SongBrief> },
    /// The fetch failed.
    Failed,
}

/// The reply for `request` from what was fetched: the view's data built
/// from the parts (none unless all are there), or no data for that view
/// when the fetch failed or brought parts of another kind of view.
pub open spec fn spec_fetched_reply(request: ViewDataRequest, fetched: Fetched) -> ViewDataReply {
    match (request, fetched) {
        (ViewDataRequest::Song(_), Fetched::Song { song, artists, album, playlists, collections }) => ViewDataReply::Song(
            spec_song_view_props(song, artists, album, playlists, collections),
        ),
        (ViewDataRequest::Album(_), Fetched::Album { album, artists, songs }) => ViewDataReply::Album(
            spec_album_view_props(album, artists, songs),
        ),
        (ViewDataRequest::Artist(_), Fetched::Artist { artist, albums, songs }) => ViewDataReply::Artist(
            spec_artist_view_props(artist, albums, songs),
        ),
        (ViewDataRequest::Playlist(_), Fetched::Playlist { playlist, songs }) => ViewDataReply::Playlist(
            spec_playlist_view_props(playlist, songs),
        ),
        (ViewDataRequest::DynamicPlaylist(_), Fetched::DynamicPlaylist { dynamic_playlist, songs }) => ViewDataReply::DynamicPlaylist(
            spec_dynamic_playlist_view_props(dynamic_playlist, songs),
        ),
        (ViewDataRequest::Collection(_), Fetched::Collection { collection, songs }) => ViewDataReply::Collection(
            spec_collection_view_props(collection, songs),
        ),
        (ViewDataRequest::Radio(_, count), Fetched::Radio { songs }) => ViewDataReply::Radio(
            spec_radio_view_props(count, songs),
        ),
        (ViewDataRequest::Random, Fetched::Random { album, artist, song }) => ViewDataReply::Random(
            spec_random_view_props(album, artist, song),
        ),
        _ => spec_failed_reply(request),
    }
}

/// The view data after fetching `request`'s data (see
/// [`spec_fetched_reply`]): that view's part is replaced, the other views'
/// parts stay.
pub fn view_data_after(data: ViewData, request: &ViewDataRequest, fetched: Fetched) -> (r: ViewData)
    ensures
        r == spec_merge(data, spec_fetched_reply(*request, fetched)),
{
    let reply = match (request, fetched) {
        (ViewDataRequest::Song(_), Fetched::Song { song, artists, album, playlists, collections }) => ViewDataReply::Song(
            song_view_props(song, artists, album, playlists, collections),
        ),
        (ViewDataRequest::Album(_), Fetched::Album { album, artists, songs }) => ViewDataReply::Album(
            album_view_props(album, artists, songs),
        ),
        (ViewDataRequest::Artist(_), Fetched::Artist { artist, albums, songs }) => ViewDataReply::Artist(
            artist_view_props(artist, albums, songs),
        ),
        (ViewDataRequest::Playlist(_), Fetched::Playlist { playlist, songs }) => ViewDataReply::Playlist(
            playlist_view_props(playlist, songs),
        ),
        (ViewDataRequest::DynamicPlaylist(_), Fetched::DynamicPlaylist { dynamic_playlist, songs }) => ViewDataReply::DynamicPlaylist(
            dynamic_playlist_view_props(dynamic_playlist, songs),
        ),
        (ViewDataRequest::Collection(_), Fetched::Collection { collection, songs }) => ViewDataReply::Collection(
            collection_view_props(collection, songs),
        ),
        (ViewDataRequest::Radio(_, count), Fetched::Radio { songs }) => ViewDataReply::Radio(
            radio_view_props(*count, songs),
        ),
        (ViewDataRequest::Random, Fetched::Random { album, artist, song }) => ViewDataReply::Random(
            random_view_props(album, artist, song),
        ),
        _ => failed_reply(request),
    };
    merge_view_data(data, reply)
}

} // verus!
