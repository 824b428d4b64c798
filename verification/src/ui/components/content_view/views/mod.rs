pub mod album;
pub mod artist;
pub mod check_marks;
pub mod checktree_utils;
pub mod collection;
pub mod dynamic;
pub mod generic;
pub mod keys;
pub mod library;
pub mod none;
pub mod playlist;
pub mod radio;
pub mod random;
pub mod search;
pub mod song;
pub mod sort_keys;
pub mod sort_mode;
pub mod text_key;
pub mod traits;

use vstd::prelude::*;

use self::traits::{ItemViewProps, SortMode, SortableViewProps};
use crate::ui::widgets::tree::{
    CheckTreeItem, DuplicateIdentifier, Span, create_album_tree_item, create_album_tree_leaf,
    create_artist_tree_item, create_collection_tree_item, create_playlist_tree_item, create_song_tree_item,
    spec_album_ids, spec_artist_ids, spec_collection_ids, spec_group, spec_ids_distinct, spec_playlist_ids,
    spec_song_ids,
};

use crate::state::action::{Action, PopupAction};
use crate::ui::events::KeyCode;
use crate::ui::widgets::popups::PopupType;
use crate::state::library::{
    AlbumBrief, AlbumDetails, ArtistBrief, ArtistDetails, CollectionBrief, DynamicPlaylist, PlaylistBrief, RecordId,
    SongBrief, SongDetails,
};

verus! {

/// The random items the random view offers.
#[derive(Debug, Clone, PartialEq, Eq)]
pub struct RandomViewProps {
    /// id of a random album
    pub album: RecordId,
    /// id of a random artist
    pub artist: RecordId,
    /// id of a random song
    pub song: RecordId,
}

/// What the album view shows.
#[derive(Debug, Clone, PartialEq, Eq)]
pub struct AlbumViewProps {
    pub id: RecordId,
    pub album: AlbumBrief,
    pub details: AlbumDetails,
    pub artists: Vec<ArtistBrief>,
    pub songs: Vec<SongBrief>,
}

/// What the artist view shows.
#[derive(Debug, Clone, PartialEq, Eq)]
pub struct ArtistViewProps {
    pub id: RecordId,
    pub artist: ArtistBrief,
    pub details: ArtistDetails,
    pub albums: Vec<AlbumBrief>,
    pub songs: Vec<SongBrief>,
}

/// What the collection view shows.
#[derive(Debug, Clone, PartialEq, Eq)]
pub struct CollectionViewProps {
    pub id: RecordId,
    pub collection: CollectionBrief,
    pub songs: Vec<SongBrief>,
}

/// What the dynamic playlist view shows.
#[derive(Debug, Clone, PartialEq, Eq)]
pub struct DynamicPlaylistViewProps {
    pub id: RecordId,
    pub dynamic_playlist: DynamicPlaylist,
    pub songs: Vec<SongBrief>,
}

/// What the playlist view shows.
#[derive(Debug, Clone, PartialEq, Eq)]
pub struct PlaylistViewProps {
    pub id: RecordId,
    pub playlist: PlaylistBrief,
    pub songs: Vec<SongBrief>,
}

/// What the song view shows.
#[derive(Debug, Clone, PartialEq, Eq)]
pub struct SongViewProps {
    pub id: RecordId,
    pub song: SongBrief,
    pub details: SongDetails,
    pub artists: Vec<ArtistBrief>,
    pub album: AlbumBrief,
    pub playlists: Vec<PlaylistBrief>,
    pub collections: Vec<CollectionBrief>,
}

/// What the radio view shows.
#[derive(Debug, Clone, PartialEq, Eq)]
pub struct RadioViewProps {
    /// The number of similar songs to get
    pub count: u32,
    /// The songs that are similar to the things
    pub songs: Vec<SongBrief>,
}

/// The data of the views of one item, fetched when such a view opens.
#[derive(Debug, Clone, PartialEq, Eq)]
pub struct ViewData {
    pub album: Option<AlbumViewProps>,
    pub artist: Option<ArtistViewProps>,
    pub collection: Option<CollectionViewProps>,
    pub dynamic_playlist: Option<DynamicPlaylistViewProps>,
    pub playlist: Option<PlaylistViewProps>,
    pub song: Option<SongViewProps>,
    pub radio: Option<RadioViewProps>,
    pub random: Option<RandomViewProps>,
}

impl Default for ViewData {
    /// No data for any view.
    fn default() -> (r: Self)
        ensures
            r.album is None,
            r.artist is None,
            r.collection is None,
            r.dynamic_playlist is None,
            r.playlist is None,
            r.song is None,
            r.radio is None,
            r.random is None,
    {
        ViewData {
            album: None,
            artist: None,
            collection: None,
            dynamic_playlist: None,
            playlist: None,
            song: None,
            radio: None,
            random: None,
        }
    }
}

impl ItemViewProps for AlbumViewProps {
    open spec fn spec_id(&self) -> RecordId {
        self.id
    }

    open spec fn spec_retrieve(data: ViewData) -> Option<Self> {
        data.album
    }

    fn id(&self) -> (r: &RecordId) {
        &self.id
    }

    fn retrieve(view_data: ViewData) -> (r: Option<Self>) {
        view_data.album
    }

    open spec fn spec_title() -> Seq<char> {
        "Album View"@
    }

    fn title() -> (r: &'static str)
        ensures
            r@ == "Album View"@,
    {
        "Album View"
    }

    fn name() -> (r: &'static str)
        ensures
            r@ == "album"@,
    {
        "album"
    }

    fn none_checked_string() -> (r: &'static str)
        ensures
            r@ == "entire album"@,
    {
        "entire album"
    }

    open spec fn spec_has_extra_footer() -> bool {
        false
    }

    fn has_extra_footer() -> (r: bool) {
        false
    }

    open spec fn spec_extra_key(&self, code: KeyCode) -> Option<Action> {
        None
    }

    fn extra_key(&self, code: KeyCode) -> (r: Option<Action>) {
        None
    }
}

impl ItemViewProps for ArtistViewProps {
    open spec fn spec_id(&self) -> RecordId {
        self.id
    }

    open spec fn spec_retrieve(data: ViewData) -> Option<Self> {
        data.artist
    }

    fn id(&self) -> (r: &RecordId) {
        &self.id
    }

    fn retrieve(view_data: ViewData) -> (r: Option<Self>) {
        view_data.artist
    }

    open spec fn spec_title() -> Seq<char> {
        "Artist View"@
    }

    fn title() -> (r: &'static str)
        ensures
            r@ == "Artist View"@,
    {
        "Artist View"
    }

    fn name() -> (r: &'static str)
        ensures
            r@ == "artist"@,
    {
        "artist"
    }

    fn none_checked_string() -> (r: &'static str)
        ensures
            r@ == "entire artist"@,
    {
        "entire artist"
    }

    open spec fn spec_has_extra_footer() -> bool {
        false
    }

    fn has_extra_footer() -> (r: bool) {
        false
    }

    open spec fn spec_extra_key(&self, code: KeyCode) -> Option<Action> {
        None
    }

    fn extra_key(&self, code: KeyCode) -> (r: Option<Action>) {
        None
    }
}

impl ItemViewProps for SongViewProps {
    open spec fn spec_id(&self) -> RecordId {
        self.id
    }

    open spec fn spec_retrieve(data: ViewData) -> Option<Self> {
        data.song
    }

    fn id(&self) -> (r: &RecordId) {
        &self.id
    }

    fn retrieve(view_data: ViewData) -> (r: Option<Self>) {
        view_data.song
    }

    open spec fn spec_title() -> Seq<char> {
        "Song View"@
    }

    fn title() -> (r: &'static str)
        ensures
            r@ == "Song View"@,
    {
        "Song View"
    }

    fn name() -> (r: &'static str)
        ensures
            r@ == "song"@,
    {
        "song"
    }

    fn none_checked_string() -> (r: &'static str)
        ensures
            r@ == "the song"@,
    {
        "the song"
    }

    open spec fn spec_has_extra_footer() -> bool {
        false
    }

    fn has_extra_footer() -> (r: bool) {
        false
    }

    open spec fn spec_extra_key(&self, code: KeyCode) -> Option<Action> {
        None
    }

    fn extra_key(&self, code: KeyCode) -> (r: Option<Action>) {
        None
    }
}

impl ItemViewProps for CollectionViewProps {
    open spec fn spec_id(&self) -> RecordId {
        self.id
    }

    open spec fn spec_retrieve(data: ViewData) -> Option<Self> {
        data.collection
    }

    fn id(&self) -> (r: &RecordId) {
        &self.id
    }

    fn retrieve(view_data: ViewData) -> (r: Option<Self>) {
        view_data.collection
    }

    open spec fn spec_title() -> Seq<char> {
        "Collection View"@
    }

    fn title() -> (r: &'static str)
        ensures
            r@ == "Collection View"@,
    {
        "Collection View"
    }

    fn name() -> (r: &'static str)
        ensures
            r@ == "collection"@,
    {
        "collection"
    }

    fn none_checked_string() -> (r: &'static str)
        ensures
            r@ == "entire collection"@,
    {
        "entire collection"
    }

    open spec fn spec_has_extra_footer() -> bool {
        false
    }

    fn has_extra_footer() -> (r: bool) {
        false
    }

    open spec fn spec_extra_key(&self, code: KeyCode) -> Option<Action> {
        None
    }

    fn extra_key(&self, code: KeyCode) -> (r: Option<Action>) {
        None
    }
}

impl ItemViewProps for DynamicPlaylistViewProps {
    open spec fn spec_id(&self) -> RecordId {
        self.id
    }

    open spec fn spec_retrieve(data: ViewData) -> Option<Self> {
        data.dynamic_playlist
    }

    fn id(&self) -> (r: &RecordId) {
        &self.id
    }

    fn retrieve(view_data: ViewData) -> (r: Option<Self>) {
        view_data.dynamic_playlist
    }

    open spec fn spec_title() -> Seq<char> {
        "Dynamic Playlist View"@
    }

    fn title() -> (r: &'static str)
        ensures
            r@ == "Dynamic Playlist View"@,
    {
        "Dynamic Playlist View"
    }

    fn name() -> (r: &'static str)
        ensures
            r@ == "dynamic playlist"@,
    {
        "dynamic playlist"
    }

    fn none_checked_string() -> (r: &'static str)
        ensures
            r@ == "entire dynamic playlist"@,
    {
        "entire dynamic playlist"
    }

    open spec fn spec_has_extra_footer() -> bool {
        true
    }

    fn has_extra_footer() -> (r: bool) {
        true
    }

    /// `e` opens the editor of the dynamic playlist.
    open spec fn spec_extra_key(&self, code: KeyCode) -> Option<Action> {
        if code == KeyCode::Char('e') {
            Some(Action::Popup(PopupAction::Open(PopupType::DynamicPlaylistEditor(self.dynamic_playlist))))
        } else {
            None
        }
    }

    fn extra_key(&self, code: KeyCode) -> (r: Option<Action>) {
        if code == KeyCode::Char('e') {
            Some(Action::Popup(PopupAction::Open(PopupType::DynamicPlaylistEditor(self.dynamic_playlist.clone()))))
        } else {
            None
        }
    }
}

impl SortableViewProps<SongBrief> for CollectionViewProps {
    open spec fn spec_items(&self) -> Seq<SongBrief> {
        self.songs@
    }

    open spec fn same_but_items(before: Self, after: Self) -> bool {
        before.id == after.id && before.collection == after.collection
    }

    fn sort_items<M: SortMode<SongBrief>>(&mut self, sort_mode: &M) {
        sort_mode.sort_items(&mut self.songs);
    }
}

impl SortableViewProps<SongBrief> for DynamicPlaylistViewProps {
    open spec fn spec_items(&self) -> Seq<SongBrief> {
        self.songs@
    }

    open spec fn same_but_items(before: Self, after: Self) -> bool {
        before.id == after.id && before.dynamic_playlist == after.dynamic_playlist
    }

    fn sort_items<M: SortMode<SongBrief>>(&mut self, sort_mode: &M) {
        sort_mode.sort_items(&mut self.songs);
    }
}

impl AlbumViewProps {
    /// The album view's tree: the album's artists, then its songs.
    pub fn tree_items(&self) -> (r: Result<Vec<CheckTreeItem>, DuplicateIdentifier>)
        ensures
            r is Ok <==> spec_ids_distinct(spec_artist_ids(self.artists@)) && spec_ids_distinct(
                spec_song_ids(self.songs@),
            ),
            r matches Ok(v) ==> v@.len() == 2 && spec_group("Artists"@, spec_artist_ids(self.artists@), Ok(v@[0]))
                && spec_group("Songs"@, spec_song_ids(self.songs@), Ok(v@[1])),
    {
        let artist_tree = match create_artist_tree_item(&self.artists) {
            Ok(t) => t,
            Err(e) => return Err(e),
        };
        let song_tree = match create_song_tree_item(&self.songs) {
            Ok(t) => t,
            Err(e) => return Err(e),
        };
        let mut v: Vec<CheckTreeItem> = Vec::new();
        v.push(artist_tree);
        v.push(song_tree);
        Ok(v)
    }
}

impl ArtistViewProps {
    /// The artist view's tree: the artist's albums, then its songs.
    pub fn tree_items(&self) -> (r: Result<Vec<CheckTreeItem>, DuplicateIdentifier>)
        ensures
            r is Ok <==> spec_ids_distinct(spec_album_ids(self.albums@)) && spec_ids_distinct(
                spec_song_ids(self.songs@),
            ),
            r matches Ok(v) ==> v@.len() == 2 && spec_group("Albums"@, spec_album_ids(self.albums@), Ok(v@[0]))
                && spec_group("Songs"@, spec_song_ids(self.songs@), Ok(v@[1])),
    {
        let album_tree = match create_album_tree_item(&self.albums) {
            Ok(t) => t,
            Err(e) => return Err(e),
        };
        let song_tree = match create_song_tree_item(&self.songs) {
            Ok(t) => t,
            Err(e) => return Err(e),
        };
        let mut v: Vec<CheckTreeItem> = Vec::new();
        v.push(album_tree);
        v.push(song_tree);
        Ok(v)
    }
}

impl SongViewProps {
    /// The song view's tree: the song's artists, its album (a leaf headed
    /// "Album: "), the playlists and the collections it is in.
    pub fn tree_items(&self) -> (r: Result<Vec<CheckTreeItem>, DuplicateIdentifier>)
        ensures
            r is Ok <==> spec_ids_distinct(spec_artist_ids(self.artists@)) && spec_ids_distinct(
                spec_playlist_ids(self.playlists@),
            ) && spec_ids_distinct(spec_collection_ids(self.collections@)),
            r matches Ok(v) ==> {
                &&& v@.len() == 4
                &&& spec_group("Artists"@, spec_artist_ids(self.artists@), Ok(v@[0]))
                &&& v@[1].identifier@ == self.album.id.spec_text() && v@[1].line@[0].text@ == "Album: "@
                &&& spec_group("Playlists"@, spec_playlist_ids(self.playlists@), Ok(v@[2]))
                &&& spec_group("Collections"@, spec_collection_ids(self.collections@), Ok(v@[3]))
            },
    {
        let artist_tree = match create_artist_tree_item(&self.artists) {
            Ok(t) => t,
            Err(e) => return Err(e),
        };
        let prefix = Span { text: "Album: ".to_owned(), bold: false, italic: false };
        let album_tree = create_album_tree_leaf(&self.album, Some(prefix));
        let playlist_tree = match create_playlist_tree_item(&self.playlists) {
            Ok(t) => t,
            Err(e) => return Err(e),
        };
        let collection_tree = match create_collection_tree_item(&self.collections) {
            Ok(t) => t,
            Err(e) => return Err(e),
        };
        let mut v: Vec<CheckTreeItem> = Vec::new();
        v.push(artist_tree);
        v.push(album_tree);
        v.push(playlist_tree);
        v.push(collection_tree);
        Ok(v)
    }
}

} // verus!
