//! The sort modes of the library views.
use std::marker::PhantomData;

use vstd::prelude::*;

use super::sort_keys::{SortKey, SortKeyView, is_stable_sort, keys_view, sort_by_keys, sort_by_keys_descending};
use super::text_key::{spec_text_sort_key, spec_texts_sort_key, text_sort_key, texts_sort_key};
use super::traits::SortMode;
use crate::state::library::{AlbumBrief, ArtistBrief, CollectionBrief, DynamicPlaylist, PlaylistBrief, SongBrief};

verus! {

/// How the songs view orders songs.
#[derive(Clone, Copy, PartialEq, Eq, Debug, Structural)]
pub enum SongSort {
    Title,
    Artist,
    Album,
    AlbumArtist,
    Genre,
}

impl Default for SongSort {
    fn default() -> (r: Self)
        ensures
            r == SongSort::Artist,
    {
        SongSort::Artist
    }
}

/// The key a song is sorted by under `mode`.
pub open spec fn spec_song_key(mode: SongSort, song: SongBrief) -> SortKeyView {
    match mode {
        SongSort::Title => spec_text_sort_key(song.title@),
        SongSort::Artist => spec_texts_sort_key(song.artists@),
        SongSort::Album => spec_text_sort_key(song.album@),
        SongSort::AlbumArtist => spec_texts_sort_key(song.album_artists@),
        SongSort::Genre => spec_texts_sort_key(song.genres@),
    }
}

/// The keys of the songs under `mode`.
pub open spec fn spec_song_keys(mode: SongSort, songs: Seq<SongBrief>) -> Seq<SortKeyView> {
    songs.map_values(|s: SongBrief| spec_song_key(mode, s))
}

fn song_keys(mode: SongSort, songs: &Vec<SongBrief>) -> (r: Vec<SortKey>)
    ensures
        keys_view(r@) == spec_song_keys(mode, songs@),
        r@.len() == songs@.len(),
{
    let mut keys: Vec<SortKey> = Vec::new();
    let mut i: usize = 0;
    while i < songs.len()
        invariant
            i <= songs.len(),
            keys_view(keys@) == spec_song_keys(mode, songs@.subrange(0, i as int)),
            keys@.len() == i,
        decreases songs.len() - i,
    {
        let song = &songs[i];
        let key = match mode {
            SongSort::Title => text_sort_key(&song.title),
            SongSort::Artist => texts_sort_key(&song.artists),
            SongSort::Album => text_sort_key(&song.album),
            SongSort::AlbumArtist => texts_sort_key(&song.album_artists),
            SongSort::Genre => texts_sort_key(&song.genres),
        };
        let ghost prev = keys@;
        keys.push(key);
        proof {
            assert(keys_view(keys@) =~= keys_view(prev).push(key@));
            assert(songs@.subrange(0, i + 1) =~= songs@.subrange(0, i as int).push(songs@[i as int]));
            assert(spec_song_keys(mode, songs@.subrange(0, i + 1)) =~= spec_song_keys(
                mode,
                songs@.subrange(0, i as int),
            ).push(spec_song_key(mode, songs@[i as int])));
        }
        i = i + 1;
    }
    assert(songs@.subrange(0, songs@.len() as int) =~= songs@);
    keys
}

impl SongSort {
    /// The name of the sort mode, as shown in the view's title.
    pub fn to_string(&self) -> (r: String)
        ensures
            r@ == match self {
                SongSort::Title => "Title"@,
                SongSort::Artist => "Artist"@,
                SongSort::Album => "Album"@,
                SongSort::AlbumArtist => "Album Artist"@,
                SongSort::Genre => "Genre"@,
            },
    {
        match self {
            SongSort::Title => "Title".to_owned(),
            SongSort::Artist => "Artist".to_owned(),
            SongSort::Album => "Album".to_owned(),
            SongSort::AlbumArtist => "Album Artist".to_owned(),
            SongSort::Genre => "Genre".to_owned(),
        }
    }
}

impl SortMode<SongBrief> for SongSort {
    /// A stable sort by the mode's key (see [`spec_song_key`]).
    open spec fn sorts(&self, before: Seq<SongBrief>, after: Seq<SongBrief>) -> bool {
        is_stable_sort(spec_song_keys(*self, before), before, after)
    }

    open spec fn following(&self) -> Self {
        spec_song_sort_next(*self)
    }

    open spec fn preceding(&self) -> Self {
        spec_song_sort_prev(*self)
    }

    /// Title -> Artist -> Album -> Album Artist -> Genre -> Title.
    fn next(&self) -> (r: Self)
    {
        match self {
            SongSort::Title => SongSort::Artist,
            SongSort::Artist => SongSort::Album,
            SongSort::Album => SongSort::AlbumArtist,
            SongSort::AlbumArtist => SongSort::Genre,
            SongSort::Genre => SongSort::Title,
        }
    }

    fn prev(&self) -> (r: Self)
    {
        match self {
            SongSort::Title => SongSort::Genre,
            SongSort::Artist => SongSort::Title,
            SongSort::Album => SongSort::Artist,
            SongSort::AlbumArtist => SongSort::Album,
            SongSort::Genre => SongSort::AlbumArtist,
        }
    }

    /// Stable sort by the mode's key (see [`spec_song_key`]).
    fn sort_items(&self, songs: &mut Vec<SongBrief>)
    {
        let keys = song_keys(*self, songs);
        sort_by_keys(songs, keys);
    }
}

pub open spec fn spec_song_sort_next(m: SongSort) -> SongSort {
    match m {
        SongSort::Title => SongSort::Artist,
        SongSort::Artist => SongSort::Album,
        SongSort::Album => SongSort::AlbumArtist,
        SongSort::AlbumArtist => SongSort::Genre,
        SongSort::Genre => SongSort::Title,
    }
}

pub open spec fn spec_song_sort_prev(m: SongSort) -> SongSort {
    match m {
        SongSort::Title => SongSort::Genre,
        SongSort::Artist => SongSort::Title,
        SongSort::Album => SongSort::Artist,
        SongSort::AlbumArtist => SongSort::Album,
        SongSort::Genre => SongSort::AlbumArtist,
    }
}

/// Cycling the song sort mode forward and back returns to the same mode,
/// and five steps forward go all the way round.
pub proof fn lemma_song_sort_cycle(m: SongSort)
    ensures
        spec_song_sort_prev(spec_song_sort_next(m)) == m,
        spec_song_sort_next(spec_song_sort_prev(m)) == m,
        spec_song_sort_next(
            spec_song_sort_next(spec_song_sort_next(spec_song_sort_next(spec_song_sort_next(m)))),
        ) == m,
{
}

/// How the albums view orders albums.
#[derive(Clone, Copy, PartialEq, Eq, Debug, Structural)]
pub enum AlbumSort {
    Title,
    Artist,
    ReleaseYear,
}

impl Default for AlbumSort {
    fn default() -> (r: Self)
        ensures
            r == AlbumSort::Artist,
    {
        AlbumSort::Artist
    }
}

/// The key an album is sorted by under `mode` (the release year counts as
/// 0 when it is unknown).
pub open spec fn spec_album_key(mode: AlbumSort, album: AlbumBrief) -> SortKeyView {
    match mode {
        AlbumSort::Title => spec_text_sort_key(album.title@),
        AlbumSort::Artist => spec_texts_sort_key(album.artists@),
        AlbumSort::ReleaseYear => SortKeyView::Number(
            match album.release {
                Some(y) => y as int,
                None => 0,
            },
        ),
    }
}

/// The keys of the albums under `mode`.
pub open spec fn spec_album_keys(mode: AlbumSort, albums: Seq<AlbumBrief>) -> Seq<SortKeyView> {
    albums.map_values(|a: AlbumBrief| spec_album_key(mode, a))
}

/// The albums sorted under `mode`: a stable sort by the key, except by
/// release year, which puts the newest first (the reverse of the stable
/// sort, so albums of one year come in reverse of their original order).
pub open spec fn spec_albums_sorted(mode: AlbumSort, before: Seq<AlbumBrief>, after: Seq<AlbumBrief>) -> bool {
    if mode is ReleaseYear {
        exists|sorted: Seq<AlbumBrief>|
            #![trigger is_stable_sort(spec_album_keys(mode, before), before, sorted)]
            is_stable_sort(spec_album_keys(mode, before), before, sorted) && after
                == sorted.reverse()
    } else {
        is_stable_sort(spec_album_keys(mode, before), before, after)
    }
}

fn album_keys(mode: AlbumSort, albums: &Vec<AlbumBrief>) -> (r: Vec<SortKey>)
    ensures
        keys_view(r@) == spec_album_keys(mode, albums@),
        r@.len() == albums@.len(),
{
    let mut keys: Vec<SortKey> = Vec::new();
    let mut i: usize = 0;
    while i < albums.len()
        invariant
            i <= albums.len(),
            keys_view(keys@) == spec_album_keys(mode, albums@.subrange(0, i as int)),
            keys@.len() == i,
        decreases albums.len() - i,
    {
        let album = &albums[i];
        let key = match mode {
            AlbumSort::Title => text_sort_key(&album.title),
            AlbumSort::Artist => texts_sort_key(&album.artists),
            AlbumSort::ReleaseYear => SortKey::Number(
                match album.release {
                    Some(y) => y as i64,
                    None => 0,
                },
            ),
        };
        let ghost prev = keys@;
        keys.push(key);
        proof {
            assert(keys_view(keys@) =~= keys_view(prev).push(key@));
            assert(albums@.subrange(0, i + 1) =~= albums@.subrange(0, i as int).push(albums@[i as int]));
            assert(spec_album_keys(mode, albums@.subrange(0, i + 1)) =~= spec_album_keys(
                mode,
                albums@.subrange(0, i as int),
            ).push(spec_album_key(mode, albums@[i as int])));
        }
        i = i + 1;
    }
    assert(albums@.subrange(0, albums@.len() as int) =~= albums@);
    keys
}

/// Sorts albums under `mode` (see [`spec_albums_sorted`]).
pub fn sort_albums_by(mode: AlbumSort, albums: &mut Vec<AlbumBrief>)
    ensures
        spec_albums_sorted(mode, old(albums)@, final(albums)@),
{
    let keys = album_keys(mode, albums);
    match mode {
        AlbumSort::ReleaseYear => sort_by_keys_descending(albums, keys),
        _ => sort_by_keys(albums, keys),
    }
}

impl AlbumSort {
    /// The name of the sort mode, as shown in the view's title.
    pub fn to_string(&self) -> (r: String)
        ensures
            r@ == match self {
                AlbumSort::Title => "Title"@,
                AlbumSort::Artist => "Artist"@,
                AlbumSort::ReleaseYear => "Year"@,
            },
    {
        match self {
            AlbumSort::Title => "Title".to_owned(),
            AlbumSort::Artist => "Artist".to_owned(),
            AlbumSort::ReleaseYear => "Year".to_owned(),
        }
    }
}

pub open spec fn spec_album_sort_next(m: AlbumSort) -> AlbumSort {
    match m {
        AlbumSort::Title => AlbumSort::Artist,
        AlbumSort::Artist => AlbumSort::ReleaseYear,
        AlbumSort::ReleaseYear => AlbumSort::Title,
    }
}

pub open spec fn spec_album_sort_prev(m: AlbumSort) -> AlbumSort {
    match m {
        AlbumSort::Title => AlbumSort::ReleaseYear,
        AlbumSort::Artist => AlbumSort::Title,
        AlbumSort::ReleaseYear => AlbumSort::Artist,
    }
}

/// Cycling the album sort mode forward and back returns to the same mode,
/// and three steps forward go all the way round.
pub proof fn lemma_album_sort_cycle(m: AlbumSort)
    ensures
        spec_album_sort_prev(spec_album_sort_next(m)) == m,
        spec_album_sort_next(spec_album_sort_prev(m)) == m,
        spec_album_sort_next(spec_album_sort_next(spec_album_sort_next(m))) == m,
{
}

impl SortMode<AlbumBrief> for AlbumSort {
    /// See [`spec_albums_sorted`].
    open spec fn sorts(&self, before: Seq<AlbumBrief>, after: Seq<AlbumBrief>) -> bool {
        spec_albums_sorted(*self, before, after)
    }

    open spec fn following(&self) -> Self {
        spec_album_sort_next(*self)
    }

    open spec fn preceding(&self) -> Self {
        spec_album_sort_prev(*self)
    }

    /// Title -> Artist -> Year -> Title.
    fn next(&self) -> (r: Self)
    {
        match self {
            AlbumSort::Title => AlbumSort::Artist,
            AlbumSort::Artist => AlbumSort::ReleaseYear,
            AlbumSort::ReleaseYear => AlbumSort::Title,
        }
    }

    fn prev(&self) -> (r: Self)
    {
        match self {
            AlbumSort::Title => AlbumSort::ReleaseYear,
            AlbumSort::Artist => AlbumSort::Title,
            AlbumSort::ReleaseYear => AlbumSort::Artist,
        }
    }

    fn sort_items(&self, albums: &mut Vec<AlbumBrief>)
    {
        sort_albums_by(*self, albums);
    }
}

/// Items that are ordered by their name.
pub trait Named {
    spec fn spec_name(&self) -> Seq<char>;

    fn name_text(&self) -> (r: &String)
        ensures
            r@ == self.spec_name(),
    ;
}

impl Named for ArtistBrief {
    open spec fn spec_name(&self) -> Seq<char> {
        self.name@
    }

    fn name_text(&self) -> (r: &String) {
        &self.name
    }
}

impl Named for CollectionBrief {
    open spec fn spec_name(&self) -> Seq<char> {
        self.name@
    }

    fn name_text(&self) -> (r: &String) {
        &self.name
    }
}

impl Named for PlaylistBrief {
    open spec fn spec_name(&self) -> Seq<char> {
        self.name@
    }

    fn name_text(&self) -> (r: &String) {
        &self.name
    }
}

impl Named for DynamicPlaylist {
    open spec fn spec_name(&self) -> Seq<char> {
        self.name@
    }

    fn name_text(&self) -> (r: &String) {
        &self.name
    }
}

/// The keys of named items: their names' sort texts.
pub open spec fn spec_name_keys<T: Named>(items: Seq<T>) -> Seq<SortKeyView> {
    items.map_values(|x: T| spec_text_sort_key(x.spec_name()))
}

fn name_keys<T: Named>(items: &Vec<T>) -> (r: Vec<SortKey>)
    ensures
        keys_view(r@) == spec_name_keys(items@),
        r@.len() == items@.len(),
{
    let mut keys: Vec<SortKey> = Vec::new();
    let mut i: usize = 0;
    while i < items.len()
        invariant
            i <= items.len(),
            keys_view(keys@) == spec_name_keys(items@.subrange(0, i as int)),
            keys@.len() == i,
        decreases items.len() - i,
    {
        let key = text_sort_key(items[i].name_text());
        let ghost prev = keys@;
        keys.push(key);
        proof {
            assert(keys_view(keys@) =~= keys_view(prev).push(key@));
            assert(items@.subrange(0, i + 1) =~= items@.subrange(0, i as int).push(items@[i as int]));
            assert(spec_name_keys(items@.subrange(0, i + 1)) =~= spec_name_keys(
                items@.subrange(0, i as int),
            ).push(spec_text_sort_key(items@[i as int].spec_name())));
        }
        i = i + 1;
    }
    assert(items@.subrange(0, items@.len() as int) =~= items@);
    keys
}

/// Sorts named items by name (stable).
pub fn sort_by_name<T: Named>(items: &mut Vec<T>)
    ensures
        is_stable_sort(spec_name_keys(old(items)@), old(items)@, final(items)@),
{
    let keys = name_keys(items);
    sort_by_keys(items, keys);
}

/// Ordering by name, the one sort mode of the artist, collection, playlist
/// and dynamic playlist views.
#[derive(Debug)]
pub struct NameSort<T>(pub PhantomData<T>);

impl<T> Clone for NameSort<T> {
    fn clone(&self) -> (r: Self) {
        NameSort::new()
    }
}

impl<T> NameSort<T> {
    pub fn new() -> (r: Self)
        ensures
            r == NameSort::<T>(PhantomData),
    {
        NameSort(PhantomData)
    }

    /// The name of the sort mode, as shown in the view's title.
    pub fn to_string(&self) -> (r: String)
        ensures
            r@ == "Name"@,
    {
        "Name".to_owned()
    }
}

impl<T> Default for NameSort<T> {
    fn default() -> (r: Self) {
        Self::new()
    }
}

impl<T: Named> SortMode<T> for NameSort<T> {
    /// A stable sort by name (see [`spec_name_keys`]).
    open spec fn sorts(&self, before: Seq<T>, after: Seq<T>) -> bool {
        is_stable_sort(spec_name_keys(before), before, after)
    }

    /// There is one mode, so it follows itself.
    open spec fn following(&self) -> Self {
        *self
    }

    open spec fn preceding(&self) -> Self {
        *self
    }

    fn next(&self) -> (r: Self) {
        Self::new()
    }

    fn prev(&self) -> (r: Self) {
        Self::new()
    }

    fn sort_items(&self, items: &mut Vec<T>)
    {
        sort_by_name(items);
    }
}

} // verus!
