//! The album views: one album, and the library's albums, sorted.
use vstd::prelude::*;

use super::AlbumViewProps;
use super::keys::{KeyOutcome, item_view_key, spec_item_view_key, spec_last_line, spec_list_view_key};
use super::library::{LibraryList, sort_outcome, spec_sort_keys};
use super::sort_mode::{AlbumSort, sort_albums_by, spec_albums_sorted};
use super::traits;
use crate::state::library::{AlbumBrief, RecordId};
use crate::ui::events::{KeyCode, KeyEvent};

verus! {

/// How the library albums view orders albums.
#[derive(Clone, Copy, PartialEq, Eq, Debug, Structural)]
pub enum SortMode {
    Title,
    Artist,
    ReleaseYear,
}

impl Default for SortMode {
    fn default() -> (r: Self)
        ensures
            r == SortMode::Artist,
    {
        SortMode::Artist
    }
}

/// The album sort that a sort mode stands for.
pub open spec fn spec_album_sort(m: SortMode) -> AlbumSort {
    match m {
        SortMode::Title => AlbumSort::Title,
        SortMode::Artist => AlbumSort::Artist,
        SortMode::ReleaseYear => AlbumSort::ReleaseYear,
    }
}

impl SortMode {
    /// Title -> Artist -> Year -> Title.
    pub fn next(&self) -> (r: Self)
        ensures
            r == match self {
                SortMode::Title => SortMode::Artist,
                SortMode::Artist => SortMode::ReleaseYear,
                SortMode::ReleaseYear => SortMode::Title,
            },
    {
        match self {
            SortMode::Title => SortMode::Artist,
            SortMode::Artist => SortMode::ReleaseYear,
            SortMode::ReleaseYear => SortMode::Title,
        }
    }

    /// Title -> Year -> Artist -> Title.
    pub fn prev(&self) -> (r: Self)
        ensures
            r == match self {
                SortMode::Title => SortMode::ReleaseYear,
                SortMode::Artist => SortMode::Title,
                SortMode::ReleaseYear => SortMode::Artist,
            },
    {
        match self {
            SortMode::Title => SortMode::ReleaseYear,
            SortMode::Artist => SortMode::Title,
            SortMode::ReleaseYear => SortMode::Artist,
        }
    }

    /// The name of the sort mode, as shown in the view's title.
    pub fn to_string(&self) -> (r: String)
        ensures
            r@ == match self {
                SortMode::Title => "Title"@,
                SortMode::Artist => "Artist"@,
                SortMode::ReleaseYear => "Year"@,
            },
    {
        match self {
            SortMode::Title => "Title".to_owned(),
            SortMode::Artist => "Artist".to_owned(),
            SortMode::ReleaseYear => "Year".to_owned(),
        }
    }

    /// Sorts albums: by title or artist (stable), or newest first.
    pub fn sort_albums(&self, albums: &mut Vec<AlbumBrief>)
        ensures
            spec_albums_sorted(spec_album_sort(*self), old(albums)@, final(albums)@),
    {
        let mode = match self {
            SortMode::Title => AlbumSort::Title,
            SortMode::Artist => AlbumSort::Artist,
            SortMode::ReleaseYear => AlbumSort::ReleaseYear,
        };
        sort_albums_by(mode, albums);
    }
}

/// The mode after `m`: Title -> Artist -> Year -> Title.
pub open spec fn spec_album_mode_next(m: SortMode) -> SortMode {
    match m {
        SortMode::Title => SortMode::Artist,
        SortMode::Artist => SortMode::ReleaseYear,
        SortMode::ReleaseYear => SortMode::Title,
    }
}

/// The mode before `m`.
pub open spec fn spec_album_mode_prev(m: SortMode) -> SortMode {
    match m {
        SortMode::Title => SortMode::ReleaseYear,
        SortMode::Artist => SortMode::Title,
        SortMode::ReleaseYear => SortMode::Artist,
    }
}

impl traits::SortMode<AlbumBrief> for SortMode {
    open spec fn sorts(&self, before: Seq<AlbumBrief>, after: Seq<AlbumBrief>) -> bool {
        spec_albums_sorted(spec_album_sort(*self), before, after)
    }

    open spec fn following(&self) -> Self {
        spec_album_mode_next(*self)
    }

    open spec fn preceding(&self) -> Self {
        spec_album_mode_prev(*self)
    }

    fn next(&self) -> (r: Self) {
        SortMode::next(self)
    }

    fn prev(&self) -> (r: Self) {
        SortMode::prev(self)
    }

    fn sort_items(&self, items: &mut Vec<AlbumBrief>) {
        self.sort_albums(items);
    }
}

/// The id of the album shown, if one is.
pub open spec fn spec_album_id(props: Option<AlbumViewProps>) -> Option<RecordId> {
    match props {
        Some(p) => Some(p.id),
        None => None,
    }
}

/// The view of one album (its tree is kept by the front end).
#[derive(Debug)]
pub struct AlbumView {
    pub props: Option<AlbumViewProps>,
}

impl AlbumView {
    pub fn new(props: Option<AlbumViewProps>) -> (r: Self)
        ensures
            r.props == props,
    {
        AlbumView { props }
    }

    /// The view with fresh data, if there is any; else it is unchanged.
    pub fn move_with_state(self, props: Option<AlbumViewProps>) -> (r: Self)
        ensures
            r.props == if props is Some {
                props
            } else {
                self.props
            },
    {
        match props {
            Some(p) => AlbumView { props: Some(p) },
            None => self,
        }
    }

    pub fn name(&self) -> (r: &'static str)
        ensures
            r@ == "Album View"@,
    {
        "Album View"
    }

    /// What a key does (see [`spec_item_view_key`]): the album itself is
    /// what `q`, `r` and `p` act on when nothing is checked; `None` for
    /// keys that do nothing here.
    pub fn handle_key_event(&self, key: KeyEvent, checked: Vec<RecordId>) -> (r: Option<KeyOutcome>)
        ensures
            spec_item_view_key(key.code, checked, spec_album_id(self.props), r),
    {
        let current = match &self.props {
            Some(p) => Some(p.id.clone()),
            None => None,
        };
        item_view_key(key.code, checked, current)
    }
}

/// The library albums view (the tree itself is kept by the front end).
#[derive(Debug)]
pub struct LibraryAlbumsView {
    pub props: LibraryList<AlbumBrief, SortMode>,
}

impl LibraryAlbumsView {
    /// The view of the library's albums, sorted by artist.
    pub fn new(albums: Vec<AlbumBrief>) -> (r: Self)
        ensures
            r.props.sort_mode == SortMode::Artist,
            spec_albums_sorted(AlbumSort::Artist, albums@, r.props.items@),
    {
        LibraryAlbumsView { props: LibraryList::new(albums, SortMode::Artist) }
    }

    /// The view with the library's current albums, in the same sort mode.
    pub fn move_with_state(self, albums: Vec<AlbumBrief>) -> (r: Self)
        ensures
            r.props.sort_mode == self.props.sort_mode,
            spec_albums_sorted(spec_album_sort(self.props.sort_mode), albums@, r.props.items@),
    {
        LibraryAlbumsView { props: self.props.refresh(albums) }
    }

    pub fn name(&self) -> (r: &'static str)
        ensures
            r@ == "Library Albums View"@,
    {
        "Library Albums View"
    }

    /// What a key does: `s`/`S` change the sort mode, other keys as
    /// [`spec_list_view_key`] says, page up with nothing selected going to
    /// the last album. Page up needs an album.
    pub fn handle_key_event(&mut self, key: KeyEvent, current: Option<usize>, checked: Vec<RecordId>) -> (r: KeyOutcome)
        requires
            key.code == KeyCode::PageUp ==> old(self).props.items@.len() > 0,
        ensures
            spec_sort_keys(key.code, old(self).props, final(self).props),
            r == if key.code == KeyCode::Char('s') || key.code == KeyCode::Char('S') {
                sort_outcome(false)
            } else {
                spec_list_view_key(key.code, spec_last_line(old(self).props.items@.len()), current, checked)
            },
    {
        let last = self.props.last_line_or_first();
        self.props.list_key(key.code, last, current, checked, false)
    }
}

} // verus!
