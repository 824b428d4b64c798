//! The playlist views: one playlist, and the library's playlists, sorted by
//! name.
use vstd::prelude::*;

use super::PlaylistViewProps;
use super::keys::{
    KeyOutcome, TreeCommand, item_view_outcome, page_down, page_up, spec_browse_command,
    spec_item_view_outcome, spec_last_line, spec_page_down, spec_page_up,
};
use super::library::{LibraryList, sort_outcome, spec_sort_keys};
use super::sort_keys::is_stable_sort;
use super::sort_mode::{SongSort, sort_by_name, spec_name_keys};
use super::traits;
use super::traits::SortMode as _;
use crate::state::action::{Action, LibraryAction};
use crate::state::library::{PlaylistBrief, RecordId};
use crate::ui::components::content_view::ActiveView;
use crate::ui::events::{KeyCode, KeyEvent};
use crate::ui::widgets::input_box::{InputBox, spec_key_edit};

verus! {

/// How the library playlists view orders playlists.
#[derive(Clone, Copy, PartialEq, Eq, Debug, Structural)]
pub enum SortMode {
    Name,
}

impl Default for SortMode {
    fn default() -> (r: Self)
        ensures
            r == SortMode::Name,
    {
        SortMode::Name
    }
}

impl SortMode {
    /// There is one mode, so the next is the same.
    pub fn next(&self) -> (r: Self)
        ensures
            r == *self,
    {
        SortMode::Name
    }

    /// There is one mode, so the previous is the same.
    pub fn prev(&self) -> (r: Self)
        ensures
            r == *self,
    {
        SortMode::Name
    }

    /// The name of the sort mode, as shown in the view's title.
    pub fn to_string(&self) -> (r: String)
        ensures
            r@ == "Name"@,
    {
        "Name".to_owned()
    }

    /// Sorts playlists by name (stable).
    pub fn sort_playlists(&self, playlists: &mut Vec<PlaylistBrief>)
        ensures
            is_stable_sort(spec_name_keys(old(playlists)@), old(playlists)@, final(playlists)@),
    {
        sort_by_name(playlists);
    }
}

impl traits::SortMode<PlaylistBrief> for SortMode {
    open spec fn sorts(&self, before: Seq<PlaylistBrief>, after: Seq<PlaylistBrief>) -> bool {
        is_stable_sort(spec_name_keys(before), before, after)
    }

    open spec fn following(&self) -> Self {
        *self
    }

    open spec fn preceding(&self) -> Self {
        *self
    }

    fn next(&self) -> (r: Self) {
        SortMode::next(self)
    }

    fn prev(&self) -> (r: Self) {
        SortMode::prev(self)
    }

    fn sort_items(&self, items: &mut Vec<PlaylistBrief>) {
        self.sort_playlists(items);
    }
}

/// The library playlists view: the playlists sorted by name, and a box to
/// type the name of a new playlist in (the tree itself is kept by the
/// front end).
#[derive(Debug)]
pub struct LibraryPlaylistsView {
    pub props: LibraryList<PlaylistBrief, SortMode>,
    pub input_box: InputBox,
    pub input_box_visible: bool,
}

impl LibraryPlaylistsView {
    /// The view of the library's playlists, sorted by name, with the name
    /// box hidden and empty.
    pub fn new(playlists: Vec<PlaylistBrief>) -> (r: Self)
        ensures
            r.props.sort_mode == SortMode::Name,
            is_stable_sort(spec_name_keys(playlists@), playlists@, r.props.items@),
            !r.input_box_visible,
            r.input_box.content().len() == 0,
    {
        LibraryPlaylistsView {
            props: LibraryList::new(playlists, SortMode::Name),
            input_box: InputBox::new(),
            input_box_visible: false,
        }
    }

    /// The view with the library's current playlists, sorted by name; the
    /// name box is as it was.
    pub fn move_with_state(self, playlists: Vec<PlaylistBrief>) -> (r: Self)
        ensures
            r.props.sort_mode == self.props.sort_mode,
            is_stable_sort(spec_name_keys(playlists@), playlists@, r.props.items@),
            r.input_box == self.input_box,
            r.input_box_visible == self.input_box_visible,
    {
        LibraryPlaylistsView {
            props: self.props.refresh(playlists),
            input_box: self.input_box,
            input_box_visible: self.input_box_visible,
        }
    }

    /// Whether the tree keeps its state when the state moves on: only while
    /// this view is the active one.
    pub fn keeps_tree(active_view: &ActiveView) -> (r: bool)
        ensures
            r == (*active_view is Playlists),
    {
        match active_view {
            ActiveView::Playlists => true,
            _ => false,
        }
    }

    pub fn name(&self) -> (r: &'static str)
        ensures
            r@ == "Library Playlists View"@,
    {
        "Library Playlists View"
    }

    /// What a key does. While the name box shows, enter hides it and, if a
    /// name was typed, creates a playlist of that name; other keys edit the
    /// name. Otherwise `s`/`S` change the sort mode, `n` shows the name box,
    /// `d` removes the `selected` playlist, and the browsing keys act on the
    /// tree (page up with nothing selected going to the last playlist,
    /// which needs one).
    pub fn handle_key_event(&mut self, key: KeyEvent, current: Option<usize>, selected: Option<RecordId>) -> (r: KeyOutcome)
        requires
            !old(self).input_box_visible && key.code == KeyCode::PageUp ==> old(self).props.items@.len() > 0,
        ensures
            old(self).input_box_visible ==> {
                &&& final(self).props == old(self).props
                &&& if key.code == KeyCode::Enter {
                    &&& !final(self).input_box_visible
                    &&& final(self).input_box == old(self).input_box
                    &&& if old(self).input_box.content().len() > 0 {
                        r matches KeyOutcome::Send(Action::Library(LibraryAction::CreatePlaylist(name)))
                            && name@ == old(self).input_box.content()
                    } else {
                        r == KeyOutcome::Ignore
                    }
                } else {
                    &&& final(self).input_box_visible
                    &&& spec_key_edit(
                        old(self).input_box.content(),
                        old(self).input_box.cursor_at(),
                        key,
                        final(self).input_box.content(),
                        final(self).input_box.cursor_at(),
                    )
                    &&& r == KeyOutcome::Ignore
                }
            },
            !old(self).input_box_visible ==> {
                &&& final(self).input_box == old(self).input_box
                &&& final(self).input_box_visible == (key.code == KeyCode::Char('n'))
                &&& spec_sort_keys(key.code, old(self).props, final(self).props)
                &&& r == match key.code {
                    KeyCode::Char('s') | KeyCode::Char('S') => sort_outcome(false),
                    KeyCode::Char('n') => KeyOutcome::Ignore,
                    KeyCode::Char('d') => match selected {
                        Some(thing) => KeyOutcome::Send(Action::Library(LibraryAction::RemovePlaylist(thing))),
                        None => KeyOutcome::Ignore,
                    },
                    _ => match spec_browse_command(key.code, spec_last_line(old(self).props.items@.len()), current) {
                        Some(cmd) => KeyOutcome::Tree(cmd),
                        None => KeyOutcome::Ignore,
                    },
                }
            },
    {
        if self.input_box_visible {
            match key.code {
                KeyCode::Enter => {
                    let name = self.input_box.text();
                    self.input_box_visible = false;
                    if self.input_box.is_empty() {
                        KeyOutcome::Ignore
                    } else {
                        KeyOutcome::Send(Action::Library(LibraryAction::CreatePlaylist(name)))
                    }
                },
                _ => {
                    self.input_box.handle_key_event(key);
                    KeyOutcome::Ignore
                },
            }
        } else {
            match key.code {
                KeyCode::Char('n') => {
                    self.input_box_visible = true;
                    KeyOutcome::Ignore
                },
                KeyCode::Char('d') => match selected {
                    Some(thing) => KeyOutcome::Send(Action::Library(LibraryAction::RemovePlaylist(thing))),
                    None => KeyOutcome::Ignore,
                },
                _ => {
                    let last = self.props.last_line_or_first();
                    match self.props.browse_key(key.code, last, current, false) {
                        Some(outcome) => outcome,
                        None => KeyOutcome::Ignore,
                    }
                },
            }
        }
    }
}

/// The id of the playlist shown, if one is.
pub open spec fn spec_playlist_id(props: Option<PlaylistViewProps>) -> Option<RecordId> {
    match props {
        Some(p) => Some(p.id),
        None => None,
    }
}

/// The line that page up selects in the playlist view when nothing is
/// selected: the last song (the first when there are none, or no
/// playlist).
pub open spec fn spec_playlist_last(props: Option<PlaylistViewProps>) -> usize {
    match props {
        Some(p) => spec_last_line(p.songs@.len()),
        None => 0,
    }
}

/// `after` is `before` with its songs put in `mode`'s order.
pub open spec fn spec_songs_resorted(mode: SongSort, before: Option<PlaylistViewProps>, after: Option<PlaylistViewProps>) -> bool {
    match before {
        Some(b) => after matches Some(a) && a.id == b.id && a.playlist == b.playlist
            && traits::SortMode::sorts(&mode, b.songs@, a.songs@),
        None => after is None,
    }
}

/// The view of one playlist, its songs in a sort mode's order (the tree
/// itself is kept by the front end).
#[derive(Debug)]
pub struct PlaylistView {
    pub props: Option<PlaylistViewProps>,
    pub sort_mode: SongSort,
}

impl PlaylistView {
    /// The view of the playlist, if there is one, sorted by artist.
    pub fn new(props: Option<PlaylistViewProps>) -> (r: Self)
        ensures
            r.props == props,
            r.sort_mode == SongSort::Artist,
    {
        PlaylistView { props, sort_mode: SongSort::Artist }
    }

    /// The view with fresh data, its songs in the view's sort mode, if there
    /// is any (the tree then starts afresh); else it is unchanged.
    pub fn move_with_state(self, props: Option<PlaylistViewProps>) -> (r: Self)
        ensures
            r.sort_mode == self.sort_mode,
            props is Some ==> spec_songs_resorted(self.sort_mode, props, r.props),
            props is None ==> r.props == self.props,
    {
        match props {
            Some(p) => {
                let mut p = p;
                self.sort_mode.sort_items(&mut p.songs);
                PlaylistView { props: Some(p), sort_mode: self.sort_mode }
            },
            None => self,
        }
    }

    pub fn name(&self) -> (r: &'static str)
        ensures
            r@ == "Playlist View"@,
    {
        "Playlist View"
    }

    /// Puts the songs in the current sort mode's order.
    fn resort(&mut self)
        ensures
            final(self).sort_mode == old(self).sort_mode,
            spec_songs_resorted(old(self).sort_mode, old(self).props, final(self).props),
    {
        let mut props: Option<PlaylistViewProps> = None;
        std::mem::swap(&mut props, &mut self.props);
        match props {
            Some(p) => {
                let mut p = p;
                self.sort_mode.sort_items(&mut p.songs);
                self.props = Some(p);
            },
            None => {},
        }
    }

    /// What a key does: page up and down select ten songs up or down (page
    /// up with nothing selected going to the last song); `s`/`S` change the
    /// sort mode and re-sort the songs; `d` removes the checked songs from
    /// the playlist, or the `selected` one when none is checked; the item
    /// view keys act as [`spec_item_view_outcome`] says, on the playlist
    /// itself when nothing is checked. Other keys do nothing.
    pub fn handle_key_event(&mut self, key: KeyEvent, current: Option<usize>, checked: Vec<RecordId>, selected: Option<RecordId>) -> (r: KeyOutcome)
        ensures
            key.code == KeyCode::Char('s') ==> final(self).sort_mode == old(self).sort_mode.following(),
            key.code == KeyCode::Char('S') ==> final(self).sort_mode == old(self).sort_mode.preceding(),
            key.code == KeyCode::Char('s') || key.code == KeyCode::Char('S') ==> {
                &&& spec_songs_resorted(final(self).sort_mode, old(self).props, final(self).props)
                &&& r == KeyOutcome::Ignore
            },
            key.code != KeyCode::Char('s') && key.code != KeyCode::Char('S') ==> {
                &&& final(self).props == old(self).props
                &&& final(self).sort_mode == old(self).sort_mode
                &&& match key.code {
                    KeyCode::PageUp => r == KeyOutcome::Tree(
                        TreeCommand::SelectIndex(spec_page_up(current, spec_playlist_last(old(self).props))),
                    ),
                    KeyCode::PageDown => r == KeyOutcome::Tree(
                        TreeCommand::SelectIndex(spec_page_down(current)),
                    ),
                    KeyCode::Char('d') => match old(self).props {
                        Some(p) => if checked@.len() > 0 {
                            r == KeyOutcome::Send(
                                Action::Library(LibraryAction::RemoveSongsFromPlaylist(p.id, checked)),
                            )
                        } else {
                            match selected {
                                Some(thing) => r matches KeyOutcome::Send(
                                    Action::Library(LibraryAction::RemoveSongsFromPlaylist(id, songs)),
                                ) && id == p.id && songs@ == seq![thing],
                                None => r == KeyOutcome::Ignore,
                            }
                        },
                        None => r == KeyOutcome::Ignore,
                    },
                    _ => spec_item_view_outcome(key.code, checked, spec_playlist_id(old(self).props), r),
                }
            },
    {
        match key.code {
            KeyCode::PageUp => {
                let last = match &self.props {
                    Some(p) => if p.songs.len() > 0 {
                        p.songs.len() - 1
                    } else {
                        0
                    },
                    None => 0,
                };
                KeyOutcome::Tree(TreeCommand::SelectIndex(page_up(current, last)))
            },
            KeyCode::PageDown => KeyOutcome::Tree(TreeCommand::SelectIndex(page_down(current))),
            KeyCode::Char('s') => {
                self.sort_mode = self.sort_mode.next();
                self.resort();
                KeyOutcome::Ignore
            },
            KeyCode::Char('S') => {
                self.sort_mode = self.sort_mode.prev();
                self.resort();
                KeyOutcome::Ignore
            },
            KeyCode::Char('d') => match &self.props {
                Some(p) => {
                    let id = p.id.clone();
                    if checked.len() > 0 {
                        KeyOutcome::Send(Action::Library(LibraryAction::RemoveSongsFromPlaylist(id, checked)))
                    } else {
                        match selected {
                            Some(thing) => KeyOutcome::Send(
                                Action::Library(LibraryAction::RemoveSongsFromPlaylist(id, vec![thing])),
                            ),
                            None => KeyOutcome::Ignore,
                        }
                    }
                },
                None => KeyOutcome::Ignore,
            },
            _ => {
                let current_thing = match &self.props {
                    Some(p) => Some(p.id.clone()),
                    None => None,
                };
                item_view_outcome(key.code, checked, current_thing)
            },
        }
    }
}

} // verus!
