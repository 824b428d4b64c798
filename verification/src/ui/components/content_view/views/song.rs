//! The library songs view: every song in the library, sorted.
use vstd::prelude::*;

use super::checktree_utils::{spec_tree_mouse, tree_mouse};
use super::keys::{KeyOutcome, MouseOutcome, spec_last_line, spec_list_view_key};
use super::library::{LibraryList, sort_outcome, spec_sort_keys};
use super::sort_mode::SongSort;
use super::traits::SortMode;
use crate::state::library::{RecordId, SongBrief};
use crate::ui::components::content_view::ActiveView;
use crate::ui::events::{KeyCode, KeyEvent, MouseEvent};
use crate::ui::layout::{Margin, Rect};

verus! {

/// The library songs view. The tree that shows the songs, with its
/// selection and check marks, is drawn and kept by the terminal front end;
/// the view says what keys and clicks do to it.
#[derive(Debug)]
pub struct LibrarySongsView {
    pub props: LibraryList<SongBrief, SongSort>,
}

impl LibrarySongsView {
    /// The view of the library's songs, sorted by artist.
    pub fn new(songs: Vec<SongBrief>) -> (r: Self)
        ensures
            r.props.sort_mode == SongSort::Artist,
            SongSort::Artist.sorts(songs@, r.props.items@),
    {
        LibrarySongsView { props: LibraryList::new(songs, SongSort::Artist) }
    }

    /// The view with the library's current songs, in the same sort mode.
    pub fn move_with_state(self, songs: Vec<SongBrief>) -> (r: Self)
        ensures
            r.props.sort_mode == self.props.sort_mode,
            self.props.sort_mode.sorts(songs@, r.props.items@),
    {
        LibrarySongsView { props: self.props.refresh(songs) }
    }

    /// Whether the tree keeps its state when the state moves on: only while
    /// this view is the active one.
    pub fn keeps_tree(active_view: &ActiveView) -> (r: bool)
        ensures
            r == (*active_view is Songs),
    {
        match active_view {
            ActiveView::Songs => true,
            _ => false,
        }
    }

    pub fn name(&self) -> (r: &'static str)
        ensures
            r@ == "Library Songs View"@,
    {
        "Library Songs View"
    }

    /// What a key does: `s`/`S` change the sort mode and scroll the tree,
    /// other keys as [`spec_list_view_key`] says, page up with nothing
    /// selected going to the last song. Page up needs a song.
    pub fn handle_key_event(&mut self, key: KeyEvent, current: Option<usize>, checked: Vec<RecordId>) -> (r: KeyOutcome)
        requires
            key.code == KeyCode::PageUp ==> old(self).props.items@.len() > 0,
        ensures
            spec_sort_keys(key.code, old(self).props, final(self).props),
            r == if key.code == KeyCode::Char('s') || key.code == KeyCode::Char('S') {
                sort_outcome(true)
            } else {
                spec_list_view_key(key.code, spec_last_line(old(self).props.items@.len()), current, checked)
            },
    {
        let last = self.props.last_line_or_first();
        self.props.list_key(key.code, last, current, checked, true)
    }

    /// What a mouse event does: it goes to the tree, drawn inside the
    /// border and the title line.
    pub fn handle_mouse_event(&self, mouse: MouseEvent, area: Rect) -> (r: MouseOutcome)
        ensures
            r == match spec_tree_mouse(mouse, area.spec_inner(Margin { horizontal: 1, vertical: 2 })) {
                Some(m) => MouseOutcome::Tree(m, false),
                None => MouseOutcome::Ignore,
            },
    {
        match tree_mouse(mouse, area.inner(Margin::new(1, 2))) {
            Some(m) => MouseOutcome::Tree(m, false),
            None => MouseOutcome::Ignore,
        }
    }
}

} // verus!
