//! The library artists view: every artist in the library, sorted by name.
use vstd::prelude::*;

use super::checktree_utils::{spec_tree_mouse, tree_mouse};
use super::keys::{KeyOutcome, MouseOutcome, spec_last_line, spec_list_view_key};
use super::library::{LibraryList, sort_outcome, spec_sort_keys};
use super::sort_mode::NameSort;
use super::traits::SortMode;
use crate::state::library::{ArtistBrief, RecordId};
use crate::ui::components::content_view::ActiveView;
use crate::ui::events::{KeyCode, KeyEvent, MouseEvent};
use crate::ui::layout::{Margin, Rect};

verus! {

/// The library artists view (the tree itself is kept by the front end).
#[derive(Debug)]
pub struct LibraryArtistsView {
    pub props: LibraryList<ArtistBrief, NameSort<ArtistBrief>>,
}

impl LibraryArtistsView {
    /// The view of the library's artists, sorted by name.
    pub fn new(artists: Vec<ArtistBrief>) -> (r: Self)
        ensures
            r.props.sort_mode.sorts(artists@, r.props.items@),
    {
        LibraryArtistsView { props: LibraryList::new(artists, NameSort::new()) }
    }

    /// The view with the library's current artists, in the same sort mode.
    pub fn move_with_state(self, artists: Vec<ArtistBrief>) -> (r: Self)
        ensures
            r.props.sort_mode == self.props.sort_mode,
            self.props.sort_mode.sorts(artists@, r.props.items@),
    {
        LibraryArtistsView { props: self.props.refresh(artists) }
    }

    /// Whether the tree keeps its state when the state moves on: only while
    /// this view is the active one.
    pub fn keeps_tree(active_view: &ActiveView) -> (r: bool)
        ensures
            r == (*active_view is Artists),
    {
        match active_view {
            ActiveView::Artists => true,
            _ => false,
        }
    }

    pub fn name(&self) -> (r: &'static str)
        ensures
            r@ == "Library Artists View"@,
    {
        "Library Artists View"
    }

    /// What a key does: `s`/`S` change the sort mode and scroll the tree,
    /// other keys as [`spec_list_view_key`] says, page up with nothing
    /// selected going to the last artist (the first if there is none).
    pub fn handle_key_event(&mut self, key: KeyEvent, current: Option<usize>, checked: Vec<RecordId>) -> (r: KeyOutcome)
        ensures
            spec_sort_keys(key.code, old(self).props, final(self).props),
            r == if key.code == KeyCode::Char('s') || key.code == KeyCode::Char('S') {
                sort_outcome(true)
            } else {
                spec_list_view_key(key.code, spec_last_line(old(self).props.items@.len()), current, checked)
            },
    {
        let last = self.props.last_line_or_first();
        self.props.list_key(key.code, last, current, checked, true)
    }

    /// What a mouse event does: it goes to the tree, drawn inside the
    /// border and the title line.
    pub fn handle_mouse_event(&self, mouse: MouseEvent, area: Rect) -> (r: MouseOutcome)
        ensures
            r == match spec_tree_mouse(mouse, area.spec_inner(Margin { horizontal: 1, vertical: 2 })) {
                Some(m) => MouseOutcome::Tree(m, false),
                None => MouseOutcome::Ignore,
            },
    {
        match tree_mouse(mouse, area.inner(Margin::new(1, 2))) {
            Some(m) => MouseOutcome::Tree(m, false),
            None => MouseOutcome::Ignore,
        }
    }
}

} // verus!
