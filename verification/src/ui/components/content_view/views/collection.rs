//! The library collections view: every collection, sorted by name.
use vstd::prelude::*;

use super::checktree_utils::{spec_tree_mouse, tree_mouse};
use super::keys::{KeyOutcome, MouseOutcome, spec_browse_command, spec_last_line};
use super::library::{LibraryList, sort_outcome, spec_sort_keys};
use super::sort_mode::NameSort;
use super::traits::SortMode;
use crate::state::library::CollectionBrief;
use crate::ui::components::content_view::ActiveView;
use crate::ui::events::{KeyCode, KeyEvent, MouseEvent};
use crate::ui::layout::{Margin, Rect};

verus! {

/// The library collections view (the tree itself is kept by the front
/// end). Collections cannot be checked here.
#[derive(Debug)]
pub struct LibraryCollectionsView {
    pub props: LibraryList<CollectionBrief, NameSort<CollectionBrief>>,
}

impl LibraryCollectionsView {
    /// The view of the library's collections, sorted by name.
    pub fn new(collections: Vec<CollectionBrief>) -> (r: Self)
        ensures
            r.props.sort_mode.sorts(collections@, r.props.items@),
    {
        LibraryCollectionsView { props: LibraryList::new(collections, NameSort::new()) }
    }

    /// The view with the library's current collections, in the same sort
    /// mode.
    pub fn move_with_state(self, collections: Vec<CollectionBrief>) -> (r: Self)
        ensures
            r.props.sort_mode == self.props.sort_mode,
            self.props.sort_mode.sorts(collections@, r.props.items@),
    {
        LibraryCollectionsView { props: self.props.refresh(collections) }
    }

    /// Whether the tree keeps its state when the state moves on: only while
    /// this view is the active one.
    pub fn keeps_tree(active_view: &ActiveView) -> (r: bool)
        ensures
            r == (*active_view is Collections),
    {
        match active_view {
            ActiveView::Collections => true,
            _ => false,
        }
    }

    pub fn name(&self) -> (r: &'static str)
        ensures
            r@ == "Library Collections View"@,
    {
        "Library Collections View"
    }

    /// What a key does: `s`/`S` change the sort mode and scroll the tree,
    /// the browsing keys act on the tree (page up with nothing selected
    /// going to the last collection, the first if there is none); other
    /// keys do nothing.
    pub fn handle_key_event(&mut self, key: KeyEvent, current: Option<usize>) -> (r: KeyOutcome)
        ensures
            spec_sort_keys(key.code, old(self).props, final(self).props),
            r == if key.code == KeyCode::Char('s') || key.code == KeyCode::Char('S') {
                sort_outcome(true)
            } else {
                match spec_browse_command(key.code, spec_last_line(old(self).props.items@.len()), current) {
                    Some(cmd) => KeyOutcome::Tree(cmd),
                    None => KeyOutcome::Ignore,
                }
            },
    {
        let last = self.props.last_line_or_first();
        match self.props.browse_key(key.code, last, current, true) {
            Some(outcome) => outcome,
            None => KeyOutcome::Ignore,
        }
    }

    /// What a mouse event does: it goes to the tree, drawn inside the
    /// border and the title line, where a plain click opens an item and a
    /// control-click selects it.
    pub fn handle_mouse_event(&self, mouse: MouseEvent, area: Rect) -> (r: MouseOutcome)
        ensures
            r == match spec_tree_mouse(mouse, area.spec_inner(Margin { horizontal: 1, vertical: 2 })) {
                Some(m) => MouseOutcome::Tree(m, true),
                None => MouseOutcome::Ignore,
            },
    {
        match tree_mouse(mouse, area.inner(Margin::new(1, 2))) {
            Some(m) => MouseOutcome::Tree(m, true),
            None => MouseOutcome::Ignore,
        }
    }
}

} // verus!
