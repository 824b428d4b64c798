//! What the library views share: the items of one kind, kept in a sort
//! mode's order.
use vstd::prelude::*;

use super::keys::{
    KeyOutcome, TreeCommand, browse_command, list_view_key, spec_browse_command, spec_list_view_key,
};
use super::traits::SortMode;
use crate::state::library::RecordId;
use crate::ui::events::KeyCode;

verus! {

/// What re-sorting reports: the tree scrolls to keep the selection in view
/// when `scroll`, else nothing happens to it.
pub open spec fn sort_outcome(scroll: bool) -> KeyOutcome {
    if scroll {
        KeyOutcome::Tree(TreeCommand::ScrollSelectedIntoView)
    } else {
        KeyOutcome::Ignore
    }
}

/// What `s` and `S` do to a list: the next or previous sort mode, with the
/// items put in its order. Any other key leaves the list as it was.
pub open spec fn spec_sort_keys<T, M: SortMode<T>>(
    code: KeyCode,
    before: LibraryList<T, M>,
    after: LibraryList<T, M>,
) -> bool {
    match code {
        KeyCode::Char('s') => after.sort_mode == before.sort_mode.following()
            && after.sort_mode.sorts(before.items@, after.items@),
        KeyCode::Char('S') => after.sort_mode == before.sort_mode.preceding()
            && after.sort_mode.sorts(before.items@, after.items@),
        _ => after.items@ == before.items@ && after.sort_mode == before.sort_mode,
    }
}

/// Items of one kind in a sort mode's order.
#[derive(Debug)]
pub struct LibraryList<T, M> {
    pub items: Vec<T>,
    pub sort_mode: M,
}

impl<T, M: SortMode<T>> LibraryList<T, M> {
    /// `items`, put in `sort_mode`'s order.
    pub fn new(items: Vec<T>, sort_mode: M) -> (r: Self)
        ensures
            r.sort_mode == sort_mode,
            sort_mode.sorts(items@, r.items@),
    {
        let mut items = items;
        sort_mode.sort_items(&mut items);
        LibraryList { items, sort_mode }
    }

    /// Fresh items, put in the current sort mode's order.
    pub fn refresh(self, items: Vec<T>) -> (r: Self)
        ensures
            r.sort_mode == self.sort_mode,
            self.sort_mode.sorts(items@, r.items@),
    {
        let mut items = items;
        self.sort_mode.sort_items(&mut items);
        LibraryList { items, sort_mode: self.sort_mode }
    }

    /// Moves to the next sort mode and puts the items in its order.
    pub fn sort_next(&mut self)
        ensures
            final(self).sort_mode == old(self).sort_mode.following(),
            final(self).sort_mode.sorts(old(self).items@, final(self).items@),
    {
        self.sort_mode = self.sort_mode.next();
        self.sort_mode.sort_items(&mut self.items);
    }

    /// Moves to the previous sort mode and puts the items in its order.
    pub fn sort_prev(&mut self)
        ensures
            final(self).sort_mode == old(self).sort_mode.preceding(),
            final(self).sort_mode.sorts(old(self).items@, final(self).items@),
    {
        self.sort_mode = self.sort_mode.prev();
        self.sort_mode.sort_items(&mut self.items);
    }

    /// The line that page up selects when nothing is selected: the last
    /// one. There must be one.
    pub fn last_line(&self) -> (r: usize)
        requires
            self.items@.len() > 0,
        ensures
            r == self.items@.len() - 1,
    {
        self.items.len() - 1
    }

    /// The line that page up selects when nothing is selected: the last
    /// one, or the first when there are none.
    pub fn last_line_or_first(&self) -> (r: usize)
        ensures
            r == if self.items@.len() > 0 {
                self.items@.len() - 1
            } else {
                0
            },
    {
        if self.items.len() > 0 {
            self.items.len() - 1
        } else {
            0
        }
    }

    /// What a key does in a library view whose items can be checked: `s`
    /// and `S` change the sort mode (then scroll the tree when `scroll`),
    /// other keys as [`spec_list_view_key`] says.
    pub fn list_key(&mut self, code: KeyCode, last: usize, current: Option<usize>, checked: Vec<RecordId>, scroll: bool) -> (r: KeyOutcome)
        ensures
            spec_sort_keys(code, *old(self), *final(self)),
            r == if code == KeyCode::Char('s') || code == KeyCode::Char('S') {
                sort_outcome(scroll)
            } else {
                spec_list_view_key(code, last, current, checked)
            },
    {
        match code {
            KeyCode::Char('s') => {
                self.sort_next();
                self.scrolled(scroll)
            },
            KeyCode::Char('S') => {
                self.sort_prev();
                self.scrolled(scroll)
            },
            _ => list_view_key(code, last, current, checked),
        }
    }

    /// What a key does in a library view whose items cannot be checked:
    /// `s` and `S` change the sort mode (then scroll the tree when
    /// `scroll`), the browsing keys act on the tree (see
    /// [`spec_browse_command`]); other keys are the view's own (`None`).
    pub fn browse_key(&mut self, code: KeyCode, last: usize, current: Option<usize>, scroll: bool) -> (r: Option<KeyOutcome>)
        ensures
            spec_sort_keys(code, *old(self), *final(self)),
            r == if code == KeyCode::Char('s') || code == KeyCode::Char('S') {
                Some(sort_outcome(scroll))
            } else {
                match spec_browse_command(code, last, current) {
                    Some(cmd) => Some(KeyOutcome::Tree(cmd)),
                    None => None,
                }
            },
    {
        match code {
            KeyCode::Char('s') => {
                self.sort_next();
                Some(self.scrolled(scroll))
            },
            KeyCode::Char('S') => {
                self.sort_prev();
                Some(self.scrolled(scroll))
            },
            _ => match browse_command(code, last, current) {
                Some(cmd) => Some(KeyOutcome::Tree(cmd)),
                None => None,
            },
        }
    }

    fn scrolled(&self, scroll: bool) -> (r: KeyOutcome)
        ensures
            r == sort_outcome(scroll),
    {
        if scroll {
            KeyOutcome::Tree(TreeCommand::ScrollSelectedIntoView)
        } else {
            KeyOutcome::Ignore
        }
    }
}

} // verus!
