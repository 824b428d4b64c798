//! Shared behaviour of the views.
use vstd::prelude::*;

use super::ViewData;
use crate::state::action::Action;
use crate::state::library::RecordId;
use crate::ui::events::KeyCode;

verus! {

/// A way of ordering the items of a library view, which can be cycled.
pub trait SortMode<T>: Sized {
    /// Whether `after` is `before` put in this mode's order.
    spec fn sorts(&self, before: Seq<T>, after: Seq<T>) -> bool;

    /// The mode after this one in the cycle.
    spec fn following(&self) -> Self;

    /// The mode before this one in the cycle.
    spec fn preceding(&self) -> Self;

    /// The next sort mode in the cycle.
    fn next(&self) -> (r: Self)
        ensures
            r == self.following(),
    ;

    /// The previous sort mode in the cycle.
    fn prev(&self) -> (r: Self)
        ensures
            r == self.preceding(),
    ;

    /// Sorts the items.
    fn sort_items(&self, items: &mut Vec<T>)
        ensures
            self.sorts(old(items)@, final(items)@),
    ;
}

/// Views whose items can be sorted.
pub trait SortableViewProps<Item>: Sized {
    /// The items that are sorted.
    spec fn spec_items(&self) -> Seq<Item>;

    /// Whether `after` differs from `before` in its items alone.
    spec fn same_but_items(before: Self, after: Self) -> bool;

    /// Sorts the items of the view.
    fn sort_items<M: SortMode<Item>>(&mut self, sort_mode: &M)
        ensures
            sort_mode.sorts(old(self).spec_items(), final(self).spec_items()),
            Self::same_but_items(*old(self), *final(self)),
    ;
}

/// What the views of one item (a song, an album, ...) know of their data.
pub trait ItemViewProps: Sized {
    /// The id of the item shown.
    spec fn spec_id(&self) -> RecordId;

    /// This view's part of the view data.
    spec fn spec_retrieve(data: ViewData) -> Option<Self>;

    /// The id of the item shown.
    fn id(&self) -> (r: &RecordId)
        ensures
            *r == self.spec_id(),
    ;

    /// Takes this view's part of the view data.
    fn retrieve(view_data: ViewData) -> (r: Option<Self>)
        ensures
            r == Self::spec_retrieve(view_data),
    ;

    /// The title of the view.
    spec fn spec_title() -> Seq<char>;

    /// The title of the view.
    fn title() -> (r: &'static str)
        ensures
            r@ == Self::spec_title(),
    ;

    /// The name of the kind of item, as in "No active album".
    fn name() -> &'static str;

    /// What the view's operations act on when nothing is checked.
    fn none_checked_string() -> &'static str;

    /// Whether the view has a footer line with more instructions.
    spec fn spec_has_extra_footer() -> bool;

    /// Whether the view has a footer line with more instructions.
    fn has_extra_footer() -> (r: bool)
        ensures
            r == Self::spec_has_extra_footer(),
    ;

    /// The action of a key of this view's own, beyond those every view of
    /// one item has.
    spec fn spec_extra_key(&self, code: KeyCode) -> Option<Action>;

    /// The action of a key of this view's own (see
    /// [`Self::spec_extra_key`]).
    fn extra_key(&self, code: KeyCode) -> (r: Option<Action>)
        ensures
            r == self.spec_extra_key(code),
    ;
}

} // verus!
