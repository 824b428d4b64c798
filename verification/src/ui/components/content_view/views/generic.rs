//! The views of one item (a song, an album, ...), and those of them whose
//! songs can be sorted.
use std::marker::PhantomData;

use vstd::prelude::*;

use super::ViewData;
use super::checktree_utils::{spec_tree_mouse, tree_mouse};
use super::keys::{KeyOutcome, MouseOutcome, TreeCommand, item_view_key, spec_item_view_key, spec_nav_command};
use super::traits::{ItemViewProps, SortMode, SortableViewProps};
use crate::state::library::RecordId;
use crate::ui::events::{KeyCode, KeyEvent, MouseEvent};
use crate::ui::layout::{
    Constraint, Margin, Position, Rect, lemma_inside_contains, lemma_layout_parts, spec_inside, spec_layout_of, spec_part_of,
    split2,
};

verus! {

/// The item's id, if the view shows one.
pub open spec fn spec_item_id<P: ItemViewProps>(props: Option<P>) -> Option<RecordId> {
    match props {
        Some(p) => Some(p.spec_id()),
        None => None,
    }
}

/// The rows an item view is cut into inside its border: the info part, 3
/// lines high, and the tree's part below it, at least 4 lines high.
pub open spec fn spec_item_constraints() -> Seq<Constraint> {
    seq![Constraint::Length(3), Constraint::Min(4)]
}

/// Whether `info` and `content` are the parts the layout cuts the area
/// inside an item view's border (`inner`) into (see
/// [`spec_item_constraints`]).
pub open spec fn spec_item_layout(info: Rect, content: Rect, inner: Rect) -> bool {
    spec_layout_of(seq![info, content], inner, true, spec_item_constraints())
}

/// Whether a mouse outcome does something: goes to the tree.
pub open spec fn spec_goes_to_tree(r: Option<MouseOutcome>) -> bool {
    r matches Some(MouseOutcome::Tree(_, _))
}

/// What a mouse event does in an item view whose tree part (below the
/// info part) is `content`: it goes to the tree, below the two title lines
/// and the footer line if there is one. `None` when `content` is too small
/// for those lines.
pub open spec fn spec_item_tree_mouse(mouse: MouseEvent, content: Rect, footer: bool) -> Option<MouseOutcome> {
    let lines: int = if footer { 3 } else { 2 };
    if content.height < lines || content.y > u16::MAX - 2 {
        None
    } else {
        let tree_area = Rect {
            x: content.x,
            y: (content.y + 2) as u16,
            width: content.width,
            height: (content.height - lines) as u16,
        };
        Some(match spec_tree_mouse(mouse, tree_area) {
            Some(m) => MouseOutcome::Tree(m, false),
            None => MouseOutcome::Ignore,
        })
    }
}

/// What a mouse event does in an item view whose tree part is `content`
/// (see [`spec_item_tree_mouse`]).
pub fn item_tree_mouse(mouse: MouseEvent, content: Rect, footer: bool) -> (r: Option<MouseOutcome>)
    ensures
        r == spec_item_tree_mouse(mouse, content, footer),
{
    let lines: u16 = if footer {
        3
    } else {
        2
    };
    if content.height < lines || content.y > u16::MAX - 2 {
        return None;
    }
    let tree_area = Rect { x: content.x, y: content.y + 2, width: content.width, height: content.height - lines };
    Some(
        match tree_mouse(mouse, tree_area) {
            Some(m) => MouseOutcome::Tree(m, false),
            None => MouseOutcome::Ignore,
        },
    )
}

/// Whether every view of one item handles the key alike: the tree's
/// navigation keys and `q`, `r`, `p`.
pub open spec fn spec_nav_or_item_key(code: KeyCode) -> bool {
    spec_nav_command(code) is Some || code == KeyCode::Char('q') || code == KeyCode::Char('r') || code
        == KeyCode::Char('p')
}

fn nav_or_item_key(code: KeyCode) -> (r: bool)
    ensures
        r == spec_nav_or_item_key(code),
{
    match code {
        KeyCode::Up | KeyCode::Down | KeyCode::Left | KeyCode::Right | KeyCode::Char(' ') | KeyCode::Enter => true,
        KeyCode::Char('q') | KeyCode::Char('r') | KeyCode::Char('p') => true,
        _ => false,
    }
}

/// What a key does in the view of one item showing `props`: the keys every
/// such view has (see [`spec_item_view_key`]), and the shown item's view's
/// own keys ([`ItemViewProps::spec_extra_key`]).
pub open spec fn spec_item_view_full_key<P: ItemViewProps>(code: KeyCode, checked: Vec<RecordId>, props: Option<P>, r: Option<KeyOutcome>) -> bool {
    if spec_nav_or_item_key(code) {
        spec_item_view_key(code, checked, spec_item_id(props), r)
    } else {
        r == match props {
            Some(p) => match p.spec_extra_key(code) {
                Some(a) => Some(KeyOutcome::Send(a)),
                None => None,
            },
            None => None,
        }
    }
}

/// What a mouse event does in a view of one item drawn in `area` (see
/// [`ItemView::handle_mouse_event`]).
fn item_view_mouse(mouse: MouseEvent, area: Rect, footer: bool) -> (r: Option<MouseOutcome>)
    ensures
        exists|info: Rect, content: Rect|
            #[trigger] spec_item_layout(info, content, area.spec_inner(Margin { horizontal: 1, vertical: 1 })) && r
                == spec_item_tree_mouse(mouse, content, footer),
        !area.spec_inner(Margin { horizontal: 1, vertical: 1 }).spec_contains(
            Position { x: mouse.column, y: mouse.row },
        ) ==> !spec_goes_to_tree(r),
{
    let inner = area.inner(Margin::new(1, 1));
    let (info, content) = split2(inner, true, Constraint::Length(3), Constraint::Min(4));
    let r = item_tree_mouse(mouse, content, footer);
    proof {
        assert(spec_item_layout(info, content, inner));
        assert(r == spec_item_tree_mouse(mouse, content, footer));
        lemma_layout_parts(seq![info, content], inner, true, spec_item_constraints());
        assert(spec_part_of(seq![info, content][1], inner, true));
        let p = Position { x: mouse.column, y: mouse.row };
        let lines: int = if footer { 3 } else { 2 };
        if !(content.height < lines || content.y > u16::MAX - 2) {
            let tree_area = Rect {
                x: content.x,
                y: (content.y + 2) as u16,
                width: content.width,
                height: (content.height - lines) as u16,
            };
            assert(spec_inside(tree_area, content));
            if tree_area.spec_contains(p) {
                lemma_inside_contains(tree_area, content, p);
                lemma_inside_contains(content, inner, p);
            }
        }
    }
    r
}

/// The view of one item (the tree itself is kept by the front end).
#[derive(Debug)]
pub struct ItemView<P> {
    pub props: Option<P>,
}

impl<P: ItemViewProps> ItemView<P> {
    /// The view of the item in the view data, if there is one.
    pub fn new(view_data: ViewData) -> (r: Self)
        ensures
            r.props == P::spec_retrieve(view_data),
    {
        ItemView { props: P::retrieve(view_data) }
    }

    /// The view of the item in the view data, if there is one (the tree
    /// then starts afresh); else it is unchanged.
    pub fn move_with_state(self, view_data: ViewData) -> (r: Self)
        ensures
            r.props == if P::spec_retrieve(view_data) is Some {
                P::spec_retrieve(view_data)
            } else {
                self.props
            },
    {
        match P::retrieve(view_data) {
            Some(p) => ItemView { props: Some(p) },
            None => self,
        }
    }

    pub fn name(&self) -> (r: &'static str)
        ensures
            r@ == P::spec_title(),
    {
        P::title()
    }

    /// What a key does (see [`spec_item_view_key`]): the item itself is what
    /// `q`, `r` and `p` act on when nothing is checked; other keys are the
    /// shown item's view's own ([`ItemViewProps::spec_extra_key`]); `None`
    /// for keys that do nothing here.
    pub fn handle_key_event(&self, key: KeyEvent, checked: Vec<RecordId>) -> (r: Option<KeyOutcome>)
        ensures
            spec_item_view_full_key(key.code, checked, self.props, r),
    {
        let code = key.code;
        if !(nav_or_item_key(code)) {
            return match &self.props {
                Some(p) => match p.extra_key(code) {
                    Some(a) => Some(KeyOutcome::Send(a)),
                    None => None,
                },
                None => None,
            };
        }
        let current = match &self.props {
            Some(p) => Some(p.id().clone()),
            None => None,
        };
        item_view_key(code, checked, current)
    }

    /// What a mouse event does: it goes to the tree, below the info part,
    /// the two title lines and the footer line if there is one (see
    /// [`item_tree_mouse`]), the tree's part being the one the layout gives
    /// inside the border below the 3-line info part
    /// ([`spec_item_layout`]). `None` when the tree's part is too small for
    /// those lines (nothing is done then). So an event outside the border
    /// does nothing.
    pub fn handle_mouse_event(&self, mouse: MouseEvent, area: Rect) -> (r: Option<MouseOutcome>)
        ensures
            exists|info: Rect, content: Rect|
                #[trigger] spec_item_layout(info, content, area.spec_inner(Margin { horizontal: 1, vertical: 1 })) && r
                    == spec_item_tree_mouse(mouse, content, P::spec_has_extra_footer()),
            !area.spec_inner(Margin { horizontal: 1, vertical: 1 }).spec_contains(
                Position { x: mouse.column, y: mouse.row },
            ) ==> !spec_goes_to_tree(r),
    {
        item_view_mouse(mouse, area, P::has_extra_footer())
    }
}

/// The view of one item whose songs can be sorted.
#[derive(Debug)]
pub struct SortableItemView<P, M, Item> {
    pub item_view: ItemView<P>,
    pub sort_mode: M,
    pub item: PhantomData<Item>,
}

/// `after` is `before` with its items put in `mode`'s order.
pub open spec fn spec_props_resorted<P: SortableViewProps<Item>, M: SortMode<Item>, Item>(
    mode: M,
    before: Option<P>,
    after: Option<P>,
) -> bool {
    match before {
        Some(b) => after matches Some(a) && mode.sorts(b.spec_items(), a.spec_items())
            && P::same_but_items(b, a),
        None => after is None,
    }
}

impl<P: ItemViewProps + SortableViewProps<Item>, M: SortMode<Item>, Item> SortableItemView<P, M, Item> {
    /// The view of the item in the view data, if there is one, in
    /// `sort_mode` (its items are sorted when the state next moves on).
    pub fn new(view_data: ViewData, sort_mode: M) -> (r: Self)
        ensures
            r.item_view.props == P::spec_retrieve(view_data),
            r.sort_mode == sort_mode,
    {
        SortableItemView { item_view: ItemView::new(view_data), sort_mode, item: PhantomData }
    }

    /// The view of the item in the view data if there is one, else as it
    /// was; either way its items are put in the sort mode's order.
    pub fn move_with_state(self, view_data: ViewData) -> (r: Self)
        ensures
            r.sort_mode == self.sort_mode,
            spec_props_resorted(
                self.sort_mode,
                if P::spec_retrieve(view_data) is Some {
                    P::spec_retrieve(view_data)
                } else {
                    self.item_view.props
                },
                r.item_view.props,
            ),
    {
        let item_view = self.item_view.move_with_state(view_data);
        let mut props = item_view.props;
        let props = match props {
            Some(p) => {
                let mut p = p;
                p.sort_items(&self.sort_mode);
                Some(p)
            },
            None => None,
        };
        SortableItemView { item_view: ItemView { props }, sort_mode: self.sort_mode, item: PhantomData }
    }

    pub fn name(&self) -> (r: &'static str)
        ensures
            r@ == P::spec_title(),
    {
        P::title()
    }

    /// What a key does: `s`/`S` change the sort mode and, if an item is
    /// shown, re-sort its items and scroll the tree; other keys as in the
    /// item view.
    pub fn handle_key_event(&mut self, key: KeyEvent, checked: Vec<RecordId>) -> (r: Option<KeyOutcome>)
        ensures
            key.code == KeyCode::Char('s') ==> final(self).sort_mode == old(self).sort_mode.following(),
            key.code == KeyCode::Char('S') ==> final(self).sort_mode == old(self).sort_mode.preceding(),
            key.code == KeyCode::Char('s') || key.code == KeyCode::Char('S') ==> {
                &&& spec_props_resorted(final(self).sort_mode, old(self).item_view.props, final(self).item_view.props)
                &&& r == if old(self).item_view.props is Some {
                    Some(KeyOutcome::Tree(TreeCommand::ScrollSelectedIntoView))
                } else {
                    None
                }
            },
            key.code != KeyCode::Char('s') && key.code != KeyCode::Char('S') ==> {
                &&& final(self).item_view.props == old(self).item_view.props
                &&& final(self).sort_mode == old(self).sort_mode
                &&& spec_item_view_full_key(key.code, checked, old(self).item_view.props, r)
            },
    {
        match key.code {
            KeyCode::Char('s') => {
                self.sort_mode = self.sort_mode.next();
                self.resort()
            },
            KeyCode::Char('S') => {
                self.sort_mode = self.sort_mode.prev();
                self.resort()
            },
            _ => self.item_view.handle_key_event(key, checked),
        }
    }

    fn resort(&mut self) -> (r: Option<KeyOutcome>)
        ensures
            final(self).sort_mode == old(self).sort_mode,
            spec_props_resorted(old(self).sort_mode, old(self).item_view.props, final(self).item_view.props),
            r == if old(self).item_view.props is Some {
                Some(KeyOutcome::Tree(TreeCommand::ScrollSelectedIntoView))
            } else {
                None
            },
    {
        let mut props: Option<P> = None;
        std::mem::swap(&mut props, &mut self.item_view.props);
        match props {
            Some(p) => {
                let mut p = p;
                p.sort_items(&self.sort_mode);
                self.item_view.props = Some(p);
                Some(KeyOutcome::Tree(TreeCommand::ScrollSelectedIntoView))
            },
            None => None,
        }
    }

    /// What a mouse event does: as in the item view.
    pub fn handle_mouse_event(&self, mouse: MouseEvent, area: Rect) -> (r: Option<MouseOutcome>)
        ensures
            exists|info: Rect, content: Rect|
                #[trigger] spec_item_layout(info, content, area.spec_inner(Margin { horizontal: 1, vertical: 1 })) && r
                    == spec_item_tree_mouse(mouse, content, P::spec_has_extra_footer()),
            !area.spec_inner(Margin { horizontal: 1, vertical: 1 }).spec_contains(
                Position { x: mouse.column, y: mouse.row },
            ) ==> !spec_goes_to_tree(r),
    {
        self.item_view.handle_mouse_event(mouse, area)
    }
}

} // verus!
