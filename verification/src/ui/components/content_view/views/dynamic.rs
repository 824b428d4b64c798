//! The library dynamic playlists view: the dynamic playlists sorted by
//! name, and two boxes to type a new one's name and query in.
use std::str::FromStr;

use vstd::prelude::*;

use mecomp_storage::db::schemas::dynamic::query::Query;

use super::checktree_utils::{spec_tree_mouse, tree_mouse};
use super::keys::{KeyOutcome, MouseOutcome, spec_browse_command, spec_last_line};
use super::library::{LibraryList, sort_outcome, spec_sort_keys};
use super::sort_mode::NameSort;
use super::traits::SortMode;
use crate::state::action::{Action, LibraryAction};
use crate::state::library::{DynamicPlaylist, RecordId};
use crate::ui::components::content_view::ActiveView;
use crate::ui::events::{KeyCode, KeyEvent, MouseButton, MouseEvent, MouseEventKind};
use crate::ui::layout::{
    Constraint, Margin, Position, Rect, lemma_inside_contains, lemma_layout_parts, spec_inside, spec_layout_of, spec_part_of,
    split3,
};
use crate::ui::widgets::input_box::{InputBox, spec_click_cursor, spec_key_edit};

verus! {

/// The query that `Query::from_str` of the storage crate reads from a
/// text, if it reads one.
pub uninterp spec fn spec_parse_query(text: Seq<char>) -> Option<Query>;

/// Calls `mecomp_storage::db::schemas::dynamic::query::Query::from_str`
/// (a parser of the query language) and keeps the query if it parsed. The
/// contract claims that the result is the named function
/// `spec_parse_query` of the text.
#[verifier::external_body]
fn parse_query(text: &str) -> (r: Option<Query>)
    ensures
        r == spec_parse_query(text@),
{
    Query::from_str(text).ok()
}

/// A box to type the query of a dynamic playlist in.
#[derive(Debug)]
pub struct QueryBuilder {
    pub inner: InputBox,
}

impl QueryBuilder {
    /// An empty query box.
    pub fn new() -> (r: Self)
        ensures
            r.inner.content().len() == 0,
            r.inner.cursor_at() == 0,
    {
        QueryBuilder { inner: InputBox::new() }
    }

    /// The text typed in so far.
    pub fn text(&self) -> (r: String)
        ensures
            r@ == self.inner.content(),
    {
        self.inner.text()
    }

    /// Edits the text as the key says (see [`spec_key_edit`]).
    pub fn handle_key_event(&mut self, key: KeyEvent)
        ensures
            spec_key_edit(
                old(self).inner.content(),
                old(self).inner.cursor_at(),
                key,
                final(self).inner.content(),
                final(self).inner.cursor_at(),
            ),
    {
        self.inner.handle_key_event(key);
    }

    /// Moves the cursor where a click puts it (see [`spec_click_cursor`]).
    pub fn handle_mouse_event(&mut self, mouse: MouseEvent, area: Rect)
        ensures
            final(self).inner.content() == old(self).inner.content(),
            final(self).inner.cursor_at() == spec_click_cursor(
                mouse,
                area,
                old(self).inner.content().len(),
                old(self).inner.cursor_at(),
            ),
    {
        self.inner.handle_mouse_event(mouse, area);
    }

    /// Empties the box.
    pub fn reset(&mut self)
        ensures
            final(self).inner.content().len() == 0,
            final(self).inner.cursor_at() == 0,
    {
        self.inner.reset();
    }
}

/// What has the focus in the dynamic playlists view. The name and query
/// boxes show only while one of them has it.
#[derive(Debug, Clone, Copy, PartialEq, Eq, Structural)]
pub enum Focus {
    NameInput,
    QueryInput,
    Tree,
}

/// The rows the dynamic playlists view is cut into inside its border while
/// the boxes show: the name box and the query box, 3 lines high each, above
/// the tree's part, at least a line high.
pub open spec fn spec_boxes_constraints() -> Seq<Constraint> {
    seq![Constraint::Length(3), Constraint::Length(3), Constraint::Min(1)]
}

/// Whether the name box's, the query box's and the tree's parts are those
/// the layout cuts `inner` into (see [`spec_boxes_constraints`]).
pub open spec fn spec_boxes_layout(name_area: Rect, query_area: Rect, tree_part: Rect, inner: Rect) -> bool {
    spec_layout_of(seq![name_area, query_area, tree_part], inner, true, spec_boxes_constraints())
}

/// The name box, the query box and the tree's part of the view's area
/// (inside its border), as the layout cuts it while the boxes show (see
/// [`spec_boxes_layout`]).
fn lib_split_area(area: Rect) -> (r: (Rect, Rect, Rect))
    ensures
        spec_boxes_layout(r.0, r.1, r.2, area),
{
    split3(area, true, Constraint::Length(3), Constraint::Length(3), Constraint::Min(1))
}

/// The library dynamic playlists view (the tree itself is kept by the
/// front end).
#[derive(Debug)]
pub struct LibraryDynamicView {
    pub props: LibraryList<DynamicPlaylist, NameSort<DynamicPlaylist>>,
    pub name_input_box: InputBox,
    pub query_builder: QueryBuilder,
    pub focus: Focus,
}

/// What a mouse event does to the view (from `before` to `after`,
/// answering `r`) while a box has the focus, the name box being drawn in
/// `name_area`, the query box in `query_area` and the tree in `tree_part`
/// (below its title line).
pub open spec fn spec_boxes_mouse(
    before: LibraryDynamicView,
    after: LibraryDynamicView,
    mouse: MouseEvent,
    name_area: Rect,
    query_area: Rect,
    tree_part: Rect,
    r: Option<MouseOutcome>,
) -> bool {
    &&& after.props == before.props
    &&& {
        let p = Position { x: mouse.column, y: mouse.row };
        let left_click = mouse.kind == MouseEventKind::Down(MouseButton::Left);
        &&& (tree_part.height < 1 || tree_part.y == u16::MAX) ==> {
            &&& r is None
            &&& after.name_input_box == before.name_input_box
            &&& after.query_builder == before.query_builder
            &&& after.focus == before.focus
        }
        &&& !(tree_part.height < 1 || tree_part.y == u16::MAX) ==> {
            let content = Rect { x: tree_part.x, y: (tree_part.y + 1) as u16, width: tree_part.width, height: (tree_part.height - 1) as u16 };
            &&& r == Some(MouseOutcome::Ignore)
            &&& if name_area.spec_contains(p) {
                &&& after.focus == if left_click { Focus::NameInput } else { before.focus }
                &&& after.name_input_box.content() == before.name_input_box.content()
                &&& after.name_input_box.cursor_at() == spec_click_cursor(
                    mouse,
                    name_area,
                    before.name_input_box.content().len(),
                    before.name_input_box.cursor_at(),
                )
                &&& after.query_builder == before.query_builder
            } else if query_area.spec_contains(p) {
                &&& after.focus == if left_click { Focus::QueryInput } else { before.focus }
                &&& after.query_builder.inner.content() == before.query_builder.inner.content()
                &&& after.query_builder.inner.cursor_at() == spec_click_cursor(
                    mouse,
                    query_area,
                    before.query_builder.inner.content().len(),
                    before.query_builder.inner.cursor_at(),
                )
                &&& after.name_input_box == before.name_input_box
            } else {
                &&& after.focus == if content.spec_contains(p) && left_click {
                    Focus::Tree
                } else {
                    before.focus
                }
                &&& after.name_input_box == before.name_input_box
                &&& after.query_builder == before.query_builder
            }
        }
    }
}

impl LibraryDynamicView {
    /// The view of the library's dynamic playlists, sorted by name, with
    /// the tree focused and both boxes empty.
    pub fn new(dynamics: Vec<DynamicPlaylist>) -> (r: Self)
        ensures
            r.props.sort_mode.sorts(dynamics@, r.props.items@),
            r.focus == Focus::Tree,
            r.name_input_box.content().len() == 0,
            r.query_builder.inner.content().len() == 0,
    {
        LibraryDynamicView {
            props: LibraryList::new(dynamics, NameSort::new()),
            name_input_box: InputBox::new(),
            query_builder: QueryBuilder::new(),
            focus: Focus::Tree,
        }
    }

    /// The view with the library's current dynamic playlists, sorted by
    /// name; the boxes and the focus are as they were.
    pub fn move_with_state(self, dynamics: Vec<DynamicPlaylist>) -> (r: Self)
        ensures
            r.props.sort_mode == self.props.sort_mode,
            self.props.sort_mode.sorts(dynamics@, r.props.items@),
            r.name_input_box == self.name_input_box,
            r.query_builder == self.query_builder,
            r.focus == self.focus,
    {
        LibraryDynamicView {
            props: self.props.refresh(dynamics),
            name_input_box: self.name_input_box,
            query_builder: self.query_builder,
            focus: self.focus,
        }
    }

    /// Whether the tree keeps its state when the state moves on: only while
    /// this view is the active one.
    pub fn keeps_tree(active_view: &ActiveView) -> (r: bool)
        ensures
            r == (*active_view is DynamicPlaylists),
    {
        match active_view {
            ActiveView::DynamicPlaylists => true,
            _ => false,
        }
    }

    pub fn name(&self) -> (r: &'static str)
        ensures
            r@ == "Library Dynamic Playlists View"@,
    {
        "Library Dynamic Playlists View"
    }

    /// What a key does. With the tree focused: `s`/`S` change the sort mode
    /// and scroll the tree, `n` focuses the name box, `d` removes the
    /// `selected` dynamic playlist, and the browsing keys act on the tree
    /// (page up with nothing selected going to the last one, which needs
    /// one). In the name box, enter goes on to the query box if a name was
    /// typed, and back to the tree if not. In the query box, enter creates
    /// the dynamic playlist if the query parses, empties both boxes and
    /// focuses the tree. Other keys edit the focused box.
    pub fn handle_key_event(&mut self, key: KeyEvent, current: Option<usize>, selected: Option<RecordId>) -> (r: KeyOutcome)
        requires
            old(self).focus == Focus::Tree && key.code == KeyCode::PageUp ==> old(self).props.items@.len() > 0,
        ensures
            old(self).focus == Focus::Tree ==> {
                &&& final(self).name_input_box == old(self).name_input_box
                &&& final(self).query_builder == old(self).query_builder
                &&& final(self).focus == if key.code == KeyCode::Char('n') {
                    Focus::NameInput
                } else {
                    Focus::Tree
                }
                &&& spec_sort_keys(key.code, old(self).props, final(self).props)
                &&& r == match key.code {
                    KeyCode::Char('s') | KeyCode::Char('S') => sort_outcome(true),
                    KeyCode::Char('n') => KeyOutcome::Ignore,
                    KeyCode::Char('d') => match selected {
                        Some(thing) => KeyOutcome::Send(
                            Action::Library(LibraryAction::RemoveDynamicPlaylist(thing)),
                        ),
                        None => KeyOutcome::Ignore,
                    },
                    _ => match spec_browse_command(key.code, spec_last_line(old(self).props.items@.len()), current) {
                        Some(cmd) => KeyOutcome::Tree(cmd),
                        None => KeyOutcome::Ignore,
                    },
                }
            },
            old(self).focus != Focus::Tree ==> {
                &&& final(self).props == old(self).props
                &&& if key.code == KeyCode::Enter && old(self).focus == Focus::NameInput {
                    &&& final(self).name_input_box == old(self).name_input_box
                    &&& final(self).query_builder == old(self).query_builder
                    &&& final(self).focus == if old(self).name_input_box.content().len() == 0 {
                        Focus::Tree
                    } else {
                        Focus::QueryInput
                    }
                    &&& r == KeyOutcome::Ignore
                } else if key.code == KeyCode::Enter && old(self).focus == Focus::QueryInput
                    && spec_parse_query(old(self).query_builder.inner.content()) is Some {
                    &&& r matches KeyOutcome::Send(
                        Action::Library(LibraryAction::CreateDynamicPlaylist(name, query)),
                    )
                    &&& name@ == old(self).name_input_box.content()
                    &&& query == spec_parse_query(old(self).query_builder.inner.content())->0
                    &&& final(self).name_input_box.content().len() == 0
                    &&& final(self).name_input_box.cursor_at() == 0
                    &&& final(self).query_builder.inner.content().len() == 0
                    &&& final(self).query_builder.inner.cursor_at() == 0
                    &&& final(self).focus == Focus::Tree
                } else if old(self).focus == Focus::NameInput {
                    &&& spec_key_edit(
                        old(self).name_input_box.content(),
                        old(self).name_input_box.cursor_at(),
                        key,
                        final(self).name_input_box.content(),
                        final(self).name_input_box.cursor_at(),
                    )
                    &&& final(self).query_builder == old(self).query_builder
                    &&& final(self).focus == old(self).focus
                    &&& r == KeyOutcome::Ignore
                } else {
                    &&& spec_key_edit(
                        old(self).query_builder.inner.content(),
                        old(self).query_builder.inner.cursor_at(),
                        key,
                        final(self).query_builder.inner.content(),
                        final(self).query_builder.inner.cursor_at(),
                    )
                    &&& final(self).name_input_box == old(self).name_input_box
                    &&& final(self).focus == old(self).focus
                    &&& r == KeyOutcome::Ignore
                }
            },
    {
        match self.focus {
            Focus::Tree => match key.code {
                KeyCode::Char('n') => {
                    self.focus = Focus::NameInput;
                    KeyOutcome::Ignore
                },
                KeyCode::Char('d') => match selected {
                    Some(thing) => KeyOutcome::Send(
                        Action::Library(LibraryAction::RemoveDynamicPlaylist(thing)),
                    ),
                    None => KeyOutcome::Ignore,
                },
                _ => {
                    let last = self.props.last_line_or_first();
                    match self.props.browse_key(key.code, last, current, true) {
                        Some(outcome) => outcome,
                        None => KeyOutcome::Ignore,
                    }
                },
            },
            Focus::NameInput => {
                if key.code == KeyCode::Enter {
                    if self.name_input_box.is_empty() {
                        self.focus = Focus::Tree;
                    } else {
                        self.focus = Focus::QueryInput;
                    }
                } else {
                    self.name_input_box.handle_key_event(key);
                }
                KeyOutcome::Ignore
            },
            Focus::QueryInput => {
                let text = self.query_builder.text();
                let parsed = parse_query(text.as_str());
                self.query_key_event(key, parsed)
            },
        }
    }

    /// What a key does while the query box has the focus, where `parsed` is
    /// what the box's text reads as: enter with a query creates the dynamic
    /// playlist of the name box's name and that query, empties both boxes
    /// and focuses the tree; any other key (or enter without a query) edits
    /// the query box.
    pub fn query_key_event(&mut self, key: KeyEvent, parsed: Option<Query>) -> (r: KeyOutcome)
        requires
            old(self).focus == Focus::QueryInput,
        ensures
            final(self).props == old(self).props,
            if key.code == KeyCode::Enter && parsed is Some {
                &&& r matches KeyOutcome::Send(Action::Library(LibraryAction::CreateDynamicPlaylist(name, query)))
                &&& name@ == old(self).name_input_box.content()
                &&& query == parsed->0
                &&& final(self).name_input_box.content().len() == 0
                &&& final(self).name_input_box.cursor_at() == 0
                &&& final(self).query_builder.inner.content().len() == 0
                &&& final(self).query_builder.inner.cursor_at() == 0
                &&& final(self).focus == Focus::Tree
            } else {
                &&& spec_key_edit(
                    old(self).query_builder.inner.content(),
                    old(self).query_builder.inner.cursor_at(),
                    key,
                    final(self).query_builder.inner.content(),
                    final(self).query_builder.inner.cursor_at(),
                )
                &&& final(self).name_input_box == old(self).name_input_box
                &&& final(self).focus == old(self).focus
                &&& r == KeyOutcome::Ignore
            },
    {
        match (key.code, parsed) {
            (KeyCode::Enter, Some(query)) => {
                let name = self.name_input_box.text();
                self.name_input_box.reset();
                self.query_builder.reset();
                self.focus = Focus::Tree;
                KeyOutcome::Send(Action::Library(LibraryAction::CreateDynamicPlaylist(name, query)))
            },
            _ => {
                self.query_builder.handle_key_event(key);
                KeyOutcome::Ignore
            },
        }
    }

    /// What a mouse event does. With the tree focused, it goes to the tree
    /// (inside the border and the title line), where a plain click opens an
    /// item and a control-click selects it. Otherwise a left click on a box
    /// focuses it and a left click below them focuses the tree; the box
    /// under the mouse also gets the event (see [`Self::boxes_mouse_event`]),
    /// the boxes' and the tree's parts being those the layout gives,
    /// as [`spec_boxes_layout`] says. The tree's part below the boxes must be at least a
    /// line high: `None` when it is not (nothing else is done then).
    pub fn handle_mouse_event(&mut self, mouse: MouseEvent, area: Rect) -> (r: Option<MouseOutcome>)
        requires
            old(self).focus == Focus::Tree ==> area.spec_inner(Margin { horizontal: 1, vertical: 1 }).height >= 1
                && area.spec_inner(Margin { horizontal: 1, vertical: 1 }).y < u16::MAX,
        ensures
            ({
                let inner = area.spec_inner(Margin { horizontal: 1, vertical: 1 });
                &&& final(self).props == old(self).props
                &&& old(self).focus == Focus::Tree ==> {
                    let tree_area = Rect { x: inner.x, y: (inner.y + 1) as u16, width: inner.width, height: (inner.height - 1) as u16 };
                    &&& final(self).name_input_box == old(self).name_input_box
                    &&& final(self).query_builder == old(self).query_builder
                    &&& final(self).focus == old(self).focus
                    &&& r == Some(match spec_tree_mouse(mouse, tree_area) {
                        Some(m) => MouseOutcome::Tree(m, true),
                        None => MouseOutcome::Ignore,
                    })
                }
                &&& old(self).focus != Focus::Tree ==> exists|name_area: Rect, query_area: Rect, tree_part: Rect|
                    spec_boxes_layout(name_area, query_area, tree_part, inner) && #[trigger] spec_boxes_mouse(
                        *old(self),
                        *final(self),
                        mouse,
                        name_area,
                        query_area,
                        tree_part,
                        r,
                    )
                &&& old(self).focus != Focus::Tree && !inner.spec_contains(Position { x: mouse.column, y: mouse.row })
                    ==> *final(self) == *old(self) && !(r matches Some(MouseOutcome::Tree(_, _)))
            }),
    {
        let p = Position::new(mouse.column, mouse.row);
        let inner = area.inner(Margin::new(1, 1));
        match self.focus {
            Focus::Tree => {
                let tree_area = Rect { x: inner.x, y: inner.y + 1, width: inner.width, height: inner.height - 1 };
                Some(
                    match tree_mouse(mouse, tree_area) {
                        Some(m) => MouseOutcome::Tree(m, true),
                        None => MouseOutcome::Ignore,
                    },
                )
            },
            _ => {
                let (name_area, query_area, tree_part) = lib_split_area(inner);
                let ghost before = *self;
                let r = self.boxes_mouse_event(mouse, name_area, query_area, tree_part);
                proof {
                    assert(spec_boxes_mouse(before, *self, mouse, name_area, query_area, tree_part, r));
                    let parts = seq![name_area, query_area, tree_part];
                    lemma_layout_parts(parts, inner, true, spec_boxes_constraints());
                    assert(spec_part_of(parts[0], inner, true));
                    assert(spec_part_of(parts[1], inner, true));
                    assert(spec_part_of(parts[2], inner, true));
                    let q = Position { x: mouse.column, y: mouse.row };
                    if name_area.spec_contains(q) {
                        lemma_inside_contains(name_area, inner, q);
                    }
                    if query_area.spec_contains(q) {
                        lemma_inside_contains(query_area, inner, q);
                    }
                    if !(tree_part.height < 1 || tree_part.y == u16::MAX) {
                        let content = Rect {
                            x: tree_part.x,
                            y: (tree_part.y + 1) as u16,
                            width: tree_part.width,
                            height: (tree_part.height - 1) as u16,
                        };
                        assert(spec_inside(content, tree_part));
                        if content.spec_contains(q) {
                            lemma_inside_contains(content, tree_part, q);
                            lemma_inside_contains(tree_part, inner, q);
                        }
                    }
                }
                r
            },
        }
    }

    /// What a mouse event does while a box has the focus, the name box being
    /// drawn in `name_area`, the query box in `query_area` and the tree in
    /// `tree_part` (below its title line). A left click on a box focuses it
    /// and a left click on the tree focuses the tree; the box under the
    /// mouse also gets the event. `None` when the tree's part is not at
    /// least a line high (nothing is done then).
    pub fn boxes_mouse_event(&mut self, mouse: MouseEvent, name_area: Rect, query_area: Rect, tree_part: Rect) -> (r: Option<MouseOutcome>)
        requires
            old(self).focus != Focus::Tree,
        ensures
            spec_boxes_mouse(*old(self), *final(self), mouse, name_area, query_area, tree_part, r),
    {
        let p = Position::new(mouse.column, mouse.row);
        if tree_part.height < 1 || tree_part.y == u16::MAX {
            return None;
        }
        let content_area = Rect { x: tree_part.x, y: tree_part.y + 1, width: tree_part.width, height: tree_part.height - 1 };
        let left_click = mouse.kind == MouseEventKind::Down(MouseButton::Left);
        if name_area.contains(p) {
            if left_click {
                self.focus = Focus::NameInput;
            }
            self.name_input_box.handle_mouse_event(mouse, name_area);
        } else if query_area.contains(p) {
            if left_click {
                self.focus = Focus::QueryInput;
            }
            self.query_builder.handle_mouse_event(mouse, query_area);
        } else if content_area.contains(p) && left_click {
            self.focus = Focus::Tree;
        }
        Some(MouseOutcome::Ignore)
    }
}

} // verus!
