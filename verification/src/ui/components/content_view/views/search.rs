//! The search view: a search bar, and the results of the last search.
use vstd::prelude::*;

use super::checktree_utils::{spec_tree_mouse, tree_mouse};
use super::keys::{KeyOutcome, MouseOutcome, TreeCommand, page_down, page_up, spec_page_down, spec_page_up};
use crate::state::action::{Action, AudioAction, PopupAction, QueueAction, ViewAction};
use crate::state::library::RecordId;
use crate::state::search::SearchResult;
use crate::ui::components::content_view::ActiveView;
use crate::ui::events::{KeyCode, KeyEvent, MouseButton, MouseEvent, MouseEventKind};
use crate::ui::layout::{Constraint, Position, Rect, lemma_inside_contains, lemma_layout_parts, spec_layout_of, spec_part_of, split2};
use crate::ui::widgets::input_box::{InputBox, spec_click_cursor, spec_key_edit};
use crate::ui::widgets::popups::PopupType;

verus! {

/// The rows the search view is cut into: the search bar, 3 lines high,
/// above the results, at least 4 lines high.
pub open spec fn spec_search_constraints() -> Seq<Constraint> {
    seq![Constraint::Length(3), Constraint::Min(4)]
}

/// Whether `bar` and `content` are the parts the layout cuts the view's
/// area into (see [`spec_search_constraints`]).
pub open spec fn spec_search_layout(bar: Rect, content: Rect, area: Rect) -> bool {
    spec_layout_of(seq![bar, content], area, true, spec_search_constraints())
}

/// The search bar's part and the results' part of the view's area, as the
/// layout cuts it (see [`spec_search_layout`]).
fn split_area(area: Rect) -> (r: (Rect, Rect))
    ensures
        spec_search_layout(r.0, r.1, area),
{
    split2(area, true, Constraint::Length(3), Constraint::Min(4))
}

/// The line that page up selects when nothing is selected: the last
/// result, or the first when there is none.
pub open spec fn spec_search_last(results: SearchResult) -> usize {
    if results.spec_len() == 0 {
        0
    } else if results.spec_len() > usize::MAX {
        (usize::MAX - 1) as usize
    } else {
        (results.spec_len() - 1) as usize
    }
}

/// The action of `q`, `r` or `p` on the checked things; none when nothing
/// is checked.
pub open spec fn spec_checked_action(code: KeyCode, checked: Vec<RecordId>) -> KeyOutcome {
    if checked@.len() == 0 {
        KeyOutcome::Ignore
    } else {
        match code {
            KeyCode::Char('q') => KeyOutcome::Send(Action::Audio(AudioAction::Queue(QueueAction::Add(checked)))),
            KeyCode::Char('r') => KeyOutcome::Send(Action::ActiveView(ViewAction::Open(ActiveView::Radio(checked)))),
            _ => KeyOutcome::Send(Action::Popup(PopupAction::Open(PopupType::Playlist(checked)))),
        }
    }
}

/// The search view (the results' tree itself is kept by the front end).
#[derive(Debug)]
pub struct SearchView {
    pub props: SearchResult,
    pub search_bar: InputBox,
    pub search_bar_focused: bool,
}

/// What a mouse event does to the search view (from `before` to `after`,
/// answering `r`), the search bar being drawn in `bar` and the results in
/// `content`.
pub open spec fn spec_mouse_in(
    before: SearchView,
    after: SearchView,
    mouse: MouseEvent,
    bar: Rect,
    content: Rect,
    r: MouseOutcome,
) -> bool {
    let p = Position { x: mouse.column, y: mouse.row };
    let left_click = mouse.kind == MouseEventKind::Down(MouseButton::Left);
    &&& after.props == before.props
    &&& if before.search_bar_focused {
        &&& r == MouseOutcome::Ignore
        &&& if bar.spec_contains(p) {
            &&& after.search_bar_focused
            &&& after.search_bar.content() == before.search_bar.content()
            &&& after.search_bar.cursor_at() == spec_click_cursor(
                mouse,
                bar,
                before.search_bar.content().len(),
                before.search_bar.cursor_at(),
            )
        } else {
            &&& after.search_bar == before.search_bar
            &&& after.search_bar_focused == !(left_click && content.spec_contains(p))
        }
    } else {
        &&& after.search_bar == before.search_bar
        &&& after.search_bar_focused == (left_click && bar.spec_contains(p))
        &&& r == if !(left_click && bar.spec_contains(p)) && content.spec_contains(p) {
            let tree_area = Rect {
                x: if content.x == u16::MAX { u16::MAX } else { (content.x + 1) as u16 },
                y: if content.y == u16::MAX { u16::MAX } else { (content.y + 1) as u16 },
                width: if content.width == 0 { 0 } else { (content.width - 1) as u16 },
                height: if content.height < 2 { 0 } else { (content.height - 2) as u16 },
            };
            match spec_tree_mouse(mouse, tree_area) {
                Some(m) => MouseOutcome::Tree(m, false),
                None => MouseOutcome::Ignore,
            }
        } else {
            MouseOutcome::Ignore
        }
    }
}

impl SearchView {
    /// The view of the last results, with an empty, focused search bar.
    pub fn new(results: SearchResult) -> (r: Self)
        ensures
            r.props == results,
            r.search_bar.content().len() == 0,
            r.search_bar_focused,
    {
        SearchView { props: results, search_bar: InputBox::new(), search_bar_focused: true }
    }

    /// The view of new results (the tree starts afresh); the search bar is
    /// as it was.
    pub fn move_with_state(self, results: SearchResult) -> (r: Self)
        ensures
            r.props == results,
            r.search_bar == self.search_bar,
            r.search_bar_focused == self.search_bar_focused,
    {
        SearchView { props: results, search_bar: self.search_bar, search_bar_focused: self.search_bar_focused }
    }

    pub fn name(&self) -> (r: &'static str)
        ensures
            r@ == "Search"@,
    {
        "Search"
    }

    /// What a key does. Page up and down, up and down always act on the
    /// results. With the search bar focused, enter unfocuses it, resets the
    /// results' tree and, if a query was typed, searches for it and empties
    /// the bar; other keys edit the query. Otherwise the arrows, space and
    /// enter act on the tree, `/` focuses the bar, and `q`, `r` and `p` act
    /// on the checked results, if there are any.
    pub fn handle_key_event(&mut self, key: KeyEvent, current: Option<usize>, checked: Vec<RecordId>) -> (r: KeyOutcome)
        ensures
            final(self).props == old(self).props,
            match key.code {
                KeyCode::PageUp => r == KeyOutcome::Tree(
                    TreeCommand::SelectIndex(spec_page_up(current, spec_search_last(old(self).props))),
                ) && final(self).search_bar == old(self).search_bar && final(self).search_bar_focused
                    == old(self).search_bar_focused,
                KeyCode::PageDown => r == KeyOutcome::Tree(TreeCommand::SelectIndex(spec_page_down(current)))
                    && final(self).search_bar == old(self).search_bar && final(self).search_bar_focused
                    == old(self).search_bar_focused,
                KeyCode::Up => r == KeyOutcome::Tree(TreeCommand::Up) && final(self).search_bar == old(
                    self,
                ).search_bar && final(self).search_bar_focused == old(self).search_bar_focused,
                KeyCode::Down => r == KeyOutcome::Tree(TreeCommand::Down) && final(self).search_bar == old(
                    self,
                ).search_bar && final(self).search_bar_focused == old(self).search_bar_focused,
                KeyCode::Enter if old(self).search_bar_focused => {
                    &&& !final(self).search_bar_focused
                    &&& if old(self).search_bar.content().len() > 0 {
                        &&& r matches KeyOutcome::ResetTree(Some(Action::Search(query)))
                        &&& query@ == old(self).search_bar.content()
                        &&& final(self).search_bar.content().len() == 0
                        &&& final(self).search_bar.cursor_at() == 0
                    } else {
                        &&& r == KeyOutcome::ResetTree(None)
                        &&& final(self).search_bar == old(self).search_bar
                    }
                },
                _ if old(self).search_bar_focused => {
                    &&& r == KeyOutcome::Ignore
                    &&& final(self).search_bar_focused
                    &&& spec_key_edit(
                        old(self).search_bar.content(),
                        old(self).search_bar.cursor_at(),
                        key,
                        final(self).search_bar.content(),
                        final(self).search_bar.cursor_at(),
                    )
                },
                _ => {
                    &&& final(self).search_bar == old(self).search_bar
                    &&& final(self).search_bar_focused == (key.code == KeyCode::Char('/'))
                    &&& r == match key.code {
                        KeyCode::Left => KeyOutcome::Tree(TreeCommand::Left),
                        KeyCode::Right => KeyOutcome::Tree(TreeCommand::Right),
                        KeyCode::Char(' ') => KeyOutcome::Tree(TreeCommand::ToggleCheck),
                        KeyCode::Enter => KeyOutcome::Tree(TreeCommand::OpenSelected),
                        KeyCode::Char('q') | KeyCode::Char('r') | KeyCode::Char('p') => spec_checked_action(
                            key.code,
                            checked,
                        ),
                        _ => KeyOutcome::Ignore,
                    }
                },
            },
    {
        match key.code {
            KeyCode::PageUp => {
                let len = self.props.len();
                let last = if len > 0 {
                    len - 1
                } else {
                    0
                };
                KeyOutcome::Tree(TreeCommand::SelectIndex(page_up(current, last)))
            },
            KeyCode::PageDown => KeyOutcome::Tree(TreeCommand::SelectIndex(page_down(current))),
            KeyCode::Up => KeyOutcome::Tree(TreeCommand::Up),
            KeyCode::Down => KeyOutcome::Tree(TreeCommand::Down),
            _ => {
                if self.search_bar_focused {
                    if key.code == KeyCode::Enter {
                        self.search_bar_focused = false;
                        if self.search_bar.is_empty() {
                            KeyOutcome::ResetTree(None)
                        } else {
                            let query = self.search_bar.text();
                            self.search_bar.reset();
                            KeyOutcome::ResetTree(Some(Action::Search(query)))
                        }
                    } else {
                        self.search_bar.handle_key_event(key);
                        KeyOutcome::Ignore
                    }
                } else {
                    match key.code {
                        KeyCode::Left => KeyOutcome::Tree(TreeCommand::Left),
                        KeyCode::Right => KeyOutcome::Tree(TreeCommand::Right),
                        KeyCode::Char(' ') => KeyOutcome::Tree(TreeCommand::ToggleCheck),
                        KeyCode::Enter => KeyOutcome::Tree(TreeCommand::OpenSelected),
                        KeyCode::Char('/') => {
                            self.search_bar_focused = true;
                            KeyOutcome::Ignore
                        },
                        KeyCode::Char('q') => if checked.len() > 0 {
                            KeyOutcome::Send(Action::Audio(AudioAction::Queue(QueueAction::Add(checked))))
                        } else {
                            KeyOutcome::Ignore
                        },
                        KeyCode::Char('r') => if checked.len() > 0 {
                            KeyOutcome::Send(Action::ActiveView(ViewAction::Open(ActiveView::Radio(checked))))
                        } else {
                            KeyOutcome::Ignore
                        },
                        KeyCode::Char('p') => if checked.len() > 0 {
                            KeyOutcome::Send(Action::Popup(PopupAction::Open(PopupType::Playlist(checked))))
                        } else {
                            KeyOutcome::Ignore
                        },
                        _ => KeyOutcome::Ignore,
                    }
                }
            },
        }
    }

    /// What a mouse event does, the view's area being cut into the search
    /// bar's and the results' parts by the layout ([`spec_search_layout`];
    /// see [`Self::handle_mouse_in`]). So an event outside the area does
    /// nothing.
    pub fn handle_mouse_event(&mut self, mouse: MouseEvent, area: Rect) -> (r: MouseOutcome)
        ensures
            exists|bar: Rect, content: Rect|
                #[trigger] spec_search_layout(bar, content, area) && spec_mouse_in(
                    *old(self),
                    *final(self),
                    mouse,
                    bar,
                    content,
                    r,
                ),
            !area.spec_contains(Position { x: mouse.column, y: mouse.row }) ==> r == MouseOutcome::Ignore
                && *final(self) == *old(self),
    {
        let (bar, content) = split_area(area);
        let ghost before = *self;
        let r = self.handle_mouse_in(mouse, bar, content);
        proof {
            assert(spec_search_layout(bar, content, area));
            assert(spec_mouse_in(before, *self, mouse, bar, content, r));
            lemma_layout_parts(seq![bar, content], area, true, spec_search_constraints());
            assert(spec_part_of(seq![bar, content][0], area, true));
            assert(spec_part_of(seq![bar, content][1], area, true));
            let p = Position { x: mouse.column, y: mouse.row };
            if bar.spec_contains(p) {
                lemma_inside_contains(bar, area, p);
            }
            if content.spec_contains(p) {
                lemma_inside_contains(content, area, p);
            }
        }
        r
    }

    /// What a mouse event does, the search bar being drawn in `bar` and the
    /// results in `content`. With the bar focused, an event on the bar goes
    /// to it, and a left click on the results unfocuses it. Otherwise a left
    /// click on the bar focuses it, and an event on the results goes to the
    /// tree (inside the results' border).
    pub fn handle_mouse_in(&mut self, mouse: MouseEvent, bar: Rect, content: Rect) -> (r: MouseOutcome)
        ensures
            spec_mouse_in(*old(self), *final(self), mouse, bar, content, r),
    {
        let p = Position::new(mouse.column, mouse.row);
        let left_click = mouse.kind == MouseEventKind::Down(MouseButton::Left);
        if self.search_bar_focused {
            if bar.contains(p) {
                self.search_bar.handle_mouse_event(mouse, bar);
            } else if left_click && content.contains(p) {
                self.search_bar_focused = false;
            }
            MouseOutcome::Ignore
        } else if left_click && bar.contains(p) {
            self.search_bar_focused = true;
            MouseOutcome::Ignore
        } else if content.contains(p) {
            let tree_area = Rect {
                x: content.x.saturating_add(1),
                y: content.y.saturating_add(1),
                width: content.width.saturating_sub(1),
                height: content.height.saturating_sub(2),
            };
            match tree_mouse(mouse, tree_area) {
                Some(m) => MouseOutcome::Tree(m, false),
                None => MouseOutcome::Ignore,
            }
        } else {
            MouseOutcome::Ignore
        }
    }
}

} // verus!
