//! The random view: opens a random album, artist or song.
use vstd::prelude::*;

use super::RandomViewProps;
use crate::state::action::{Action, ViewAction};
use crate::state::library::Ulid;
use crate::ui::components::content_view::ActiveView;
use crate::ui::components::list_nav::{select_down, select_up, spec_select_down, spec_select_up};
use crate::ui::events::{KeyCode, KeyEvent, MouseButton, MouseEvent, MouseEventKind};
use crate::ui::layout::{Margin, Position, Rect};

verus! {

/// The kind of random item to open.
#[derive(Debug, Clone, Copy, PartialEq, Eq, Structural)]
pub enum ItemType {
    Album,
    Artist,
    Song,
}

/// The action that opens the random item of kind `t`.
pub open spec fn spec_item_action(t: ItemType, props: RandomViewProps) -> Action {
    match t {
        ItemType::Album => Action::ActiveView(
            ViewAction::Open(ActiveView::Album(Ulid { id: props.album.id })),
        ),
        ItemType::Artist => Action::ActiveView(
            ViewAction::Open(ActiveView::Artist(Ulid { id: props.artist.id })),
        ),
        ItemType::Song => Action::ActiveView(
            ViewAction::Open(ActiveView::Song(Ulid { id: props.song.id })),
        ),
    }
}

impl ItemType {
    /// The action that opens the random item of this kind.
    pub fn to_action(&self, props: &RandomViewProps) -> (r: Option<Action>)
        ensures
            r == Some(spec_item_action(*self, *props)),
    {
        match self {
            ItemType::Album => Some(
                Action::ActiveView(ViewAction::Open(ActiveView::Album(props.album.ulid()))),
            ),
            ItemType::Artist => Some(
                Action::ActiveView(ViewAction::Open(ActiveView::Artist(props.artist.ulid()))),
            ),
            ItemType::Song => Some(
                Action::ActiveView(ViewAction::Open(ActiveView::Song(props.song.ulid()))),
            ),
        }
    }

    /// The label of the kind.
    pub fn to_string(&self) -> (r: String)
        ensures
            r@ == match self {
                ItemType::Album => "Random Album"@,
                ItemType::Artist => "Random Artist"@,
                ItemType::Song => "Random Song"@,
            },
    {
        match self {
            ItemType::Album => "Random Album".to_owned(),
            ItemType::Artist => "Random Artist".to_owned(),
            ItemType::Song => "Random Song".to_owned(),
        }
    }
}

/// The number of kinds listed.
pub const RANDOM_TYPE_COUNT: usize = 3;

/// The kind listed at position `i`.
pub open spec fn spec_random_type(i: int) -> ItemType {
    if i == 0 {
        ItemType::Album
    } else if i == 1 {
        ItemType::Artist
    } else {
        ItemType::Song
    }
}

/// The kind listed at position `i`, if there is one.
pub fn random_type(i: usize) -> (r: Option<ItemType>)
    ensures
        r == if i < RANDOM_TYPE_COUNT {
            Some(spec_random_type(i as int))
        } else {
            None
        },
{
    match i {
        0 => Some(ItemType::Album),
        1 => Some(ItemType::Artist),
        2 => Some(ItemType::Song),
        _ => None,
    }
}

/// The action that pressing enter sends: opening the selected kind's random
/// item, when a kind is selected and random items are known.
pub open spec fn spec_enter_action(selected: Option<usize>, props: Option<RandomViewProps>) -> Option<Action> {
    match (selected, props) {
        (Some(s), Some(p)) => if s < RANDOM_TYPE_COUNT {
            Some(spec_item_action(spec_random_type(s as int), p))
        } else {
            None
        },
        _ => None,
    }
}

/// The random view.
#[derive(Debug, Clone)]
pub struct RandomView {
    /// The random items, once known.
    pub props: Option<RandomViewProps>,
    /// The selected kind.
    pub selected: Option<usize>,
}

impl RandomView {
    pub fn new(props: Option<RandomViewProps>) -> (r: Self)
        ensures
            r.props == props,
            r.selected is None,
    {
        RandomView { props, selected: None }
    }

    /// Takes new random items, keeping the old ones if there are none.
    pub fn move_with_state(self, props: Option<RandomViewProps>) -> (r: Self)
        ensures
            r.props == if props is Some {
                props
            } else {
                self.props
            },
            r.selected == self.selected,
    {
        match props {
            Some(p) => RandomView { props: Some(p), ..self },
            None => self,
        }
    }

    pub fn name(&self) -> (r: &'static str)
        ensures
            r@ == "Random"@,
    {
        "Random"
    }

    /// Handles a key: up and down move the selection (wrapping around),
    /// enter opens the selected kind's random item. Returns the action to send.
    pub fn handle_key_event(&mut self, key: KeyEvent) -> (r: Option<Action>)
        ensures
            final(self).props == old(self).props,
            match key.code {
                KeyCode::Up => final(self).selected == Some(
                    spec_select_up(old(self).selected, RANDOM_TYPE_COUNT),
                ) && r is None,
                KeyCode::Down => final(self).selected == Some(
                    spec_select_down(old(self).selected, RANDOM_TYPE_COUNT),
                ) && r is None,
                KeyCode::Enter => final(self).selected == old(self).selected && r == spec_enter_action(
                    old(self).selected,
                    old(self).props,
                ),
                _ => final(self).selected == old(self).selected && r is None,
            },
    {
        match key.code {
            KeyCode::Up => {
                self.selected = Some(select_up(self.selected, RANDOM_TYPE_COUNT));
                None
            },
            KeyCode::Down => {
                self.selected = Some(select_down(self.selected, RANDOM_TYPE_COUNT));
                None
            },
            KeyCode::Enter => match (self.selected, &self.props) {
                (Some(s), Some(props)) => match random_type(s) {
                    Some(t) => t.to_action(props),
                    None => None,
                },
                _ => None,
            },
            _ => None,
        }
    }

    /// Handles a mouse event in the view's `area`: a left click on a line
    /// inside the border selects it, opens it if it was selected already, or
    /// clears the selection below the list; scrolling moves the selection.
    pub fn handle_mouse_event(&mut self, mouse: MouseEvent, area: Rect) -> (r: Option<Action>)
        ensures
            final(self).props == old(self).props,
            ({
                let pos = Position { x: mouse.column, y: mouse.row };
                let inner = area.spec_inner(Margin { horizontal: 1, vertical: 1 });
                let sel = old(self).selected;
                match mouse.kind {
                    MouseEventKind::Down(MouseButton::Left) => if inner.spec_contains(pos) {
                        let line = (pos.y - inner.y) as usize;
                        if sel == Some(line) {
                            final(self).selected == sel && r == spec_enter_action(sel, old(self).props)
                        } else if line < RANDOM_TYPE_COUNT {
                            final(self).selected == Some(line) && r is None
                        } else {
                            final(self).selected is None && r is None
                        }
                    } else {
                        final(self).selected == sel && r is None
                    },
                    MouseEventKind::ScrollDown => final(self).selected == Some(
                        spec_select_down(sel, RANDOM_TYPE_COUNT),
                    ) && r is None,
                    MouseEventKind::ScrollUp => final(self).selected == Some(
                        spec_select_up(sel, RANDOM_TYPE_COUNT),
                    ) && r is None,
                    _ => final(self).selected == sel && r is None,
                }
            }),
    {
        let pos = Position::new(mouse.column, mouse.row);
        let inner = area.inner(Margin::new(1, 1));
        match mouse.kind {
            MouseEventKind::Down(MouseButton::Left) => {
                if inner.contains(pos) {
                    let line = (pos.y - inner.y) as usize;
                    if self.selected == Some(line) {
                        self.handle_key_event(KeyEvent::from(KeyCode::Enter))
                    } else if line < RANDOM_TYPE_COUNT {
                        self.selected = Some(line);
                        None
                    } else {
                        self.selected = None;
                        None
                    }
                } else {
                    None
                }
            },
            MouseEventKind::ScrollDown => self.handle_key_event(KeyEvent::from(KeyCode::Down)),
            MouseEventKind::ScrollUp => self.handle_key_event(KeyEvent::from(KeyCode::Up)),
            _ => None,
        }
    }
}

} // verus!
