//! The application: it hands each key and click to the popup, if one is
//! open, or else to the focused component or the one under the mouse, and
//! takes the global keys itself.
use vstd::prelude::*;

use crate::state::action::{Action, ComponentAction, GeneralAction, LibraryAction};
use crate::state::component::ActiveComponent;
use crate::ui::events::{KeyCode, KeyEvent, KeyEventKind, MouseEvent};
use crate::ui::layout::{
    Constraint, Margin, Position, Rect, lemma_inside_contains, lemma_layout_parts, spec_inside, spec_layout_of, spec_part_of,
    split2, split3,
};

verus! {

/// Where a key goes.
#[derive(Debug, Clone, PartialEq)]
pub enum AppKey {
    /// Nowhere.
    Ignore,
    /// To the open popup.
    Popup,
    /// It is a global key: send the action.
    Send(Action),
    /// To the focused component.
    Component(ActiveComponent),
}

/// Where a mouse event goes.
#[derive(Debug, Clone, Copy, PartialEq, Eq, Structural)]
pub enum AppMouse {
    /// Nowhere.
    Ignore,
    /// To the open popup.
    Popup,
    /// To the component under the mouse, drawn in the area.
    Component(ActiveComponent, Rect),
}

/// The parts of the screen the components are drawn in.
#[derive(Debug, Clone, Copy, PartialEq, Eq, Structural)]
pub struct Areas {
    pub control_panel: Rect,
    pub sidebar: Rect,
    pub content_view: Rect,
    pub queuebar: Rect,
}

/// The rows the application's area is cut into: the main views, at least
/// 10 lines high, and the control panel, 4 lines high.
pub open spec fn spec_row_constraints() -> Seq<Constraint> {
    seq![Constraint::Min(10), Constraint::Length(4)]
}

/// The columns the main views' row is cut into: the sidebar, 19 columns
/// wide, the content view, which takes what is left, and the queue bar, at
/// least 25 columns wide.
pub open spec fn spec_column_constraints() -> Seq<Constraint> {
    seq![Constraint::Length(19), Constraint::Fill(4), Constraint::Min(25)]
}

/// Whether `areas` are the parts the layout cuts `area` into, the row of
/// main views being `main_views`: that row above the control panel
/// ([`spec_row_constraints`]), and in that row the sidebar, the content
/// view and the queue bar, left to right ([`spec_column_constraints`]).
pub open spec fn spec_areas_with(areas: Areas, area: Rect, main_views: Rect) -> bool {
    &&& spec_layout_of(seq![main_views, areas.control_panel], area, true, spec_row_constraints())
    &&& spec_layout_of(
        seq![areas.sidebar, areas.content_view, areas.queuebar],
        main_views,
        false,
        spec_column_constraints(),
    )
}

/// Whether `areas` are the parts the layout cuts `area` into (see
/// [`spec_areas_with`]).
pub open spec fn spec_areas_of(areas: Areas, area: Rect) -> bool {
    exists|main_views: Rect| #[trigger] spec_areas_with(areas, area, main_views)
}

/// Cuts the area inside the application's border into the components'
/// parts with the terminal library's layout (see [`spec_areas_of`]).
pub fn split_area(area: Rect) -> (r: Areas)
    ensures
        spec_areas_of(r, area),
{
    let (main_views, control_panel) = split2(area, true, Constraint::Min(10), Constraint::Length(4));
    let (sidebar, content_view, queuebar) = split3(
        main_views,
        false,
        Constraint::Length(19),
        Constraint::Fill(4),
        Constraint::Min(25),
    );
    let r = Areas { control_panel, sidebar, content_view, queuebar };
    assert(spec_areas_with(r, area, main_views));
    r
}

/// The application's routing state: the focused component and whether a
/// popup is open.
#[derive(Debug, Clone, Copy, PartialEq, Eq, Structural)]
pub struct App {
    pub active_component: ActiveComponent,
    pub popup_open: bool,
}

impl App {
    /// The application with the component focused and no popup.
    pub fn new(active_component: ActiveComponent) -> (r: Self)
        ensures
            r == (App { active_component, popup_open: false }),
    {
        App { active_component, popup_open: false }
    }

    /// The application with another component focused.
    pub fn move_with_component(self, active_component: ActiveComponent) -> (r: Self)
        ensures
            r == (App { active_component, popup_open: self.popup_open }),
    {
        App { active_component, popup_open: self.popup_open }
    }

    /// The application with a popup opened or closed.
    pub fn move_with_popup(self, popup_open: bool) -> (r: Self)
        ensures
            r == (App { active_component: self.active_component, popup_open }),
    {
        App { active_component: self.active_component, popup_open }
    }

    /// Where a key goes: only presses count; an open popup takes them all;
    /// else escape quits, tab and back-tab move the focus, F5 refreshes the
    /// library, and other keys go to the focused component.
    pub fn handle_key_event(&self, key: KeyEvent) -> (r: AppKey)
        ensures
            r == if key.kind != KeyEventKind::Press {
                AppKey::Ignore
            } else if self.popup_open {
                AppKey::Popup
            } else {
                match key.code {
                    KeyCode::Esc => AppKey::Send(Action::General(GeneralAction::Exit)),
                    KeyCode::Tab => AppKey::Send(Action::ActiveComponent(ComponentAction::Next)),
                    KeyCode::BackTab => AppKey::Send(Action::ActiveComponent(ComponentAction::Previous)),
                    KeyCode::F(5) => AppKey::Send(Action::Library(LibraryAction::Update)),
                    _ => AppKey::Component(self.active_component),
                }
            },
    {
        if key.kind != KeyEventKind::Press {
            return AppKey::Ignore;
        }
        if self.popup_open {
            return AppKey::Popup;
        }
        match key.code {
            KeyCode::Esc => AppKey::Send(Action::General(GeneralAction::Exit)),
            KeyCode::Tab => AppKey::Send(Action::ActiveComponent(ComponentAction::Next)),
            KeyCode::BackTab => AppKey::Send(Action::ActiveComponent(ComponentAction::Previous)),
            KeyCode::F(5) => AppKey::Send(Action::Library(LibraryAction::Update)),
            _ => AppKey::Component(self.active_component),
        }
    }

    /// Where a mouse event goes: an open popup takes them all; else the
    /// component under the mouse, inside the application's border, looked
    /// for in the order control panel, sidebar, content view, queue bar (see
    /// [`Self::mouse_target`]), the parts being those the layout gives
    /// ([`split_area`]), whatever they are. So an event outside the border
    /// goes nowhere, and one that goes to a component lies in the area it is
    /// handed, which lies inside the border.
    pub fn handle_mouse_event(&self, mouse: MouseEvent, area: Rect) -> (r: AppMouse)
        ensures
            exists|areas: Areas|
                spec_areas_of(areas, area.spec_inner(Margin { horizontal: 1, vertical: 1 })) && r
                    == #[trigger] self.spec_mouse_target(areas, Position { x: mouse.column, y: mouse.row }),
            (r == AppMouse::Popup) == self.popup_open,
            !self.popup_open && !area.spec_inner(Margin { horizontal: 1, vertical: 1 }).spec_contains(
                Position { x: mouse.column, y: mouse.row },
            ) ==> r == AppMouse::Ignore,
            r matches AppMouse::Component(_, part) ==> part.spec_contains(Position { x: mouse.column, y: mouse.row })
                && spec_inside(part, area.spec_inner(Margin { horizontal: 1, vertical: 1 })),
    {
        let p = Position::new(mouse.column, mouse.row);
        let inner = area.inner(Margin::new(1, 1));
        let areas = split_area(inner);
        let r = self.mouse_target(areas, p);
        assert(r == self.spec_mouse_target(areas, Position { x: mouse.column, y: mouse.row }));
        proof {
            let main_views = choose|main_views: Rect| #[trigger] spec_areas_with(areas, inner, main_views);
            let rows = seq![main_views, areas.control_panel];
            let cols = seq![areas.sidebar, areas.content_view, areas.queuebar];
            lemma_layout_parts(rows, inner, true, spec_row_constraints());
            lemma_layout_parts(cols, main_views, false, spec_column_constraints());
            assert(spec_part_of(rows[0], inner, true));
            assert(spec_part_of(rows[1], inner, true));
            assert(spec_part_of(cols[0], main_views, false));
            assert(spec_part_of(cols[1], main_views, false));
            assert(spec_part_of(cols[2], main_views, false));
            if areas.sidebar.spec_contains(p) {
                lemma_inside_contains(areas.sidebar, main_views, p);
            }
            if areas.content_view.spec_contains(p) {
                lemma_inside_contains(areas.content_view, main_views, p);
            }
            if areas.queuebar.spec_contains(p) {
                lemma_inside_contains(areas.queuebar, main_views, p);
            }
            if areas.control_panel.spec_contains(p) {
                lemma_inside_contains(areas.control_panel, inner, p);
            }
        }
        r
    }

    /// Where a mouse event at `p` goes when the screen is cut into `areas`.
    pub open spec fn spec_mouse_target(&self, areas: Areas, p: Position) -> AppMouse {
        if self.popup_open {
            AppMouse::Popup
        } else if areas.control_panel.spec_contains(p) {
            AppMouse::Component(ActiveComponent::ControlPanel, areas.control_panel)
        } else if areas.sidebar.spec_contains(p) {
            AppMouse::Component(ActiveComponent::Sidebar, areas.sidebar)
        } else if areas.content_view.spec_contains(p) {
            AppMouse::Component(ActiveComponent::ContentView, areas.content_view)
        } else if areas.queuebar.spec_contains(p) {
            AppMouse::Component(ActiveComponent::QueueBar, areas.queuebar)
        } else {
            AppMouse::Ignore
        }
    }

    /// Where a mouse event at `p` goes when the screen is cut into `areas`
    /// (see [`Self::spec_mouse_target`]).
    pub fn mouse_target(&self, areas: Areas, p: Position) -> (r: AppMouse)
        ensures
            r == self.spec_mouse_target(areas, p),
    {
        if self.popup_open {
            AppMouse::Popup
        } else if areas.control_panel.contains(p) {
            AppMouse::Component(ActiveComponent::ControlPanel, areas.control_panel)
        } else if areas.sidebar.contains(p) {
            AppMouse::Component(ActiveComponent::Sidebar, areas.sidebar)
        } else if areas.content_view.contains(p) {
            AppMouse::Component(ActiveComponent::ContentView, areas.content_view)
        } else if areas.queuebar.contains(p) {
            AppMouse::Component(ActiveComponent::QueueBar, areas.queuebar)
        } else {
            AppMouse::Ignore
        }
    }
}

} // verus!
