//! The sidebar: moves between the views of the content area and starts
//! library maintenance.
use vstd::prelude::*;

use super::list_nav::{select_down, select_up, spec_select_down, spec_select_up};
use crate::state::action::{Action, ComponentAction, LibraryAction, PopupAction, ViewAction};
use crate::state::component::ActiveComponent;
use crate::ui::components::content_view::ActiveView;
use crate::ui::events::{KeyCode, KeyEvent, MouseButton, MouseEvent, MouseEventKind};
use crate::ui::layout::{Margin, Position, Rect};
use crate::ui::widgets::popups::PopupType;

verus! {

/// An entry of the sidebar.
#[derive(Debug, Clone, Copy, PartialEq, Eq, Structural)]
pub enum SidebarItem {
    Search,
    Songs,
    Artists,
    Albums,
    Playlists,
    DynamicPlaylists,
    Collections,
    Random,
    /// An empty line between the views and the library actions.
    Space,
    LibraryRescan,
    LibraryAnalyze,
    LibraryRecluster,
}

/// The action an entry stands for.
pub open spec fn spec_item_action(item: SidebarItem) -> Option<Action> {
    match item {
        SidebarItem::Search => Some(Action::ActiveView(ViewAction::Open(ActiveView::Search))),
        SidebarItem::Songs => Some(Action::ActiveView(ViewAction::Open(ActiveView::Songs))),
        SidebarItem::Artists => Some(Action::ActiveView(ViewAction::Open(ActiveView::Artists))),
        SidebarItem::Albums => Some(Action::ActiveView(ViewAction::Open(ActiveView::Albums))),
        SidebarItem::Playlists => Some(Action::ActiveView(ViewAction::Open(ActiveView::Playlists))),
        SidebarItem::DynamicPlaylists => Some(
            Action::ActiveView(ViewAction::Open(ActiveView::DynamicPlaylists)),
        ),
        SidebarItem::Collections => Some(
            Action::ActiveView(ViewAction::Open(ActiveView::Collections)),
        ),
        SidebarItem::Random => Some(Action::ActiveView(ViewAction::Open(ActiveView::Random))),
        SidebarItem::Space => None,
        SidebarItem::LibraryRescan => Some(Action::Library(LibraryAction::Rescan)),
        SidebarItem::LibraryAnalyze => Some(Action::Library(LibraryAction::Analyze)),
        SidebarItem::LibraryRecluster => Some(Action::Library(LibraryAction::Recluster)),
    }
}

/// The label of an entry.
pub open spec fn spec_item_label(item: SidebarItem) -> Seq<char> {
    match item {
        SidebarItem::Search => "Search"@,
        SidebarItem::Songs => "Songs"@,
        SidebarItem::Artists => "Artists"@,
        SidebarItem::Albums => "Albums"@,
        SidebarItem::Playlists => "Playlists"@,
        SidebarItem::DynamicPlaylists => "Dynamic"@,
        SidebarItem::Collections => "Collections"@,
        SidebarItem::Random => "Random"@,
        SidebarItem::Space => ""@,
        SidebarItem::LibraryRescan => "Library Rescan"@,
        SidebarItem::LibraryAnalyze => "Library Analyze"@,
        SidebarItem::LibraryRecluster => "Library Recluster"@,
    }
}

impl SidebarItem {
    /// The action the entry stands for (none for the spacer).
    pub fn to_action(&self) -> (r: Option<Action>)
        ensures
            r == spec_item_action(*self),
    {
        match self {
            SidebarItem::Search => Some(Action::ActiveView(ViewAction::Open(ActiveView::Search))),
            SidebarItem::Songs => Some(Action::ActiveView(ViewAction::Open(ActiveView::Songs))),
            SidebarItem::Artists => Some(Action::ActiveView(ViewAction::Open(ActiveView::Artists))),
            SidebarItem::Albums => Some(Action::ActiveView(ViewAction::Open(ActiveView::Albums))),
            SidebarItem::Playlists => Some(
                Action::ActiveView(ViewAction::Open(ActiveView::Playlists)),
            ),
            SidebarItem::DynamicPlaylists => Some(
                Action::ActiveView(ViewAction::Open(ActiveView::DynamicPlaylists)),
            ),
            SidebarItem::Collections => Some(
                Action::ActiveView(ViewAction::Open(ActiveView::Collections)),
            ),
            SidebarItem::Random => Some(Action::ActiveView(ViewAction::Open(ActiveView::Random))),
            SidebarItem::Space => None,
            SidebarItem::LibraryRescan => Some(Action::Library(LibraryAction::Rescan)),
            SidebarItem::LibraryAnalyze => Some(Action::Library(LibraryAction::Analyze)),
            SidebarItem::LibraryRecluster => Some(Action::Library(LibraryAction::Recluster)),
        }
    }

    /// The label of the entry.
    pub fn to_string(&self) -> (r: String)
        ensures
            r@ == spec_item_label(*self),
    {
        match self {
            SidebarItem::Search => "Search".to_owned(),
            SidebarItem::Songs => "Songs".to_owned(),
            SidebarItem::Artists => "Artists".to_owned(),
            SidebarItem::Albums => "Albums".to_owned(),
            SidebarItem::Playlists => "Playlists".to_owned(),
            SidebarItem::DynamicPlaylists => "Dynamic".to_owned(),
            SidebarItem::Collections => "Collections".to_owned(),
            SidebarItem::Random => "Random".to_owned(),
            SidebarItem::Space => "".to_owned(),
            SidebarItem::LibraryRescan => "Library Rescan".to_owned(),
            SidebarItem::LibraryAnalyze => "Library Analyze".to_owned(),
            SidebarItem::LibraryRecluster => "Library Recluster".to_owned(),
        }
    }
}

/// The number of sidebar lines.
pub const SIDEBAR_LEN: usize = 13;

/// The sidebar line at position `i`, top to bottom.
pub open spec fn spec_sidebar_item(i: int) -> SidebarItem {
    if i == 0 {
        SidebarItem::Search
    } else if i == 1 {
        SidebarItem::Space
    } else if i == 2 {
        SidebarItem::Songs
    } else if i == 3 {
        SidebarItem::Artists
    } else if i == 4 {
        SidebarItem::Albums
    } else if i == 5 {
        SidebarItem::Playlists
    } else if i == 6 {
        SidebarItem::DynamicPlaylists
    } else if i == 7 {
        SidebarItem::Collections
    } else if i == 8 {
        SidebarItem::Random
    } else if i == 9 {
        SidebarItem::Space
    } else if i == 10 {
        SidebarItem::LibraryRescan
    } else if i == 11 {
        SidebarItem::LibraryAnalyze
    } else {
        SidebarItem::LibraryRecluster
    }
}

/// The sidebar line at position `i`, top to bottom.
pub fn sidebar_item(i: usize) -> (r: SidebarItem)
    requires
        i < SIDEBAR_LEN,
    ensures
        r == spec_sidebar_item(i as int),
{
    match i {
        0 => SidebarItem::Search,
        1 => SidebarItem::Space,
        2 => SidebarItem::Songs,
        3 => SidebarItem::Artists,
        4 => SidebarItem::Albums,
        5 => SidebarItem::Playlists,
        6 => SidebarItem::DynamicPlaylists,
        7 => SidebarItem::Collections,
        8 => SidebarItem::Random,
        9 => SidebarItem::Space,
        10 => SidebarItem::LibraryRescan,
        11 => SidebarItem::LibraryAnalyze,
        _ => SidebarItem::LibraryRecluster,
    }
}

/// Whether choosing the entry starts a library job, which is announced
/// with a notification.
pub open spec fn is_library_job(item: SidebarItem) -> bool {
    item is LibraryAnalyze || item is LibraryRescan || item is LibraryRecluster
}

/// The actions that choosing `item` sends, in order: for a library job a
/// notification " <label> Started " first, then the entry's action (nothing
/// for the spacer).
pub open spec fn spec_choose_actions(item: SidebarItem, r: Seq<Action>) -> bool {
    match spec_item_action(item) {
        None => r.len() == 0,
        Some(action) => if is_library_job(item) {
            &&& r.len() == 2
            &&& r[0] matches Action::Popup(PopupAction::Open(PopupType::Notification(text)))
                && text@ == " "@ + spec_item_label(item) + " Started "@
            &&& r[1] == action
        } else {
            r == seq![action]
        },
    }
}

/// The sidebar.
#[derive(Debug, Clone, Copy)]
pub struct Sidebar {
    selected: Option<usize>,
}

impl Sidebar {
    #[verifier::type_invariant]
    spec fn wf(self) -> bool {
        self.selected matches Some(s) ==> s < SIDEBAR_LEN
    }

    /// The selected line.
    pub closed spec fn spec_selected(self) -> Option<usize> {
        self.selected
    }

    /// A sidebar with nothing selected.
    pub fn new() -> (r: Self)
        ensures
            r.spec_selected() is None,
    {
        Sidebar { selected: None }
    }

    /// The selected line.
    pub fn selected(&self) -> (r: Option<usize>)
        ensures
            r == self.spec_selected(),
            r matches Some(s) ==> s < SIDEBAR_LEN,
    {
        proof {
            use_type_invariant(self);
        }
        self.selected
    }

    pub fn name(&self) -> (r: &'static str)
        ensures
            r@ == "Sidebar"@,
    {
        "Sidebar"
    }

    /// The actions that choosing the entry at `index` sends.
    fn choose_entry(index: usize) -> (r: Vec<Action>)
        requires
            index < SIDEBAR_LEN,
        ensures
            spec_choose_actions(spec_sidebar_item(index as int), r@),
    {
        let item = sidebar_item(index);
        let mut out: Vec<Action> = Vec::new();
        if let Some(action) = item.to_action() {
            match item {
                SidebarItem::LibraryAnalyze | SidebarItem::LibraryRescan
                | SidebarItem::LibraryRecluster => {
                    let mut text = " ".to_owned();
                    let label = item.to_string();
                    text.append(label.as_str());
                    text.append(" Started ");
                    out.push(Action::Popup(PopupAction::Open(PopupType::Notification(text))));
                },
                _ => {},
            }
            out.push(action);
        }
        proof {
            if out@.len() == 1 {
                assert(out@ =~= seq![out@[0]]);
            }
        }
        out
    }

    /// Handles a key: up and down move the selection (wrapping around),
    /// enter chooses the selected entry. Returns the actions to send.
    pub fn handle_key_event(&mut self, key: KeyEvent) -> (r: Vec<Action>)
        ensures
            match key.code {
                KeyCode::Up => final(self).spec_selected() == Some(
                    spec_select_up(old(self).spec_selected(), SIDEBAR_LEN),
                ) && r@.len() == 0,
                KeyCode::Down => final(self).spec_selected() == Some(
                    spec_select_down(old(self).spec_selected(), SIDEBAR_LEN),
                ) && r@.len() == 0,
                KeyCode::Enter => final(self).spec_selected() == old(self).spec_selected() && match old(
                    self,
                ).spec_selected() {
                    Some(s) => spec_choose_actions(spec_sidebar_item(s as int), r@),
                    None => r@.len() == 0,
                },
                _ => final(self).spec_selected() == old(self).spec_selected() && r@.len() == 0,
            },
    {
        proof {
            use_type_invariant(&*self);
        }
        match key.code {
            KeyCode::Up => {
                self.selected = Some(select_up(self.selected, SIDEBAR_LEN));
                Vec::new()
            },
            KeyCode::Down => {
                self.selected = Some(select_down(self.selected, SIDEBAR_LEN));
                Vec::new()
            },
            KeyCode::Enter => {
                match self.selected {
                    Some(s) => Self::choose_entry(s),
                    None => Vec::new(),
                }
            },
            _ => Vec::new(),
        }
    }

    /// Handles a mouse event in the sidebar's `area`: a left click in the
    /// area focuses the sidebar; a left click on a line inside the border
    /// selects it, or chooses it if it was selected already; scrolling moves
    /// the selection. Returns the actions to send.
    pub fn handle_mouse_event(&mut self, mouse: MouseEvent, area: Rect) -> (r: Vec<Action>)
        ensures
            ({
                let pos = Position { x: mouse.column, y: mouse.row };
                let focus = mouse.kind == MouseEventKind::Down(MouseButton::Left) && area.spec_contains(
                    pos,
                );
                let inner = area.spec_inner(Margin { horizontal: 1, vertical: 1 });
                let sel = old(self).spec_selected();
                let rest = if focus {
                    r@.drop_first()
                } else {
                    r@
                };
                &&& focus ==> r@.len() > 0 && r@[0] == Action::ActiveComponent(
                    ComponentAction::Focus(ActiveComponent::Sidebar),
                )
                &&& match mouse.kind {
                    MouseEventKind::Down(MouseButton::Left) => if inner.spec_contains(pos) {
                        let line = (pos.y - inner.y) as usize;
                        if sel == Some(line) {
                            final(self).spec_selected() == sel && spec_choose_actions(
                                spec_sidebar_item(line as int),
                                rest,
                            )
                        } else if line < SIDEBAR_LEN {
                            final(self).spec_selected() == Some(line) && rest.len() == 0
                        } else {
                            final(self).spec_selected() == sel && rest.len() == 0
                        }
                    } else {
                        final(self).spec_selected() == sel && rest.len() == 0
                    },
                    MouseEventKind::ScrollDown => final(self).spec_selected() == Some(
                        spec_select_down(sel, SIDEBAR_LEN),
                    ) && rest.len() == 0,
                    MouseEventKind::ScrollUp => final(self).spec_selected() == Some(
                        spec_select_up(sel, SIDEBAR_LEN),
                    ) && rest.len() == 0,
                    _ => final(self).spec_selected() == sel && rest.len() == 0,
                }
            }),
    {
        proof {
            use_type_invariant(&*self);
        }
        let pos = Position::new(mouse.column, mouse.row);
        let mut out: Vec<Action> = Vec::new();
        let focus = match mouse.kind {
            MouseEventKind::Down(MouseButton::Left) => area.contains(pos),
            _ => false,
        };
        if focus {
            out.push(Action::ActiveComponent(ComponentAction::Focus(ActiveComponent::Sidebar)));
        }
        let ghost prefix = out@;
        let inner = area.inner(Margin::new(1, 1));
        let mut more: Vec<Action> = match mouse.kind {
            MouseEventKind::Down(MouseButton::Left) => {
                if inner.contains(pos) {
                    let line = (pos.y - inner.y) as usize;
                    if self.selected == Some(line) {
                        Self::choose_entry(line)
                    } else if line < SIDEBAR_LEN {
                        self.selected = Some(line);
                        Vec::new()
                    } else {
                        Vec::new()
                    }
                } else {
                    Vec::new()
                }
            },
            MouseEventKind::ScrollDown => self.handle_key_event(KeyEvent::from(KeyCode::Down)),
            MouseEventKind::ScrollUp => self.handle_key_event(KeyEvent::from(KeyCode::Up)),
            _ => Vec::new(),
        };
        let ghost more_v = more@;
        out.append(&mut more);
        proof {
            if focus {
                assert(out@.drop_first() =~= more_v);
            } else {
                assert(out@ =~= more_v);
            }
        }
        out
    }
}

} // verus!
