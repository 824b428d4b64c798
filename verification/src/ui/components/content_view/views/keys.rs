//! What the keys do in the views that show a tree of items: move in the
//! tree, open the selected item, or act on the checked items.
use vstd::prelude::*;

use super::checktree_utils::{
    TreeMouse, construct_add_to_playlist_action, construct_add_to_queue_action,
    construct_start_radio_action,
};
use crate::state::action::{Action, AudioAction, PopupAction, QueueAction, ViewAction};
use crate::state::library::RecordId;
use crate::ui::components::content_view::{ActiveView, spec_view_of};
use crate::ui::events::KeyCode;
use crate::ui::widgets::popups::PopupType;

verus! {

/// An operation on a view's tree.
#[derive(Debug, Clone, Copy, PartialEq, Eq, Structural)]
pub enum TreeCommand {
    /// Select the item above.
    Up,
    /// Select the item below.
    Down,
    /// Close the selected node, or select its parent.
    Left,
    /// Open the selected node.
    Right,
    /// Toggle the check mark of the selected item.
    ToggleCheck,
    /// Select the item at this position of the visible list.
    SelectIndex(usize),
    /// Toggle the selected node open or closed and, if it toggled, open the
    /// selected thing's view (see [`open_action`]).
    OpenSelected,
    /// Scroll so that the selected item is visible.
    ScrollSelectedIntoView,
    /// Clear the selection, the check marks and the open nodes.
    Reset,
}

/// The position ten lines up (stopping at the first line), or `last` when
/// nothing is selected.
pub open spec fn spec_page_up(current: Option<usize>, last: usize) -> usize {
    match current {
        Some(c) => if c < 10 {
            0
        } else {
            (c - 10) as usize
        },
        None => last,
    }
}

/// The position ten lines down (capped at `usize::MAX`), or the first line
/// when nothing is selected.
pub open spec fn spec_page_down(current: Option<usize>) -> usize {
    match current {
        Some(c) => if c + 10 > usize::MAX {
            usize::MAX
        } else {
            (c + 10) as usize
        },
        None => 0,
    }
}

/// The position ten lines up, or `last` when nothing is selected.
pub fn page_up(current: Option<usize>, last: usize) -> (r: usize)
    ensures
        r == spec_page_up(current, last),
{
    match current {
        Some(c) => if c < 10 {
            0
        } else {
            c - 10
        },
        None => last,
    }
}

/// The position ten lines down, or the first line when nothing is selected.
pub fn page_down(current: Option<usize>) -> (r: usize)
    ensures
        r == spec_page_down(current),
{
    match current {
        Some(c) => if c > usize::MAX - 10 {
            usize::MAX
        } else {
            c + 10
        },
        None => 0,
    }
}

/// The action after enter: opening the selected thing's view, if the
/// selected node toggled and a thing is selected.
pub fn open_action(toggled: bool, selected: Option<RecordId>) -> (r: Option<Action>)
    ensures
        r == if toggled && selected is Some {
            Some(Action::ActiveView(ViewAction::Open(spec_view_of(selected->0))))
        } else {
            None
        },
{
    if toggled {
        match selected {
            Some(thing) => Some(Action::ActiveView(ViewAction::Open(ActiveView::from(thing)))),
            None => None,
        }
    } else {
        None
    }
}

/// What a key does in a view.
#[derive(Debug, Clone, PartialEq)]
pub enum KeyOutcome {
    /// An operation on the tree.
    Tree(TreeCommand),
    /// An action to send.
    Send(Action),
    /// Sort by the next sort mode.
    SortNext,
    /// Sort by the previous sort mode.
    SortPrev,
    /// Reset the tree, then send the action if there is one.
    ResetTree(Option<Action>),
    /// Nothing.
    Ignore,
}

/// What a mouse event does in a view.
#[derive(Debug, Clone, Copy, PartialEq, Eq, Structural)]
pub enum MouseOutcome {
    /// Hand the event to the tree; the flag swaps what a click and a
    /// control-click do (see `spec_click_opens`).
    Tree(TreeMouse, bool),
    /// Nothing.
    Ignore,
}

/// The last line of a list of `len` lines, or the first when it is empty.
pub open spec fn spec_last_line(len: nat) -> usize {
    if len > 0 {
        (len - 1) as usize
    } else {
        0
    }
}

/// The tree operation of the navigation keys that every tree view shares.
pub open spec fn spec_nav_command(code: KeyCode) -> Option<TreeCommand> {
    match code {
        KeyCode::Up => Some(TreeCommand::Up),
        KeyCode::Down => Some(TreeCommand::Down),
        KeyCode::Left => Some(TreeCommand::Left),
        KeyCode::Right => Some(TreeCommand::Right),
        KeyCode::Char(' ') => Some(TreeCommand::ToggleCheck),
        KeyCode::Enter => Some(TreeCommand::OpenSelected),
        _ => None,
    }
}

fn nav_command(code: KeyCode) -> (r: Option<TreeCommand>)
    ensures
        r == spec_nav_command(code),
{
    match code {
        KeyCode::Up => Some(TreeCommand::Up),
        KeyCode::Down => Some(TreeCommand::Down),
        KeyCode::Left => Some(TreeCommand::Left),
        KeyCode::Right => Some(TreeCommand::Right),
        KeyCode::Char(' ') => Some(TreeCommand::ToggleCheck),
        KeyCode::Enter => Some(TreeCommand::OpenSelected),
        _ => None,
    }
}

/// What a key does in a view of one item (an album, artist, song, ...):
/// navigation keys act on the tree; `q`, `r` and `p` add the checked things
/// to the queue, start a radio from them, or add them to a playlist, acting
/// on the item itself (`current`) when nothing is checked, and doing
/// nothing when there is no item either; other keys are left to the item's
/// own handling (`None`).
pub open spec fn spec_item_view_key(code: KeyCode, checked: Vec<RecordId>, current: Option<RecordId>, r: Option<KeyOutcome>) -> bool {
    if spec_nav_command(code) is Some {
        r == Some(KeyOutcome::Tree(spec_nav_command(code)->0))
    } else {
        match code {
            KeyCode::Char('q') | KeyCode::Char('r') | KeyCode::Char('p') => r is Some && (
            checked@.len() > 0 ==> r == Some(
                KeyOutcome::Send(
                    match code {
                        KeyCode::Char('q') => Action::Audio(
                            AudioAction::Queue(QueueAction::Add(checked)),
                        ),
                        KeyCode::Char('r') => Action::ActiveView(
                            ViewAction::Open(ActiveView::Radio(checked)),
                        ),
                        _ => Action::Popup(PopupAction::Open(PopupType::Playlist(checked))),
                    },
                ),
            )) && (checked@.len() == 0 ==> match current {
                Some(id) => match r->0 {
                    KeyOutcome::Send(Action::Audio(AudioAction::Queue(QueueAction::Add(v)))) => code
                        == KeyCode::Char('q') && v@ == seq![id],
                    KeyOutcome::Send(Action::ActiveView(ViewAction::Open(ActiveView::Radio(v)))) => code
                        == KeyCode::Char('r') && v@ == seq![id],
                    KeyOutcome::Send(Action::Popup(PopupAction::Open(PopupType::Playlist(v)))) => code
                        == KeyCode::Char('p') && v@ == seq![id],
                    _ => false,
                },
                None => r == Some(KeyOutcome::Ignore),
            }),
            _ => r is None,
        }
    }
}

/// What a key does in a view of one item (see [`spec_item_view_key`]).
pub fn item_view_key(code: KeyCode, checked: Vec<RecordId>, current: Option<RecordId>) -> (r: Option<KeyOutcome>)
    ensures
        spec_item_view_key(code, checked, current, r),
{
    if let Some(cmd) = nav_command(code) {
        return Some(KeyOutcome::Tree(cmd));
    }
    let action = match code {
        KeyCode::Char('q') => construct_add_to_queue_action(checked, current.as_ref()),
        KeyCode::Char('r') => construct_start_radio_action(checked, current.as_ref()),
        KeyCode::Char('p') => construct_add_to_playlist_action(checked, current.as_ref()),
        _ => {
            return None;
        },
    };
    match action {
        Some(a) => Some(KeyOutcome::Send(a)),
        None => Some(KeyOutcome::Ignore),
    }
}

/// What a key does in a library view that lists items by a sort mode
/// (`last` is the line that page up selects when nothing is selected):
/// navigation keys and page up/down act on the tree; `q`, `r`
/// and `p` act on the checked things, and do nothing when none is checked;
/// `s` and `S` change the sort mode.
pub open spec fn spec_list_view_key(code: KeyCode, last: usize, current: Option<usize>, checked: Vec<RecordId>) -> KeyOutcome {
    match code {
        KeyCode::PageUp => KeyOutcome::Tree(TreeCommand::SelectIndex(spec_page_up(current, last))),
        KeyCode::PageDown => KeyOutcome::Tree(TreeCommand::SelectIndex(spec_page_down(current))),
        KeyCode::Char('q') => if checked@.len() > 0 {
            KeyOutcome::Send(Action::Audio(AudioAction::Queue(QueueAction::Add(checked))))
        } else {
            KeyOutcome::Ignore
        },
        KeyCode::Char('r') => if checked@.len() > 0 {
            KeyOutcome::Send(Action::ActiveView(ViewAction::Open(ActiveView::Radio(checked))))
        } else {
            KeyOutcome::Ignore
        },
        KeyCode::Char('p') => if checked@.len() > 0 {
            KeyOutcome::Send(Action::Popup(PopupAction::Open(PopupType::Playlist(checked))))
        } else {
            KeyOutcome::Ignore
        },
        KeyCode::Char('s') => KeyOutcome::SortNext,
        KeyCode::Char('S') => KeyOutcome::SortPrev,
        _ => match spec_nav_command(code) {
            Some(cmd) => KeyOutcome::Tree(cmd),
            None => KeyOutcome::Ignore,
        },
    }
}

/// What a key does in a library view that lists items by a sort mode (see
/// [`spec_list_view_key`]).
pub fn list_view_key(code: KeyCode, last: usize, current: Option<usize>, checked: Vec<RecordId>) -> (r: KeyOutcome)
    ensures
        r == spec_list_view_key(code, last, current, checked),
{
    match code {
        KeyCode::PageUp => KeyOutcome::Tree(TreeCommand::SelectIndex(page_up(current, last))),
        KeyCode::PageDown => KeyOutcome::Tree(TreeCommand::SelectIndex(page_down(current))),
        KeyCode::Char('q') => if checked.len() > 0 {
            KeyOutcome::Send(Action::Audio(AudioAction::Queue(QueueAction::Add(checked))))
        } else {
            KeyOutcome::Ignore
        },
        KeyCode::Char('r') => if checked.len() > 0 {
            KeyOutcome::Send(Action::ActiveView(ViewAction::Open(ActiveView::Radio(checked))))
        } else {
            KeyOutcome::Ignore
        },
        KeyCode::Char('p') => if checked.len() > 0 {
            KeyOutcome::Send(Action::Popup(PopupAction::Open(PopupType::Playlist(checked))))
        } else {
            KeyOutcome::Ignore
        },
        KeyCode::Char('s') => KeyOutcome::SortNext,
        KeyCode::Char('S') => KeyOutcome::SortPrev,
        _ => match nav_command(code) {
            Some(cmd) => KeyOutcome::Tree(cmd),
            None => KeyOutcome::Ignore,
        },
    }
}

/// What the browsing keys do in a view's tree: page up and down, the
/// arrows, and enter.
pub open spec fn spec_browse_command(code: KeyCode, last: usize, current: Option<usize>) -> Option<TreeCommand> {
    match code {
        KeyCode::PageUp => Some(TreeCommand::SelectIndex(spec_page_up(current, last))),
        KeyCode::PageDown => Some(TreeCommand::SelectIndex(spec_page_down(current))),
        KeyCode::Up => Some(TreeCommand::Up),
        KeyCode::Down => Some(TreeCommand::Down),
        KeyCode::Left => Some(TreeCommand::Left),
        KeyCode::Right => Some(TreeCommand::Right),
        KeyCode::Enter => Some(TreeCommand::OpenSelected),
        _ => None,
    }
}

/// What the browsing keys do in a view's tree (see
/// [`spec_browse_command`]).
pub fn browse_command(code: KeyCode, last: usize, current: Option<usize>) -> (r: Option<TreeCommand>)
    ensures
        r == spec_browse_command(code, last, current),
{
    match code {
        KeyCode::PageUp => Some(TreeCommand::SelectIndex(page_up(current, last))),
        KeyCode::PageDown => Some(TreeCommand::SelectIndex(page_down(current))),
        KeyCode::Up => Some(TreeCommand::Up),
        KeyCode::Down => Some(TreeCommand::Down),
        KeyCode::Left => Some(TreeCommand::Left),
        KeyCode::Right => Some(TreeCommand::Right),
        KeyCode::Enter => Some(TreeCommand::OpenSelected),
        _ => None,
    }
}

/// Whether the key is one of an item view's own: a navigation key, `q`,
/// `r` or `p`.
pub open spec fn spec_is_item_key(code: KeyCode) -> bool {
    spec_nav_command(code) is Some || code == KeyCode::Char('q') || code == KeyCode::Char('r')
        || code == KeyCode::Char('p')
}

/// What one of an item view's own keys does (see [`spec_item_view_key`]);
/// other keys do nothing.
pub open spec fn spec_item_view_outcome(code: KeyCode, checked: Vec<RecordId>, current: Option<RecordId>, r: KeyOutcome) -> bool {
    if spec_is_item_key(code) {
        spec_item_view_key(code, checked, current, Some(r))
    } else {
        r == KeyOutcome::Ignore
    }
}

/// What a key does in an item view, with [`KeyOutcome::Ignore`] for the
/// keys that are not its own (see [`spec_item_view_outcome`]).
pub fn item_view_outcome(code: KeyCode, checked: Vec<RecordId>, current: Option<RecordId>) -> (r: KeyOutcome)
    ensures
        spec_item_view_outcome(code, checked, current, r),
{
    match item_view_key(code, checked, current) {
        Some(o) => o,
        None => KeyOutcome::Ignore,
    }
}

} // verus!
