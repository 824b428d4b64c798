//! The kinds of popup the interface can show, and what keys do in them.
use vstd::prelude::*;

use crate::state::action::{Action, LibraryAction, PopupAction};
use crate::state::library::{DynamicPlaylist, PlaylistBrief, RecordId};
use crate::ui::events::KeyCode;
use crate::ui::widgets::input_box::InputBox;

verus! {

/// A popup the interface can show.
#[derive(Debug, PartialEq, Eq)]
pub enum PopupType {
    /// A notification with the given text.
    Notification(String),
    /// A dialog to add the given things to a playlist.
    Playlist(Vec<RecordId>),
    /// An editor of the given dynamic playlist.
    DynamicPlaylistEditor(DynamicPlaylist),
}

/// The mathematical value of a [`PopupType`].
pub enum PopupTypeView {
    Notification(Seq<char>),
    Playlist(Seq<RecordId>),
    DynamicPlaylistEditor(DynamicPlaylist),
}

impl View for PopupType {
    type V = PopupTypeView;

    open spec fn view(&self) -> PopupTypeView {
        match self {
            PopupType::Notification(text) => PopupTypeView::Notification(text@),
            PopupType::Playlist(ids) => PopupTypeView::Playlist(ids@),
            PopupType::DynamicPlaylistEditor(dp) => PopupTypeView::DynamicPlaylistEditor(*dp),
        }
    }
}

impl Clone for PopupType {
    fn clone(&self) -> (r: Self)
        ensures
            r@ == self@,
    {
        match self {
            PopupType::Notification(text) => PopupType::Notification(text.clone()),
            PopupType::Playlist(ids) => {
                let copy = ids.clone();
                assert(copy@ =~= ids@);
                PopupType::Playlist(copy)
            },
            PopupType::DynamicPlaylistEditor(dp) => PopupType::DynamicPlaylistEditor(dp.clone()),
        }
    }
}

/// What a key does in a notification: escape closes it.
pub fn notification_key(code: KeyCode) -> (r: Option<Action>)
    ensures
        r == if code == KeyCode::Esc {
            Some(Action::Popup(PopupAction::Close))
        } else {
            None
        },
{
    if code == KeyCode::Esc {
        Some(Action::Popup(PopupAction::Close))
    } else {
        None
    }
}

/// What a key does in the popup that adds things to a playlist.
#[derive(Debug, Clone, PartialEq)]
pub enum PlaylistPopupOutcome {
    /// Close the popup.
    Close,
    /// Send the action, then close the popup.
    Add(Action),
    /// Select the playlist at this position of the list.
    Select(usize),
    /// Give the name box of a new playlist the focus, or take it away.
    FocusInput(bool),
    /// Hand the key to the name box.
    Edit,
    /// Nothing.
    Ignore,
}

/// What a key does in the playlist popup, where `selected` is the selected
/// line of the list of `playlists` and the name box (`input`) may have the
/// focus. In the box, escape leaves it, enter adds the `things` to a new
/// playlist of the box's name (if there is one) and other keys edit it.
/// In the list, escape closes the popup, `n` moves to the box, the arrows
/// move the selection (stopping at the ends) and enter adds the things to
/// the selected playlist.
pub fn playlist_popup_key(
    code: KeyCode,
    input: &InputBox,
    input_focused: bool,
    selected: usize,
    playlists: &Vec<PlaylistBrief>,
    things: &Vec<RecordId>,
) -> (r: PlaylistPopupOutcome)
    ensures
        input_focused ==> match code {
            KeyCode::Esc => r == PlaylistPopupOutcome::FocusInput(false),
            KeyCode::Enter => if input.content().len() > 0 {
                &&& r matches PlaylistPopupOutcome::Add(
                    Action::Library(LibraryAction::CreatePlaylistAndAddThings(name, added)),
                )
                &&& name@ == input.content()
                &&& added@ == things@
            } else {
                r == PlaylistPopupOutcome::Edit
            },
            _ => r == PlaylistPopupOutcome::Edit,
        },
        !input_focused ==> match code {
            KeyCode::Esc => r == PlaylistPopupOutcome::Close,
            KeyCode::Char('n') => r == PlaylistPopupOutcome::FocusInput(true),
            KeyCode::Up => r == PlaylistPopupOutcome::Select(
                if selected == 0 {
                    0
                } else {
                    (selected - 1) as usize
                },
            ),
            KeyCode::Down => r == PlaylistPopupOutcome::Select(
                if selected + 1 < playlists@.len() {
                    (selected + 1) as usize
                } else {
                    selected
                },
            ),
            KeyCode::Enter => if selected < playlists@.len() {
                &&& r matches PlaylistPopupOutcome::Add(
                    Action::Library(LibraryAction::AddThingsToPlaylist(id, added)),
                )
                &&& id == playlists@[selected as int].id
                &&& added@ == things@
            } else {
                r == PlaylistPopupOutcome::Ignore
            },
            _ => r == PlaylistPopupOutcome::Ignore,
        },
{
    if input_focused {
        match code {
            KeyCode::Esc => PlaylistPopupOutcome::FocusInput(false),
            KeyCode::Enter => {
                if input.is_empty() {
                    PlaylistPopupOutcome::Edit
                } else {
                    let added = things.clone();
                    assert(added@ =~= things@);
                    PlaylistPopupOutcome::Add(
                        Action::Library(LibraryAction::CreatePlaylistAndAddThings(input.text(), added)),
                    )
                }
            },
            _ => PlaylistPopupOutcome::Edit,
        }
    } else {
        match code {
            KeyCode::Esc => PlaylistPopupOutcome::Close,
            KeyCode::Char('n') => PlaylistPopupOutcome::FocusInput(true),
            KeyCode::Up => PlaylistPopupOutcome::Select(
                if selected == 0 {
                    0
                } else {
                    selected - 1
                },
            ),
            KeyCode::Down => PlaylistPopupOutcome::Select(
                if selected < playlists.len() && selected + 1 < playlists.len() {
                    selected + 1
                } else {
                    selected
                },
            ),
            KeyCode::Enter => {
                if selected < playlists.len() {
                    let added = things.clone();
                    assert(added@ =~= things@);
                    PlaylistPopupOutcome::Add(
                        Action::Library(LibraryAction::AddThingsToPlaylist(playlists[selected].id.clone(), added)),
                    )
                } else {
                    PlaylistPopupOutcome::Ignore
                }
            },
            _ => PlaylistPopupOutcome::Ignore,
        }
    }
}

} // verus!
