//! The dispatcher: it hands each action from the interface to the store
//! that handles it.
use vstd::prelude::*;

use super::action::{
    Action, AudioAction, ComponentAction, GeneralAction, LibraryAction, OverlayAction, PopupAction, ViewAction,
};

verus! {

/// Where an action goes.
#[derive(Debug, Clone, PartialEq)]
pub enum Dispatch {
    Audio(AudioAction),
    Search(String),
    Library(LibraryAction),
    View(ViewAction),
    Overlay(OverlayAction),
    Popup(PopupAction),
    Component(ComponentAction),
    /// Stop the application: the user quit.
    Exit,
}

/// Where an action goes: each kind of action to its store; closing a
/// popup also closes any overlay over it (first); quitting stops the
/// application.
pub open spec fn spec_route(action: Action) -> Seq<Dispatch> {
    match action {
        Action::Audio(a) => seq![Dispatch::Audio(a)],
        Action::Search(q) => seq![Dispatch::Search(q)],
        Action::General(GeneralAction::Exit) => seq![Dispatch::Exit],
        Action::Library(a) => seq![Dispatch::Library(a)],
        Action::ActiveView(a) => seq![Dispatch::View(a)],
        Action::Overlay(a) => seq![Dispatch::Overlay(a)],
        Action::Popup(PopupAction::Close) => seq![
            Dispatch::Overlay(OverlayAction::Close),
            Dispatch::Popup(PopupAction::Close),
        ],
        Action::Popup(a) => seq![Dispatch::Popup(a)],
        Action::ActiveComponent(a) => seq![Dispatch::Component(a)],
    }
}

/// The dispatcher.
#[derive(Debug, Clone, Copy)]
pub struct Dispatcher;

impl Dispatcher {
    /// Where an action goes (see [`spec_route`]), in order.
    pub fn route(action: Action) -> (r: Vec<Dispatch>)
        ensures
            r@ == spec_route(action),
    {
        let mut out: Vec<Dispatch> = Vec::new();
        match action {
            Action::Audio(a) => out.push(Dispatch::Audio(a)),
            Action::Search(q) => out.push(Dispatch::Search(q)),
            Action::General(GeneralAction::Exit) => out.push(Dispatch::Exit),
            Action::Library(a) => out.push(Dispatch::Library(a)),
            Action::ActiveView(a) => out.push(Dispatch::View(a)),
            Action::Overlay(a) => out.push(Dispatch::Overlay(a)),
            Action::Popup(a) => {
                if let PopupAction::Close = a {
                    out.push(Dispatch::Overlay(OverlayAction::Close));
                }
                out.push(Dispatch::Popup(a));
            },
            Action::ActiveComponent(a) => out.push(Dispatch::Component(a)),
        }
        assert(out@ =~= spec_route(action));
        out
    }
}

} // verus!
