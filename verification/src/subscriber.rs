//! The subscriber: what the interface does about the daemon's
//! announcements.
use vstd::prelude::*;

use crate::state::action::{Action, AudioAction, GeneralAction, LibraryAction, PopupAction, StateChange};
use crate::ui::widgets::popups::PopupType;

verus! {

/// Something that happened in the daemon.
#[derive(Debug, Clone, Copy, PartialEq, Eq, Structural)]
pub enum Event {
    DaemonShutdown,
    LibraryRescanFinished,
    LibraryAnalysisFinished,
    LibraryReclusterFinished,
}

/// An announcement of the daemon.
#[derive(Debug, Clone, PartialEq)]
pub enum Message {
    Event(Event),
    StateChange(StateChange),
}

/// The notification shown when a long-running library task finishes.
pub open spec fn spec_notification(event: Event) -> Seq<char> {
    match event {
        Event::LibraryRescanFinished => "Library rescan finished"@,
        Event::LibraryAnalysisFinished => "Library analysis finished"@,
        _ => "Library recluster finished"@,
    }
}

/// The subscriber.
#[derive(Debug, Clone, Copy)]
pub struct Subscriber;

impl Subscriber {
    /// The actions an announcement leads to, in order: the interface quits
    /// when the daemon shuts down; when a library task finishes it fetches
    /// the library again and shows a notification; a change of the player's
    /// state goes to the audio store.
    pub fn handle_message(&self, message: Message) -> (r: Vec<Action>)
        ensures
            match message {
                Message::Event(Event::DaemonShutdown) => r@ == seq![Action::General(GeneralAction::Exit)],
                Message::Event(e) => {
                    &&& r@.len() == 2
                    &&& r@[0] == Action::Library(LibraryAction::Update)
                    &&& r@[1] matches Action::Popup(PopupAction::Open(PopupType::Notification(text)))
                    &&& text@ == spec_notification(e)
                },
                Message::StateChange(c) => r@ == seq![Action::Audio(AudioAction::StateChange(c))],
            },
    {
        let mut out: Vec<Action> = Vec::new();
        match message {
            Message::Event(event) => {
                let text: &str = match event {
                    Event::DaemonShutdown => {
                        out.push(Action::General(GeneralAction::Exit));
                        assert(out@ =~= seq![Action::General(GeneralAction::Exit)]);
                        return out;
                    },
                    Event::LibraryRescanFinished => "Library rescan finished",
                    Event::LibraryAnalysisFinished => "Library analysis finished",
                    Event::LibraryReclusterFinished => "Library recluster finished",
                };
                out.push(Action::Library(LibraryAction::Update));
                out.push(Action::Popup(PopupAction::Open(PopupType::Notification(text.to_owned()))));
            },
            Message::StateChange(change) => {
                out.push(Action::Audio(AudioAction::StateChange(change)));
                assert(out@ =~= seq![Action::Audio(AudioAction::StateChange(change))]);
            },
        }
        out
    }
}

} // verus!
