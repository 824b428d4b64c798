//! The radio view: songs similar to some things.
use vstd::prelude::*;

use super::RadioViewProps;
use super::keys::{KeyOutcome, TreeCommand, page_down, page_up, spec_page_down, spec_page_up, spec_last_line};
use crate::state::action::{Action, AudioAction, PopupAction, QueueAction};
use crate::state::library::{RecordId, SongBrief};
use crate::ui::events::{KeyCode, KeyEvent};
use crate::ui::widgets::popups::PopupType;

verus! {

/// The ids of the songs.
pub open spec fn spec_song_ids(songs: Seq<SongBrief>) -> Seq<RecordId> {
    songs.map_values(|s: SongBrief| s.id)
}

/// The ids of the songs, in order.
pub fn song_ids(songs: &Vec<SongBrief>) -> (r: Vec<RecordId>)
    ensures
        r@ == spec_song_ids(songs@),
{
    let mut ids: Vec<RecordId> = Vec::new();
    let mut i: usize = 0;
    while i < songs.len()
        invariant
            i <= songs@.len(),
            ids@ == spec_song_ids(songs@.subrange(0, i as int)),
        decreases songs@.len() - i,
    {
        ids.push(songs[i].id.clone());
        assert(spec_song_ids(songs@.subrange(0, i + 1)) =~= spec_song_ids(songs@.subrange(0, i as int)).push(
            songs@[i as int].id,
        ));
        i = i + 1;
    }
    assert(songs@.subrange(0, songs@.len() as int) =~= songs@);
    ids
}

/// The line that page up selects in the radio view when nothing is
/// selected: the last song (the first when there are none, or no radio).
pub open spec fn spec_radio_last(props: Option<RadioViewProps>) -> usize {
    match props {
        Some(p) => spec_last_line(p.songs@.len()),
        None => 0,
    }
}

/// The radio view (the tree itself is kept by the front end).
#[derive(Debug)]
pub struct RadioView {
    pub props: Option<RadioViewProps>,
}

impl RadioView {
    pub fn new(props: Option<RadioViewProps>) -> (r: Self)
        ensures
            r.props == props,
    {
        RadioView { props }
    }

    /// The view with fresh data, if there is any; else it is unchanged.
    pub fn move_with_state(self, props: Option<RadioViewProps>) -> (r: Self)
        ensures
            r.props == if props is Some {
                props
            } else {
                self.props
            },
    {
        match props {
            Some(p) => RadioView { props: Some(p) },
            None => self,
        }
    }

    pub fn name(&self) -> (r: &'static str)
        ensures
            r@ == "Radio"@,
    {
        "Radio"
    }

    /// What a key does: page up and down, the arrows and enter act on the
    /// tree (page up with nothing selected going to the last song); `q`
    /// adds all the radio's songs to the queue and `p` to a playlist.
    pub fn handle_key_event(&self, key: KeyEvent, current: Option<usize>) -> (r: KeyOutcome)
        ensures
            match key.code {
                KeyCode::PageUp => r == KeyOutcome::Tree(
                    TreeCommand::SelectIndex(spec_page_up(current, spec_radio_last(self.props))),
                ),
                KeyCode::PageDown => r == KeyOutcome::Tree(TreeCommand::SelectIndex(spec_page_down(current))),
                KeyCode::Up => r == KeyOutcome::Tree(TreeCommand::Up),
                KeyCode::Down => r == KeyOutcome::Tree(TreeCommand::Down),
                KeyCode::Left => r == KeyOutcome::Tree(TreeCommand::Left),
                KeyCode::Right => r == KeyOutcome::Tree(TreeCommand::Right),
                KeyCode::Enter => r == KeyOutcome::Tree(TreeCommand::OpenSelected),
                KeyCode::Char('q') => match self.props {
                    Some(p) => r matches KeyOutcome::Send(Action::Audio(AudioAction::Queue(QueueAction::Add(ids))))
                        && ids@ == spec_song_ids(p.songs@),
                    None => r == KeyOutcome::Ignore,
                },
                KeyCode::Char('p') => match self.props {
                    Some(p) => r matches KeyOutcome::Send(Action::Popup(PopupAction::Open(PopupType::Playlist(ids))))
                        && ids@ == spec_song_ids(p.songs@),
                    None => r == KeyOutcome::Ignore,
                },
                _ => r == KeyOutcome::Ignore,
            },
    {
        match key.code {
            KeyCode::PageUp => {
                let last = match &self.props {
                    Some(p) => if p.songs.len() > 0 {
                        p.songs.len() - 1
                    } else {
                        0
                    },
                    None => 0,
                };
                KeyOutcome::Tree(TreeCommand::SelectIndex(page_up(current, last)))
            },
            KeyCode::PageDown => KeyOutcome::Tree(TreeCommand::SelectIndex(page_down(current))),
            KeyCode::Up => KeyOutcome::Tree(TreeCommand::Up),
            KeyCode::Down => KeyOutcome::Tree(TreeCommand::Down),
            KeyCode::Left => KeyOutcome::Tree(TreeCommand::Left),
            KeyCode::Right => KeyOutcome::Tree(TreeCommand::Right),
            KeyCode::Enter => KeyOutcome::Tree(TreeCommand::OpenSelected),
            KeyCode::Char('q') => match &self.props {
                Some(p) => KeyOutcome::Send(Action::Audio(AudioAction::Queue(QueueAction::Add(song_ids(&p.songs))))),
                None => KeyOutcome::Ignore,
            },
            KeyCode::Char('p') => match &self.props {
                Some(p) => KeyOutcome::Send(Action::Popup(PopupAction::Open(PopupType::Playlist(song_ids(&p.songs))))),
                None => KeyOutcome::Ignore,
            },
            _ => KeyOutcome::Ignore,
        }
    }
}

} // verus!
