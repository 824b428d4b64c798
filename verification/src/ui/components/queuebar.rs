//! The queue bar: the songs in the queue, one of them selected.
use vstd::prelude::*;

use crate::state::action::{Action, AudioAction, ComponentAction, QueueAction, RepeatMode};
use crate::state::component::ActiveComponent;
use crate::state::library::SongBrief;
use crate::ui::events::{KeyCode, KeyEvent, MouseButton, MouseEvent, MouseEventKind};
use crate::ui::layout::{Position, Rect};

verus! {

/// The selection after the up key: one up, or from the first song to the
/// last; nothing when nothing is selected.
pub open spec fn spec_queue_up(selected: Option<usize>, len: nat) -> Option<usize> {
    match selected {
        Some(i) => Some(
            if i == 0 {
                (len - 1) as usize
            } else {
                (i - 1) as usize
            },
        ),
        None => None,
    }
}

/// The selection after the down key: one down, or from the last song to
/// the first; nothing when nothing is selected.
pub open spec fn spec_queue_down(selected: Option<usize>, len: nat) -> Option<usize> {
    match selected {
        Some(i) => Some(
            if i == len - 1 {
                0
            } else {
                (i + 1) as usize
            },
        ),
        None => None,
    }
}

/// The queue bar.
#[derive(Debug)]
pub struct QueueBar {
    pub queue: Vec<SongBrief>,
    pub current_position: Option<usize>,
    pub repeat_mode: RepeatMode,
    /// The selected song's position in the queue.
    pub selected: Option<usize>,
}

impl QueueBar {
    /// The queue bar, with the song being played selected.
    pub fn new(queue: Vec<SongBrief>, current_position: Option<usize>, repeat_mode: RepeatMode) -> (r: Self)
        ensures
            r.queue == queue,
            r.current_position == current_position,
            r.repeat_mode == repeat_mode,
            r.selected == current_position,
    {
        QueueBar { queue, current_position, repeat_mode, selected: current_position }
    }

    /// The queue bar showing the current queue: when another song is
    /// playing, it is selected; else the selection stays.
    pub fn move_with_state(self, queue: Vec<SongBrief>, current_position: Option<usize>, repeat_mode: RepeatMode) -> (r: Self)
        ensures
            r.queue == queue,
            r.current_position == current_position,
            r.repeat_mode == repeat_mode,
            r.selected == if self.current_position == current_position {
                self.selected
            } else {
                current_position
            },
    {
        let selected = if self.current_position == current_position {
            self.selected
        } else {
            current_position
        };
        QueueBar { queue, current_position, repeat_mode, selected }
    }

    pub fn name(&self) -> (r: &'static str)
        ensures
            r@ == "Queue"@,
    {
        "Queue"
    }

    /// What a key does: up and down move the selection round the queue;
    /// enter plays the selected song, `d` removes it; `c` clears the queue,
    /// `s` shuffles it, and `r` sets the repeat mode the queue bar shows.
    /// Moving up from the first song, and moving down at all, need a song
    /// in the queue; moving down needs a selection below `usize::MAX`.
    pub fn handle_key_event(&mut self, key: KeyEvent) -> (r: Option<Action>)
        requires
            key.code == KeyCode::Up && old(self).selected == Some(0usize) ==> old(self).queue@.len() > 0,
            key.code == KeyCode::Down && old(self).selected is Some ==> old(self).queue@.len() > 0,
            key.code == KeyCode::Down && old(self).selected is Some ==> old(self).selected->0 < usize::MAX,
        ensures
            final(self).queue == old(self).queue,
            final(self).current_position == old(self).current_position,
            final(self).repeat_mode == old(self).repeat_mode,
            final(self).selected == match key.code {
                KeyCode::Up => spec_queue_up(old(self).selected, old(self).queue@.len()),
                KeyCode::Down => spec_queue_down(old(self).selected, old(self).queue@.len()),
                _ => old(self).selected,
            },
            r == match key.code {
                KeyCode::Enter => match old(self).selected {
                    Some(i) => Some(Action::Audio(AudioAction::Queue(QueueAction::SetPosition(i as u64)))),
                    None => None,
                },
                KeyCode::Char('c') => Some(Action::Audio(AudioAction::Queue(QueueAction::Clear))),
                KeyCode::Char('d') => match old(self).selected {
                    Some(i) => Some(Action::Audio(AudioAction::Queue(QueueAction::Remove(i as u64)))),
                    None => None,
                },
                KeyCode::Char('s') => Some(Action::Audio(AudioAction::Queue(QueueAction::Shuffle))),
                KeyCode::Char('r') => Some(
                    Action::Audio(AudioAction::Queue(QueueAction::SetRepeatMode(old(self).repeat_mode))),
                ),
                _ => None,
            },
    {
        match key.code {
            KeyCode::Up => {
                if let Some(i) = self.selected {
                    let len = self.queue.len();
                    self.selected = Some(
                        if i == 0 {
                            len - 1
                        } else {
                            i - 1
                        },
                    );
                }
                None
            },
            KeyCode::Down => {
                if let Some(i) = self.selected {
                    let len = self.queue.len();
                    self.selected = Some(
                        if i == len - 1 {
                            0
                        } else {
                            i + 1
                        },
                    );
                }
                None
            },
            KeyCode::Enter => match self.selected {
                Some(i) => Some(Action::Audio(AudioAction::Queue(QueueAction::SetPosition(i as u64)))),
                None => None,
            },
            KeyCode::Char('c') => Some(Action::Audio(AudioAction::Queue(QueueAction::Clear))),
            KeyCode::Char('d') => match self.selected {
                Some(i) => Some(Action::Audio(AudioAction::Queue(QueueAction::Remove(i as u64)))),
                None => None,
            },
            KeyCode::Char('s') => Some(Action::Audio(AudioAction::Queue(QueueAction::Shuffle))),
            KeyCode::Char('r') => Some(Action::Audio(AudioAction::Queue(QueueAction::SetRepeatMode(self.repeat_mode)))),
            _ => None,
        }
    }

    /// What a mouse event does: a left click in the area focuses the queue
    /// bar; scrolling moves the selection as the up and down keys do (which
    /// needs what those keys need).
    pub fn handle_mouse_event(&mut self, mouse: MouseEvent, area: Rect) -> (r: Option<Action>)
        requires
            mouse.kind == MouseEventKind::ScrollUp && old(self).selected == Some(0usize) ==> old(self).queue@.len()
                > 0,
            mouse.kind == MouseEventKind::ScrollDown && old(self).selected is Some ==> old(self).queue@.len() > 0,
            mouse.kind == MouseEventKind::ScrollDown && old(self).selected is Some ==> old(self).selected->0
                < usize::MAX,
        ensures
            final(self).queue == old(self).queue,
            final(self).current_position == old(self).current_position,
            final(self).repeat_mode == old(self).repeat_mode,
            final(self).selected == match mouse.kind {
                MouseEventKind::ScrollUp => spec_queue_up(old(self).selected, old(self).queue@.len()),
                MouseEventKind::ScrollDown => spec_queue_down(old(self).selected, old(self).queue@.len()),
                _ => old(self).selected,
            },
            r == if mouse.kind == MouseEventKind::Down(MouseButton::Left) && area.spec_contains(
                Position { x: mouse.column, y: mouse.row },
            ) {
                Some(Action::ActiveComponent(ComponentAction::Focus(ActiveComponent::QueueBar)))
            } else {
                None
            },
    {
        match mouse.kind {
            MouseEventKind::Down(MouseButton::Left) => {
                if area.contains(Position::new(mouse.column, mouse.row)) {
                    Some(Action::ActiveComponent(ComponentAction::Focus(ActiveComponent::QueueBar)))
                } else {
                    None
                }
            },
            MouseEventKind::ScrollDown => self.handle_key_event(KeyEvent::from(KeyCode::Down)),
            MouseEventKind::ScrollUp => self.handle_key_event(KeyEvent::from(KeyCode::Up)),
            _ => None,
        }
    }
}

/// Moving the selection up and then down (or down and then up) returns
/// to the selected song, and both moves stay in the queue.
pub proof fn lemma_queue_up_down(i: usize, len: nat)
    requires
        i < len,
        len <= usize::MAX,
    ensures
        spec_queue_up(Some(i), len)->0 < len,
        spec_queue_down(Some(i), len)->0 < len,
        spec_queue_down(spec_queue_up(Some(i), len), len) == Some(i),
        spec_queue_up(spec_queue_down(Some(i), len), len) == Some(i),
{
}

} // verus!
