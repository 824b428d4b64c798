//! The audio store: the requests that playback and queue actions become,
//! and how the player state the interface shows follows the daemon's
//! announcements.
use vstd::prelude::*;

use super::action::{PlaybackAction, QueueAction, RepeatMode, SeekType, StateChange, Status, VolumeAction};
use super::library::RecordId;

verus! {

/// How often the shown play position moves on, in milliseconds.
pub const TICK_RATE_MS: u64 = 100;

/// A request to the daemon's player.
#[derive(Debug, Clone, PartialEq, Eq)]
pub enum AudioRequest {
    Toggle,
    SkipForward(u64),
    SkipBackward(u64),
    /// Seek, by a number of nanoseconds.
    Seek(SeekType, u64),
    /// Raise the volume, in hundredths of the full volume.
    VolumeUp(u32),
    /// Lower the volume, in hundredths of the full volume.
    VolumeDown(u32),
    ToggleMute,
    QueueAdd(Vec<RecordId>),
    /// Remove the queue's songs from the first position up to, not
    /// including, the second.
    QueueRemoveRange(u64, u64),
    QueueSetIndex(u64),
    Shuffle,
    Clear,
    Repeat(RepeatMode),
}

/// The request a playback action becomes: skipping goes one song.
pub open spec fn spec_playback_request(action: PlaybackAction) -> AudioRequest {
    match action {
        PlaybackAction::Toggle => AudioRequest::Toggle,
        PlaybackAction::Next => AudioRequest::SkipForward(1),
        PlaybackAction::Previous => AudioRequest::SkipBackward(1),
        PlaybackAction::Seek(kind, ns) => AudioRequest::Seek(kind, ns),
        PlaybackAction::Volume(VolumeAction::Increase(v)) => AudioRequest::VolumeUp(v),
        PlaybackAction::Volume(VolumeAction::Decrease(v)) => AudioRequest::VolumeDown(v),
        PlaybackAction::ToggleMute => AudioRequest::ToggleMute,
    }
}

/// The request a playback action becomes (see [`spec_playback_request`]).
pub fn playback_request(action: PlaybackAction) -> (r: AudioRequest)
    ensures
        r == spec_playback_request(action),
        action matches PlaybackAction::Volume(VolumeAction::Increase(v)) ==> r == AudioRequest::VolumeUp(v),
        action matches PlaybackAction::Volume(VolumeAction::Decrease(v)) ==> r == AudioRequest::VolumeDown(v),
{
    match action {
        PlaybackAction::Toggle => AudioRequest::Toggle,
        PlaybackAction::Next => AudioRequest::SkipForward(1),
        PlaybackAction::Previous => AudioRequest::SkipBackward(1),
        PlaybackAction::Seek(kind, ns) => AudioRequest::Seek(kind, ns),
        PlaybackAction::Volume(VolumeAction::Increase(v)) => AudioRequest::VolumeUp(v),
        PlaybackAction::Volume(VolumeAction::Decrease(v)) => AudioRequest::VolumeDown(v),
        PlaybackAction::ToggleMute => AudioRequest::ToggleMute,
    }
}

/// The request a queue action becomes: removing a song removes the range
/// of that one position. The position must not be the largest `u64`.
pub fn queue_request(action: QueueAction) -> (r: AudioRequest)
    requires
        action matches QueueAction::Remove(i) ==> i < u64::MAX,
    ensures
        match action {
            QueueAction::Add(ids) => r matches AudioRequest::QueueAdd(v) && v@ == ids@,
            QueueAction::Remove(i) => r == AudioRequest::QueueRemoveRange(i, (i + 1) as u64),
            QueueAction::SetPosition(i) => r == AudioRequest::QueueSetIndex(i),
            QueueAction::Shuffle => r == AudioRequest::Shuffle,
            QueueAction::Clear => r == AudioRequest::Clear,
            QueueAction::SetRepeatMode(m) => r == AudioRequest::Repeat(m),
        },
{
    match action {
        QueueAction::Add(ids) => AudioRequest::QueueAdd(ids),
        QueueAction::Remove(i) => AudioRequest::QueueRemoveRange(i, i + 1),
        QueueAction::SetPosition(i) => AudioRequest::QueueSetIndex(i),
        QueueAction::Shuffle => AudioRequest::Shuffle,
        QueueAction::Clear => AudioRequest::Clear,
        QueueAction::SetRepeatMode(m) => AudioRequest::Repeat(m),
    }
}

/// A play position: whole seconds and nanoseconds.
#[derive(Debug, Clone, Copy, PartialEq, Eq, Structural)]
pub struct SeekPosition {
    pub secs: u64,
    pub nanos: u32,
}

/// The player state the interface shows, as far as the announcements
/// change it: the volume as the bit pattern of the daemon's `f32`, and the
/// play position of the current song, if one is playing.
#[derive(Debug, Clone, Copy, PartialEq, Eq, Structural)]
pub struct AudioSnapshot {
    pub muted: bool,
    pub volume: u32,
    pub repeat_mode: RepeatMode,
    pub status: Status,
    pub seek_position: Option<SeekPosition>,
}

/// The state after an announcement: muting, the volume, the repeat mode and
/// the status take the announced value; a seek moves the play position if a
/// song is playing; a new track or a changed queue leave it as it is.
pub open spec fn spec_apply(state: AudioSnapshot, change: StateChange) -> AudioSnapshot {
    match change {
        StateChange::Muted => AudioSnapshot { muted: true, ..state },
        StateChange::Unmuted => AudioSnapshot { muted: false, ..state },
        StateChange::VolumeChanged(v) => AudioSnapshot { volume: v, ..state },
        StateChange::RepeatModeChanged(m) => AudioSnapshot { repeat_mode: m, ..state },
        StateChange::Seeked(secs, nanos) => if state.seek_position is Some {
            AudioSnapshot { seek_position: Some(SeekPosition { secs, nanos }), ..state }
        } else {
            state
        },
        StateChange::StatusChanged(s) => AudioSnapshot { status: s, ..state },
        _ => state,
    }
}

/// A volume action becomes a volume request of the same amount and the same
/// direction: an increase raises the volume and a decrease lowers it, and
/// no other playback action asks for a volume change. Different playback
/// actions never become the same request.
pub proof fn lemma_volume_requests(action: PlaybackAction, other: PlaybackAction, v: u32)
    ensures
        spec_playback_request(PlaybackAction::Volume(VolumeAction::Increase(v))) == AudioRequest::VolumeUp(v),
        spec_playback_request(PlaybackAction::Volume(VolumeAction::Decrease(v))) == AudioRequest::VolumeDown(v),
        spec_playback_request(action) == AudioRequest::VolumeUp(v) <==> action == PlaybackAction::Volume(
            VolumeAction::Increase(v),
        ),
        spec_playback_request(action) == AudioRequest::VolumeDown(v) <==> action == PlaybackAction::Volume(
            VolumeAction::Decrease(v),
        ),
        spec_playback_request(action) == spec_playback_request(other) ==> action == other,
{
}

/// Each announcement that carries a value sets its part of the shown state
/// to that value and leaves the rest as it was; muting and unmuting set the
/// mute flag. Applying an announcement twice is applying it once.
pub proof fn lemma_announced_values_taken(state: AudioSnapshot, change: StateChange)
    ensures
        change matches StateChange::VolumeChanged(v) ==> spec_apply(state, change) == (AudioSnapshot {
            volume: v,
            ..state
        }),
        change matches StateChange::RepeatModeChanged(m) ==> spec_apply(state, change) == (AudioSnapshot {
            repeat_mode: m,
            ..state
        }),
        change matches StateChange::StatusChanged(s) ==> spec_apply(state, change) == (AudioSnapshot {
            status: s,
            ..state
        }),
        change is Muted ==> spec_apply(state, change) == (AudioSnapshot { muted: true, ..state }),
        change is Unmuted ==> spec_apply(state, change) == (AudioSnapshot { muted: false, ..state }),
        spec_apply(spec_apply(state, change), change) == spec_apply(state, change),
{
}

/// The audio store.
#[derive(Debug, Clone, Copy)]
pub struct AudioState;

impl AudioState {
    /// Applies an announcement (see [`spec_apply`]); `true` when the whole
    /// state must be fetched again: after a new track or a changed queue.
    pub fn apply_state_change(state: &mut AudioSnapshot, change: StateChange) -> (r: bool)
        ensures
            *final(state) == spec_apply(*old(state), change),
            change matches StateChange::VolumeChanged(v) ==> final(state).volume == v,
            change is Muted ==> final(state).muted,
            change is Unmuted ==> !final(state).muted,
            change matches StateChange::RepeatModeChanged(m) ==> final(state).repeat_mode == m,
            change matches StateChange::StatusChanged(s) ==> final(state).status == s,
            r == (change is TrackChanged || change is QueueChanged),
    {
        match change {
            StateChange::Muted => {
                state.muted = true;
                false
            },
            StateChange::Unmuted => {
                state.muted = false;
                false
            },
            StateChange::VolumeChanged(v) => {
                state.volume = v;
                false
            },
            StateChange::TrackChanged(_) | StateChange::QueueChanged => true,
            StateChange::RepeatModeChanged(m) => {
                state.repeat_mode = m;
                false
            },
            StateChange::Seeked(secs, nanos) => {
                if state.seek_position.is_some() {
                    state.seek_position = Some(SeekPosition { secs, nanos });
                }
                false
            },
            StateChange::StatusChanged(s) => {
                state.status = s;
                false
            },
        }
    }

    /// Whether the play position moves on at a tick: only while playing.
    pub fn advances_on_tick(state: &AudioSnapshot) -> (r: bool)
        ensures
            r == (state.status is Playing),
    {
        match state.status {
            Status::Playing => true,
            _ => false,
        }
    }
}

} // verus!
