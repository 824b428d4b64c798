//! The actions that the user can perform through the interface.
//! They are sent from the interface to the state stores, which then update
//! their state accordingly.
use vstd::prelude::*;

use mecomp_storage::db::schemas::dynamic::{DynamicPlaylistChangeSet, query::Query};

use super::component::ActiveComponent;
use super::library::RecordId;
use super::overlay::{OverlayResult, OverlayType};
use crate::ui::components::content_view::ActiveView;
use crate::ui::widgets::popups::PopupType;

verus! {

/// The query of a dynamic playlist, as the storage crate parses it.
#[verifier::external_type_specification]
#[verifier::external_body]
pub struct ExQuery(Query);

/// A change to a dynamic playlist, as the storage crate defines it.
#[verifier::external_type_specification]
#[verifier::external_body]
pub struct ExDynamicPlaylistChangeSet(DynamicPlaylistChangeSet);

/// `Query::clone` (derived in the storage crate); nothing is claimed of the
/// copy, which stays opaque here.
pub assume_specification[ <Query as Clone>::clone ](q: &Query) -> Query;

/// `DynamicPlaylistChangeSet::clone` (derived in the storage crate); nothing
/// is claimed of the copy, which stays opaque here.
pub assume_specification[ <DynamicPlaylistChangeSet as Clone>::clone ](
    c: &DynamicPlaylistChangeSet,
) -> DynamicPlaylistChangeSet;

#[derive(Debug, Clone, PartialEq)]
pub enum Action {
    /// General actions
    General(GeneralAction),
    /// Actions that affect the audio state store.
    Audio(AudioAction),
    /// Actions that affect the search state store.
    Search(String),
    /// Actions that affect the library state store.
    Library(LibraryAction),
    /// Actions that affect the current view.
    ActiveView(ViewAction),
    /// Actions regarding popups
    Popup(PopupAction),
    /// Actions regarding overlays
    Overlay(OverlayAction),
    /// Actions that change the active component
    ActiveComponent(ComponentAction),
}

#[derive(Debug, Clone, Copy, PartialEq, Eq, Structural)]
pub enum GeneralAction {
    /// Exit the application.
    Exit,
}

#[derive(Debug, Clone, PartialEq)]
pub enum AudioAction {
    /// Playback commands
    Playback(PlaybackAction),
    /// Queue commands
    Queue(QueueAction),
    /// State changes reported by the daemon
    StateChange(StateChange),
}

/// How a seek moves the play position.
#[derive(Debug, Clone, Copy, PartialEq, Eq, Structural)]
pub enum SeekType {
    Absolute,
    RelativeForwards,
    RelativeBackwards,
}

/// What the player does at the end of the queue.
#[derive(Debug, Clone, Copy, PartialEq, Eq, Structural)]
pub enum RepeatMode {
    /// No repeat
    Off,
    One,
    All,
}

/// Whether the player is playing.
#[derive(Debug, Clone, Copy, PartialEq, Eq, Structural)]
pub enum Status {
    Stopped,
    Paused,
    Playing,
}

/// A change of the player's state, as the daemon announces it.
///
/// The volume is held as the bit pattern of the daemon's `f32` volume and the
/// seek position as whole seconds and nanoseconds; the library never
/// computes with either.
#[derive(Debug, Clone, PartialEq)]
pub enum StateChange {
    Muted,
    Unmuted,
    VolumeChanged(u32),
    TrackChanged(Option<RecordId>),
    RepeatModeChanged(RepeatMode),
    Seeked(u64, u32),
    StatusChanged(Status),
    QueueChanged,
}

#[derive(Debug, Clone, PartialEq)]
pub enum PlaybackAction {
    /// Toggle play/pause
    Toggle,
    /// Skip to the next song.
    Next,
    /// Skip to the previous song.
    Previous,
    /// Seek by a number of nanoseconds.
    Seek(SeekType, u64),
    /// Change the volume.
    Volume(VolumeAction),
    /// Toggle the mute state.
    ToggleMute,
}

/// A volume change, in hundredths of the full volume (5 is 0.05).
#[derive(Debug, Clone, Copy, PartialEq, Eq, Structural)]
pub enum VolumeAction {
    Increase(u32),
    Decrease(u32),
}

#[derive(Debug, Clone, PartialEq, Eq)]
pub enum QueueAction {
    /// Add a list of things to the queue (by id)
    Add(Vec<RecordId>),
    /// Remove something from the queue (by index)
    Remove(u64),
    /// Set the current queue position
    SetPosition(u64),
    /// Shuffle the queue
    Shuffle,
    /// Clear the queue
    Clear,
    /// Set the repeat mode
    SetRepeatMode(RepeatMode),
}

#[derive(Debug, Clone, PartialEq)]
pub enum LibraryAction {
    /// Rescan the library
    Rescan,
    /// Tell the library store to get the latest library data
    Update,
    /// Analyze the library
    Analyze,
    /// Recluster the collections
    Recluster,
    /// Create a new playlist with the given name
    CreatePlaylist(String),
    /// Delete a playlist by id
    RemovePlaylist(RecordId),
    /// Rename a playlist by id
    RenamePlaylist(RecordId, String),
    /// Remove songs from a playlist (playlist id, song ids)
    RemoveSongsFromPlaylist(RecordId, Vec<RecordId>),
    /// Add a list of things to a playlist (playlist id, thing ids)
    AddThingsToPlaylist(RecordId, Vec<RecordId>),
    /// Create a playlist with the given name (if it doesn't exist) and add the things to it
    CreatePlaylistAndAddThings(String, Vec<RecordId>),
    /// Create a new dynamic playlist with the given name and query
    CreateDynamicPlaylist(String, Query),
    /// Delete a dynamic playlist by id
    RemoveDynamicPlaylist(RecordId),
    /// Update a dynamic playlist
    UpdateDynamicPlaylist(RecordId, DynamicPlaylistChangeSet),
}

#[derive(Debug, Clone, PartialEq, Eq)]
pub enum ViewAction {
    /// Open a view
    Open(ActiveView),
    /// Return to the previous view
    Back,
    /// Go forward again after going back
    Next,
}

#[derive(Debug, Clone, PartialEq, Eq)]
pub enum PopupAction {
    /// Open a popup
    Open(PopupType),
    /// Close the current popup
    Close,
}

#[derive(Debug, Clone, PartialEq, Eq)]
pub enum OverlayAction {
    /// Open an overlay
    Open(OverlayType),
    /// Close the overlay, reporting its result
    Commit(OverlayResult),
    /// Close the overlay without a result
    Close,
}

#[derive(Debug, Clone, Copy, PartialEq, Eq, Structural)]
pub enum ComponentAction {
    /// Move to the next component
    Next,
    /// Move to the previous component
    Previous,
    /// Focus the given component
    Focus(ActiveComponent),
}

} // verus!
