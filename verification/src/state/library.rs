//! The library items the interface shows, and the decisions of the library
//! store: which requests change the library and so call for a fresh copy.
use vstd::prelude::*;

use mecomp_storage::db::schemas::dynamic::{DynamicPlaylistChangeSet, query::Query};

use super::action::LibraryAction;

verus! {

/// The id of a record in the daemon's database: a table name and a key.
#[derive(Debug, PartialEq, Eq, Hash)]
pub struct RecordId {
    pub tb: String,
    pub id: String,
}

impl Clone for RecordId {
    fn clone(&self) -> (r: Self)
        ensures
            r == *self,
    {
        RecordId { tb: self.tb.clone(), id: self.id.clone() }
    }
}

/// The key part of a record id.
#[derive(Debug, PartialEq, Eq, Hash)]
pub struct Ulid {
    pub id: String,
}

impl Clone for Ulid {
    fn clone(&self) -> (r: Self)
        ensures
            r == *self,
    {
        Ulid { id: self.id.clone() }
    }
}

impl RecordId {
    pub fn new(tb: String, id: String) -> (r: Self)
        ensures
            r == (RecordId { tb, id }),
    {
        RecordId { tb, id }
    }

    /// The key of the record, without its table.
    pub fn ulid(&self) -> (r: Ulid)
        ensures
            r == (Ulid { id: self.id }),
    {
        Ulid { id: self.id.clone() }
    }

    /// The record id written as `table:key`.
    pub open spec fn spec_text(&self) -> Seq<char> {
        self.tb@ + seq![':'] + self.id@
    }

    /// The record id written as `table:key`.
    pub fn to_string(&self) -> (r: String)
        ensures
            r@ == self.spec_text(),
    {
        let mut s = self.tb.clone();
        s.append(":");
        s.append(self.id.as_str());
        proof {
            reveal_strlit(":");
        }
        s
    }
}

/// A song, as the library lists it.
#[derive(Debug, Clone, PartialEq, Eq)]
pub struct SongBrief {
    pub id: RecordId,
    pub title: String,
    pub artists: Vec<String>,
    pub album_artists: Vec<String>,
    pub album: String,
    pub genres: Vec<String>,
    pub release_year: Option<u32>,
}

/// An album, as the library lists it.
#[derive(Debug, Clone, PartialEq, Eq)]
pub struct AlbumBrief {
    pub id: RecordId,
    pub title: String,
    pub artists: Vec<String>,
    pub release: Option<u32>,
}

/// An artist, as the library lists it.
#[derive(Debug, Clone, PartialEq, Eq)]
pub struct ArtistBrief {
    pub id: RecordId,
    pub name: String,
}

/// A playlist, as the library lists it.
#[derive(Debug, Clone, PartialEq, Eq)]
pub struct PlaylistBrief {
    pub id: RecordId,
    pub name: String,
}

/// A collection, as the library lists it.
#[derive(Debug, Clone, PartialEq, Eq)]
pub struct CollectionBrief {
    pub id: RecordId,
    pub name: String,
}

/// A dynamic playlist: a named query over the library.
#[derive(Debug, PartialEq, Eq)]
pub struct DynamicPlaylist {
    pub id: RecordId,
    pub name: String,
    pub query: String,
}

impl Clone for DynamicPlaylist {
    fn clone(&self) -> (r: Self)
        ensures
            r == *self,
    {
        DynamicPlaylist { id: self.id.clone(), name: self.name.clone(), query: self.query.clone() }
    }
}

/// A running time: whole seconds and nanoseconds.
#[derive(Debug, Clone, Copy, PartialEq, Eq, Structural)]
pub struct Runtime {
    pub secs: u64,
    pub nanos: u32,
}

/// What the album view shows of an album beyond its brief: how many songs
/// it has and how long they run.
#[derive(Debug, Clone, Copy, PartialEq, Eq, Structural)]
pub struct AlbumDetails {
    pub song_count: u64,
    pub runtime: Runtime,
}

/// What the artist view shows of an artist beyond its brief.
#[derive(Debug, Clone, Copy, PartialEq, Eq, Structural)]
pub struct ArtistDetails {
    pub album_count: u64,
    pub song_count: u64,
    pub runtime: Runtime,
}

/// What the song view shows of a song beyond its brief.
#[derive(Debug, Clone, Copy, PartialEq, Eq, Structural)]
pub struct SongDetails {
    pub track: Option<u32>,
    pub disc: Option<u32>,
    pub runtime: Runtime,
}

/// A summary of the whole library.
#[derive(Debug, Clone, PartialEq, Eq, Default)]
pub struct LibraryBrief {
    pub artists: Vec<ArtistBrief>,
    pub albums: Vec<AlbumBrief>,
    pub songs: Vec<SongBrief>,
    pub playlists: Vec<PlaylistBrief>,
    pub collections: Vec<CollectionBrief>,
    pub dynamic_playlists: Vec<DynamicPlaylist>,
}

/// Library requests after which the store fetches a fresh copy of the
/// library: all but the long-running rescan, analysis and reclustering,
/// whose completion the daemon announces by itself.
pub open spec fn spec_needs_refresh(action: LibraryAction) -> bool {
    !(action is Rescan || action is Analyze || action is Recluster)
}

/// The library store: decides what a library request leads to.
#[derive(Debug, Clone, Copy)]
pub struct LibraryState;

impl LibraryState {
    /// Whether the store sends a fresh copy of the library once the request
    /// `action` has been carried out.
    pub fn needs_refresh(action: &LibraryAction) -> (r: bool)
        ensures
            r == spec_needs_refresh(*action),
    {
        match action {
            LibraryAction::Rescan | LibraryAction::Analyze | LibraryAction::Recluster => false,
            _ => true,
        }
    }

    /// Whether a failed long-running request (rescan, analysis,
    /// reclustering) is an error: it is not when the daemon aborted it
    /// because one is already in progress.
    pub fn is_failure(aborted_because_running: bool) -> (r: bool)
        ensures
            r == !aborted_because_running,
    {
        !aborted_because_running
    }
}

/// A request to the daemon's library.
#[derive(Debug, Clone, PartialEq)]
pub enum LibraryRequest {
    Rescan,
    /// Analyze the songs; the flag asks to redo those analyzed before.
    Analyze(bool),
    Recluster,
    /// Get the playlist of this name, creating it if there is none.
    PlaylistGetOrCreate(String),
    PlaylistRemove(RecordId),
    PlaylistRename(RecordId, String),
    PlaylistRemoveSongs(RecordId, Vec<RecordId>),
    PlaylistAddList(RecordId, Vec<RecordId>),
    /// Get or create the playlist of this name, then add the things to it.
    PlaylistGetOrCreateAndAdd(String, Vec<RecordId>),
    DynamicPlaylistCreate(String, Query),
    DynamicPlaylistRemove(RecordId),
    DynamicPlaylistUpdate(RecordId, DynamicPlaylistChangeSet),
}

/// The request a library action becomes; none for a plain refresh. An
/// analysis leaves the songs analyzed before as they are.
pub open spec fn spec_library_request(action: LibraryAction) -> Option<LibraryRequest> {
    match action {
        LibraryAction::Rescan => Some(LibraryRequest::Rescan),
        LibraryAction::Update => None,
        LibraryAction::Analyze => Some(LibraryRequest::Analyze(false)),
        LibraryAction::Recluster => Some(LibraryRequest::Recluster),
        LibraryAction::CreatePlaylist(name) => Some(LibraryRequest::PlaylistGetOrCreate(name)),
        LibraryAction::RemovePlaylist(id) => Some(LibraryRequest::PlaylistRemove(id)),
        LibraryAction::RenamePlaylist(id, name) => Some(LibraryRequest::PlaylistRename(id, name)),
        LibraryAction::RemoveSongsFromPlaylist(id, songs) => Some(LibraryRequest::PlaylistRemoveSongs(id, songs)),
        LibraryAction::AddThingsToPlaylist(id, things) => Some(LibraryRequest::PlaylistAddList(id, things)),
        LibraryAction::CreatePlaylistAndAddThings(name, things) => Some(
            LibraryRequest::PlaylistGetOrCreateAndAdd(name, things),
        ),
        LibraryAction::CreateDynamicPlaylist(name, query) => Some(LibraryRequest::DynamicPlaylistCreate(name, query)),
        LibraryAction::RemoveDynamicPlaylist(id) => Some(LibraryRequest::DynamicPlaylistRemove(id)),
        LibraryAction::UpdateDynamicPlaylist(id, changes) => Some(
            LibraryRequest::DynamicPlaylistUpdate(id, changes),
        ),
    }
}

impl LibraryState {
    /// The request a library action becomes (see [`spec_library_request`]).
    pub fn request(action: LibraryAction) -> (r: Option<LibraryRequest>)
        ensures
            r == spec_library_request(action),
            action matches LibraryAction::RemoveSongsFromPlaylist(id, songs) ==> r == Some(
                LibraryRequest::PlaylistRemoveSongs(id, songs),
            ),
            r matches Some(LibraryRequest::PlaylistRemove(id)) ==> action == LibraryAction::RemovePlaylist(id),
    {
        match action {
            LibraryAction::Rescan => Some(LibraryRequest::Rescan),
            LibraryAction::Update => None,
            LibraryAction::Analyze => Some(LibraryRequest::Analyze(false)),
            LibraryAction::Recluster => Some(LibraryRequest::Recluster),
            LibraryAction::CreatePlaylist(name) => Some(LibraryRequest::PlaylistGetOrCreate(name)),
            LibraryAction::RemovePlaylist(id) => Some(LibraryRequest::PlaylistRemove(id)),
            LibraryAction::RenamePlaylist(id, name) => Some(LibraryRequest::PlaylistRename(id, name)),
            LibraryAction::RemoveSongsFromPlaylist(id, songs) => Some(LibraryRequest::PlaylistRemoveSongs(id, songs)),
            LibraryAction::AddThingsToPlaylist(id, things) => Some(LibraryRequest::PlaylistAddList(id, things)),
            LibraryAction::CreatePlaylistAndAddThings(name, things) => Some(
                LibraryRequest::PlaylistGetOrCreateAndAdd(name, things),
            ),
            LibraryAction::CreateDynamicPlaylist(name, query) => Some(
                LibraryRequest::DynamicPlaylistCreate(name, query),
            ),
            LibraryAction::RemoveDynamicPlaylist(id) => Some(LibraryRequest::DynamicPlaylistRemove(id)),
            LibraryAction::UpdateDynamicPlaylist(id, changes) => Some(
                LibraryRequest::DynamicPlaylistUpdate(id, changes),
            ),
        }
    }
}

/// Removing songs from a playlist asks to remove those songs from that
/// playlist, and only removing a playlist asks to remove a whole playlist.
/// More generally, the request keeps all of the action's data: different
/// actions never become the same request.
pub proof fn lemma_requests_keep_the_action(action: LibraryAction, other: LibraryAction)
    ensures
        action matches LibraryAction::RemoveSongsFromPlaylist(id, songs) ==> spec_library_request(action) == Some(
            LibraryRequest::PlaylistRemoveSongs(id, songs),
        ),
        spec_library_request(action) matches Some(LibraryRequest::PlaylistRemove(id)) ==> action
            == LibraryAction::RemovePlaylist(id),
        spec_library_request(action) is Some && spec_library_request(action) == spec_library_request(other)
            ==> action == other,
{
}

/// The only library action that asks the daemon for nothing is the plain
/// refresh, and it always leads to a fresh copy of the library; the
/// long-running tasks never do, as the daemon announces when they finish.
pub proof fn lemma_refresh_without_request(action: LibraryAction)
    ensures
        spec_library_request(action) is None <==> action is Update,
        action is Update ==> spec_needs_refresh(action),
        (action is Rescan || action is Analyze || action is Recluster) ==> !spec_needs_refresh(action),
{
}

} // verus!
