//! The content view shows the current view (the songs in a playlist, the
//! search results, ...).
pub mod views;

use vstd::prelude::*;

use crate::state::action::{Action, ComponentAction, ViewAction};
use crate::state::component::ActiveComponent;
use crate::state::library::{RecordId, Ulid};
use crate::ui::events::{KeyCode, KeyEvent, MouseButton, MouseEvent, MouseEventKind};
use crate::ui::layout::{Position, Rect};

verus! {

/// The view shown in the content area.
#[derive(Debug, PartialEq, Eq)]
pub enum ActiveView {
    /// Blank view.
    Blank,
    /// A search bar and the search results.
    Search,
    /// All the songs in the library.
    Songs,
    /// One song.
    Song(Ulid),
    /// All the albums in the library.
    Albums,
    /// One album.
    Album(Ulid),
    /// All the artists in the library.
    Artists,
    /// One artist.
    Artist(Ulid),
    /// All the playlists in the library.
    Playlists,
    /// One playlist.
    Playlist(Ulid),
    /// All the dynamic playlists in the library.
    DynamicPlaylists,
    /// One dynamic playlist.
    DynamicPlaylist(Ulid),
    /// All the collections in the library.
    Collections,
    /// One collection.
    Collection(Ulid),
    /// A radio of songs similar to the given things.
    Radio(Vec<RecordId>),
    /// Random songs, albums and artists.
    Random,
}

/// The mathematical value of an [`ActiveView`]: the same view, with the
/// things of a radio as a sequence.
pub enum ActiveViewV {
    Blank,
    Search,
    Songs,
    Song(Ulid),
    Albums,
    Album(Ulid),
    Artists,
    Artist(Ulid),
    Playlists,
    Playlist(Ulid),
    DynamicPlaylists,
    DynamicPlaylist(Ulid),
    Collections,
    Collection(Ulid),
    Radio(Seq<RecordId>),
    Random,
}

impl View for ActiveView {
    type V = ActiveViewV;

    open spec fn view(&self) -> ActiveViewV {
        match self {
            ActiveView::Blank => ActiveViewV::Blank,
            ActiveView::Search => ActiveViewV::Search,
            ActiveView::Songs => ActiveViewV::Songs,
            ActiveView::Song(k) => ActiveViewV::Song(*k),
            ActiveView::Albums => ActiveViewV::Albums,
            ActiveView::Album(k) => ActiveViewV::Album(*k),
            ActiveView::Artists => ActiveViewV::Artists,
            ActiveView::Artist(k) => ActiveViewV::Artist(*k),
            ActiveView::Playlists => ActiveViewV::Playlists,
            ActiveView::Playlist(k) => ActiveViewV::Playlist(*k),
            ActiveView::DynamicPlaylists => ActiveViewV::DynamicPlaylists,
            ActiveView::DynamicPlaylist(k) => ActiveViewV::DynamicPlaylist(*k),
            ActiveView::Collections => ActiveViewV::Collections,
            ActiveView::Collection(k) => ActiveViewV::Collection(*k),
            ActiveView::Radio(ids) => ActiveViewV::Radio(ids@),
            ActiveView::Random => ActiveViewV::Random,
        }
    }
}

impl Clone for ActiveView {
    fn clone(&self) -> (r: Self)
        ensures
            r@ == self@,
    {
        match self {
            ActiveView::Blank => ActiveView::Blank,
            ActiveView::Search => ActiveView::Search,
            ActiveView::Songs => ActiveView::Songs,
            ActiveView::Song(k) => ActiveView::Song(k.clone()),
            ActiveView::Albums => ActiveView::Albums,
            ActiveView::Album(k) => ActiveView::Album(k.clone()),
            ActiveView::Artists => ActiveView::Artists,
            ActiveView::Artist(k) => ActiveView::Artist(k.clone()),
            ActiveView::Playlists => ActiveView::Playlists,
            ActiveView::Playlist(k) => ActiveView::Playlist(k.clone()),
            ActiveView::DynamicPlaylists => ActiveView::DynamicPlaylists,
            ActiveView::DynamicPlaylist(k) => ActiveView::DynamicPlaylist(k.clone()),
            ActiveView::Collections => ActiveView::Collections,
            ActiveView::Collection(k) => ActiveView::Collection(k.clone()),
            ActiveView::Radio(ids) => {
                let copy = ids.clone();
                assert(copy@ =~= ids@);
                ActiveView::Radio(copy)
            },
            ActiveView::Random => ActiveView::Random,
        }
    }
}

impl Default for ActiveView {
    fn default() -> (r: Self)
        ensures
            r is Blank,
    {
        ActiveView::Blank
    }
}

/// Whether text `s` is `lit`.
pub fn text_is(s: &String, lit: &str) -> (r: bool)
    ensures
        r == (s@ == lit@),
{
    let owned = lit.to_owned();
    *s == owned
}

/// The view that shows the record `id`, chosen by its table.
pub open spec fn spec_view_of(id: RecordId) -> ActiveView {
    let key = Ulid { id: id.id };
    if id.tb@ == "album"@ {
        ActiveView::Album(key)
    } else if id.tb@ == "artist"@ {
        ActiveView::Artist(key)
    } else if id.tb@ == "collection"@ {
        ActiveView::Collection(key)
    } else if id.tb@ == "playlist"@ {
        ActiveView::Playlist(key)
    } else if id.tb@ == "song"@ {
        ActiveView::Song(key)
    } else if id.tb@ == "dynamic"@ {
        ActiveView::DynamicPlaylist(key)
    } else {
        ActiveView::Blank
    }
}

impl vstd::std_specs::convert::FromSpecImpl<RecordId> for ActiveView {
    open spec fn obeys_from_spec() -> bool {
        true
    }

    open spec fn from_spec(v: RecordId) -> ActiveView {
        spec_view_of(v)
    }
}

impl From<RecordId> for ActiveView {
    /// The view that shows the record `value`.
    fn from(value: RecordId) -> (r: Self)
        ensures
            r == spec_view_of(value),
    {
        let key = Ulid { id: value.id };
        if text_is(&value.tb, "album") {
            ActiveView::Album(key)
        } else if text_is(&value.tb, "artist") {
            ActiveView::Artist(key)
        } else if text_is(&value.tb, "collection") {
            ActiveView::Collection(key)
        } else if text_is(&value.tb, "playlist") {
            ActiveView::Playlist(key)
        } else if text_is(&value.tb, "song") {
            ActiveView::Song(key)
        } else if text_is(&value.tb, "dynamic") {
            ActiveView::DynamicPlaylist(key)
        } else {
            ActiveView::Blank
        }
    }
}

/// Which of the content view's views shows an active view.
#[derive(Debug, Clone, Copy, PartialEq, Eq, Structural)]
pub enum ViewKind {
    Blank,
    Search,
    Songs,
    Song,
    Albums,
    Album,
    Artists,
    Artist,
    Playlists,
    Playlist,
    DynamicPlaylists,
    DynamicPlaylist,
    Collections,
    Collection,
    Radio,
    Random,
}

/// The view that shows `v`.
pub open spec fn spec_view_kind(v: ActiveView) -> ViewKind {
    match v {
        ActiveView::Blank => ViewKind::Blank,
        ActiveView::Search => ViewKind::Search,
        ActiveView::Songs => ViewKind::Songs,
        ActiveView::Song(_) => ViewKind::Song,
        ActiveView::Albums => ViewKind::Albums,
        ActiveView::Album(_) => ViewKind::Album,
        ActiveView::Artists => ViewKind::Artists,
        ActiveView::Artist(_) => ViewKind::Artist,
        ActiveView::Playlists => ViewKind::Playlists,
        ActiveView::Playlist(_) => ViewKind::Playlist,
        ActiveView::DynamicPlaylists => ViewKind::DynamicPlaylists,
        ActiveView::DynamicPlaylist(_) => ViewKind::DynamicPlaylist,
        ActiveView::Collections => ViewKind::Collections,
        ActiveView::Collection(_) => ViewKind::Collection,
        ActiveView::Radio(_) => ViewKind::Radio,
        ActiveView::Random => ViewKind::Random,
    }
}

/// What a mouse event on the content view does.
#[derive(Debug, Clone, PartialEq)]
pub struct ContentMouse {
    /// The action the content view itself sends, if any.
    pub action: Option<Action>,
    /// Whether the active view gets the event too.
    pub defer: bool,
}

/// The content view: it shows the active view, and hands it the keys and
/// clicks it does not take itself.
#[derive(Debug)]
pub struct ContentView {
    pub active_view: ActiveView,
}

impl ContentView {
    pub fn new(active_view: ActiveView) -> (r: Self)
        ensures
            r.active_view == active_view,
    {
        ContentView { active_view }
    }

    /// The content view showing the current active view.
    pub fn move_with_state(self, active_view: ActiveView) -> (r: Self)
        ensures
            r.active_view == active_view,
    {
        ContentView { active_view }
    }

    /// The view that shows the active view.
    pub fn view_kind(&self) -> (r: ViewKind)
        ensures
            r == spec_view_kind(self.active_view),
    {
        match &self.active_view {
            ActiveView::Blank => ViewKind::Blank,
            ActiveView::Search => ViewKind::Search,
            ActiveView::Songs => ViewKind::Songs,
            ActiveView::Song(_) => ViewKind::Song,
            ActiveView::Albums => ViewKind::Albums,
            ActiveView::Album(_) => ViewKind::Album,
            ActiveView::Artists => ViewKind::Artists,
            ActiveView::Artist(_) => ViewKind::Artist,
            ActiveView::Playlists => ViewKind::Playlists,
            ActiveView::Playlist(_) => ViewKind::Playlist,
            ActiveView::DynamicPlaylists => ViewKind::DynamicPlaylists,
            ActiveView::DynamicPlaylist(_) => ViewKind::DynamicPlaylist,
            ActiveView::Collections => ViewKind::Collections,
            ActiveView::Collection(_) => ViewKind::Collection,
            ActiveView::Radio(_) => ViewKind::Radio,
            ActiveView::Random => ViewKind::Random,
        }
    }

    /// The keys the content view takes itself: control-z goes back to the
    /// previous view and control-y forward again (control alone, no other
    /// modifier). Other keys go to the active view (`None`).
    pub fn handle_key_event(&self, key: KeyEvent) -> (r: Option<Action>)
        ensures
            r == if key.code == KeyCode::Char('z') && key.modifiers.bits == 2 {
                Some(Action::ActiveView(ViewAction::Back))
            } else if key.code == KeyCode::Char('y') && key.modifiers.bits == 2 {
                Some(Action::ActiveView(ViewAction::Next))
            } else {
                None
            },
    {
        if key.code == KeyCode::Char('z') && key.modifiers.bits == 2 {
            Some(Action::ActiveView(ViewAction::Back))
        } else if key.code == KeyCode::Char('y') && key.modifiers.bits == 2 {
            Some(Action::ActiveView(ViewAction::Next))
        } else {
            None
        }
    }

    /// What a mouse event does: a left click in the area focuses the
    /// content view and also goes to the active view; a right click in the
    /// area goes back to the previous view, and nothing else; other events
    /// go to the active view.
    pub fn handle_mouse_event(&self, mouse: MouseEvent, area: Rect) -> (r: ContentMouse)
        ensures
            ({
                let inside = area.spec_contains(Position { x: mouse.column, y: mouse.row });
                r == if inside && mouse.kind == MouseEventKind::Down(MouseButton::Left) {
                    ContentMouse {
                        action: Some(Action::ActiveComponent(ComponentAction::Focus(ActiveComponent::ContentView))),
                        defer: true,
                    }
                } else if inside && mouse.kind == MouseEventKind::Down(MouseButton::Right) {
                    ContentMouse { action: Some(Action::ActiveView(ViewAction::Back)), defer: false }
                } else {
                    ContentMouse { action: None, defer: true }
                }
            }),
    {
        let inside = area.contains(Position::new(mouse.column, mouse.row));
        if inside && mouse.kind == MouseEventKind::Down(MouseButton::Left) {
            ContentMouse {
                action: Some(Action::ActiveComponent(ComponentAction::Focus(ActiveComponent::ContentView))),
                defer: true,
            }
        } else if inside && mouse.kind == MouseEventKind::Down(MouseButton::Right) {
            ContentMouse { action: Some(Action::ActiveView(ViewAction::Back)), defer: false }
        } else {
            ContentMouse { action: None, defer: true }
        }
    }
}

} // verus!
