use mecomp_tui::state::action::{Action, AudioAction, LibraryAction, PopupAction, QueueAction, ViewAction};
use mecomp_tui::state::library::{
    AlbumBrief, AlbumDetails, ArtistBrief, CollectionBrief, PlaylistBrief, RecordId, Runtime, SongBrief, Ulid,
};
use mecomp_tui::ui::components::content_view::ActiveView;
use mecomp_tui::ui::components::content_view::views::album::{AlbumView, LibraryAlbumsView, SortMode as AlbumMode};
use mecomp_tui::ui::components::content_view::views::artist::LibraryArtistsView;
use mecomp_tui::ui::components::content_view::views::checktree_utils::{TreeMouse, tree_click_action};
use mecomp_tui::ui::components::content_view::views::collection::LibraryCollectionsView;
use mecomp_tui::ui::components::content_view::views::keys::{KeyOutcome, MouseOutcome, TreeCommand, open_action};
use mecomp_tui::ui::components::content_view::views::none::NoneView;
use mecomp_tui::ui::components::content_view::views::playlist::{
    LibraryPlaylistsView, PlaylistView, SortMode as PlaylistMode,
};
use mecomp_tui::ui::components::content_view::views::radio::RadioView;
use mecomp_tui::ui::components::content_view::views::song::LibrarySongsView;
use mecomp_tui::ui::components::content_view::views::sort_mode::SongSort;
use mecomp_tui::ui::components::content_view::views::{AlbumViewProps, PlaylistViewProps, RadioViewProps};
use mecomp_tui::ui::events::{KeyCode, KeyEvent, KeyModifiers, MouseButton, MouseEvent, MouseEventKind};
use mecomp_tui::ui::layout::{Position, Rect};
use mecomp_tui::ui::widgets::popups::PopupType;

fn item_id() -> String {
    "01J1K5B6RJ84WJXCWYJ5WNE12E".to_string()
}

fn rid(table: &str) -> RecordId {
    RecordId::new(table.to_string(), item_id())
}

fn key() -> Ulid {
    Ulid { id: item_id() }
}

fn song(id: &str, title: &str, artist: &str, album: &str) -> SongBrief {
    SongBrief {
        id: RecordId::new("song".to_string(), id.to_string()),
        title: title.into(),
        artists: vec![artist.to_string()],
        album_artists: vec![artist.to_string()],
        album: album.into(),
        genres: vec!["Test Genre".to_string()],
        release_year: Some(2021),
    }
}

fn song_brief() -> SongBrief {
    song(&item_id(), "Test Song", "Test Artist", "Test Album")
}

fn album_brief() -> AlbumBrief {
    AlbumBrief { id: rid("album"), title: "Test Album".into(), artists: vec!["Test Artist".into()], release: Some(2021) }
}

fn album(id: &str, title: &str, artist: &str, release: Option<u32>) -> AlbumBrief {
    AlbumBrief {
        id: RecordId::new("album".to_string(), id.to_string()),
        title: title.into(),
        artists: vec![artist.to_string()],
        release,
    }
}

fn press(code: KeyCode) -> KeyEvent {
    KeyEvent::from(code)
}

fn left_click(column: u16, row: u16) -> MouseEvent {
    MouseEvent { kind: MouseEventKind::Down(MouseButton::Left), column, row, modifiers: KeyModifiers::empty() }
}

fn open(view: ActiveView) -> Action {
    Action::ActiveView(ViewAction::Open(view))
}

fn queue(ids: Vec<RecordId>) -> KeyOutcome {
    KeyOutcome::Send(Action::Audio(AudioAction::Queue(QueueAction::Add(ids))))
}

fn radio(ids: Vec<RecordId>) -> KeyOutcome {
    KeyOutcome::Send(open(ActiveView::Radio(ids)))
}

fn to_playlist(ids: Vec<RecordId>) -> KeyOutcome {
    KeyOutcome::Send(Action::Popup(PopupAction::Open(PopupType::Playlist(ids))))
}

// ---- library songs ----

#[test]
fn song_test_new() {
    let view = LibrarySongsView::new(vec![song_brief()]);
    assert_eq!(view.name(), "Library Songs View");
    assert_eq!(view.props.items, vec![song_brief()]);
    assert_eq!(view.props.sort_mode, SongSort::Artist);
}

#[test]
fn song_test_move_with_state() {
    let view = LibrarySongsView::new(vec![]).move_with_state(vec![song_brief()]);
    assert_eq!(view.props.items, vec![song_brief()]);
    assert!(LibrarySongsView::keeps_tree(&ActiveView::Songs));
    assert!(!LibrarySongsView::keeps_tree(&ActiveView::Albums));
}

#[test]
fn song_test_sort_keys() {
    let mut view = LibrarySongsView::new(vec![song_brief()]);
    let expected = [
        SongSort::Album,
        SongSort::AlbumArtist,
        SongSort::Genre,
        SongSort::Title,
        SongSort::Artist,
    ];
    for mode in expected {
        assert_eq!(
            view.handle_key_event(press(KeyCode::Char('s')), None, vec![]),
            KeyOutcome::Tree(TreeCommand::ScrollSelectedIntoView)
        );
        assert_eq!(view.props.sort_mode, mode);
    }
    for mode in [SongSort::Title, SongSort::Genre, SongSort::AlbumArtist, SongSort::Album, SongSort::Artist] {
        view.handle_key_event(press(KeyCode::Char('S')), None, vec![]);
        assert_eq!(view.props.sort_mode, mode);
    }
}

#[test]
fn song_sort_orders_the_songs() {
    let b = song("b", "The Beta", "Zed", "Alpha");
    let a = song("a", "alpha", "Ann", "Zulu");
    let mut view = LibrarySongsView::new(vec![b.clone(), a.clone()]);
    // by artist: Ann before Zed
    assert_eq!(view.props.items, vec![a.clone(), b.clone()]);
    // by album: Alpha before Zulu
    view.handle_key_event(press(KeyCode::Char('s')), None, vec![]);
    assert_eq!(view.props.items, vec![b.clone(), a.clone()]);
    // by title (after album artist and genre): "alpha" before "The Beta" (the "the " is skipped)
    view.handle_key_event(press(KeyCode::Char('S')), None, vec![]);
    view.handle_key_event(press(KeyCode::Char('S')), None, vec![]);
    assert_eq!(view.props.sort_mode, SongSort::Title);
    assert_eq!(view.props.items, vec![a, b]);
}

#[test]
fn song_smoke_navigation() {
    let mut view = LibrarySongsView::new(vec![song_brief()]);
    assert_eq!(view.handle_key_event(press(KeyCode::Up), None, vec![]), KeyOutcome::Tree(TreeCommand::Up));
    assert_eq!(
        view.handle_key_event(press(KeyCode::PageUp), None, vec![]),
        KeyOutcome::Tree(TreeCommand::SelectIndex(0))
    );
    assert_eq!(view.handle_key_event(press(KeyCode::Down), None, vec![]), KeyOutcome::Tree(TreeCommand::Down));
    assert_eq!(
        view.handle_key_event(press(KeyCode::PageDown), Some(3), vec![]),
        KeyOutcome::Tree(TreeCommand::SelectIndex(13))
    );
    assert_eq!(view.handle_key_event(press(KeyCode::Left), None, vec![]), KeyOutcome::Tree(TreeCommand::Left));
    assert_eq!(view.handle_key_event(press(KeyCode::Right), None, vec![]), KeyOutcome::Tree(TreeCommand::Right));
}

#[test]
fn song_test_actions() {
    let mut view = LibrarySongsView::new(vec![song_brief()]);
    // nothing checked: q, r, p do nothing
    for c in ['q', 'r', 'p'] {
        assert_eq!(view.handle_key_event(press(KeyCode::Char(c)), Some(0), vec![]), KeyOutcome::Ignore);
    }
    // enter opens the selected song
    assert_eq!(
        view.handle_key_event(press(KeyCode::Enter), Some(0), vec![]),
        KeyOutcome::Tree(TreeCommand::OpenSelected)
    );
    assert_eq!(open_action(true, Some(rid("song"))), Some(open(ActiveView::Song(key()))));
    // space checks it; then q, r, p act on it
    assert_eq!(
        view.handle_key_event(press(KeyCode::Char(' ')), Some(0), vec![]),
        KeyOutcome::Tree(TreeCommand::ToggleCheck)
    );
    let checked = vec![rid("song")];
    assert_eq!(view.handle_key_event(press(KeyCode::Char('q')), Some(0), checked.clone()), queue(checked.clone()));
    assert_eq!(view.handle_key_event(press(KeyCode::Char('r')), Some(0), checked.clone()), radio(checked.clone()));
    assert_eq!(
        view.handle_key_event(press(KeyCode::Char('p')), Some(0), checked.clone()),
        to_playlist(checked)
    );
}

#[test]
fn song_test_mouse_event() {
    let view = LibrarySongsView::new(vec![song_brief()]);
    let area = Rect::new(0, 0, 60, 6);
    assert_eq!(
        view.handle_mouse_event(left_click(2, 2), area),
        MouseOutcome::Tree(TreeMouse::Click(Position::new(2, 2)), false)
    );
    // the title line is outside the tree
    assert_eq!(view.handle_mouse_event(left_click(2, 1), area), MouseOutcome::Ignore);
    let ctrl = KeyModifiers::control();
    assert_eq!(tree_click_action(ctrl, true, false, Some(rid("song"))), Some(open(ActiveView::Song(key()))));
    assert_eq!(tree_click_action(KeyModifiers::empty(), true, false, Some(rid("song"))), None);
}

#[test]
fn song_test_mouse() {
    let view = LibrarySongsView::new(vec![song_brief()]);
    let area = Rect::new(0, 0, 60, 6);
    // a click on the song checks it
    assert_eq!(
        view.handle_mouse_event(left_click(2, 2), area),
        MouseOutcome::Tree(TreeMouse::Click(Position::new(2, 2)), false)
    );
    assert_eq!(tree_click_action(KeyModifiers::empty(), true, false, Some(rid("song"))), None);
    // scrolling moves the selection
    let scroll = |kind| MouseEvent { kind, column: 2, row: 2, modifiers: KeyModifiers::empty() };
    assert_eq!(
        view.handle_mouse_event(scroll(MouseEventKind::ScrollDown), area),
        MouseOutcome::Tree(TreeMouse::ScrollDown, false)
    );
    assert_eq!(
        view.handle_mouse_event(scroll(MouseEventKind::ScrollUp), area),
        MouseOutcome::Tree(TreeMouse::ScrollUp, false)
    );
}

// ---- library albums ----

#[test]
fn album_test_sort_keys() {
    let mut view = LibraryAlbumsView::new(vec![album_brief()]);
    assert_eq!(view.props.sort_mode, AlbumMode::Artist);
    for mode in [AlbumMode::ReleaseYear, AlbumMode::Title, AlbumMode::Artist] {
        assert_eq!(view.handle_key_event(press(KeyCode::Char('s')), None, vec![]), KeyOutcome::Ignore);
        assert_eq!(view.props.sort_mode, mode);
    }
    for mode in [AlbumMode::Title, AlbumMode::ReleaseYear, AlbumMode::Artist] {
        view.handle_key_event(press(KeyCode::Char('S')), None, vec![]);
        assert_eq!(view.props.sort_mode, mode);
    }
}

#[test]
fn test_sort_albums() {
    let a = album("a", "A", "Zed", Some(2000));
    let b = album("b", "B", "Yann", Some(2010));
    let c = album("c", "C", "Xavier", None);
    let mut albums = vec![a.clone(), b.clone(), c.clone()];
    AlbumMode::Title.sort_albums(&mut albums);
    assert_eq!(albums, vec![a.clone(), b.clone(), c.clone()]);
    AlbumMode::Artist.sort_albums(&mut albums);
    assert_eq!(albums, vec![c.clone(), b.clone(), a.clone()]);
    AlbumMode::ReleaseYear.sort_albums(&mut albums);
    assert_eq!(albums, vec![b, a, c]);
}

#[test]
fn album_test_new() {
    let view = LibraryAlbumsView::new(vec![album_brief()]);
    assert_eq!(view.name(), "Library Albums View");
    assert_eq!(view.props.items, vec![album_brief()]);
    let moved = LibraryAlbumsView::new(vec![]).move_with_state(vec![album_brief()]);
    assert_eq!(moved.props.items, vec![album_brief()]);
}

#[test]
fn album_test_actions() {
    let props = AlbumViewProps {
        id: rid("album"),
        album: album_brief(),
        details: AlbumDetails { song_count: 1, runtime: Runtime { secs: 180, nanos: 0 } },
        artists: vec![ArtistBrief { id: rid("artist"), name: "Test Artist".into() }],
        songs: vec![song_brief()],
    };
    let view = AlbumView::new(Some(props));
    assert_eq!(view.name(), "Album View");
    // nothing checked: the whole album
    assert_eq!(view.handle_key_event(press(KeyCode::Char('q')), vec![]), Some(queue(vec![rid("album")])));
    assert_eq!(view.handle_key_event(press(KeyCode::Char('r')), vec![]), Some(radio(vec![rid("album")])));
    assert_eq!(view.handle_key_event(press(KeyCode::Char('p')), vec![]), Some(to_playlist(vec![rid("album")])));
    // the artist checked
    let checked = vec![rid("artist")];
    assert_eq!(view.handle_key_event(press(KeyCode::Char('q')), checked.clone()), Some(queue(checked.clone())));
    assert_eq!(
        view.handle_key_event(press(KeyCode::Enter), checked),
        Some(KeyOutcome::Tree(TreeCommand::OpenSelected))
    );
    // no album: nothing to act on
    let empty = AlbumView::new(None);
    assert_eq!(empty.handle_key_event(press(KeyCode::Char('q')), vec![]), Some(KeyOutcome::Ignore));
    // page keys are not this view's
    assert_eq!(empty.handle_key_event(press(KeyCode::PageUp), vec![]), None);
}

// ---- library artists ----

#[test]
fn artist_test_new() {
    let artists = vec![ArtistBrief { id: rid("artist"), name: "Test Artist".into() }];
    let view = LibraryArtistsView::new(artists.clone());
    assert_eq!(view.name(), "Library Artists View");
    assert_eq!(view.props.items, artists);
    assert!(LibraryArtistsView::keeps_tree(&ActiveView::Artists));
}

#[test]
fn artist_smoke_navigation() {
    // page up with nothing selected and no artist goes to the first line
    let mut view = LibraryArtistsView::new(vec![]);
    assert_eq!(
        view.handle_key_event(press(KeyCode::PageUp), None, vec![]),
        KeyOutcome::Tree(TreeCommand::SelectIndex(0))
    );
    assert_eq!(
        view.handle_key_event(press(KeyCode::PageUp), Some(15), vec![]),
        KeyOutcome::Tree(TreeCommand::SelectIndex(5))
    );
}

#[test]
fn artist_test_sort_keys() {
    let b = ArtistBrief { id: rid("artist"), name: "The Band".into() };
    let a = ArtistBrief { id: RecordId::new("artist".into(), "x".into()), name: "Abba".into() };
    let mut view = LibraryArtistsView::new(vec![b.clone(), a.clone()]);
    assert_eq!(view.props.items, vec![a.clone(), b.clone()]);
    assert_eq!(
        view.handle_key_event(press(KeyCode::Char('s')), None, vec![]),
        KeyOutcome::Tree(TreeCommand::ScrollSelectedIntoView)
    );
    assert_eq!(view.props.items, vec![a, b]);
}

#[test]
fn library_artists_test_actions() {
    let mut view = LibraryArtistsView::new(vec![ArtistBrief { id: rid("artist"), name: "Test Artist".into() }]);
    // navigate to the artist
    assert_eq!(view.handle_key_event(press(KeyCode::Down), None, vec![]), KeyOutcome::Tree(TreeCommand::Down));
    // nothing checked: p, r, q do nothing
    for c in ['p', 'r', 'q'] {
        assert_eq!(view.handle_key_event(press(KeyCode::Char(c)), Some(0), vec![]), KeyOutcome::Ignore);
    }
    // enter opens the artist
    assert_eq!(
        view.handle_key_event(press(KeyCode::Enter), Some(0), vec![]),
        KeyOutcome::Tree(TreeCommand::OpenSelected)
    );
    assert_eq!(open_action(true, Some(rid("artist"))), Some(open(ActiveView::Artist(key()))));
    // check it; then q, r, p act on it
    assert_eq!(
        view.handle_key_event(press(KeyCode::Char(' ')), Some(0), vec![]),
        KeyOutcome::Tree(TreeCommand::ToggleCheck)
    );
    let checked = vec![rid("artist")];
    assert_eq!(view.handle_key_event(press(KeyCode::Char('q')), Some(0), checked.clone()), queue(checked.clone()));
    assert_eq!(view.handle_key_event(press(KeyCode::Char('r')), Some(0), checked.clone()), radio(checked.clone()));
    assert_eq!(view.handle_key_event(press(KeyCode::Char('p')), Some(0), checked.clone()), to_playlist(checked));
}

#[test]
fn artist_test_mouse() {
    let view = LibraryArtistsView::new(vec![]);
    let area = Rect::new(0, 0, 60, 6);
    assert_eq!(
        view.handle_mouse_event(left_click(3, 3), area),
        MouseOutcome::Tree(TreeMouse::Click(Position::new(3, 3)), false)
    );
}

// ---- library collections ----

#[test]
fn collection_test_new() {
    let collections = vec![CollectionBrief { id: rid("collection"), name: "Collection 0".into() }];
    let view = LibraryCollectionsView::new(collections.clone());
    assert_eq!(view.name(), "Library Collections View");
    assert_eq!(view.props.items, collections);
}

#[test]
fn collection_test_sort_keys() {
    let b = CollectionBrief { id: rid("collection"), name: "Collection B".into() };
    let a = CollectionBrief { id: RecordId::new("collection".into(), "x".into()), name: "Collection A".into() };
    let mut view = LibraryCollectionsView::new(vec![b.clone(), a.clone()]);
    assert_eq!(view.props.items, vec![a.clone(), b.clone()]);
    // there is one sort mode: s and S keep the order
    for c in ['s', 'S'] {
        assert_eq!(
            view.handle_key_event(press(KeyCode::Char(c)), None),
            KeyOutcome::Tree(TreeCommand::ScrollSelectedIntoView)
        );
        assert_eq!(view.props.items, vec![a.clone(), b.clone()]);
    }
}

#[test]
fn collection_test_actions() {
    let collections = vec![CollectionBrief { id: rid("collection"), name: "Collection 0".into() }];
    let mut view = LibraryCollectionsView::new(collections);
    // collections cannot be checked
    assert_eq!(view.handle_key_event(press(KeyCode::Char(' ')), Some(0)), KeyOutcome::Ignore);
    assert_eq!(view.handle_key_event(press(KeyCode::Char('q')), Some(0)), KeyOutcome::Ignore);
    assert_eq!(view.handle_key_event(press(KeyCode::Enter), Some(0)), KeyOutcome::Tree(TreeCommand::OpenSelected));
    assert_eq!(open_action(true, Some(rid("collection"))), Some(open(ActiveView::Collection(key()))));
}

#[test]
fn collection_test_mouse_event() {
    let view = LibraryCollectionsView::new(vec![]);
    let area = Rect::new(0, 0, 60, 6);
    assert_eq!(
        view.handle_mouse_event(left_click(2, 2), area),
        MouseOutcome::Tree(TreeMouse::Click(Position::new(2, 2)), true)
    );
    // a plain click opens here
    assert_eq!(
        tree_click_action(KeyModifiers::empty(), true, true, Some(rid("collection"))),
        Some(open(ActiveView::Collection(key())))
    );
}

// ---- playlists ----

#[test]
fn playlist_test_new() {
    let props = PlaylistViewProps { id: rid("playlist"), playlist: PlaylistBrief { id: rid("playlist"), name: "Test Playlist".into() }, songs: vec![song_brief()] };
    let view = PlaylistView::new(Some(props.clone()));
    assert_eq!(view.name(), "Playlist View");
    assert_eq!(view.props, Some(props.clone()));
    let moved = PlaylistView::new(None).move_with_state(Some(props.clone()));
    assert_eq!(moved.props, Some(props));
}

#[test]
fn playlist_test_actions() {
    let props = PlaylistViewProps { id: rid("playlist"), playlist: PlaylistBrief { id: rid("playlist"), name: "Test Playlist".into() }, songs: vec![song_brief()] };
    let mut view = PlaylistView::new(Some(props));

    // nothing checked: the whole playlist
    assert_eq!(view.handle_key_event(press(KeyCode::Char('q')), None, vec![], None), queue(vec![rid("playlist")]));
    assert_eq!(view.handle_key_event(press(KeyCode::Char('r')), None, vec![], None), radio(vec![rid("playlist")]));
    assert_eq!(
        view.handle_key_event(press(KeyCode::Char('p')), None, vec![], None),
        to_playlist(vec![rid("playlist")])
    );
    // "d" with nothing checked or selected does nothing
    assert_eq!(view.handle_key_event(press(KeyCode::Char('d')), None, vec![], None), KeyOutcome::Ignore);

    // the song selected: enter opens it, "d" removes it
    assert_eq!(
        view.handle_key_event(press(KeyCode::Enter), Some(0), vec![], Some(rid("song"))),
        KeyOutcome::Tree(TreeCommand::OpenSelected)
    );
    assert_eq!(
        view.handle_key_event(press(KeyCode::Char('d')), Some(0), vec![], Some(rid("song"))),
        KeyOutcome::Send(Action::Library(LibraryAction::RemoveSongsFromPlaylist(rid("playlist"), vec![rid("song")])))
    );

    // the song checked
    let checked = vec![rid("song")];
    assert_eq!(view.handle_key_event(press(KeyCode::Char('q')), Some(0), checked.clone(), None), queue(checked.clone()));
    assert_eq!(view.handle_key_event(press(KeyCode::Char('r')), Some(0), checked.clone(), None), radio(checked.clone()));
    assert_eq!(
        view.handle_key_event(press(KeyCode::Char('p')), Some(0), checked.clone(), None),
        to_playlist(checked.clone())
    );
    assert_eq!(
        view.handle_key_event(press(KeyCode::Char('d')), Some(0), checked.clone(), None),
        KeyOutcome::Send(Action::Library(LibraryAction::RemoveSongsFromPlaylist(rid("playlist"), checked)))
    );
}

#[test]
fn playlist_test_sort_keys() {
    let mut view = LibraryPlaylistsView::new(vec![PlaylistBrief { id: rid("playlist"), name: "Test Playlist".into() }]);
    assert_eq!(view.props.sort_mode, PlaylistMode::Name);
    view.handle_key_event(press(KeyCode::Char('s')), None, None);
    assert_eq!(view.props.sort_mode, PlaylistMode::Name);
    view.handle_key_event(press(KeyCode::Char('S')), None, None);
    assert_eq!(view.props.sort_mode, PlaylistMode::Name);
}

#[test]
fn playlist_smoke_navigation() {
    let mut view = LibraryPlaylistsView::new(vec![PlaylistBrief { id: rid("playlist"), name: "Test Playlist".into() }]);
    assert_eq!(view.handle_key_event(press(KeyCode::Up), None, None), KeyOutcome::Tree(TreeCommand::Up));
    assert_eq!(
        view.handle_key_event(press(KeyCode::PageUp), None, None),
        KeyOutcome::Tree(TreeCommand::SelectIndex(0))
    );
    assert_eq!(view.handle_key_event(press(KeyCode::Char(' ')), None, None), KeyOutcome::Ignore);
}

#[test]
fn library_playlists_test_actions() {
    let mut view = LibraryPlaylistsView::new(vec![PlaylistBrief { id: rid("playlist"), name: "Test Playlist".into() }]);
    assert_eq!(view.name(), "Library Playlists View");

    assert_eq!(
        view.handle_key_event(press(KeyCode::Enter), Some(0), Some(rid("playlist"))),
        KeyOutcome::Tree(TreeCommand::OpenSelected)
    );
    assert_eq!(open_action(true, Some(rid("playlist"))), Some(open(ActiveView::Playlist(key()))));

    // new playlist
    view.handle_key_event(press(KeyCode::Char('n')), Some(0), None);
    assert!(view.input_box_visible);
    view.handle_key_event(press(KeyCode::Char('a')), Some(0), None);
    view.handle_key_event(press(KeyCode::Char('b')), Some(0), None);
    assert_eq!(
        view.handle_key_event(press(KeyCode::Enter), Some(0), None),
        KeyOutcome::Send(Action::Library(LibraryAction::CreatePlaylist("ab".to_string())))
    );
    assert!(!view.input_box_visible);

    // delete playlist
    assert_eq!(
        view.handle_key_event(press(KeyCode::Char('d')), Some(0), Some(rid("playlist"))),
        KeyOutcome::Send(Action::Library(LibraryAction::RemovePlaylist(rid("playlist"))))
    );
}

#[test]
fn library_playlists_empty_name_creates_nothing() {
    let mut view = LibraryPlaylistsView::new(vec![]);
    view.handle_key_event(press(KeyCode::Char('n')), None, None);
    assert_eq!(view.handle_key_event(press(KeyCode::Enter), None, None), KeyOutcome::Ignore);
    assert!(!view.input_box_visible);
}

// ---- radio and blank views ----

#[test]
fn radio_view_keys() {
    let view = RadioView::new(Some(RadioViewProps { count: 1, songs: vec![song_brief()] }));
    assert_eq!(view.name(), "Radio");
    assert_eq!(view.handle_key_event(press(KeyCode::Char('q')), None), queue(vec![rid("song")]));
    assert_eq!(view.handle_key_event(press(KeyCode::Char('p')), None), to_playlist(vec![rid("song")]));
    assert_eq!(
        view.handle_key_event(press(KeyCode::PageUp), None),
        KeyOutcome::Tree(TreeCommand::SelectIndex(0))
    );
    assert_eq!(view.handle_key_event(press(KeyCode::Char(' ')), None), KeyOutcome::Ignore);
    let empty = RadioView::new(None);
    assert_eq!(empty.handle_key_event(press(KeyCode::Char('q')), None), KeyOutcome::Ignore);
}

#[test]
fn none_view_does_nothing() {
    let view = NoneView::new();
    assert_eq!(view.name(), "None");
    assert_eq!(view.handle_key_event(press(KeyCode::Char('q'))), KeyOutcome::Ignore);
    assert_eq!(view.handle_mouse_event(left_click(1, 1), Rect::new(0, 0, 10, 10)), MouseOutcome::Ignore);
}
