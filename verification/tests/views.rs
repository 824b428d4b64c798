use mecomp_tui::state::action::{Action, AudioAction, LibraryAction, PopupAction, QueueAction, ViewAction};
use mecomp_tui::state::library::{
    AlbumBrief, AlbumDetails, ArtistBrief, ArtistDetails, CollectionBrief, DynamicPlaylist, LibraryBrief, PlaylistBrief,
    RecordId, Runtime, SongBrief, SongDetails, Ulid,
};
use mecomp_tui::state::search::SearchResult;
use mecomp_tui::ui::components::content_view::ActiveView;
use mecomp_tui::ui::components::content_view::views::album::AlbumView;
use mecomp_tui::ui::components::content_view::views::playlist::PlaylistView;
use mecomp_tui::ui::components::content_view::views::checktree_utils::{
    TreeMouse, first_record_id, get_selected_thing, tree_click_action, tree_mouse,
};
use mecomp_tui::ui::components::content_view::views::check_marks::{CheckMarks, clamp_line, position_of};
use mecomp_tui::ui::components::content_view::views::dynamic::{Focus, LibraryDynamicView};
use mecomp_tui::ui::components::content_view::views::generic::{ItemView, SortableItemView, item_tree_mouse};
use mecomp_tui::ui::components::content_view::views::keys::{KeyOutcome, MouseOutcome, TreeCommand, open_action};
use mecomp_tui::ui::components::content_view::views::random::{ItemType, RandomView};
use mecomp_tui::ui::components::content_view::views::search::SearchView;
use mecomp_tui::ui::components::content_view::views::sort_mode::SongSort;
use mecomp_tui::ui::components::content_view::views::{
    AlbumViewProps, ArtistViewProps, CollectionViewProps, DynamicPlaylistViewProps, PlaylistViewProps,
    RadioViewProps, RandomViewProps, SongViewProps, ViewData,
};
use mecomp_tui::ui::events::{KeyCode, KeyEvent, KeyModifiers, MouseButton, MouseEvent, MouseEventKind};
use mecomp_tui::ui::layout::{Position, Rect};
use mecomp_tui::ui::widgets::popups::PopupType;

fn item_id() -> String {
    "01J1K5B6RJ84WJXCWYJ5WNE12E".to_string()
}

fn rid(table: &str) -> RecordId {
    RecordId::new(table.to_string(), item_id())
}

fn key(id: &str) -> Ulid {
    Ulid { id: id.to_string() }
}

fn song_brief() -> SongBrief {
    SongBrief {
        id: rid("song"),
        title: "Test Song".into(),
        artists: vec!["Test Artist".to_string()],
        album_artists: vec!["Test Artist".to_string()],
        album: "Test Album".into(),
        genres: vec!["Test Genre".to_string()],
        release_year: Some(2021),
    }
}

fn album_brief() -> AlbumBrief {
    AlbumBrief {
        id: rid("album"),
        title: "Test Album".into(),
        artists: vec!["Test Artist".to_string()],
        release: Some(2021),
    }
}

fn artist_brief() -> ArtistBrief {
    ArtistBrief { id: rid("artist"), name: "Test Artist".into() }
}

fn playlist_brief() -> PlaylistBrief {
    PlaylistBrief { id: rid("playlist"), name: "Test Playlist".into() }
}

fn collection_brief() -> CollectionBrief {
    CollectionBrief { id: rid("collection"), name: "Collection 0".into() }
}

fn dynamic() -> DynamicPlaylist {
    DynamicPlaylist { id: rid("dynamic"), name: "Test Dynamic".into(), query: "title = \"Test Song\"".into() }
}

fn library() -> LibraryBrief {
    LibraryBrief {
        artists: vec![artist_brief()],
        albums: vec![album_brief()],
        songs: vec![song_brief()],
        playlists: vec![playlist_brief()],
        collections: vec![collection_brief()],
        dynamic_playlists: vec![dynamic()],
    }
}

fn random_props() -> RandomViewProps {
    RandomViewProps { album: rid("album"), artist: rid("artist"), song: rid("song") }
}

fn view_data() -> ViewData {
    ViewData {
        random: Some(random_props()),
        album: Some(AlbumViewProps {
            id: rid("album"),
            album: album_brief(),
            details: AlbumDetails { song_count: 1, runtime: Runtime { secs: 180, nanos: 0 } },
            artists: vec![artist_brief()],
            songs: vec![song_brief()],
        }),
        artist: Some(ArtistViewProps {
            id: rid("artist"),
            artist: artist_brief(),
            details: ArtistDetails { album_count: 1, song_count: 1, runtime: Runtime { secs: 180, nanos: 0 } },
            albums: vec![album_brief()],
            songs: vec![song_brief()],
        }),
        song: Some(SongViewProps {
            id: rid("song"),
            song: song_brief(),
            details: SongDetails { track: Some(1), disc: Some(1), runtime: Runtime { secs: 180, nanos: 0 } },
            artists: vec![artist_brief()],
            album: album_brief(),
            playlists: vec![playlist_brief()],
            collections: vec![collection_brief()],
        }),
        collection: Some(CollectionViewProps { id: rid("collection"), collection: collection_brief(), songs: vec![song_brief()] }),
        playlist: Some(PlaylistViewProps { id: rid("playlist"), playlist: playlist_brief(), songs: vec![song_brief()] }),
        dynamic_playlist: Some(DynamicPlaylistViewProps {
            id: rid("dynamic"),
            dynamic_playlist: dynamic(),
            songs: vec![song_brief()],
        }),
        radio: Some(RadioViewProps { count: 1, songs: vec![song_brief()] }),
    }
}

fn search_results() -> SearchResult {
    SearchResult { songs: vec![song_brief()], albums: vec![album_brief()], artists: vec![artist_brief()] }
}

fn press(code: KeyCode) -> KeyEvent {
    KeyEvent::from(code)
}

fn mouse(kind: MouseEventKind, column: u16, row: u16, modifiers: KeyModifiers) -> MouseEvent {
    MouseEvent { kind, column, row, modifiers }
}

fn left_click(column: u16, row: u16) -> MouseEvent {
    mouse(MouseEventKind::Down(MouseButton::Left), column, row, KeyModifiers::empty())
}

fn open(view: ActiveView) -> Action {
    Action::ActiveView(ViewAction::Open(view))
}

// ---- random view ----

#[test]
fn test_random_view_type_to_action() {
    let props = random_props();
    assert_eq!(ItemType::Album.to_action(&props), Some(open(ActiveView::Album(key(&item_id())))));
    assert_eq!(ItemType::Artist.to_action(&props), Some(open(ActiveView::Artist(key(&item_id())))));
    assert_eq!(ItemType::Song.to_action(&props), Some(open(ActiveView::Song(key(&item_id())))));
}

#[test]
fn test_random_view_type_display() {
    assert_eq!(ItemType::Album.to_string(), "Random Album");
    assert_eq!(ItemType::Artist.to_string(), "Random Artist");
    assert_eq!(ItemType::Song.to_string(), "Random Song");
}

#[test]
fn random_test_new() {
    let view = RandomView::new(view_data().random);
    assert_eq!(view.name(), "Random");
    assert!(view.props.is_some());
    assert_eq!(view.props, view_data().random);
}

#[test]
fn random_test_move_with_state() {
    let view = RandomView::new(None).move_with_state(view_data().random);
    assert!(view.props.is_some());
    assert_eq!(view.props, view_data().random);
}

#[test]
fn random_test_navigation_wraps() {
    let mut view = RandomView::new(view_data().random);
    view.handle_key_event(press(KeyCode::Up));
    assert_eq!(view.selected, Some(2));
    view.handle_key_event(press(KeyCode::Down));
    assert_eq!(view.selected, Some(0));
}

#[test]
fn random_test_actions() {
    let mut view = RandomView::new(view_data().random);
    view.handle_key_event(press(KeyCode::Down));
    assert_eq!(view.handle_key_event(press(KeyCode::Enter)), Some(open(ActiveView::Album(key(&item_id())))));
    view.handle_key_event(press(KeyCode::Down));
    assert_eq!(view.handle_key_event(press(KeyCode::Enter)), Some(open(ActiveView::Artist(key(&item_id())))));
    view.handle_key_event(press(KeyCode::Down));
    assert_eq!(view.handle_key_event(press(KeyCode::Enter)), Some(open(ActiveView::Song(key(&item_id())))));
}

#[test]
fn random_test_mouse() {
    let mut view = RandomView::new(view_data().random);
    let area = Rect::new(0, 0, 50, 6);
    let scroll_down = mouse(MouseEventKind::ScrollDown, 25, 1, KeyModifiers::empty());

    view.handle_mouse_event(scroll_down, area);
    assert_eq!(view.handle_mouse_event(left_click(25, 1), area), Some(open(ActiveView::Album(key(&item_id())))));

    view.handle_mouse_event(scroll_down, area);
    assert_eq!(view.handle_mouse_event(left_click(25, 2), area), Some(open(ActiveView::Artist(key(&item_id())))));

    assert_eq!(view.handle_mouse_event(left_click(25, 1), area), None);
    assert_eq!(view.handle_mouse_event(left_click(25, 1), area), Some(open(ActiveView::Album(key(&item_id())))));

    assert_eq!(view.handle_mouse_event(left_click(25, 3), area), None);
    assert_eq!(view.handle_mouse_event(left_click(25, 3), area), Some(open(ActiveView::Song(key(&item_id())))));

    view.handle_mouse_event(left_click(25, 4), area);
    assert_eq!(view.selected, None);
}

// ---- search view ----

#[test]
fn search_smoke_navigation() {
    let mut view = SearchView::new(SearchResult::default()).move_with_state(search_results());
    for code in [KeyCode::Up, KeyCode::PageUp, KeyCode::Down, KeyCode::PageDown, KeyCode::Left, KeyCode::Right] {
        view.handle_key_event(press(code), None, vec![]);
    }
    assert_eq!(
        view.handle_key_event(press(KeyCode::PageUp), None, vec![]),
        KeyOutcome::Tree(TreeCommand::SelectIndex(2))
    );
    assert_eq!(
        view.handle_key_event(press(KeyCode::PageDown), Some(5), vec![]),
        KeyOutcome::Tree(TreeCommand::SelectIndex(15))
    );
}

#[test]
fn test_keys() {
    let mut view = SearchView::new(SearchResult::default()).move_with_state(search_results());

    // with the search bar focused, the keys type the query
    for c in ['q', 'r', 'p'] {
        assert_eq!(view.handle_key_event(press(KeyCode::Char(c)), None, vec![]), KeyOutcome::Ignore);
    }
    assert_eq!(view.search_bar.text(), "qrp");

    // enter searches and leaves the search bar
    assert_eq!(
        view.handle_key_event(press(KeyCode::Enter), None, vec![]),
        KeyOutcome::ResetTree(Some(Action::Search("qrp".to_string())))
    );
    assert!(!view.search_bar_focused);
    assert_eq!(view.search_bar.text(), "");

    // "/" focuses the search bar again; enter with an empty query searches nothing
    view.handle_key_event(press(KeyCode::Char('/')), None, vec![]);
    assert!(view.search_bar_focused);
    assert_eq!(view.handle_key_event(press(KeyCode::Enter), None, vec![]), KeyOutcome::ResetTree(None));

    // in the results, enter opens and space checks
    assert_eq!(view.handle_key_event(press(KeyCode::Down), None, vec![]), KeyOutcome::Tree(TreeCommand::Down));
    assert_eq!(
        view.handle_key_event(press(KeyCode::Enter), Some(0), vec![]),
        KeyOutcome::Tree(TreeCommand::OpenSelected)
    );
    assert_eq!(
        view.handle_key_event(press(KeyCode::Char(' ')), Some(1), vec![]),
        KeyOutcome::Tree(TreeCommand::ToggleCheck)
    );

    let checked = vec![rid("song")];
    assert_eq!(
        view.handle_key_event(press(KeyCode::Char('q')), Some(1), checked.clone()),
        KeyOutcome::Send(Action::Audio(AudioAction::Queue(QueueAction::Add(vec![rid("song")]))))
    );
    assert_eq!(
        view.handle_key_event(press(KeyCode::Char('r')), Some(1), checked.clone()),
        KeyOutcome::Send(open(ActiveView::Radio(vec![rid("song")])))
    );
    assert_eq!(
        view.handle_key_event(press(KeyCode::Char('p')), Some(1), checked),
        KeyOutcome::Send(Action::Popup(PopupAction::Open(PopupType::Playlist(vec![rid("song")]))))
    );
    assert_eq!(view.handle_key_event(press(KeyCode::Char('q')), Some(1), vec![]), KeyOutcome::Ignore);
}

#[test]
fn search_test_mouse() {
    let mut view = SearchView::new(search_results());
    let area = Rect::new(0, 0, 32, 10);

    for c in ['a', 'b', 'c'] {
        view.handle_key_event(press(KeyCode::Char(c)), None, vec![]);
    }
    assert_eq!(view.search_bar.text(), "abc");

    // clicking in the search bar moves the cursor
    assert_eq!(view.handle_mouse_event(left_click(2, 1), area), MouseOutcome::Ignore);
    view.handle_key_event(press(KeyCode::Char('c')), None, vec![]);
    assert_eq!(view.search_bar.text(), "acbc");

    // clicking on the results leaves the search bar
    view.handle_mouse_event(left_click(2, 5), area);
    assert!(!view.search_bar_focused);

    // scrolling goes to the results' tree
    let scroll = mouse(MouseEventKind::ScrollDown, 2, 4, KeyModifiers::empty());
    assert_eq!(view.handle_mouse_event(scroll, area), MouseOutcome::Tree(TreeMouse::ScrollDown, false));

    // a control-click on a selected song opens it
    let ctrl_click = mouse(MouseEventKind::Down(MouseButton::Left), 2, 5, KeyModifiers::control());
    assert_eq!(
        view.handle_mouse_event(ctrl_click, area),
        MouseOutcome::Tree(TreeMouse::Click(Position::new(2, 5)), false)
    );
    assert_eq!(
        tree_click_action(ctrl_click.modifiers, true, false, Some(rid("song"))),
        Some(open(ActiveView::Song(key(&item_id()))))
    );

    // clicking the search bar focuses it again
    view.handle_mouse_event(left_click(2, 1), area);
    assert!(view.search_bar_focused);
}

// ---- dynamic playlist views ----

type DynamicView = SortableItemView<DynamicPlaylistViewProps, SongSort, SongBrief>;

#[test]
fn dynamic_test_new() {
    let view = DynamicView::new(view_data(), SongSort::default()).item_view;
    assert_eq!(view.name(), "Dynamic Playlist View");
    assert_eq!(view.props, view_data().dynamic_playlist);
}

#[test]
fn dynamic_test_move_with_state() {
    let view = DynamicView::new(ViewData::default(), SongSort::default());
    let new_view = view.move_with_state(view_data()).item_view;
    assert_eq!(new_view.props, view_data().dynamic_playlist);
}

#[test]
fn dynamic_test_name() {
    let view = DynamicView::new(view_data(), SongSort::default());
    assert_eq!(view.name(), "Dynamic Playlist View");
}

#[test]
fn dynamic_smoke_navigation_and_sort() {
    let mut view = DynamicView::new(view_data(), SongSort::default());
    for code in [KeyCode::Up, KeyCode::PageUp, KeyCode::Down, KeyCode::PageDown, KeyCode::Left, KeyCode::Right] {
        view.handle_key_event(press(code), vec![]);
    }
    assert_eq!(
        view.handle_key_event(press(KeyCode::Char('s')), vec![]),
        Some(KeyOutcome::Tree(TreeCommand::ScrollSelectedIntoView))
    );
    assert_eq!(view.sort_mode, SongSort::Album);
    view.handle_key_event(press(KeyCode::Char('S')), vec![]);
    assert_eq!(view.sort_mode, SongSort::Artist);
}

#[test]
fn dynamic_test_actions() {
    let mut view = DynamicView::new(view_data(), SongSort::default());
    let id = rid("dynamic");

    // nothing checked: the keys act on the whole playlist
    assert_eq!(
        view.handle_key_event(press(KeyCode::Enter), vec![]),
        Some(KeyOutcome::Tree(TreeCommand::OpenSelected))
    );
    assert_eq!(open_action(false, None), None);
    assert_eq!(
        view.handle_key_event(press(KeyCode::Char('q')), vec![]),
        Some(KeyOutcome::Send(Action::Audio(AudioAction::Queue(QueueAction::Add(vec![id.clone()])))))
    );
    assert_eq!(
        view.handle_key_event(press(KeyCode::Char('r')), vec![]),
        Some(KeyOutcome::Send(open(ActiveView::Radio(vec![id.clone()]))))
    );
    assert_eq!(
        view.handle_key_event(press(KeyCode::Char('p')), vec![]),
        Some(KeyOutcome::Send(Action::Popup(PopupAction::Open(PopupType::Playlist(vec![id])))))
    );

    // the song checked: the keys act on it, enter opens it
    let checked = vec![rid("song")];
    assert_eq!(open_action(true, Some(rid("song"))), Some(open(ActiveView::Song(key(&item_id())))));
    assert_eq!(
        view.handle_key_event(press(KeyCode::Char('q')), checked.clone()),
        Some(KeyOutcome::Send(Action::Audio(AudioAction::Queue(QueueAction::Add(vec![rid("song")])))))
    );
    assert_eq!(
        view.handle_key_event(press(KeyCode::Char('r')), checked.clone()),
        Some(KeyOutcome::Send(open(ActiveView::Radio(vec![rid("song")]))))
    );
    assert_eq!(
        view.handle_key_event(press(KeyCode::Char('p')), checked),
        Some(KeyOutcome::Send(Action::Popup(PopupAction::Open(PopupType::Playlist(vec![rid("song")])))))
    );
}

#[test]
fn dynamic_test_mouse_events() {
    let view = DynamicView::new(view_data(), SongSort::default());
    let area = Rect::new(0, 0, 60, 11);
    assert_eq!(
        view.handle_mouse_event(left_click(2, 6), area),
        Some(MouseOutcome::Tree(TreeMouse::Click(Position::new(2, 6)), false))
    );
    let ctrl_click = mouse(MouseEventKind::Down(MouseButton::Left), 2, 6, KeyModifiers::control());
    assert_eq!(
        tree_click_action(ctrl_click.modifiers, true, false, Some(rid("song"))),
        Some(open(ActiveView::Song(key(&item_id()))))
    );
    assert_eq!(tree_click_action(KeyModifiers::empty(), true, false, Some(rid("song"))), None);
}

#[test]
fn library_dynamic_test_new() {
    let view = LibraryDynamicView::new(library().dynamic_playlists);
    assert_eq!(view.name(), "Library Dynamic Playlists View");
    assert_eq!(view.props.items, library().dynamic_playlists);
    assert_eq!(view.focus, Focus::Tree);
}

#[test]
fn library_dynamic_test_move_with_state() {
    let view = LibraryDynamicView::new(vec![]);
    let new_view = view.move_with_state(library().dynamic_playlists);
    assert_eq!(new_view.props.items, library().dynamic_playlists);
}

#[test]
fn library_dynamic_smoke_navigation_and_sort() {
    let mut view = LibraryDynamicView::new(library().dynamic_playlists);
    for code in [KeyCode::Up, KeyCode::PageUp, KeyCode::Down, KeyCode::PageDown, KeyCode::Left, KeyCode::Right] {
        view.handle_key_event(press(code), None, None);
    }
    assert_eq!(
        view.handle_key_event(press(KeyCode::Char('s')), None, None),
        KeyOutcome::Tree(TreeCommand::ScrollSelectedIntoView)
    );
    view.handle_key_event(press(KeyCode::Char('S')), None, None);
    assert_eq!(view.props.items, library().dynamic_playlists);
}

#[test]
fn library_dynamic_test_actions() {
    let mut view = LibraryDynamicView::new(library().dynamic_playlists);
    // nothing selected: "d" does nothing
    assert_eq!(view.handle_key_event(press(KeyCode::Char('d')), None, None), KeyOutcome::Ignore);
    // the dynamic playlist selected: "d" removes it, enter opens it
    assert_eq!(
        view.handle_key_event(press(KeyCode::Char('d')), Some(0), Some(rid("dynamic"))),
        KeyOutcome::Send(Action::Library(LibraryAction::RemoveDynamicPlaylist(rid("dynamic"))))
    );
    assert_eq!(
        view.handle_key_event(press(KeyCode::Enter), Some(0), Some(rid("dynamic"))),
        KeyOutcome::Tree(TreeCommand::OpenSelected)
    );
    assert_eq!(open_action(true, Some(rid("dynamic"))), Some(open(ActiveView::DynamicPlaylist(key(&item_id())))));
}

#[test]
fn test_actions_with_input_boxes() {
    let mut view = LibraryDynamicView::new(library().dynamic_playlists);

    assert_eq!(view.focus, Focus::Tree);
    view.handle_key_event(press(KeyCode::Char('n')), None, None);
    assert_eq!(view.focus, Focus::NameInput);

    // enter with an empty name cancels
    view.handle_key_event(press(KeyCode::Enter), None, None);
    assert_eq!(view.focus, Focus::Tree);
    view.handle_key_event(press(KeyCode::Char('n')), None, None);
    assert_eq!(view.focus, Focus::NameInput);
    for c in ['a', 'b', 'c'] {
        view.handle_key_event(press(KeyCode::Char(c)), None, None);
    }
    view.handle_key_event(press(KeyCode::Enter), None, None);
    assert_eq!(view.name_input_box.text(), "abc");
    assert_eq!(view.focus, Focus::QueryInput);

    // enter with an invalid query does nothing
    assert_eq!(view.handle_key_event(press(KeyCode::Enter), None, None), KeyOutcome::Ignore);
    assert_eq!(view.focus, Focus::QueryInput);
    let query = "artist CONTAINS 'foo'";
    for c in query.chars() {
        view.handle_key_event(press(KeyCode::Char(c)), None, None);
    }
    assert_eq!(view.query_builder.text(), query);

    // enter with a valid query creates the dynamic playlist
    match view.handle_key_event(press(KeyCode::Enter), None, None) {
        KeyOutcome::Send(Action::Library(LibraryAction::CreateDynamicPlaylist(name, parsed))) => {
            assert_eq!(name, "abc");
            let expected: mecomp_storage::db::schemas::dynamic::query::Query = query.parse().unwrap();
            assert_eq!(parsed, expected);
        }
        other => panic!("unexpected outcome {other:?}"),
    }
    assert_eq!(view.focus, Focus::Tree);
    assert_eq!(view.name_input_box.text(), "");
    assert_eq!(view.query_builder.text(), "");
}

#[test]
fn library_dynamic_test_mouse_events() {
    let mut view = LibraryDynamicView::new(library().dynamic_playlists);
    let area = Rect::new(0, 0, 60, 11);

    // without the boxes, clicks go to the tree (a plain click opens)
    assert_eq!(
        view.handle_mouse_event(left_click(2, 2), area),
        Some(MouseOutcome::Tree(TreeMouse::Click(Position::new(2, 2)), true))
    );
    assert_eq!(
        tree_click_action(KeyModifiers::empty(), true, true, Some(rid("dynamic"))),
        Some(open(ActiveView::DynamicPlaylist(key(&item_id()))))
    );
    assert_eq!(tree_click_action(KeyModifiers::control(), true, true, Some(rid("dynamic"))), None);

    view.handle_key_event(press(KeyCode::Char('n')), None, None);
    assert_eq!(view.focus, Focus::NameInput);
    view.handle_mouse_event(left_click(2, 5), area);
    assert_eq!(view.focus, Focus::QueryInput);
    view.handle_mouse_event(left_click(2, 2), area);
    assert_eq!(view.focus, Focus::NameInput);
    view.handle_mouse_event(left_click(2, 8), area);
    assert_eq!(view.focus, Focus::Tree);
}

// ---- tree helpers ----

#[test]
fn tree_mouse_ignores_events_outside() {
    let area = Rect::new(5, 5, 10, 10);
    assert_eq!(tree_mouse(left_click(1, 1), area), None);
    assert_eq!(tree_mouse(left_click(6, 6), area), Some(TreeMouse::Click(Position::new(6, 6))));
    assert_eq!(
        tree_mouse(mouse(MouseEventKind::ScrollUp, 6, 6, KeyModifiers::empty()), area),
        Some(TreeMouse::ScrollUp)
    );
    assert_eq!(tree_mouse(mouse(MouseEventKind::Moved, 6, 6, KeyModifiers::empty()), area), None);
}

// ---- moving the item views on to fresh data ----

type CollectionView = SortableItemView<CollectionViewProps, SongSort, SongBrief>;

#[test]
fn album_test_move_with_state() {
    let view = AlbumView::new(ViewData::default().album).move_with_state(view_data().album);
    assert_eq!(view.props, view_data().album);
}

#[test]
fn artist_test_move_with_state() {
    let view: ItemView<ArtistViewProps> = ItemView::new(ViewData::default());
    let view = view.move_with_state(view_data());
    assert_eq!(view.props, view_data().artist);
}

#[test]
fn collection_test_move_with_state() {
    let view = CollectionView::new(ViewData::default(), SongSort::default()).move_with_state(view_data()).item_view;
    assert_eq!(view.props, view_data().collection);
}

#[test]
fn playlist_test_move_with_state() {
    let view = PlaylistView::new(ViewData::default().playlist).move_with_state(view_data().playlist);
    assert_eq!(view.props, view_data().playlist);
}

// ---- navigating the item views ----

#[test]
fn album_smoke_navigation() {
    let view = AlbumView::new(view_data().album);
    let keys = [KeyCode::Up, KeyCode::PageUp, KeyCode::Down, KeyCode::PageDown, KeyCode::Left, KeyCode::Right];
    let expected = [
        Some(KeyOutcome::Tree(TreeCommand::Up)),
        None,
        Some(KeyOutcome::Tree(TreeCommand::Down)),
        None,
        Some(KeyOutcome::Tree(TreeCommand::Left)),
        Some(KeyOutcome::Tree(TreeCommand::Right)),
    ];
    for (code, outcome) in keys.into_iter().zip(expected) {
        assert_eq!(view.handle_key_event(press(code), vec![]), outcome);
    }
}

#[test]
fn collection_smoke_navigation() {
    let mut view = CollectionView::new(view_data(), SongSort::default());
    let keys = [KeyCode::Up, KeyCode::PageUp, KeyCode::Down, KeyCode::PageDown, KeyCode::Left, KeyCode::Right];
    let expected = [
        Some(KeyOutcome::Tree(TreeCommand::Up)),
        None,
        Some(KeyOutcome::Tree(TreeCommand::Down)),
        None,
        Some(KeyOutcome::Tree(TreeCommand::Left)),
        Some(KeyOutcome::Tree(TreeCommand::Right)),
    ];
    for (code, outcome) in keys.into_iter().zip(expected) {
        assert_eq!(view.handle_key_event(press(code), vec![]), outcome);
    }
}

// ---- artist view ----

#[test]
fn artist_test_actions() {
    let view: ItemView<ArtistViewProps> = ItemView::new(view_data());
    // nothing checked: the keys act on the whole artist
    assert_eq!(
        view.handle_key_event(press(KeyCode::Char('q')), vec![]),
        Some(KeyOutcome::Send(Action::Audio(AudioAction::Queue(QueueAction::Add(vec![rid("artist")])))))
    );
    assert_eq!(
        view.handle_key_event(press(KeyCode::Char('r')), vec![]),
        Some(KeyOutcome::Send(open(ActiveView::Radio(vec![rid("artist")]))))
    );
    assert_eq!(
        view.handle_key_event(press(KeyCode::Char('p')), vec![]),
        Some(KeyOutcome::Send(Action::Popup(PopupAction::Open(PopupType::Playlist(vec![rid("artist")])))))
    );
    // select the song (down, down, right, down), then open it
    for code in [KeyCode::Down, KeyCode::Down, KeyCode::Right, KeyCode::Down] {
        let expected = if code == KeyCode::Down { TreeCommand::Down } else { TreeCommand::Right };
        assert_eq!(view.handle_key_event(press(code), vec![]), Some(KeyOutcome::Tree(expected)));
    }
    assert_eq!(
        view.handle_key_event(press(KeyCode::Enter), vec![]),
        Some(KeyOutcome::Tree(TreeCommand::OpenSelected))
    );
    assert_eq!(open_action(true, Some(rid("song"))), Some(open(ActiveView::Song(key(&item_id())))));
    // check it; then the keys act on it
    assert_eq!(
        view.handle_key_event(press(KeyCode::Char(' ')), vec![]),
        Some(KeyOutcome::Tree(TreeCommand::ToggleCheck))
    );
    let checked = vec![rid("song")];
    assert_eq!(
        view.handle_key_event(press(KeyCode::Char('q')), checked.clone()),
        Some(KeyOutcome::Send(Action::Audio(AudioAction::Queue(QueueAction::Add(vec![rid("song")])))))
    );
    assert_eq!(
        view.handle_key_event(press(KeyCode::Char('r')), checked.clone()),
        Some(KeyOutcome::Send(open(ActiveView::Radio(vec![rid("song")]))))
    );
    assert_eq!(
        view.handle_key_event(press(KeyCode::Char('p')), checked),
        Some(KeyOutcome::Send(Action::Popup(PopupAction::Open(PopupType::Playlist(vec![rid("song")])))))
    );
    // the artist view has no key of its own
    assert_eq!(view.handle_key_event(press(KeyCode::Char('e')), vec![]), None);
}

#[test]
fn artist_test_mouse_event() {
    let view: ItemView<ArtistViewProps> = ItemView::new(view_data());
    let area = Rect::new(0, 0, 60, 9);
    // the tree holds the two lines below the info part and the title lines
    assert_eq!(
        view.handle_mouse_event(left_click(2, 6), area),
        Some(MouseOutcome::Tree(TreeMouse::Click(Position::new(2, 6)), false))
    );
    assert_eq!(
        view.handle_mouse_event(mouse(MouseEventKind::ScrollDown, 2, 6, KeyModifiers::empty()), area),
        Some(MouseOutcome::Tree(TreeMouse::ScrollDown, false))
    );
    assert_eq!(
        view.handle_mouse_event(left_click(2, 7), area),
        Some(MouseOutcome::Tree(TreeMouse::Click(Position::new(2, 7)), false))
    );
    assert_eq!(
        view.handle_mouse_event(mouse(MouseEventKind::ScrollUp, 2, 7, KeyModifiers::empty()), area),
        Some(MouseOutcome::Tree(TreeMouse::ScrollUp, false))
    );
    // a click on the selected album checks it; a control-click opens it
    assert_eq!(tree_click_action(KeyModifiers::empty(), true, false, Some(rid("album"))), None);
    assert_eq!(
        tree_click_action(KeyModifiers::control(), true, false, Some(rid("album"))),
        Some(open(ActiveView::Album(key(&item_id()))))
    );
    // the info part is not the tree's
    assert_eq!(view.handle_mouse_event(left_click(2, 2), area), Some(MouseOutcome::Ignore));
}

// ---- dynamic playlist view ----

#[test]
fn test_edit() {
    let mut view = DynamicView::new(view_data(), SongSort::default());
    // "e" opens the editor of the dynamic playlist
    assert_eq!(
        view.handle_key_event(press(KeyCode::Char('e')), vec![]),
        Some(KeyOutcome::Send(Action::Popup(PopupAction::Open(PopupType::DynamicPlaylistEditor(dynamic())))))
    );
    // with no dynamic playlist shown it does nothing
    let mut empty = DynamicView::new(ViewData::default(), SongSort::default());
    assert_eq!(empty.handle_key_event(press(KeyCode::Char('e')), vec![]), None);
}

#[test]
fn item_view_acts_on_item_when_nothing_checked() {
    let view: ItemView<AlbumViewProps> = ItemView::new(view_data());
    assert_eq!(view.name(), "Album View");
    assert_eq!(
        view.handle_key_event(press(KeyCode::Char('q')), vec![]),
        Some(KeyOutcome::Send(Action::Audio(AudioAction::Queue(QueueAction::Add(vec![rid("album")])))))
    );
    assert_eq!(view.handle_key_event(press(KeyCode::Char('x')), vec![]), None);
    let empty: ItemView<AlbumViewProps> = ItemView::new(ViewData::default());
    assert_eq!(view_data().album.is_some(), true);
    assert_eq!(empty.handle_key_event(press(KeyCode::Char('q')), vec![]), Some(KeyOutcome::Ignore));
}

#[test]
fn query_box_keys_with_given_parse() {
    let mut view = LibraryDynamicView::new(library().dynamic_playlists);
    view.handle_key_event(press(KeyCode::Char('n')), None, None);
    view.handle_key_event(press(KeyCode::Char('x')), None, None);
    view.handle_key_event(press(KeyCode::Enter), None, None);
    assert_eq!(view.focus, Focus::QueryInput);

    // without a query, enter edits the box (which does nothing to it)
    assert_eq!(view.query_key_event(press(KeyCode::Enter), None), KeyOutcome::Ignore);
    assert_eq!(view.focus, Focus::QueryInput);
    assert_eq!(view.query_key_event(press(KeyCode::Char('a')), None), KeyOutcome::Ignore);
    assert_eq!(view.query_builder.text(), "a");

    // with a query, enter creates the playlist whatever the box says
    let query: mecomp_storage::db::schemas::dynamic::query::Query = "artist CONTAINS 'foo'".parse().unwrap();
    match view.query_key_event(press(KeyCode::Enter), Some(query.clone())) {
        KeyOutcome::Send(Action::Library(LibraryAction::CreateDynamicPlaylist(name, parsed))) => {
            assert_eq!(name, "x");
            assert_eq!(parsed, query);
        }
        other => panic!("unexpected outcome {other:?}"),
    }
    assert_eq!(view.focus, Focus::Tree);
    assert_eq!(view.name_input_box.text(), "");
    assert_eq!(view.query_builder.text(), "");
}

#[test]
fn first_record_id_takes_the_first_that_reads() {
    let a = RecordId::new("song".to_string(), "a".to_string());
    let b = RecordId::new("album".to_string(), "b".to_string());
    assert_eq!(first_record_id(&vec![None, Some(a.clone()), Some(b.clone())]), Some(a.clone()));
    assert_eq!(first_record_id(&vec![None, None]), None);
    assert_eq!(first_record_id(&Vec::new()), None);
    let song = rid("song");
    let path = vec!["Songs".to_string(), song.to_string(), rid("album").to_string()];
    assert_eq!(get_selected_thing(&path), Some(song));
    assert_eq!(get_selected_thing(&vec!["Songs".to_string()]), None);
}

#[test]
fn record_ids_read_from_identifiers() {
    let song = rid("song");
    // text after a second colon is ignored; white space round it is trimmed
    let with_extra = format!("song:{}: Test Song", item_id());
    assert_eq!(get_selected_thing(&vec![with_extra]), Some(song.clone()));
    assert_eq!(get_selected_thing(&vec![format!("  song:{}\n", item_id())]), Some(song));
    // the key must be 26 digits or upper-case letters, the table a known one
    assert_eq!(get_selected_thing(&vec![format!("song:{}", item_id().to_lowercase())]), None);
    assert_eq!(get_selected_thing(&vec!["song:01J1K5B6RJ84WJXCWYJ5WNE12".to_string()]), None);
    assert_eq!(get_selected_thing(&vec![format!("analysis:{}", item_id())]), None);
    assert_eq!(get_selected_thing(&vec![item_id()]), None);
}

#[test]
fn item_tree_mouse_below_the_title_lines() {
    let content = Rect::new(0, 4, 40, 10);
    // the tree starts two lines down
    assert_eq!(
        item_tree_mouse(left_click(3, 6), content, false),
        Some(MouseOutcome::Tree(TreeMouse::Click(Position::new(3, 6)), false))
    );
    assert_eq!(item_tree_mouse(left_click(3, 5), content, false), Some(MouseOutcome::Ignore));
    // a footer line takes the last line away
    assert_eq!(item_tree_mouse(left_click(3, 13), content, false), Some(MouseOutcome::Tree(TreeMouse::Click(Position::new(3, 13)), false)));
    assert_eq!(item_tree_mouse(left_click(3, 13), content, true), Some(MouseOutcome::Ignore));
    // too small for the lines
    assert_eq!(item_tree_mouse(left_click(3, 4), Rect::new(0, 4, 40, 2), true), None);
}

#[test]
fn search_mouse_in_given_parts() {
    let bar = Rect::new(0, 0, 40, 3);
    let content = Rect::new(0, 3, 40, 10);
    let mut view = SearchView::new(SearchResult::default());
    // the bar is focused at first: a click on the results unfocuses it
    assert!(view.search_bar_focused);
    assert_eq!(view.handle_mouse_in(left_click(5, 6), bar, content), MouseOutcome::Ignore);
    assert!(!view.search_bar_focused);
    // then a click on the results goes to the tree, inside their border
    assert_eq!(
        view.handle_mouse_in(left_click(5, 6), bar, content),
        MouseOutcome::Tree(TreeMouse::Click(Position::new(5, 6)), false)
    );
    // and a click on the bar focuses it again
    assert_eq!(view.handle_mouse_in(left_click(5, 1), bar, content), MouseOutcome::Ignore);
    assert!(view.search_bar_focused);
}

#[test]
fn dynamic_boxes_mouse_in_given_parts() {
    let mut view = LibraryDynamicView::new(library().dynamic_playlists);
    view.handle_key_event(press(KeyCode::Char('n')), None, None);
    let name_area = Rect::new(0, 0, 40, 3);
    let query_area = Rect::new(0, 3, 40, 3);
    let tree_part = Rect::new(0, 6, 40, 5);
    assert_eq!(view.boxes_mouse_event(left_click(2, 4), name_area, query_area, tree_part), Some(MouseOutcome::Ignore));
    assert_eq!(view.focus, Focus::QueryInput);
    assert_eq!(view.boxes_mouse_event(left_click(2, 1), name_area, query_area, tree_part), Some(MouseOutcome::Ignore));
    assert_eq!(view.focus, Focus::NameInput);
    // the tree's title line is not the tree
    assert_eq!(view.boxes_mouse_event(left_click(2, 6), name_area, query_area, tree_part), Some(MouseOutcome::Ignore));
    assert_eq!(view.focus, Focus::NameInput);
    assert_eq!(view.boxes_mouse_event(left_click(2, 8), name_area, query_area, tree_part), Some(MouseOutcome::Ignore));
    assert_eq!(view.focus, Focus::Tree);
    view.handle_key_event(press(KeyCode::Char('n')), None, None);
    assert_eq!(view.boxes_mouse_event(left_click(2, 8), name_area, query_area, Rect::new(0, 6, 40, 0)), None);
    assert_eq!(view.focus, Focus::NameInput);
}

#[test]
fn check_marks_toggle_and_find_lines() {
    let a = vec!["Songs".to_string(), rid("song").to_string()];
    let b = vec!["Albums".to_string(), rid("album").to_string()];
    let mut marks = CheckMarks::new();
    assert!(marks.is_empty());
    marks.toggle(a.clone());
    marks.toggle(b.clone());
    assert!(marks.contains(&a) && marks.contains(&b));
    assert_eq!(marks.paths(), &vec![a.clone(), b.clone()]);
    assert_eq!(marks.things(), vec![rid("song"), rid("album")]);
    // toggling again unchecks, keeping the other marks in order
    marks.toggle(a.clone());
    assert!(!marks.contains(&a));
    assert_eq!(marks.paths(), &vec![b.clone()]);
    marks.clear();
    assert!(marks.is_empty());

    let lines = vec![vec!["Songs".to_string()], a.clone(), b.clone()];
    assert_eq!(position_of(&lines, &a), Some(1));
    assert_eq!(position_of(&lines, &vec!["Other".to_string()]), None);
    assert_eq!(position_of(&lines, &Vec::new()), None);
    assert_eq!(clamp_line(1, 3), Some(1));
    assert_eq!(clamp_line(7, 3), Some(2));
    assert_eq!(clamp_line(0, 0), None);
}
