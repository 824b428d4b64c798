use mecomp_tui::state::action::{Action, LibraryAction, PopupAction, ViewAction};
use mecomp_tui::ui::components::content_view::ActiveView;
use mecomp_tui::ui::components::sidebar::{Sidebar, SidebarItem};
use mecomp_tui::ui::events::{KeyCode, KeyEvent};
use mecomp_tui::ui::widgets::popups::PopupType;

#[test]
fn test_sidebar_item_display() {
    assert_eq!(SidebarItem::Search.to_string(), "Search");
    assert_eq!(SidebarItem::LibraryRescan.to_string(), "Library Rescan");
    assert_eq!(SidebarItem::LibraryAnalyze.to_string(), "Library Analyze");
    assert_eq!(SidebarItem::Songs.to_string(), "Songs");
    assert_eq!(SidebarItem::Artists.to_string(), "Artists");
    assert_eq!(SidebarItem::Albums.to_string(), "Albums");
    assert_eq!(SidebarItem::Playlists.to_string(), "Playlists");
    assert_eq!(SidebarItem::Collections.to_string(), "Collections");
    assert_eq!(SidebarItem::Random.to_string(), "Random");
    assert_eq!(SidebarItem::Space.to_string(), "");
    assert_eq!(SidebarItem::LibraryRecluster.to_string(), "Library Recluster");
}

#[test]
fn sidebar_test_navigation_wraps() {
    let mut sidebar = Sidebar::new();
    sidebar.handle_key_event(KeyEvent::from(KeyCode::Up));
    assert_eq!(sidebar.selected(), Some(12));
    sidebar.handle_key_event(KeyEvent::from(KeyCode::Down));
    assert_eq!(sidebar.selected(), Some(0));
}

fn open(view: ActiveView) -> Vec<Action> {
    vec![Action::ActiveView(ViewAction::Open(view))]
}

fn notify_then(text: &str, action: LibraryAction) -> Vec<Action> {
    vec![
        Action::Popup(PopupAction::Open(PopupType::Notification(text.to_string()))),
        Action::Library(action),
    ]
}

#[test]
fn sidebar_test_actions() {
    let mut sidebar = Sidebar::new();
    let down = KeyEvent::from(KeyCode::Down);
    let enter = KeyEvent::from(KeyCode::Enter);

    sidebar.handle_key_event(down);
    assert_eq!(sidebar.handle_key_event(enter), open(ActiveView::Search));

    sidebar.handle_key_event(down);
    sidebar.handle_key_event(down);
    assert_eq!(sidebar.handle_key_event(enter), open(ActiveView::Songs));

    sidebar.handle_key_event(down);
    assert_eq!(sidebar.handle_key_event(enter), open(ActiveView::Artists));

    sidebar.handle_key_event(down);
    assert_eq!(sidebar.handle_key_event(enter), open(ActiveView::Albums));

    sidebar.handle_key_event(down);
    assert_eq!(sidebar.handle_key_event(enter), open(ActiveView::Playlists));

    sidebar.handle_key_event(down);
    assert_eq!(sidebar.handle_key_event(enter), open(ActiveView::DynamicPlaylists));

    sidebar.handle_key_event(down);
    assert_eq!(sidebar.handle_key_event(enter), open(ActiveView::Collections));

    sidebar.handle_key_event(down);
    assert_eq!(sidebar.handle_key_event(enter), open(ActiveView::Random));

    sidebar.handle_key_event(down);
    sidebar.handle_key_event(down);
    assert_eq!(
        sidebar.handle_key_event(enter),
        notify_then(" Library Rescan Started ", LibraryAction::Rescan)
    );

    sidebar.handle_key_event(down);
    assert_eq!(
        sidebar.handle_key_event(enter),
        notify_then(" Library Analyze Started ", LibraryAction::Analyze)
    );

    sidebar.handle_key_event(down);
    assert_eq!(
        sidebar.handle_key_event(enter),
        notify_then(" Library Recluster Started ", LibraryAction::Recluster)
    );
}

#[test]
fn sidebar_name_and_unknown_keys() {
    let mut sidebar = Sidebar::new();
    assert_eq!(sidebar.name(), "Sidebar");
    assert!(sidebar.handle_key_event(KeyEvent::from(KeyCode::Char('x'))).is_empty());
    assert!(sidebar.handle_key_event(KeyEvent::from(KeyCode::Enter)).is_empty());
}
