use mecomp_tui::state::action::{Action, LibraryAction, PopupAction};
use mecomp_tui::state::component::ActiveComponent;
use mecomp_tui::state::library::{PlaylistBrief, RecordId};
use mecomp_tui::ui::app::{App, AppKey};
use mecomp_tui::ui::events::{KeyCode, KeyEvent, KeyModifiers};
use mecomp_tui::ui::widgets::input_box::InputBox;
use mecomp_tui::ui::widgets::popups::{PlaylistPopupOutcome, notification_key, playlist_popup_key};

fn id(tb: &str, key: &str) -> RecordId {
    RecordId::new(tb.to_string(), key.to_string())
}

fn playlists() -> Vec<PlaylistBrief> {
    vec![
        PlaylistBrief { id: id("playlist", "a"), name: "First".into() },
        PlaylistBrief { id: id("playlist", "b"), name: "Second".into() },
    ]
}

#[test]
fn popup_takes_over_keys_and_escape_closes_notification() {
    for component in [
        ActiveComponent::Sidebar,
        ActiveComponent::ContentView,
        ActiveComponent::QueueBar,
        ActiveComponent::ControlPanel,
    ] {
        let app = App::new(component).move_with_popup(true);
        let esc = KeyEvent::new(KeyCode::Esc, KeyModifiers::empty());
        assert_eq!(app.handle_key_event(esc), AppKey::Popup);
        assert_eq!(notification_key(esc.code), Some(Action::Popup(PopupAction::Close)));
        let app = app.move_with_popup(false);
        assert_eq!(app.handle_key_event(esc), AppKey::Send(Action::General(mecomp_tui::state::action::GeneralAction::Exit)));
    }
    assert_eq!(notification_key(KeyCode::Char('x')), None);
}

#[test]
fn playlist_popup_list_keys() {
    let things = vec![id("song", "1"), id("album", "2")];
    let input = InputBox::new();
    let lists = playlists();
    assert_eq!(playlist_popup_key(KeyCode::Esc, &input, false, 0, &lists, &things), PlaylistPopupOutcome::Close);
    assert_eq!(
        playlist_popup_key(KeyCode::Char('n'), &input, false, 0, &lists, &things),
        PlaylistPopupOutcome::FocusInput(true)
    );
    assert_eq!(playlist_popup_key(KeyCode::Up, &input, false, 0, &lists, &things), PlaylistPopupOutcome::Select(0));
    assert_eq!(playlist_popup_key(KeyCode::Down, &input, false, 0, &lists, &things), PlaylistPopupOutcome::Select(1));
    assert_eq!(playlist_popup_key(KeyCode::Down, &input, false, 1, &lists, &things), PlaylistPopupOutcome::Select(1));
    assert_eq!(
        playlist_popup_key(KeyCode::Enter, &input, false, 1, &lists, &things),
        PlaylistPopupOutcome::Add(Action::Library(LibraryAction::AddThingsToPlaylist(id("playlist", "b"), things.clone())))
    );
    assert_eq!(playlist_popup_key(KeyCode::Enter, &input, false, 0, &Vec::new(), &things), PlaylistPopupOutcome::Ignore);
    assert_eq!(playlist_popup_key(KeyCode::Char('q'), &input, false, 0, &lists, &things), PlaylistPopupOutcome::Ignore);
}

#[test]
fn playlist_popup_name_box_keys() {
    let things = vec![id("song", "1")];
    let lists = playlists();
    let mut input = InputBox::new();
    assert_eq!(playlist_popup_key(KeyCode::Enter, &input, true, 0, &lists, &things), PlaylistPopupOutcome::Edit);
    assert_eq!(playlist_popup_key(KeyCode::Char('a'), &input, true, 0, &lists, &things), PlaylistPopupOutcome::Edit);
    for c in "Mix".chars() {
        input.handle_key_event(KeyEvent::new(KeyCode::Char(c), KeyModifiers::empty()));
    }
    assert_eq!(
        playlist_popup_key(KeyCode::Enter, &input, true, 0, &lists, &things),
        PlaylistPopupOutcome::Add(Action::Library(LibraryAction::CreatePlaylistAndAddThings("Mix".into(), things.clone())))
    );
    assert_eq!(
        playlist_popup_key(KeyCode::Esc, &input, true, 0, &lists, &things),
        PlaylistPopupOutcome::FocusInput(false)
    );
}
