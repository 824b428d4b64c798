use mecomp_tui::state::action::{
    Action, AudioAction, ComponentAction, GeneralAction, LibraryAction, PlaybackAction, QueueAction, RepeatMode,
    SeekType, ViewAction, VolumeAction,
};
use mecomp_tui::state::component::ActiveComponent;
use mecomp_tui::state::library::{RecordId, SongBrief, Ulid};
use mecomp_tui::ui::app::{App, AppKey, AppMouse, Areas};
use mecomp_tui::ui::components::content_view::{ActiveView, ContentView, ViewKind};
use mecomp_tui::ui::components::control_panel::{ControlPanel, Props};
use mecomp_tui::ui::components::queuebar::QueueBar;
use mecomp_tui::ui::components::sidebar::Sidebar;
use mecomp_tui::ui::events::{
    KeyCode, KeyEvent, KeyEventKind, KeyModifiers, MouseButton, MouseEvent, MouseEventKind,
};
use mecomp_tui::ui::layout::{Position, Rect};
use mecomp_tui::ui::view_data::{
    Fetched, ViewDataReply, ViewDataRequest, failed_reply, merge_view_data, radio_view_props, view_data_after,
    view_data_request,
};
use mecomp_tui::ui::components::content_view::views::{RadioViewProps, ViewData};
use mecomp_tui::ui::widgets::input_box::InputBox;

fn mouse(kind: MouseEventKind, column: u16, row: u16) -> MouseEvent {
    MouseEvent { kind, column, row, modifiers: KeyModifiers::empty() }
}

fn left_click(column: u16, row: u16) -> MouseEvent {
    mouse(MouseEventKind::Down(MouseButton::Left), column, row)
}

fn focus(c: ActiveComponent) -> Action {
    Action::ActiveComponent(ComponentAction::Focus(c))
}

fn playback(a: PlaybackAction) -> Action {
    Action::Audio(AudioAction::Playback(a))
}

fn song(id: &str) -> SongBrief {
    SongBrief {
        id: RecordId::new("song".into(), id.into()),
        title: id.into(),
        artists: vec![],
        album_artists: vec![],
        album: String::new(),
        genres: vec![],
        release_year: None,
    }
}

// ---- app ----

#[test]
fn test_move_with_component() {
    let app = App::new(ActiveComponent::default());
    assert_eq!(app.active_component, ActiveComponent::Sidebar);
    let app = app.move_with_component(ActiveComponent::QueueBar);
    assert_eq!(app.active_component, ActiveComponent::QueueBar);
}

#[test]
fn test_move_with_popup() {
    let app = App::new(ActiveComponent::default());
    assert!(!app.popup_open);
    let app = app.move_with_popup(true);
    assert!(app.popup_open);
}

#[test]
fn app_global_keys() {
    let app = App::new(ActiveComponent::ContentView);
    assert_eq!(app.handle_key_event(KeyEvent::from(KeyCode::Esc)), AppKey::Send(Action::General(GeneralAction::Exit)));
    assert_eq!(
        app.handle_key_event(KeyEvent::from(KeyCode::Tab)),
        AppKey::Send(Action::ActiveComponent(ComponentAction::Next))
    );
    assert_eq!(
        app.handle_key_event(KeyEvent::from(KeyCode::BackTab)),
        AppKey::Send(Action::ActiveComponent(ComponentAction::Previous))
    );
    assert_eq!(
        app.handle_key_event(KeyEvent::from(KeyCode::F(5))),
        AppKey::Send(Action::Library(LibraryAction::Update))
    );
    assert_eq!(
        app.handle_key_event(KeyEvent::from(KeyCode::Char('x'))),
        AppKey::Component(ActiveComponent::ContentView)
    );
    let release = KeyEvent { code: KeyCode::Esc, modifiers: KeyModifiers::empty(), kind: KeyEventKind::Release };
    assert_eq!(app.handle_key_event(release), AppKey::Ignore);
}

#[test]
fn test_popup_takes_over_key_events() {
    let app = App::new(ActiveComponent::ContentView).move_with_popup(true);
    assert_eq!(app.handle_key_event(KeyEvent::from(KeyCode::Esc)), AppKey::Popup);
    assert_eq!(app.handle_mouse_event(left_click(2, 2), Rect::new(0, 0, 100, 100)), AppMouse::Popup);
}

fn component_focus(app: &App, event: MouseEvent, area: Rect) -> Vec<Action> {
    match app.handle_mouse_event(event, area) {
        AppMouse::Component(ActiveComponent::Sidebar, part) => Sidebar::new().handle_mouse_event(event, part),
        AppMouse::Component(ActiveComponent::ContentView, part) => {
            ContentView::new(ActiveView::Blank).handle_mouse_event(event, part).action.into_iter().collect()
        }
        AppMouse::Component(ActiveComponent::QueueBar, part) => {
            QueueBar::new(vec![], None, RepeatMode::Off).handle_mouse_event(event, part).into_iter().collect()
        }
        AppMouse::Component(ActiveComponent::ControlPanel, part) => {
            ControlPanel::new(props()).handle_mouse_event(event, part).unwrap()
        }
        other => panic!("unexpected route {other:?}"),
    }
}

#[test]
fn app_clicks_outside_the_border_go_nowhere() {
    let app = App::new(ActiveComponent::default());
    let area = Rect::new(0, 0, 100, 100);
    assert_eq!(app.handle_mouse_event(left_click(0, 0), area), AppMouse::Ignore);
    assert_eq!(app.handle_mouse_event(left_click(99, 50), area), AppMouse::Ignore);
    assert_eq!(app.handle_mouse_event(left_click(200, 200), area), AppMouse::Ignore);
    // a click inside goes to a part that holds it
    match app.handle_mouse_event(left_click(50, 10), area) {
        AppMouse::Component(ActiveComponent::ContentView, part) => {
            assert!(part.x <= 50 && 50 < part.x + part.width && part.y <= 10 && 10 < part.y + part.height);
            assert!(part.x >= 1 && part.x + part.width <= 99 && part.y >= 1 && part.y + part.height <= 99);
        }
        other => panic!("unexpected route {other:?}"),
    }
}

#[test]
fn test_click_to_focus() {
    let app = App::new(ActiveComponent::default());
    let area = Rect::new(0, 0, 100, 100);
    assert_eq!(component_focus(&app, left_click(2, 2), area)[0], focus(ActiveComponent::Sidebar));
    assert_eq!(component_focus(&app, left_click(50, 10), area)[0], focus(ActiveComponent::ContentView));
    assert_eq!(component_focus(&app, left_click(90, 10), area)[0], focus(ActiveComponent::QueueBar));
    assert_eq!(component_focus(&app, left_click(60, 98), area)[0], focus(ActiveComponent::ControlPanel));
}

// ---- content view ----

#[test]
fn content_view_undo_redo_keys() {
    let view = ContentView::new(ActiveView::Songs);
    let ctrl = KeyModifiers::control();
    assert_eq!(
        view.handle_key_event(KeyEvent::new(KeyCode::Char('z'), ctrl)),
        Some(Action::ActiveView(ViewAction::Back))
    );
    assert_eq!(
        view.handle_key_event(KeyEvent::new(KeyCode::Char('y'), ctrl)),
        Some(Action::ActiveView(ViewAction::Next))
    );
    assert_eq!(view.handle_key_event(KeyEvent::from(KeyCode::Char('z'))), None);
    assert_eq!(view.view_kind(), ViewKind::Songs);
}

#[test]
fn content_view_clicks() {
    let view = ContentView::new(ActiveView::Random);
    let area = Rect::new(10, 10, 20, 20);
    let left = view.handle_mouse_event(left_click(15, 15), area);
    assert_eq!(left.action, Some(focus(ActiveComponent::ContentView)));
    assert!(left.defer);
    let right = view.handle_mouse_event(mouse(MouseEventKind::Down(MouseButton::Right), 15, 15), area);
    assert_eq!(right.action, Some(Action::ActiveView(ViewAction::Back)));
    assert!(!right.defer);
    let outside = view.handle_mouse_event(left_click(1, 1), area);
    assert_eq!(outside.action, None);
    assert!(outside.defer);
    assert_eq!(
        ContentView::new(ActiveView::Album(Ulid { id: "x".into() })).view_kind(),
        ViewKind::Album
    );
}

// ---- control panel ----

fn props() -> Props {
    Props {
        is_playing: false,
        muted: false,
        duration_ns: None,
        song_title: None,
        song_artist: None,
        runtime_label_width: 7,
        volume_label_width: 9,
    }
}

#[test]
fn control_panel_test_key_event() {
    let panel = ControlPanel::new(props());
    let cases = [
        (KeyCode::Char(' '), playback(PlaybackAction::Toggle)),
        (KeyCode::Char('n'), playback(PlaybackAction::Next)),
        (KeyCode::Char('p'), playback(PlaybackAction::Previous)),
        (KeyCode::Right, playback(PlaybackAction::Seek(SeekType::RelativeForwards, 5_000_000_000))),
        (KeyCode::Left, playback(PlaybackAction::Seek(SeekType::RelativeBackwards, 5_000_000_000))),
        (KeyCode::Char('+'), playback(PlaybackAction::Volume(VolumeAction::Increase(5)))),
        (KeyCode::Char('='), playback(PlaybackAction::Volume(VolumeAction::Increase(5)))),
        (KeyCode::Char('-'), playback(PlaybackAction::Volume(VolumeAction::Decrease(5)))),
        (KeyCode::Char('_'), playback(PlaybackAction::Volume(VolumeAction::Decrease(5)))),
        (KeyCode::Char('m'), playback(PlaybackAction::ToggleMute)),
    ];
    for (code, expected) in cases {
        assert_eq!(panel.handle_key_event(KeyEvent::from(code)), Some(expected));
    }
}

#[test]
fn test_key_event_unrecognised_does_nothing() {
    let panel = ControlPanel::new(props());
    assert_eq!(panel.handle_key_event(KeyEvent::from(KeyCode::F(1))), None);
}

const AREA: Rect = Rect { x: 0, y: 0, width: 100, height: 6 };

#[test]
fn test_mouse_click_in_area_focuses_control_panel() {
    let panel = ControlPanel::new(props());
    let actions = panel.handle_mouse_event(left_click(50, 3), AREA).unwrap();
    assert_eq!(actions[0], focus(ActiveComponent::ControlPanel));
}

#[test]
fn test_mouse_click_outside_area_no_focus_action() {
    let panel = ControlPanel::new(props());
    assert_eq!(panel.handle_mouse_event(left_click(200, 200), AREA), Some(vec![]));
}

#[test]
fn test_mouse_scroll_up_on_volume_increases_volume() {
    let panel = ControlPanel::new(props());
    assert_eq!(panel.handle_mouse_event(mouse(MouseEventKind::ScrollUp, 200, 200), AREA), Some(vec![]));
}

#[test]
fn test_mouse_scroll_down_on_volume_decreases_volume() {
    let panel = ControlPanel::new(props());
    assert_eq!(panel.handle_mouse_event(mouse(MouseEventKind::ScrollDown, 200, 200), AREA), Some(vec![]));
}

#[test]
fn test_mouse_moved_does_nothing() {
    let panel = ControlPanel::new(props());
    assert_eq!(panel.handle_mouse_event(mouse(MouseEventKind::Moved, 50, 3), AREA), Some(vec![]));
}

#[test]
fn control_panel_narrow_click_still_focuses() {
    // a panel two columns wide leaves no room for the play/pause icon: the
    // click focuses the panel and does nothing else
    let panel = ControlPanel::new(props());
    let narrow = Rect::new(0, 0, 2, 6);
    assert_eq!(panel.handle_mouse_event(left_click(1, 3), narrow), Some(vec![focus(ActiveComponent::ControlPanel)]));
    assert_eq!(panel.handle_mouse_event(left_click(1, 0), narrow), Some(vec![focus(ActiveComponent::ControlPanel)]));
}

#[test]
fn control_panel_playback_line_clicks() {
    let panel = ControlPanel::new(Props { duration_ns: Some(60_000_000_000), ..props() });
    // the playback line is the second row inside the top border; the
    // play/pause icon sits two cells before the end of its part
    let areas = mecomp_tui::ui::components::control_panel::split_area(Rect::new(0, 1, 100, 5));
    let icon_x = areas.play_pause.x + areas.play_pause.width - 3;
    let row = areas.play_pause.y;
    assert_eq!(
        panel.handle_mouse_event(left_click(icon_x, row), AREA).unwrap(),
        vec![focus(ActiveComponent::ControlPanel), playback(PlaybackAction::Toggle)]
    );
    // the progress bar after the time label: a click at its start seeks to the start
    let bar_x = areas.song_progress.x + 7;
    assert_eq!(
        panel.handle_mouse_event(left_click(bar_x, row), AREA).unwrap(),
        vec![focus(ActiveComponent::ControlPanel), playback(PlaybackAction::Seek(SeekType::Absolute, 0))]
    );
    let width = areas.song_progress.width - 7;
    let half = panel.handle_mouse_event(left_click(bar_x + width / 2, row), AREA).unwrap();
    assert_eq!(
        half[1],
        playback(PlaybackAction::Seek(SeekType::Absolute, 60_000_000_000 * u64::from(width / 2) / u64::from(width)))
    );
    // scrolling on the volume label
    let vol_x = areas.volume.x + 1;
    assert_eq!(
        panel.handle_mouse_event(mouse(MouseEventKind::ScrollUp, vol_x, row), AREA).unwrap(),
        vec![playback(PlaybackAction::Volume(VolumeAction::Increase(5)))]
    );
    assert_eq!(
        panel.handle_mouse_event(left_click(vol_x, row), AREA).unwrap(),
        vec![focus(ActiveComponent::ControlPanel), playback(PlaybackAction::ToggleMute)]
    );
}

#[test]
fn control_panel_test_name() {
    let panel = ControlPanel::new(props());
    assert_eq!(panel.name(), "ControlPanel");
}

#[test]
fn queue_bar_up_needs_a_song_only_to_wrap() {
    // up from a later selection moves up even with the queue empty
    let mut bar = QueueBar { queue: vec![], current_position: None, repeat_mode: RepeatMode::Off, selected: Some(3) };
    bar.handle_key_event(KeyEvent::from(KeyCode::Up));
    assert_eq!(bar.selected, Some(2));
    bar.handle_mouse_event(mouse(MouseEventKind::ScrollUp, 0, 0), Rect::new(5, 5, 5, 5));
    assert_eq!(bar.selected, Some(1));
}

#[test]
fn test_move_with_state_updates_props() {
    let panel = ControlPanel::new(props());
    assert!(!panel.props.is_playing);
    let panel = panel.move_with_state(Props { is_playing: true, ..props() });
    assert!(panel.props.is_playing);
    assert_eq!(panel.name(), "ControlPanel");
}

// ---- queue bar ----

#[test]
fn queue_bar_navigation_wraps() {
    let mut bar = QueueBar::new(vec![song("a"), song("b"), song("c")], Some(0), RepeatMode::Off);
    assert_eq!(bar.name(), "Queue");
    assert_eq!(bar.selected, Some(0));
    bar.handle_key_event(KeyEvent::from(KeyCode::Up));
    assert_eq!(bar.selected, Some(2));
    bar.handle_key_event(KeyEvent::from(KeyCode::Down));
    assert_eq!(bar.selected, Some(0));
    bar.handle_mouse_event(mouse(MouseEventKind::ScrollDown, 0, 0), Rect::new(5, 5, 5, 5));
    assert_eq!(bar.selected, Some(1));
}

#[test]
fn queue_bar_actions() {
    let mut bar = QueueBar::new(vec![song("a"), song("b")], Some(1), RepeatMode::All);
    let queue = |a| Some(Action::Audio(AudioAction::Queue(a)));
    assert_eq!(bar.handle_key_event(KeyEvent::from(KeyCode::Enter)), queue(QueueAction::SetPosition(1)));
    assert_eq!(bar.handle_key_event(KeyEvent::from(KeyCode::Char('d'))), queue(QueueAction::Remove(1)));
    assert_eq!(bar.handle_key_event(KeyEvent::from(KeyCode::Char('c'))), queue(QueueAction::Clear));
    assert_eq!(bar.handle_key_event(KeyEvent::from(KeyCode::Char('s'))), queue(QueueAction::Shuffle));
    assert_eq!(
        bar.handle_key_event(KeyEvent::from(KeyCode::Char('r'))),
        queue(QueueAction::SetRepeatMode(RepeatMode::All))
    );
    assert_eq!(
        bar.handle_mouse_event(left_click(6, 6), Rect::new(5, 5, 5, 5)),
        Some(focus(ActiveComponent::QueueBar))
    );
}

#[test]
fn queue_bar_follows_the_playing_song() {
    let bar = QueueBar::new(vec![song("a"), song("b")], Some(0), RepeatMode::Off);
    let mut bar = bar.move_with_state(vec![song("a"), song("b")], Some(0), RepeatMode::Off);
    bar.handle_key_event(KeyEvent::from(KeyCode::Down));
    // same song playing: the selection stays
    let bar = bar.move_with_state(vec![song("a"), song("b")], Some(0), RepeatMode::Off);
    assert_eq!(bar.selected, Some(1));
    // another song playing: it is selected
    let bar = bar.move_with_state(vec![song("a"), song("b")], None, RepeatMode::Off);
    assert_eq!(bar.selected, None);
}

// ---- input box ----

#[test]
fn input_box_edits() {
    let mut input = InputBox::new();
    for c in "hello".chars() {
        input.handle_key_event(KeyEvent::from(KeyCode::Char(c)));
    }
    assert_eq!(input.text(), "hello");
    input.handle_key_event(KeyEvent::from(KeyCode::Backspace));
    assert_eq!(input.text(), "hell");
    input.handle_key_event(KeyEvent::from(KeyCode::Home));
    input.handle_key_event(KeyEvent::from(KeyCode::Delete));
    assert_eq!(input.text(), "ell");
    input.handle_key_event(KeyEvent::from(KeyCode::Char('y')));
    assert_eq!(input.text(), "yell");
    input.handle_key_event(KeyEvent::from(KeyCode::End));
    input.handle_key_event(KeyEvent::from(KeyCode::Char('!')));
    assert_eq!(input.text(), "yell!");
    input.handle_key_event(KeyEvent::from(KeyCode::Left));
    input.handle_key_event(KeyEvent::from(KeyCode::Left));
    input.handle_key_event(KeyEvent::from(KeyCode::Backspace));
    assert_eq!(input.text(), "yel!");
    assert!(!input.is_empty());
    input.reset();
    assert!(input.is_empty());
    assert_eq!(input.text(), "");
    // backspace at the start does nothing
    input.handle_key_event(KeyEvent::from(KeyCode::Backspace));
    assert_eq!(input.text(), "");
}

#[test]
fn input_box_click_moves_cursor() {
    let mut input = InputBox::new();
    for c in "abc".chars() {
        input.handle_key_event(KeyEvent::from(KeyCode::Char(c)));
    }
    let area = Rect::new(0, 0, 20, 3);
    input.handle_mouse_event(left_click(2, 1), area);
    input.handle_key_event(KeyEvent::from(KeyCode::Char('x')));
    assert_eq!(input.text(), "axbc");
    // a click past the end moves the cursor to the end
    input.handle_mouse_event(left_click(15, 1), area);
    input.handle_key_event(KeyEvent::from(KeyCode::Char('z')));
    assert_eq!(input.text(), "axbcz");
}

// ---- view data ----

#[test]
fn view_data_requests() {
    let id = Ulid { id: "x".into() };
    assert_eq!(
        view_data_request(&ActiveView::Song(id.clone()), 20),
        Some(ViewDataRequest::Song(id.clone()))
    );
    assert_eq!(view_data_request(&ActiveView::Songs, 20), None);
    assert_eq!(view_data_request(&ActiveView::Random, 20), Some(ViewDataRequest::Random));
    let things = vec![RecordId::new("song".into(), "x".into())];
    assert_eq!(
        view_data_request(&ActiveView::Radio(things.clone()), 20),
        Some(ViewDataRequest::Radio(things, 20))
    );
}

#[test]
fn view_data_merges_one_part() {
    let radio = radio_view_props(3, Some(vec![song("a")]));
    assert_eq!(radio, Some(RadioViewProps { count: 3, songs: vec![song("a")] }));
    let data = merge_view_data(ViewData::default(), ViewDataReply::Radio(radio.clone()));
    assert_eq!(data.radio, radio);
    assert_eq!(data.song, None);
    let data = merge_view_data(data, ViewDataReply::Song(None));
    assert_eq!(data.radio, radio);
    assert_eq!(radio_view_props(3, None), None);
}

#[test]
fn mouse_goes_to_the_area_under_it() {
    let areas = Areas {
        control_panel: Rect::new(0, 20, 100, 4),
        sidebar: Rect::new(0, 0, 19, 20),
        content_view: Rect::new(19, 0, 56, 20),
        queuebar: Rect::new(75, 0, 25, 20),
    };
    let app = App::new(ActiveComponent::Sidebar);
    assert_eq!(
        app.mouse_target(areas, Position::new(5, 21)),
        AppMouse::Component(ActiveComponent::ControlPanel, areas.control_panel)
    );
    assert_eq!(app.mouse_target(areas, Position::new(5, 5)), AppMouse::Component(ActiveComponent::Sidebar, areas.sidebar));
    assert_eq!(
        app.mouse_target(areas, Position::new(30, 5)),
        AppMouse::Component(ActiveComponent::ContentView, areas.content_view)
    );
    assert_eq!(app.mouse_target(areas, Position::new(80, 5)), AppMouse::Component(ActiveComponent::QueueBar, areas.queuebar));
    assert_eq!(app.mouse_target(areas, Position::new(150, 50)), AppMouse::Ignore);
    assert_eq!(app.move_with_popup(true).mouse_target(areas, Position::new(5, 5)), AppMouse::Popup);
}

#[test]
fn a_failed_fetch_clears_that_view() {
    let props = RadioViewProps { count: 2, songs: Vec::new() };
    let data = ViewData { radio: Some(props), ..ViewData::default() };
    let request = ViewDataRequest::Radio(Vec::new(), 2);
    assert_eq!(failed_reply(&request), ViewDataReply::Radio(None));
    assert_eq!(merge_view_data(data, failed_reply(&request)), ViewData::default());
    assert_eq!(failed_reply(&ViewDataRequest::Random), ViewDataReply::Random(None));
}

#[test]
fn view_data_after_a_fetch() {
    let request = ViewDataRequest::Radio(Vec::new(), 3);
    // the parts for the request's view make its data
    let after = view_data_after(ViewData::default(), &request, Fetched::Radio { songs: Some(Vec::new()) });
    assert_eq!(after.radio, Some(RadioViewProps { count: 3, songs: Vec::new() }));
    // a failure, or parts of another kind, clear that view's data
    let failed = view_data_after(after.clone(), &request, Fetched::Failed);
    assert_eq!(failed.radio, None);
    let mismatched = view_data_after(after, &request, Fetched::Playlist { playlist: None, songs: None });
    assert_eq!(mismatched, ViewData::default());
    // a part missing: no data
    let random = view_data_after(ViewData::default(), &ViewDataRequest::Random, Fetched::Random { album: None, artist: None, song: None });
    assert_eq!(random.random, None);
}
