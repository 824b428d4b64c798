use mecomp_tui::state::action::{
    Action, AudioAction, ComponentAction, GeneralAction, LibraryAction, OverlayAction, PlaybackAction,
    PopupAction, QueueAction, RepeatMode, SeekType, StateChange, Status, ViewAction, VolumeAction,
};
use mecomp_tui::state::audio::{AudioRequest, AudioSnapshot, AudioState, SeekPosition, playback_request, queue_request};
use mecomp_tui::state::component::ActiveComponent;
use mecomp_tui::state::dispatcher::{Dispatch, Dispatcher};
use mecomp_tui::state::library::{LibraryRequest, LibraryState, RecordId};
use mecomp_tui::state::overlay::{OverlayResult, OverlayState, OverlayType, OverlayUpdate};
use mecomp_tui::state::popup::PopupState;
use mecomp_tui::state::search::{SEARCH_LIMIT, SearchResult, SearchState};
use mecomp_tui::state::view::ViewState;
use mecomp_tui::subscriber::{Event, Message, Subscriber};
use mecomp_tui::termination::Interrupted;
use mecomp_tui::ui::components::content_view::ActiveView;
use mecomp_tui::ui::widgets::popups::PopupType;

fn set(view: ActiveView) -> ViewAction {
    ViewAction::Open(view)
}

#[test]
fn test_handle_action() {
    let view = ViewState;
    let (mut view_history, mut view_index) = ViewState::initial_history();

    let mut state = view.handle_action(&mut view_history, &mut view_index, set(ActiveView::Search));
    assert_eq!(state, ActiveView::Search);
    state = view.handle_action(&mut view_history, &mut view_index, set(ActiveView::Songs));
    assert_eq!(state, ActiveView::Songs);
    state = view.handle_action(&mut view_history, &mut view_index, set(ActiveView::Artists));
    assert_eq!(state, ActiveView::Artists);
    state = view.handle_action(&mut view_history, &mut view_index, ViewAction::Back);
    assert_eq!(state, ActiveView::Songs);
    state = view.handle_action(&mut view_history, &mut view_index, ViewAction::Back);
    assert_eq!(state, ActiveView::Search);
    state = view.handle_action(&mut view_history, &mut view_index, ViewAction::Back);
    assert_eq!(state, ActiveView::default());
    state = view.handle_action(&mut view_history, &mut view_index, ViewAction::Back);
    assert_eq!(state, ActiveView::default());
}

#[test]
fn test_forward_backward() {
    let view = ViewState;
    let (mut view_history, mut view_index) = ViewState::initial_history();

    let mut state = view.handle_action(&mut view_history, &mut view_index, set(ActiveView::Search));
    assert_eq!(state, ActiveView::Search);
    state = view.handle_action(&mut view_history, &mut view_index, set(ActiveView::Songs));
    assert_eq!(state, ActiveView::Songs);
    state = view.handle_action(&mut view_history, &mut view_index, set(ActiveView::Artists));
    assert_eq!(state, ActiveView::Artists);
    state = view.handle_action(&mut view_history, &mut view_index, ViewAction::Back);
    assert_eq!(state, ActiveView::Songs);
    state = view.handle_action(&mut view_history, &mut view_index, set(ActiveView::Albums));
    assert_eq!(state, ActiveView::Albums);
    state = view.handle_action(&mut view_history, &mut view_index, ViewAction::Back);
    assert_eq!(state, ActiveView::Songs);
    state = view.handle_action(&mut view_history, &mut view_index, ViewAction::Next);
    assert_eq!(state, ActiveView::Albums);
    state = view.handle_action(&mut view_history, &mut view_index, ViewAction::Next);
    assert_eq!(state, ActiveView::Albums);
    state = view.handle_action(&mut view_history, &mut view_index, ViewAction::Back);
    assert_eq!(state, ActiveView::Songs);
    state = view.handle_action(&mut view_history, &mut view_index, ViewAction::Back);
    assert_eq!(state, ActiveView::Search);
    state = view.handle_action(&mut view_history, &mut view_index, ViewAction::Back);
    assert_eq!(state, ActiveView::default());
    state = view.handle_action(&mut view_history, &mut view_index, ViewAction::Back);
    assert_eq!(state, ActiveView::default());
}

#[test]
fn view_open_drops_forward_history() {
    let view = ViewState;
    let (mut history, mut index) = ViewState::initial_history();
    view.handle_action(&mut history, &mut index, set(ActiveView::Songs));
    view.handle_action(&mut history, &mut index, set(ActiveView::Albums));
    view.handle_action(&mut history, &mut index, ViewAction::Back);
    view.handle_action(&mut history, &mut index, set(ActiveView::Random));
    assert_eq!(history, vec![ActiveView::Blank, ActiveView::Songs, ActiveView::Random]);
    assert_eq!(view.handle_action(&mut history, &mut index, ViewAction::Next), ActiveView::Random);
}

#[test]
fn popup_stack_opens_and_closes() {
    let mut stack = Vec::new();
    let first = PopupType::Notification("one".to_string());
    let second = PopupType::Playlist(vec![RecordId::new("song".into(), "a".into())]);
    assert_eq!(PopupState::handle_action(&mut stack, PopupAction::Open(first.clone())), Some(first.clone()));
    assert_eq!(PopupState::handle_action(&mut stack, PopupAction::Open(second.clone())), Some(second.clone()));
    // closing the current popup shows the one beneath it
    assert_eq!(PopupState::handle_action(&mut stack, PopupAction::Close), Some(first.clone()));
    assert_eq!(stack, vec![first]);
    assert_eq!(PopupState::handle_action(&mut stack, PopupAction::Close), None);
    assert!(stack.is_empty());
    assert_eq!(PopupState::handle_action(&mut stack, PopupAction::Close), None);
}

#[test]
fn commit_emits_result_and_closes_overlay() {
    let dropdown = OverlayType::Dropdown {
        target_id: 7,
        options: vec!["a".to_string(), "b".to_string()],
        selected_index: 0,
    };
    assert_eq!(OverlayState::initial(), OverlayUpdate::new(None, None));
    assert_eq!(
        OverlayState::handle_action(OverlayAction::Open(dropdown.clone())),
        OverlayUpdate::new(Some(dropdown), None)
    );
    let result = OverlayResult::DropdownSelected { target_id: 7, selected_index: 1 };
    assert_eq!(
        OverlayState::handle_action(OverlayAction::Commit(result)),
        OverlayUpdate::new(None, Some(result))
    );
    assert_eq!(OverlayState::handle_action(OverlayAction::Close), OverlayUpdate::new(None, None));
}

#[test]
fn test_action_dispatcher_forwards_actions() {
    assert_eq!(
        Dispatcher::route(Action::Audio(AudioAction::Playback(PlaybackAction::Toggle))),
        vec![Dispatch::Audio(AudioAction::Playback(PlaybackAction::Toggle))]
    );
    assert_eq!(Dispatcher::route(Action::Search("query".into())), vec![Dispatch::Search("query".into())]);
    assert_eq!(
        Dispatcher::route(Action::Library(LibraryAction::Update)),
        vec![Dispatch::Library(LibraryAction::Update)]
    );
    assert_eq!(
        Dispatcher::route(Action::ActiveView(ViewAction::Open(ActiveView::Search))),
        vec![Dispatch::View(ViewAction::Open(ActiveView::Search))]
    );
    assert_eq!(
        Dispatcher::route(Action::Popup(PopupAction::Close)),
        vec![Dispatch::Overlay(OverlayAction::Close), Dispatch::Popup(PopupAction::Close)]
    );
    assert_eq!(
        Dispatcher::route(Action::ActiveComponent(ComponentAction::Focus(ActiveComponent::ContentView))),
        vec![Dispatch::Component(ComponentAction::Focus(ActiveComponent::ContentView))]
    );
    assert_eq!(Dispatcher::route(Action::General(GeneralAction::Exit)), vec![Dispatch::Exit]);
}

#[test]
fn dispatcher_opening_a_popup_leaves_the_overlay() {
    let popup = PopupAction::Open(PopupType::Notification("hi".into()));
    assert_eq!(Dispatcher::route(Action::Popup(popup.clone())), vec![Dispatch::Popup(popup)]);
}

#[test]
fn test_handle_message() {
    let subscriber = Subscriber;
    for (event, expected) in [
        (Event::LibraryRescanFinished, "Library rescan finished"),
        (Event::LibraryAnalysisFinished, "Library analysis finished"),
        (Event::LibraryReclusterFinished, "Library recluster finished"),
    ] {
        let actions = subscriber.handle_message(Message::Event(event));
        assert_eq!(
            actions,
            vec![
                Action::Library(LibraryAction::Update),
                Action::Popup(PopupAction::Open(PopupType::Notification(expected.into()))),
            ]
        );
    }
}

#[test]
fn subscriber_daemon_shutdown_exits() {
    assert_eq!(
        Subscriber.handle_message(Message::Event(Event::DaemonShutdown)),
        vec![Action::General(GeneralAction::Exit)]
    );
    assert_eq!(
        Subscriber.handle_message(Message::StateChange(StateChange::Muted)),
        vec![Action::Audio(AudioAction::StateChange(StateChange::Muted))]
    );
}

#[test]
fn interrupted_kinds_differ() {
    assert_ne!(Interrupted::UserInt, Interrupted::OsSigInt);
    assert_eq!(Interrupted::OsSigTerm, Interrupted::OsSigTerm);
}

#[test]
fn audio_requests() {
    assert_eq!(playback_request(PlaybackAction::Next), AudioRequest::SkipForward(1));
    assert_eq!(playback_request(PlaybackAction::Previous), AudioRequest::SkipBackward(1));
    assert_eq!(
        playback_request(PlaybackAction::Seek(SeekType::RelativeForwards, 5_000_000_000)),
        AudioRequest::Seek(SeekType::RelativeForwards, 5_000_000_000)
    );
    assert_eq!(
        playback_request(PlaybackAction::Volume(VolumeAction::Decrease(5))),
        AudioRequest::VolumeDown(5)
    );
    assert_eq!(queue_request(QueueAction::Remove(3)), AudioRequest::QueueRemoveRange(3, 4));
    assert_eq!(queue_request(QueueAction::SetPosition(2)), AudioRequest::QueueSetIndex(2));
    assert_eq!(
        queue_request(QueueAction::SetRepeatMode(RepeatMode::All)),
        AudioRequest::Repeat(RepeatMode::All)
    );
}

#[test]
fn audio_state_follows_announcements() {
    let mut state = AudioSnapshot {
        muted: false,
        volume: 0,
        repeat_mode: RepeatMode::Off,
        status: Status::Paused,
        seek_position: None,
    };
    assert!(!AudioState::apply_state_change(&mut state, StateChange::Muted));
    assert!(state.muted);
    assert!(!AudioState::apply_state_change(&mut state, StateChange::Seeked(3, 0)));
    assert_eq!(state.seek_position, None);
    state.seek_position = Some(SeekPosition { secs: 0, nanos: 0 });
    AudioState::apply_state_change(&mut state, StateChange::Seeked(3, 5));
    assert_eq!(state.seek_position, Some(SeekPosition { secs: 3, nanos: 5 }));
    assert!(AudioState::apply_state_change(&mut state, StateChange::QueueChanged));
    assert!(AudioState::apply_state_change(&mut state, StateChange::TrackChanged(None)));
    AudioState::apply_state_change(&mut state, StateChange::StatusChanged(Status::Playing));
    assert!(AudioState::advances_on_tick(&state));
    AudioState::apply_state_change(&mut state, StateChange::Unmuted);
    assert!(!state.muted);
}

#[test]
fn library_requests_and_refreshes() {
    assert_eq!(LibraryState::request(LibraryAction::Update), None);
    assert_eq!(LibraryState::request(LibraryAction::Analyze), Some(LibraryRequest::Analyze(false)));
    assert_eq!(
        LibraryState::request(LibraryAction::CreatePlaylist("x".into())),
        Some(LibraryRequest::PlaylistGetOrCreate("x".into()))
    );
    assert!(LibraryState::needs_refresh(&LibraryAction::Update));
    assert!(LibraryState::needs_refresh(&LibraryAction::CreatePlaylist("x".into())));
    assert!(!LibraryState::needs_refresh(&LibraryAction::Rescan));
    assert!(!LibraryState::is_failure(true));
    assert!(LibraryState::is_failure(false));
}

#[test]
fn search_request_and_results() {
    assert_eq!(SearchState::search_request("abc".into()), ("abc".to_string(), SEARCH_LIMIT));
    assert_eq!(SEARCH_LIMIT, 100);
    let empty = SearchResult::default();
    assert!(empty.is_empty());
    assert_eq!(empty.len(), 0);
}
