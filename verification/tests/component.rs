use mecomp_tui::state::action::ComponentAction;
use mecomp_tui::state::component::{ActiveComponent, ComponentState};

#[test]
fn test_next() {
    assert_eq!(ActiveComponent::Sidebar.next(), ActiveComponent::ContentView);
    assert_eq!(ActiveComponent::ContentView.next(), ActiveComponent::QueueBar);
    assert_eq!(ActiveComponent::QueueBar.next(), ActiveComponent::ControlPanel);
    assert_eq!(ActiveComponent::ControlPanel.next(), ActiveComponent::Sidebar);
}

#[test]
fn test_prev() {
    assert_eq!(ActiveComponent::Sidebar.prev(), ActiveComponent::ControlPanel);
    assert_eq!(ActiveComponent::ContentView.prev(), ActiveComponent::Sidebar);
    assert_eq!(ActiveComponent::QueueBar.prev(), ActiveComponent::ContentView);
    assert_eq!(ActiveComponent::ControlPanel.prev(), ActiveComponent::QueueBar);
}

#[test]
fn component_default_is_sidebar() {
    assert_eq!(ActiveComponent::default(), ActiveComponent::Sidebar);
}

#[test]
fn component_next_then_prev_returns() {
    for c in [
        ActiveComponent::Sidebar,
        ActiveComponent::ContentView,
        ActiveComponent::QueueBar,
        ActiveComponent::ControlPanel,
    ] {
        assert_eq!(c.next().prev(), c);
        assert_eq!(c.prev().next(), c);
        assert_eq!(c.next().next().next().next(), c);
    }
}

#[test]
fn component_state_handles_actions() {
    assert_eq!(
        ComponentState::handle_action(ActiveComponent::Sidebar, ComponentAction::Next),
        ActiveComponent::ContentView
    );
    assert_eq!(
        ComponentState::handle_action(ActiveComponent::Sidebar, ComponentAction::Previous),
        ActiveComponent::ControlPanel
    );
    assert_eq!(
        ComponentState::handle_action(
            ActiveComponent::Sidebar,
            ComponentAction::Focus(ActiveComponent::QueueBar)
        ),
        ActiveComponent::QueueBar
    );
}
