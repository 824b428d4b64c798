//! The active component store: which part of the interface has focus.
use vstd::prelude::*;

use super::action::ComponentAction;

verus! {

/// The component of the interface that currently has focus.
#[derive(Debug, Clone, Copy, PartialEq, Eq, Structural)]
pub enum ActiveComponent {
    Sidebar,
    QueueBar,
    ControlPanel,
    ContentView,
}

/// Position of a component in the focus cycle
/// sidebar -> content view -> queue bar -> control panel -> sidebar.
pub open spec fn cycle_index(c: ActiveComponent) -> int {
    match c {
        ActiveComponent::Sidebar => 0,
        ActiveComponent::ContentView => 1,
        ActiveComponent::QueueBar => 2,
        ActiveComponent::ControlPanel => 3,
    }
}

impl Default for ActiveComponent {
    fn default() -> (r: Self)
        ensures
            r == ActiveComponent::Sidebar,
    {
        ActiveComponent::Sidebar
    }
}

impl ActiveComponent {
    /// The component after this one in the focus cycle.
    pub fn next(self) -> (r: Self)
        ensures
            r == spec_next(self),
    {
        match self {
            ActiveComponent::Sidebar => ActiveComponent::ContentView,
            ActiveComponent::ContentView => ActiveComponent::QueueBar,
            ActiveComponent::QueueBar => ActiveComponent::ControlPanel,
            ActiveComponent::ControlPanel => ActiveComponent::Sidebar,
        }
    }

    /// The component before this one in the focus cycle.
    pub fn prev(self) -> (r: Self)
        ensures
            r == spec_prev(self),
    {
        match self {
            ActiveComponent::Sidebar => ActiveComponent::ControlPanel,
            ActiveComponent::ContentView => ActiveComponent::Sidebar,
            ActiveComponent::QueueBar => ActiveComponent::ContentView,
            ActiveComponent::ControlPanel => ActiveComponent::QueueBar,
        }
    }
}

/// Moving forward goes one place on in the cycle, moving back one place back.
pub proof fn lemma_cycle_order(c: ActiveComponent)
    ensures
        cycle_index(spec_next(c)) == (cycle_index(c) + 1) % 4,
        cycle_index(spec_prev(c)) == (cycle_index(c) + 3) % 4,
{
}

/// Moving forward and then back in the focus cycle returns to where one was,
/// and so does moving back and then forward.
pub proof fn lemma_next_prev_inverse(c: ActiveComponent)
    ensures
        c == spec_prev(spec_next(c)),
        c == spec_next(spec_prev(c)),
{
}

/// Four steps forward in the focus cycle return to the start.
pub proof fn lemma_next_cycle(c: ActiveComponent)
    ensures
        spec_next(spec_next(spec_next(spec_next(c)))) == c,
        spec_next(c) != c,
{
}

/// The component after `c` in the cycle.
pub open spec fn spec_next(c: ActiveComponent) -> ActiveComponent {
    match c {
        ActiveComponent::Sidebar => ActiveComponent::ContentView,
        ActiveComponent::ContentView => ActiveComponent::QueueBar,
        ActiveComponent::QueueBar => ActiveComponent::ControlPanel,
        ActiveComponent::ControlPanel => ActiveComponent::Sidebar,
    }
}

/// The component before `c` in the cycle.
pub open spec fn spec_prev(c: ActiveComponent) -> ActiveComponent {
    match c {
        ActiveComponent::Sidebar => ActiveComponent::ControlPanel,
        ActiveComponent::ContentView => ActiveComponent::Sidebar,
        ActiveComponent::QueueBar => ActiveComponent::ContentView,
        ActiveComponent::ControlPanel => ActiveComponent::QueueBar,
    }
}

/// The active component store.
#[derive(Debug, Clone, Copy)]
pub struct ComponentState;

impl ComponentState {
    /// The component that has focus after `action`.
    pub fn handle_action(state: ActiveComponent, action: ComponentAction) -> (r: ActiveComponent)
        ensures
            r == match action {
                ComponentAction::Next => spec_next(state),
                ComponentAction::Previous => spec_prev(state),
                ComponentAction::Focus(c) => c,
            },
    {
        match action {
            ComponentAction::Next => state.next(),
            ComponentAction::Previous => state.prev(),
            ComponentAction::Focus(new_state) => new_state,
        }
    }
}

} // verus!
