//! The overlay store: opens and closes overlays.
//!
//! Overlays are drawn above popups and can be updated on their own. Closing
//! one may carry a result (for example the option picked in a dropdown).
use vstd::prelude::*;

use super::action::OverlayAction;

verus! {

/// An overlay that can be shown above the popups.
#[derive(Debug, Clone, PartialEq, Eq)]
pub enum OverlayType {
    /// A dropdown of options; `target_id` names the widget that opened it.
    Dropdown { target_id: u64, options: Vec<String>, selected_index: usize },
}

/// What an overlay reports when it is committed.
#[derive(Debug, Clone, Copy, PartialEq, Eq, Structural)]
pub enum OverlayResult {
    /// The option at `selected_index` was picked in the dropdown of `target_id`.
    DropdownSelected { target_id: u64, selected_index: usize },
}

/// The overlay state sent to the interface: the open overlay, if any, and
/// the result of the one that was just committed, if any.
#[derive(Debug, Clone, PartialEq, Eq)]
pub struct OverlayUpdate {
    pub active: Option<OverlayType>,
    pub result: Option<OverlayResult>,
}

impl OverlayUpdate {
    pub fn new(active: Option<OverlayType>, result: Option<OverlayResult>) -> (r: Self)
        ensures
            r.active == active,
            r.result == result,
    {
        OverlayUpdate { active, result }
    }
}

/// The overlay store.
#[derive(Debug, Clone, Copy)]
pub struct OverlayState;

impl OverlayState {
    /// The update the store sends when it starts.
    pub fn initial() -> (r: OverlayUpdate)
        ensures
            r.active is None,
            r.result is None,
    {
        OverlayUpdate::new(None, None)
    }

    /// The update the store sends for `action`: opening shows the overlay,
    /// committing closes it and reports the result, closing just closes it.
    pub fn handle_action(action: OverlayAction) -> (r: OverlayUpdate)
        ensures
            match action {
                OverlayAction::Open(overlay) => r.active == Some(overlay) && r.result is None,
                OverlayAction::Commit(result) => r.active is None && r.result == Some(result),
                OverlayAction::Close => r.active is None && r.result is None,
            },
    {
        match action {
            OverlayAction::Open(overlay) => OverlayUpdate::new(Some(overlay), None),
            OverlayAction::Commit(result) => OverlayUpdate::new(None, Some(result)),
            OverlayAction::Close => OverlayUpdate::new(None, None),
        }
    }
}

} // verus!
