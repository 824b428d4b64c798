//! The blank view, shown when no view is active.
use vstd::prelude::*;

use super::keys::{KeyOutcome, MouseOutcome};
use crate::ui::events::{KeyEvent, MouseEvent};
use crate::ui::layout::Rect;

verus! {

/// The blank view: it shows "No active view" and does nothing.
#[derive(Debug, Clone, Copy, PartialEq, Eq, Structural)]
pub struct NoneView;

impl NoneView {
    pub fn new() -> (r: Self) {
        NoneView
    }

    pub fn move_with_state(self) -> (r: Self)
        ensures
            r == self,
    {
        self
    }

    pub fn name(&self) -> (r: &'static str)
        ensures
            r@ == "None"@,
    {
        "None"
    }

    /// Keys do nothing here.
    pub fn handle_key_event(&self, key: KeyEvent) -> (r: KeyOutcome)
        ensures
            r == KeyOutcome::Ignore,
    {
        KeyOutcome::Ignore
    }

    /// The mouse does nothing here.
    pub fn handle_mouse_event(&self, mouse: MouseEvent, area: Rect) -> (r: MouseOutcome)
        ensures
            r == MouseOutcome::Ignore,
    {
        MouseOutcome::Ignore
    }
}

} // verus!
