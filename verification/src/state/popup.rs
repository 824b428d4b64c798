//! The popup store: opens and closes popups, keeping the popups that were
//! opened on a stack.
use vstd::prelude::*;

use super::action::PopupAction;
use crate::ui::widgets::popups::{PopupType, PopupTypeView};

verus! {

/// The popup on top of a stack of popups (the one shown), if any.
pub open spec fn spec_top(stack: Seq<PopupType>) -> Option<PopupTypeView> {
    if stack.len() == 0 {
        None
    } else {
        Some(stack.last()@)
    }
}

/// A popup to show, as its value.
pub open spec fn spec_shown(r: Option<PopupType>) -> Option<PopupTypeView> {
    match r {
        Some(p) => Some(p@),
        None => None,
    }
}

/// The popup store.
#[derive(Debug, Clone, Copy)]
pub struct PopupState;

impl PopupState {
    /// Applies `action` to the popup stack and returns the popup the
    /// interface shows next: the one on top of the stack. Opening pushes the
    /// popup, which is then shown; closing takes the current popup off the
    /// stack, and the one beneath it is shown (nothing if none is left).
    pub fn handle_action(stack: &mut Vec<PopupType>, action: PopupAction) -> (r: Option<PopupType>)
        ensures
            final(stack)@ == match action {
                PopupAction::Open(popup) => old(stack)@.push(popup),
                PopupAction::Close => if old(stack)@.len() == 0 {
                    old(stack)@
                } else {
                    old(stack)@.drop_last()
                },
            },
            spec_shown(r) == spec_top(final(stack)@),
    {
        match action {
            PopupAction::Open(popup) => {
                let shown = popup.clone();
                stack.push(popup);
                Some(shown)
            },
            PopupAction::Close => {
                let _closed = stack.pop();
                let n = stack.len();
                if n == 0 {
                    None
                } else {
                    Some(stack[n - 1].clone())
                }
            },
        }
    }
}

/// Opening a popup and then closing it leaves the popup stack as it was,
/// so the popup shown afterwards is the one shown before the opening.
pub proof fn lemma_open_then_close(stack: Seq<PopupType>, popup: PopupType)
    ensures
        stack.push(popup).drop_last() == stack,
        spec_top(stack.push(popup)) == Some(popup@),
        spec_top(stack.push(popup).drop_last()) == spec_top(stack),
{
    assert(stack.push(popup).drop_last() =~= stack);
}

} // verus!
