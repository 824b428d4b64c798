//! The view store: which view the content area shows, with a history for
//! going back and forward (undo/redo style navigation).
use vstd::prelude::*;

use super::action::ViewAction;
use crate::ui::components::content_view::{ActiveView, ActiveViewV};

verus! {

/// The mathematical value of a view action.
pub enum ViewActionV {
    Open(ActiveViewV),
    Back,
    Next,
}

impl View for ViewAction {
    type V = ViewActionV;

    open spec fn view(&self) -> ViewActionV {
        match self {
            ViewAction::Open(v) => ViewActionV::Open(v@),
            ViewAction::Back => ViewActionV::Back,
            ViewAction::Next => ViewActionV::Next,
        }
    }
}

pub open spec fn history_view(h: Seq<ActiveView>) -> Seq<ActiveViewV> {
    h.map_values(|v: ActiveView| v@)
}

/// The history `h` with position `i` after `action`: opening a view drops
/// everything after the current position and appends the view; going back
/// moves one step back unless at the start; going forward moves one step on
/// unless at the end.
pub open spec fn spec_step(h: Seq<ActiveViewV>, i: int, action: ViewActionV) -> (
    Seq<ActiveViewV>,
    int,
) {
    match action {
        ViewActionV::Open(v) => {
            let kept = if i + 1 <= h.len() {
                h.subrange(0, i + 1)
            } else {
                h
            };
            (kept.push(v), kept.len() as int)
        },
        ViewActionV::Back => if i > 0 {
            (h, i - 1)
        } else {
            (h, i)
        },
        ViewActionV::Next => if i < h.len() - 1 {
            (h, i + 1)
        } else {
            (h, i)
        },
    }
}

/// The view shown at position `i` of the history (the blank view if there
/// is none there).
pub open spec fn spec_current(h: Seq<ActiveViewV>, i: int) -> ActiveViewV {
    if 0 <= i < h.len() {
        h[i]
    } else {
        ActiveViewV::Blank
    }
}

/// The position points into the history.
pub open spec fn spec_valid(h: Seq<ActiveViewV>, i: int) -> bool {
    0 <= i < h.len()
}

/// The view store.
#[derive(Debug, Clone, Copy)]
pub struct ViewState;

impl ViewState {
    /// The history the store starts with: just the blank view, shown.
    pub fn initial_history() -> (r: (Vec<ActiveView>, usize))
        ensures
            history_view(r.0@) == seq![ActiveViewV::Blank],
            r.1 == 0,
    {
        let mut h = Vec::new();
        h.push(ActiveView::Blank);
        assert(history_view(h@) =~= seq![ActiveViewV::Blank]);
        (h, 0)
    }

    /// Applies `action` to the history and returns the view to show.
    pub fn handle_action(
        &self,
        view_history: &mut Vec<ActiveView>,
        view_index: &mut usize,
        action: ViewAction,
    ) -> (r: ActiveView)
        requires
            action is Next ==> old(view_history)@.len() > 0,
            action is Open ==> *old(view_index) < usize::MAX,
        ensures
            (history_view(final(view_history)@), *final(view_index) as int) == spec_step(
                history_view(old(view_history)@),
                *old(view_index) as int,
                action@,
            ),
            r@ == spec_current(history_view(final(view_history)@), *final(view_index) as int),
    {
        let ghost h0 = history_view(view_history@);
        match action {
            ViewAction::Open(view) => {
                view_history.truncate(*view_index + 1);
                view_history.push(view);
                *view_index = view_history.len() - 1;
                proof {
                    let kept = if *old(view_index) + 1 <= h0.len() {
                        h0.subrange(0, *old(view_index) + 1)
                    } else {
                        h0
                    };
                    assert(history_view(view_history@) =~= kept.push(view@));
                }
            },
            ViewAction::Back => {
                if *view_index > 0 {
                    *view_index -= 1;
                }
            },
            ViewAction::Next => {
                if *view_index < view_history.len() - 1 {
                    *view_index += 1;
                }
            },
        }
        if *view_index < view_history.len() {
            view_history[*view_index].clone()
        } else {
            ActiveView::Blank
        }
    }
}

/// Every step keeps the position inside a non-empty history.
pub proof fn lemma_step_keeps_valid(h: Seq<ActiveViewV>, i: int, action: ViewActionV)
    requires
        spec_valid(h, i),
    ensures
        spec_valid(spec_step(h, i, action).0, spec_step(h, i, action).1),
{
}

/// Opening a view shows it.
pub proof fn lemma_open_shows_view(h: Seq<ActiveViewV>, i: int, v: ActiveViewV)
    requires
        spec_valid(h, i),
    ensures
        spec_current(spec_step(h, i, ViewActionV::Open(v)).0, spec_step(h, i, ViewActionV::Open(v)).1)
            == v,
{
}

/// Opening a view and then going back shows the view that was shown before.
pub proof fn lemma_open_then_back(h: Seq<ActiveViewV>, i: int, v: ActiveViewV)
    requires
        spec_valid(h, i),
    ensures
        ({
            let (h1, i1) = spec_step(h, i, ViewActionV::Open(v));
            let (h2, i2) = spec_step(h1, i1, ViewActionV::Back);
            spec_current(h2, i2) == spec_current(h, i)
        }),
{
}

/// Going back and then forward again returns to the same history and
/// position, unless one was already at the start.
pub proof fn lemma_back_then_next(h: Seq<ActiveViewV>, i: int)
    requires
        spec_valid(h, i),
        i > 0,
    ensures
        ({
            let (h1, i1) = spec_step(h, i, ViewActionV::Back);
            spec_step(h1, i1, ViewActionV::Next) == (h, i)
        }),
{
}

/// Going back at the start of the history, or forward at its end, changes
/// nothing.
pub proof fn lemma_edges_stay(h: Seq<ActiveViewV>, i: int)
    requires
        spec_valid(h, i),
    ensures
        i == 0 ==> spec_step(h, i, ViewActionV::Back) == (h, i),
        i == h.len() - 1 ==> spec_step(h, i, ViewActionV::Next) == (h, i),
{
}

/// Opening a view after going back forgets the views that were ahead: going
/// forward is then impossible.
pub proof fn lemma_open_drops_forward(h: Seq<ActiveViewV>, i: int, v: ActiveViewV)
    requires
        spec_valid(h, i),
    ensures
        ({
            let (h1, i1) = spec_step(h, i, ViewActionV::Open(v));
            &&& h1.len() == i + 2
            &&& spec_step(h1, i1, ViewActionV::Next) == (h1, i1)
        }),
{
}

/// While the position points into the history (which
/// [`ViewState::handle_action`] then accepts for every action), every step
/// keeps it so, and the view shown is the history's entry at the new
/// position: the blank fallback is never taken.
pub proof fn lemma_step_shows_history_entry(h: Seq<ActiveViewV>, i: int, action: ViewActionV)
    requires
        spec_valid(h, i),
    ensures
        ({
            let (h1, i1) = spec_step(h, i, action);
            &&& spec_valid(h1, i1)
            &&& spec_current(h1, i1) == h1[i1]
        }),
{
}

/// Going back undoes opening a view, and going forward then redoes it: open
/// `v`, then back shows the view shown before, then next shows `v` again.
pub proof fn lemma_open_back_next(h: Seq<ActiveViewV>, i: int, v: ActiveViewV)
    requires
        spec_valid(h, i),
    ensures
        ({
            let (h1, i1) = spec_step(h, i, ViewActionV::Open(v));
            let (h2, i2) = spec_step(h1, i1, ViewActionV::Back);
            let (h3, i3) = spec_step(h2, i2, ViewActionV::Next);
            &&& spec_current(h2, i2) == spec_current(h, i)
            &&& spec_current(h3, i3) == v
            &&& (h3, i3) == (h1, i1)
        }),
{
}

} // verus!
