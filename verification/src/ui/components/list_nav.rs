//! Moving the selection of a list up and down, wrapping around at the ends.
use vstd::prelude::*;

verus! {

/// The selection after moving up in a list of `len` items: one up, or the
/// last item when nothing is selected or the first item is.
pub open spec fn spec_select_up(selected: Option<usize>, len: usize) -> usize {
    match selected {
        Some(s) if s > 0 => (s - 1) as usize,
        _ => (len - 1) as usize,
    }
}

/// The selection after moving down in a list of `len` items: one down, or
/// the first item when nothing is selected or the last item is.
pub open spec fn spec_select_down(selected: Option<usize>, len: usize) -> usize {
    match selected {
        Some(s) if s < len - 1 => (s + 1) as usize,
        _ => 0,
    }
}

/// The selection after moving up.
pub fn select_up(selected: Option<usize>, len: usize) -> (r: usize)
    requires
        len > 0,
    ensures
        r == spec_select_up(selected, len),
{
    match selected {
        Some(s) if s > 0 => s - 1,
        _ => len - 1,
    }
}

/// The selection after moving down.
pub fn select_down(selected: Option<usize>, len: usize) -> (r: usize)
    requires
        len > 0,
    ensures
        r == spec_select_down(selected, len),
{
    match selected {
        Some(s) if s < len - 1 => s + 1,
        _ => 0,
    }
}

/// Moving up and down keeps the selection inside the list, and moving up
/// then down (or down then up) from a selected item returns to it.
pub proof fn lemma_select_round_trip(s: usize, len: usize)
    requires
        s < len,
    ensures
        spec_select_up(Some(s), len) < len,
        spec_select_down(Some(s), len) < len,
        spec_select_down(Some(spec_select_up(Some(s), len)), len) == s,
        spec_select_up(Some(spec_select_down(Some(s), len)), len) == s,
{
}

/// Moving up from no selection selects the last item; moving down from no
/// selection selects the first.
pub proof fn lemma_select_from_none(len: usize)
    requires
        len > 0,
    ensures
        spec_select_up(None, len) == len - 1,
        spec_select_down(None, len) == 0,
{
}

} // verus!
