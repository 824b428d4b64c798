pub mod content_view;
pub mod control_panel;
pub mod list_nav;
pub mod queuebar;
pub mod sidebar;

use vstd::prelude::*;

use crate::ui::layout::Rect;

verus! {

/// Where and how a component is drawn.
#[derive(Debug, Clone, Copy, PartialEq, Eq, Structural)]
pub struct RenderProps {
    pub area: Rect,
    pub is_focused: bool,
}

} // verus!
