//! Screen areas: rectangles, positions, margins, and splitting an area
//! into parts with the terminal library's layout solver.
use ratatui::layout as rl;
use vstd::prelude::*;

verus! {

/// A position on the screen (column `x`, row `y`).
#[derive(Debug, Clone, Copy, PartialEq, Eq, Structural)]
pub struct Position {
    pub x: u16,
    pub y: u16,
}

impl Position {
    pub fn new(x: u16, y: u16) -> (r: Self)
        ensures
            r.x == x,
            r.y == y,
    {
        Position { x, y }
    }
}

/// Margins to take off the sides of a rectangle.
#[derive(Debug, Clone, Copy, PartialEq, Eq, Structural)]
pub struct Margin {
    pub horizontal: u16,
    pub vertical: u16,
}

impl Margin {
    pub fn new(horizontal: u16, vertical: u16) -> (r: Self)
        ensures
            r.horizontal == horizontal,
            r.vertical == vertical,
    {
        Margin { horizontal, vertical }
    }
}

/// A rectangle of the screen.
#[derive(Debug, Clone, Copy, PartialEq, Eq, Default, Structural)]
pub struct Rect {
    pub x: u16,
    pub y: u16,
    pub width: u16,
    pub height: u16,
}

/// `a + b`, or `u16::MAX` if that is larger.
pub open spec fn sat_add(a: u16, b: u16) -> int {
    if a + b > u16::MAX {
        u16::MAX as int
    } else {
        a + b
    }
}

/// `a - b`, or 0 if that is negative.
pub open spec fn sat_sub(a: u16, b: u16) -> int {
    if a < b {
        0
    } else {
        a - b
    }
}

impl Rect {
    pub fn new(x: u16, y: u16, width: u16, height: u16) -> (r: Self)
        ensures
            r == (Rect { x, y, width, height }),
    {
        Rect { x, y, width, height }
    }

    /// Whether the rectangle holds the position (its right and bottom edges
    /// are `x + width` and `y + height`, capped at `u16::MAX`).
    pub open spec fn spec_contains(self, p: Position) -> bool {
        &&& self.x <= p.x
        &&& p.x < sat_add(self.x, self.width)
        &&& self.y <= p.y
        &&& p.y < sat_add(self.y, self.height)
    }

    /// Whether the rectangle holds the position.
    pub fn contains(&self, p: Position) -> (r: bool)
        ensures
            r == self.spec_contains(p),
    {
        self.x <= p.x && p.x < self.x.saturating_add(self.width) && self.y <= p.y && p.y
            < self.y.saturating_add(self.height)
    }

    /// The rectangle with the margin taken off each side (empty if the
    /// margin does not fit).
    pub open spec fn spec_inner(self, m: Margin) -> Rect {
        let dh = if 2 * m.horizontal > u16::MAX {
            u16::MAX as int
        } else {
            2 * m.horizontal
        };
        let dv = if 2 * m.vertical > u16::MAX {
            u16::MAX as int
        } else {
            2 * m.vertical
        };
        if self.width < dh || self.height < dv {
            Rect { x: 0, y: 0, width: 0, height: 0 }
        } else {
            Rect {
                x: sat_add(self.x, m.horizontal) as u16,
                y: sat_add(self.y, m.vertical) as u16,
                width: (self.width - dh) as u16,
                height: (self.height - dv) as u16,
            }
        }
    }

    /// The rectangle with the margin taken off each side.
    pub fn inner(&self, m: Margin) -> (r: Rect)
        ensures
            r == self.spec_inner(m),
    {
        let dh: u16 = if m.horizontal > 32767 {
            u16::MAX
        } else {
            2 * m.horizontal
        };
        let dv: u16 = if m.vertical > 32767 {
            u16::MAX
        } else {
            2 * m.vertical
        };
        if self.width < dh || self.height < dv {
            Rect { x: 0, y: 0, width: 0, height: 0 }
        } else {
            Rect {
                x: self.x.saturating_add(m.horizontal),
                y: self.y.saturating_add(m.vertical),
                width: self.width - dh,
                height: self.height - dv,
            }
        }
    }
}

/// A constraint on the size of one part of a layout.
#[derive(Debug, Clone, Copy, PartialEq, Eq, Structural)]
pub enum Constraint {
    Min(u16),
    Length(u16),
    Percentage(u16),
    Fill(u16),
}

/// Whether rectangle `a` lies inside rectangle `b` (their right and bottom
/// edges capped at `u16::MAX`).
pub open spec fn spec_inside(a: Rect, b: Rect) -> bool {
    &&& b.x <= a.x
    &&& a.x + a.width <= sat_add(b.x, b.width)
    &&& b.y <= a.y
    &&& a.y + a.height <= sat_add(b.y, b.height)
}

/// Whether `part` is a part of `area` cut top to bottom (`vertical`) or
/// left to right: it lies inside the area and spans the area's whole width
/// (or height), up to the screen's last column (or row).
pub open spec fn spec_part_of(part: Rect, area: Rect, vertical: bool) -> bool {
    &&& spec_inside(part, area)
    &&& if vertical {
        part.x == area.x && part.x + part.width == sat_add(area.x, area.width)
    } else {
        part.y == area.y && part.y + part.height == sat_add(area.y, area.height)
    }
}

/// A position inside a rectangle that lies inside another is inside that
/// other one too.
pub proof fn lemma_inside_contains(a: Rect, b: Rect, p: Position)
    requires
        spec_inside(a, b),
        a.spec_contains(p),
    ensures
        b.spec_contains(p),
{
}

/// Whether `parts` are what the terminal library's layout gives when it
/// cuts `area` under `constraints`, top to bottom when `vertical`, left to
/// right otherwise. The predicate is closed: outside this module, a
/// sequence of rectangles is such a layout only where the layout itself
/// produced it, under exactly these constraints, in this order. What is
/// known of every such layout is what [`lemma_layout_parts`] gives: one
/// part per constraint (the `i`-th for the `i`-th), each a part of the
/// area ([`spec_part_of`]). Where the parts start and end along the area is the
/// solver's to settle.
pub closed spec fn spec_layout_of(parts: Seq<Rect>, area: Rect, vertical: bool, constraints: Seq<Constraint>) -> bool {
    &&& parts.len() == constraints.len()
    &&& forall|i: int| 0 <= i < parts.len() ==> spec_part_of(#[trigger] parts[i], area, vertical)
}

/// What every layout gives: one part per constraint, each a part of the
/// area that was cut.
pub proof fn lemma_layout_parts(parts: Seq<Rect>, area: Rect, vertical: bool, constraints: Seq<Constraint>)
    requires
        spec_layout_of(parts, area, vertical, constraints),
    ensures
        parts.len() == constraints.len(),
        forall|i: int| 0 <= i < parts.len() ==> spec_part_of(#[trigger] parts[i], area, vertical),
{
}

/// Calls `ratatui::layout::Layout::split`, which cuts `area` into parts,
/// top to bottom when `vertical`, left to right otherwise, under the
/// constraints in their order. The contract claims that the parts are that
/// layout ([`spec_layout_of`]), of which it claims as known that there is
/// one part per constraint, and that each part lies inside the area and
/// spans its whole width (or height), as the library's code shows: the
/// area is first cut back so that its edges stay within `u16`, the
/// cross-direction fields of each part are copied from it, and the solver
/// is given, at required strength, that every edge lies between its two
/// edges. Where the parts start and end along the area is left unsaid: the
/// solver settles that by weighing the constraints against each other
/// (none of them at required strength), and it may settle an
/// under-determined layout either way, so the same arguments need not give
/// the same parts.
#[verifier::external_body]
pub fn layout_split(area: Rect, vertical: bool, constraints: &Vec<Constraint>) -> (r: Vec<Rect>)
    ensures
        spec_layout_of(r@, area, vertical, constraints@),
{
    let dir = if vertical { rl::Direction::Vertical } else { rl::Direction::Horizontal };
    let cs = constraints.iter().map(|c| match *c {
        Constraint::Min(v) => rl::Constraint::Min(v),
        Constraint::Length(v) => rl::Constraint::Length(v),
        Constraint::Percentage(v) => rl::Constraint::Percentage(v),
        Constraint::Fill(v) => rl::Constraint::Fill(v),
    });
    let area = rl::Rect::new(area.x, area.y, area.width, area.height);
    let parts = rl::Layout::default().direction(dir).constraints(cs).split(area);
    parts.iter().map(|p| Rect { x: p.x, y: p.y, width: p.width, height: p.height }).collect()
}

/// The two parts a layout of two constraints cuts `area` into.
pub fn split2(area: Rect, vertical: bool, first: Constraint, second: Constraint) -> (r: (Rect, Rect))
    ensures
        spec_layout_of(seq![r.0, r.1], area, vertical, seq![first, second]),
{
    let mut constraints: Vec<Constraint> = Vec::new();
    constraints.push(first);
    constraints.push(second);
    assert(constraints@ =~= seq![first, second]);
    let parts = layout_split(area, vertical, &constraints);
    assert(parts@ =~= seq![parts@[0], parts@[1]]);
    (parts[0], parts[1])
}

/// The three parts a layout of three constraints cuts `area` into.
pub fn split3(area: Rect, vertical: bool, first: Constraint, second: Constraint, third: Constraint) -> (r: (Rect, Rect, Rect))
    ensures
        spec_layout_of(seq![r.0, r.1, r.2], area, vertical, seq![first, second, third]),
{
    let mut constraints: Vec<Constraint> = Vec::new();
    constraints.push(first);
    constraints.push(second);
    constraints.push(third);
    assert(constraints@ =~= seq![first, second, third]);
    let parts = layout_split(area, vertical, &constraints);
    assert(parts@ =~= seq![parts@[0], parts@[1], parts@[2]]);
    (parts[0], parts[1], parts[2])
}

} // verus!
