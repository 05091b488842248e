use vstd::prelude::*;
use ratatui::layout as rl;

verus! {

/// A rectangular area of the terminal, in cells.
#[derive(Debug, Clone, Copy, PartialEq, Eq, Hash, Default)]
pub struct Rect {
    pub x: u16,
    pub y: u16,
    pub width: u16,
    pub height: u16,
}

impl Rect {
    /// The right edge plus one never exceeds `u16::MAX`.
    pub open spec fn fits(self) -> bool {
        &&& self.x + self.width <= u16::MAX
        &&& self.y + self.height <= u16::MAX
    }

    /// The rectangle that `new` builds.
    pub open spec fn new_spec(x: u16, y: u16, width: u16, height: u16) -> Rect {
        Rect {
            x,
            y,
            width: if x + width <= u16::MAX { width } else { (u16::MAX - x) as u16 },
            height: if y + height <= u16::MAX { height } else { (u16::MAX - y) as u16 },
        }
    }

    /// Creates a rectangle, shrinking the width and height so that the
    /// rectangle does not extend past `u16::MAX`.
    pub fn new(x: u16, y: u16, width: u16, height: u16) -> (r: Rect)
        ensures
            r.x == x,
            r.y == y,
            r == Rect::new_spec(x, y, width, height),
            r.fits(),
    {
        let width = x.saturating_add(width) - x;
        let height = y.saturating_add(height) - y;
        Rect { x, y, width, height }
    }
}

/// `a + b`, or `u16::MAX` where that overflows.
pub open spec fn sat_add16(a: u16, b: u16) -> u16 {
    if a + b <= u16::MAX { (a + b) as u16 } else { u16::MAX }
}

/// `a - b`, or 0 where that is negative.
pub open spec fn sat_sub16(a: u16, b: u16) -> u16 {
    if a >= b { (a - b) as u16 } else { 0 }
}

/// The area inside a one-cell border on all four sides.
pub open spec fn bordered_inner(area: Rect) -> Rect {
    Rect {
        x: if area.width == 0 { area.x } else { sat_add16(area.x, 1) },
        y: if area.height == 0 { area.y } else { sat_add16(area.y, 1) },
        width: sat_sub16(area.width, 2),
        height: sat_sub16(area.height, 2),
    }
}

/// The area inside a block with borders on all sides, as ratatui's
/// `Block::inner` computes it for `Block::bordered()`: one cell off each
/// side, saturating at the `u16` range and at zero size.
#[verifier::external_body]
pub(crate) fn block_inner(area: Rect) -> (r: Rect)
    ensures
        r == bordered_inner(area),
{
    let a = rl::Rect { x: area.x, y: area.y, width: area.width, height: area.height };
    let i = ratatui::widgets::Block::bordered().inner(a);
    Rect { x: i.x, y: i.y, width: i.width, height: i.height }
}

/// The area under a one-row title, without borders.
pub open spec fn titled_inner_spec(area: Rect) -> Rect {
    Rect {
        y: if area.height == 0 { area.y } else { sat_add16(area.y, 1) },
        height: sat_sub16(area.height, 1),
        ..area
    }
}

/// The area inside a block without borders whose title takes its top row,
/// as ratatui's `Block::inner` computes it: one row off the top,
/// saturating at the `u16` range and at zero height.
#[verifier::external_body]
pub(crate) fn titled_inner(area: Rect) -> (r: Rect)
    ensures
        r == titled_inner_spec(area),
{
    let a = rl::Rect { x: area.x, y: area.y, width: area.width, height: area.height };
    let i = ratatui::widgets::Block::default().title(" ").inner(a);
    Rect { x: i.x, y: i.y, width: i.width, height: i.height }
}

/// The direction a layout splits an area in.
#[derive(Debug, Clone, Copy, PartialEq, Eq, Structural)]
pub enum Direction {
    Horizontal,
    Vertical,
}

/// A size constraint of one part of a layout.
#[derive(Debug, Clone, Copy, PartialEq, Eq, Structural)]
pub enum Constraint {
    /// Exactly this many cells.
    Length(u16),
    /// At least this many cells.
    Min(u16),
}

/// What ratatui's `Layout::split` gives for two constraints in a direction
/// over an area: the two parts, in order.
pub uninterp spec fn split_of(direction: Direction, first: Constraint, second: Constraint, area: Rect) -> (Rect, Rect);

/// Splits `area` in two with ratatui's layout solver
/// (`Layout::default().direction(..).constraints([first, second]).split(area)`).
/// The parts are the named result; how the solver sizes them is not
/// stated.
#[verifier::external_body]
pub(crate) fn split_two(direction: Direction, first: Constraint, second: Constraint, area: Rect) -> (r: (Rect, Rect))
    ensures
        r == split_of(direction, first, second, area),
{
    let d = match direction {
        Direction::Horizontal => rl::Direction::Horizontal,
        Direction::Vertical => rl::Direction::Vertical,
    };
    let c = |k| match k {
        Constraint::Length(n) => rl::Constraint::Length(n),
        Constraint::Min(n) => rl::Constraint::Min(n),
    };
    let a = rl::Rect { x: area.x, y: area.y, width: area.width, height: area.height };
    let p = rl::Layout::default().direction(d).constraints([c(first), c(second)]).split(a);
    let r = |q: rl::Rect| Rect { x: q.x, y: q.y, width: q.width, height: q.height };
    (r(p[0]), r(p[1]))
}

} // verus!
