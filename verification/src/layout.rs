//! Rectangles of terminal cells, and the arithmetic that places content in
//! them.

use vstd::prelude::*;
use ratatui::layout::Layout;

verus! {

/// The mathematical value of a rectangle: the column and row of its top
/// left cell, and how many columns and rows it spans.
pub struct RectView {
    pub x: int,
    pub y: int,
    pub width: int,
    pub height: int,
}

impl RectView {
    /// The rectangle lies within the coordinates that a terminal can have:
    /// neither its right nor its bottom edge passes `u16::MAX`.
    pub open spec fn fits(self) -> bool {
        &&& 0 <= self.x
        &&& 0 <= self.y
        &&& 0 <= self.width
        &&& 0 <= self.height
        &&& self.x + self.width <= u16::MAX
        &&& self.y + self.height <= u16::MAX
    }

    /// The row just below the rectangle.
    pub open spec fn bottom(self) -> int {
        self.y + self.height
    }
}

/// The smaller of two integers.
pub open spec fn least(a: int, b: int) -> int {
    if a <= b {
        a
    } else {
        b
    }
}

/// The rectangle at `x`, `y` with the given size, cut back so that it fits.
pub open spec fn clamped(x: int, y: int, width: int, height: int) -> RectView {
    RectView {
        x,
        y,
        width: least(width, u16::MAX - x),
        height: least(height, u16::MAX - y),
    }
}

/// `area` shrunk by `padding` on each side. The origin moves right and down
/// by the left and top padding, stopping at `u16::MAX`; width and height
/// lose both paddings of their direction, stopping at zero.
pub open spec fn inset(area: RectView, padding: Padding) -> RectView {
    RectView {
        x: least(area.x + padding.left, u16::MAX as int),
        y: least(area.y + padding.top, u16::MAX as int),
        width: if area.width >= padding.left + padding.right {
            area.width - padding.left - padding.right
        } else {
            0
        },
        height: if area.height >= padding.top + padding.bottom {
            area.height - padding.top - padding.bottom
        } else {
            0
        },
    }
}

/// The lowest `rows` rows of `area`.
pub open spec fn bottom_rows(area: RectView, rows: int) -> RectView {
    RectView { x: area.x, y: area.y + area.height - rows, width: area.width, height: rows }
}

/// Blank cells to leave on each side of an area.
#[derive(Clone, Copy, Debug, PartialEq, Eq)]
pub struct Padding {
    pub left: u16,
    pub right: u16,
    pub top: u16,
    pub bottom: u16,
}

impl Padding {
    /// The same padding on all four sides.
    pub fn uniform(value: u16) -> (padding: Padding)
        ensures
            padding == (Padding { left: value, right: value, top: value, bottom: value }),
    {
        Padding { left: value, right: value, top: value, bottom: value }
    }

    /// Padding on the left and right only.
    pub fn horizontal(value: u16) -> (padding: Padding)
        ensures
            padding == (Padding { left: value, right: value, top: 0, bottom: 0 }),
    {
        Padding { left: value, right: value, top: 0, bottom: 0 }
    }
}

/// A rectangle of terminal cells. Every rectangle fits: its right and bottom
/// edges never pass `u16::MAX`.
#[derive(Clone, Copy, Debug, PartialEq, Eq)]
pub struct Rect {
    x: u16,
    y: u16,
    width: u16,
    height: u16,
}

impl View for Rect {
    type V = RectView;

    closed spec fn view(&self) -> RectView {
        RectView {
            x: self.x as int,
            y: self.y as int,
            width: self.width as int,
            height: self.height as int,
        }
    }
}

impl Rect {
    #[verifier::type_invariant]
    spec fn well_formed(self) -> bool {
        self@.fits()
    }

    /// The rectangle at `x`, `y` with the given size, cut back so that it fits.
    pub fn new(x: u16, y: u16, width: u16, height: u16) -> (rect: Rect)
        ensures
            rect@ == clamped(x as int, y as int, width as int, height as int),
            rect@.fits(),
    {
        let width = if width <= u16::MAX - x {
            width
        } else {
            u16::MAX - x
        };
        let height = if height <= u16::MAX - y {
            height
        } else {
            u16::MAX - y
        };
        Rect { x, y, width, height }
    }

    /// The column of the left edge.
    pub fn x(&self) -> (x: u16)
        ensures
            x == self@.x,
            self@.fits(),
    {
        proof {
            use_type_invariant(self);
        }
        self.x
    }

    /// The row of the top edge.
    pub fn y(&self) -> (y: u16)
        ensures
            y == self@.y,
            self@.fits(),
    {
        proof {
            use_type_invariant(self);
        }
        self.y
    }

    /// The number of columns.
    pub fn width(&self) -> (width: u16)
        ensures
            width == self@.width,
            self@.fits(),
    {
        proof {
            use_type_invariant(self);
        }
        self.width
    }

    /// The number of rows.
    pub fn height(&self) -> (height: u16)
        ensures
            height == self@.height,
            self@.fits(),
    {
        proof {
            use_type_invariant(self);
        }
        self.height
    }

    /// The row just below the rectangle.
    pub fn bottom(&self) -> (row: u16)
        ensures
            row == self@.bottom(),
    {
        proof {
            use_type_invariant(self);
        }
        self.y + self.height
    }

    /// The rectangle shrunk by `padding` on each side.
    pub fn inner(&self, padding: Padding) -> (inner: Rect)
        ensures
            inner@ == inset(self@, padding),
            inner@.fits(),
    {
        proof {
            use_type_invariant(self);
        }
        let x = self.x.saturating_add(padding.left);
        let y = self.y.saturating_add(padding.top);
        let across = padding.left.saturating_add(padding.right);
        let down = padding.top.saturating_add(padding.bottom);
        let width = self.width.saturating_sub(across);
        let height = self.height.saturating_sub(down);
        Rect { x, y, width, height }
    }

    /// The lowest `rows` rows of the rectangle.
    pub fn bottom_rows(&self, rows: u16) -> (part: Rect)
        requires
            rows <= self@.height,
        ensures
            part@ == bottom_rows(self@, rows as int),
            part@.fits(),
    {
        proof {
            use_type_invariant(self);
        }
        Rect { x: self.x, y: self.y + (self.height - rows), width: self.width, height: rows }
    }
}

/// The direction in which an area is split.
#[derive(Clone, Copy, Debug, PartialEq, Eq)]
pub enum Direction {
    /// Side by side, left to right.
    Horizontal,
    /// One below the other, top to bottom.
    Vertical,
}

/// How much of a split area one part asks for.
#[derive(Clone, Copy, Debug, PartialEq, Eq)]
pub enum Constraint {
    /// Exactly this many cells.
    Length(u16),
    /// A share of what the others leave, in proportion to this weight.
    Fill(u16),
}

/// Calls `ratatui::layout::Layout::split` on a layout of the given direction
/// and constraints. The solver behind it makes one part for each
/// constraint. How long each part is along the direction of the split is
/// the solver's matter, of which the contract says nothing. Across that
/// direction every part spans the area: the parts of a vertical split have
/// the area's columns, those of a horizontal split its rows.
#[verifier::external_body]
pub(crate) fn solve_layout(direction: Direction, constraints: &Vec<Constraint>, area: Rect) -> (parts: Vec<
    Rect,
>)
    ensures
        parts@.len() == constraints@.len(),
        direction == Direction::Vertical ==> forall|i: int|
            0 <= i < parts@.len() ==> (#[trigger] parts@[i])@.x == area@.x && parts@[i]@.width
                == area@.width,
        direction == Direction::Horizontal ==> forall|i: int|
            0 <= i < parts@.len() ==> (#[trigger] parts@[i])@.y == area@.y && parts@[i]@.height
                == area@.height,
{
    let direction = match direction {
        Direction::Horizontal => ratatui::layout::Direction::Horizontal,
        Direction::Vertical => ratatui::layout::Direction::Vertical,
    };
    let constraints = constraints.iter().map(|constraint| match constraint {
        Constraint::Length(cells) => ratatui::layout::Constraint::Length(*cells),
        Constraint::Fill(weight) => ratatui::layout::Constraint::Fill(*weight),
    });
    let area = ratatui::layout::Rect::new(area.x, area.y, area.width, area.height);
    let parts = Layout::new(direction, constraints).split(area);
    parts.iter().map(|part| Rect::new(part.x, part.y, part.width, part.height)).collect()
}

} // verus!
