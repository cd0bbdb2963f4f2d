//! Positions and rectangles on the screen.

use vstd::prelude::*;

verus! {

/// A cell of the screen, counted in rows and columns from the top left.
#[derive(Clone, Copy, Debug, PartialEq, Eq, Structural)]
pub struct Position {
    pub row: usize,
    pub col: usize,
}

impl Position {
    pub fn new(row: usize, col: usize) -> (r: Position)
        ensures
            r == (Position { row, col }),
    {
        Position { row, col }
    }
}

/// A rectangle of cells.
#[derive(Clone, Copy, Debug, PartialEq, Eq, Structural)]
pub struct Rect {
    pub x: u16,
    pub y: u16,
    pub width: u16,
    pub height: u16,
}

impl Rect {
    pub fn new(x: u16, y: u16, width: u16, height: u16) -> (r: Rect)
        ensures
            r == (Rect { x, y, width, height }),
    {
        Rect { x, y, width, height }
    }

    /// The column right of the last one.
    pub open spec fn right(self) -> int {
        self.x + self.width
    }

    /// The row below the last one.
    pub open spec fn bottom(self) -> int {
        self.y + self.height
    }

    /// Whether the cell at column `x`, row `y` lies in the rectangle.
    pub open spec fn contains(self, x: int, y: int) -> bool {
        self.x <= x < self.right() && self.y <= y < self.bottom()
    }

    /// Whether every cell of `inner` lies in `self`.
    pub open spec fn encloses(self, inner: Rect) -> bool {
        self.x <= inner.x && inner.right() <= self.right() && self.y <= inner.y && inner.bottom()
            <= self.bottom()
    }
}

/// Where the view into a document starts.
#[derive(Clone, Copy, Debug, PartialEq, Eq, Structural)]
pub struct ViewPosition {
    /// The character that the layout is anchored at.
    pub anchor: usize,
    /// Columns scrolled away on the left.
    pub horizontal_offset: usize,
    /// Visual rows scrolled away above, counted from the anchor's row.
    pub vertical_offset: usize,
}

/// How the text was laid out.
#[derive(Clone, Copy, Debug, PartialEq, Eq, Structural)]
pub struct TextFormat {
    pub soft_wrap: bool,
    pub viewport_width: u16,
}

/// One visual row and the document line that it shows a part of.
#[derive(Clone, Copy, Debug, PartialEq, Eq, Structural)]
pub struct LinePos {
    /// Whether this is the first visual row of its document line.
    pub first_visual_line: bool,
    /// The document line that the row belongs to.
    pub doc_line: usize,
    /// The row, counted from the top of the viewport.
    pub visual_line: u16,
    /// The character offset at which the row starts. Where inserted text
    /// fills the whole row, this is the next character of the document.
    pub start_char_idx: usize,
}

} // verus!
