//! Character cells and the paddle's footprint on them.
use vstd::prelude::*;

verus! {

/// A character cell: `col` counts from the left edge, `row` from the top.
#[derive(Clone, Copy, Debug, PartialEq, Eq, Structural)]
pub struct Cell {
    pub col: i32,
    pub row: i32,
}

impl Cell {
    pub fn new(col: i32, row: i32) -> (r: Cell)
        ensures
            r.col == col,
            r.row == row,
    {
        Cell { col, row }
    }
}

/// A paddle as the cells see it: a vertical run of `height` cells in column
/// `col`, starting at row `top` and going down.
#[derive(Clone, Copy, Debug, PartialEq, Eq, Structural)]
pub struct Paddle {
    pub col: i32,
    pub top: i32,
    pub height: i32,
}

impl Paddle {
    pub fn new(col: i32, top: i32, height: i32) -> (r: Paddle)
        ensures
            r.col == col,
            r.top == top,
            r.height == height,
    {
        Paddle { col, top, height }
    }

    /// The paddle covers `c`: same column, and a row in `[top, top + height)`.
    pub open spec fn covers(self, c: Cell) -> bool {
        &&& c.col == self.col
        &&& self.top <= c.row
        &&& c.row < self.top + self.height
    }

    /// Whether the cell `c` lies on the paddle.
    pub fn is_within(&self, c: &Cell) -> (r: bool)
        ensures
            r == self.covers(*c),
    {
        self.col == c.col && self.top <= c.row && (self.top as i64) + (self.height as i64) > (
        c.row as i64)
    }
}

} // verus!
