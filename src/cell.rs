//! Cells of the board and the four directions of travel.

use vstd::prelude::*;

verus! {

/// A cell of the board, as `(x, y)`.
pub type Cell = (i16, i16);

/// Width and height of the board.
pub const BOARD_SIZE: i16 = 50;

/// Number of cells on the board.
pub const CELL_COUNT: usize = 2500;

/// Whether `c` lies on the board.
pub open spec fn in_grid(c: Cell) -> bool {
    0 <= c.0 < 50 && 0 <= c.1 < 50
}

/// Every cell of the board.
pub open spec fn grid() -> Set<Cell> {
    Set::new(|c: Cell| in_grid(c))
}

/// Position of an on-board cell in a row-major numbering `0 .. 2500`.
pub open spec fn slot_of(c: Cell) -> int {
    c.0 as int * 50 + c.1 as int
}

#[derive(PartialEq, Eq, Structural, Debug, Clone, Copy)]
pub enum Direction {
    Left,
    Right,
    Up,
    Down,
}

/// The direction that points the other way.
pub open spec fn opposite(d: Direction) -> Direction {
    match d {
        Direction::Left => Direction::Right,
        Direction::Right => Direction::Left,
        Direction::Up => Direction::Down,
        Direction::Down => Direction::Up,
    }
}

/// The cell one step from `c` in direction `d`: Up increases y, Down
/// decreases y, Right increases x, Left decreases x.
pub open spec fn neighbour(c: Cell, d: Direction) -> Cell {
    match d {
        Direction::Left => ((c.0 - 1) as i16, c.1),
        Direction::Right => ((c.0 + 1) as i16, c.1),
        Direction::Up => (c.0, (c.1 + 1) as i16),
        Direction::Down => (c.0, (c.1 - 1) as i16),
    }
}

/// Computes `neighbour(c, d)` for a cell on the board.
pub fn step(c: Cell, d: Direction) -> (r: Cell)
    requires
        in_grid(c),
    ensures
        r == neighbour(c, d),
{
    match d {
        Direction::Left => (c.0 - 1, c.1),
        Direction::Right => (c.0 + 1, c.1),
        Direction::Up => (c.0, c.1 + 1),
        Direction::Down => (c.0, c.1 - 1),
    }
}

/// Whether two cells are the same.
pub fn same_cell(a: Cell, b: Cell) -> (r: bool)
    ensures
        r == (a == b),
{
    a.0 == b.0 && a.1 == b.1
}

/// Whether `c` lies on the board.
pub fn on_board(c: Cell) -> (r: bool)
    ensures
        r == in_grid(c),
{
    0 <= c.0 && c.0 < BOARD_SIZE && 0 <= c.1 && c.1 < BOARD_SIZE
}

} // verus!
