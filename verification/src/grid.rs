//! The grid, its cells and the four directions of travel.
use vstd::prelude::*;

verus! {

/// Number of cells along each side of the square grid.
pub const GRID_SIZE: i16 = 14;

/// A cell of the plane as a pair of mathematical integers, `(x, y)`.
pub type Cell = (int, int);

/// Whether `c` lies on the grid.
pub open spec fn in_grid(c: Cell) -> bool {
    0 <= c.0 < GRID_SIZE && 0 <= c.1 < GRID_SIZE
}

/// One of the four directions in which the snake travels.
#[derive(Clone, Copy, Debug, PartialEq, Eq, Structural)]
pub enum Direction {
    Left,
    Right,
    Up,
    Down,
}

impl Direction {
    /// The unit vector of this direction; `y` grows downwards.
    pub open spec fn offset(self) -> Cell {
        match self {
            Direction::Left => (-1, 0),
            Direction::Right => (1, 0),
            Direction::Up => (0, -1),
            Direction::Down => (0, 1),
        }
    }

    /// The direction that points the other way.
    pub open spec fn opposite(self) -> Direction {
        match self {
            Direction::Left => Direction::Right,
            Direction::Right => Direction::Left,
            Direction::Up => Direction::Down,
            Direction::Down => Direction::Up,
        }
    }

    /// The unit vector of this direction.
    pub fn vector(&self) -> (v: (i16, i16))
        ensures
            (v.0 as int, v.1 as int) == self.offset(),
    {
        match self {
            Direction::Left => (-1, 0),
            Direction::Right => (1, 0),
            Direction::Up => (0, -1),
            Direction::Down => (0, 1),
        }
    }

    /// The direction that points the other way.
    pub fn reverse(&self) -> (r: Direction)
        ensures
            r == self.opposite(),
    {
        match self {
            Direction::Left => Direction::Right,
            Direction::Right => Direction::Left,
            Direction::Up => Direction::Down,
            Direction::Down => Direction::Up,
        }
    }
}

/// The cell one step from `c` in direction `d`.
pub open spec fn step(c: Cell, d: Direction) -> Cell {
    (c.0 + d.offset().0, c.1 + d.offset().1)
}

/// A cell as the game stores it.
#[derive(Clone, Copy, Debug, PartialEq, Eq, Structural)]
pub struct Position {
    pub x: i16,
    pub y: i16,
}

impl View for Position {
    type V = Cell;

    open spec fn view(&self) -> Cell {
        (self.x as int, self.y as int)
    }
}

impl Position {
    /// Whether this cell lies on the grid.
    pub fn in_grid(&self) -> (inside: bool)
        ensures
            inside == in_grid(self@),
    {
        0 <= self.x && self.x < GRID_SIZE && 0 <= self.y && self.y < GRID_SIZE
    }

    /// The cell one step away in direction `d`.
    pub fn step(&self, d: Direction) -> (next: Position)
        requires
            i16::MIN < self.x < i16::MAX,
            i16::MIN < self.y < i16::MAX,
        ensures
            next@ == step(self@, d),
    {
        let v = d.vector();
        Position { x: self.x + v.0, y: self.y + v.1 }
    }
}

/// The number of a cell of the grid, counted column by column.
pub open spec fn cell_number(c: Cell) -> int {
    c.0 * GRID_SIZE + c.1
}

/// Cells of the grid that differ one from another are no more than the grid
/// has cells.
pub proof fn lemma_distinct_cells_fit(cells: Seq<Cell>)
    requires
        cells.no_duplicates(),
        forall|i: int| 0 <= i < cells.len() ==> in_grid(#[trigger] cells[i]),
    ensures
        cells.len() <= GRID_SIZE * GRID_SIZE,
{
    let numbers = cells.map_values(|c: Cell| cell_number(c));
    assert forall|i: int, j: int|
        0 <= i < numbers.len() && 0 <= j < numbers.len() && i != j implies numbers[i]
        != numbers[j] by {
        let a = cells[i];
        let b = cells[j];
        assert(in_grid(a) && in_grid(b));
        assert(a != b);
        if a.0 == b.0 {
            assert(a.1 != b.1);
        }
    }
    assert(numbers.no_duplicates());
    numbers.unique_seq_to_set();
    let all = vstd::set_lib::set_int_range(0, GRID_SIZE * GRID_SIZE);
    vstd::set_lib::lemma_int_range(0, GRID_SIZE * GRID_SIZE);
    assert forall|n: int| numbers.to_set().contains(n) implies all.contains(n) by {
        let i = choose|i: int| 0 <= i < numbers.len() && numbers[i] == n;
        assert(in_grid(cells[i]));
    }
    vstd::set_lib::lemma_len_subset(numbers.to_set(), all);
}

} // verus!
