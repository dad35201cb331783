//! The directional keys that are held during a frame.
use crate::grid::Direction;
use vstd::prelude::*;

verus! {

/// Which of the four directional keys are held down.
#[derive(Clone, Copy, Debug, PartialEq, Eq, Structural)]
pub struct Pressed {
    pub right: bool,
    pub left: bool,
    pub up: bool,
    pub down: bool,
}

impl Pressed {
    /// Whether the key for `d` is held.
    pub open spec fn holds(self, d: Direction) -> bool {
        match d {
            Direction::Right => self.right,
            Direction::Left => self.left,
            Direction::Up => self.up,
            Direction::Down => self.down,
        }
    }

    /// Whether a snake that travels in `current` may turn to `d` now: the key
    /// for `d` is held, and `d` does not point back along `current`.
    pub open spec fn admits(self, current: Direction, d: Direction) -> bool {
        self.holds(d) && d != current.opposite()
    }

    /// The direction that the held keys select for a snake that travels in
    /// `current`: the first that is admitted, taken in the order right, left,
    /// up, down; none where no key is admitted.
    pub open spec fn selects(self, current: Direction) -> Option<Direction> {
        if self.admits(current, Direction::Right) {
            Some(Direction::Right)
        } else if self.admits(current, Direction::Left) {
            Some(Direction::Left)
        } else if self.admits(current, Direction::Up) {
            Some(Direction::Up)
        } else if self.admits(current, Direction::Down) {
            Some(Direction::Down)
        } else {
            None
        }
    }

    /// The direction that the held keys select for a snake that travels in
    /// `current`.
    pub fn select(&self, current: Direction) -> (chosen: Option<Direction>)
        ensures
            chosen == self.selects(current),
    {
        let back = current.reverse();
        if self.right && back != Direction::Right {
            Some(Direction::Right)
        } else if self.left && back != Direction::Left {
            Some(Direction::Left)
        } else if self.up && back != Direction::Up {
            Some(Direction::Up)
        } else if self.down && back != Direction::Down {
            Some(Direction::Down)
        } else {
            None
        }
    }
}

} // verus!
