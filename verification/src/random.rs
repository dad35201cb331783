//! Where new targets come from.
use crate::grid::{in_grid, Position, GRID_SIZE};
use vstd::prelude::*;

verus! {

/// Calls `gen_range` of macroquad's `rand` module, which draws from the
/// generator that the whole process shares.
///
/// Trusted: for `0 <= low < high` the number drawn is at least `low` and less
/// than `high`. (The generator scales a 32-bit draw to a fraction below one,
/// adds that fraction of `high - low` to `low`, and cuts off what follows the
/// point.) Nothing is said of which number it is; two calls may differ.
#[verifier::external_body]
fn gen_range(low: i16, high: i16) -> (drawn: i16)
    requires
        0 <= low < high,
    ensures
        low <= drawn < high,
{
    macroquad::rand::gen_range(low, high)
}

/// A cell of the grid drawn at random, the column first and then the row.
pub fn random_position() -> (p: Position)
    ensures
        in_grid(p@),
{
    let x: i16 = gen_range(0, GRID_SIZE);
    let y: i16 = gen_range(0, GRID_SIZE);
    Position { x, y }
}

} // verus!
