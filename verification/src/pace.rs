//! The pace of the game: how far apart its steps are, and how that shrinks
//! as targets are reached.
use crate::grid::GRID_SIZE;
use vstd::prelude::*;

verus! {

/// Time between two steps at the start of a session.
pub const INITIAL_SPEED: u64 = 300_000_000;

/// The time between steps shrinks to `DECAY_NUMERATOR / DECAY_DENOMINATOR` of
/// what it was each time a target is reached.
pub const DECAY_NUMERATOR: u64 = 99;

/// See [`DECAY_NUMERATOR`].
pub const DECAY_DENOMINATOR: u64 = 100;

/// The time between steps after one more target, rounded down to a whole
/// nanosecond.
pub open spec fn decayed(speed: nat) -> nat {
    speed * DECAY_NUMERATOR as nat / DECAY_DENOMINATOR as nat
}

/// The time between steps of a session that has reached `targets` targets.
pub open spec fn speed_after(targets: nat) -> nat
    decreases targets,
{
    if targets == 0 {
        INITIAL_SPEED as nat
    } else {
        decayed(speed_after((targets - 1) as nat))
    }
}

/// The time between steps after one more target.
pub fn decay(speed: u64) -> (slower: u64)
    ensures
        slower == decayed(speed as nat),
{
    speed / DECAY_DENOMINATOR * DECAY_NUMERATOR + speed % DECAY_DENOMINATOR * DECAY_NUMERATOR
        / DECAY_DENOMINATOR
}

/// However many targets were reached, steps are no further apart than at the
/// start.
pub proof fn lemma_speed_never_above_initial(targets: nat)
    ensures
        speed_after(targets) <= INITIAL_SPEED,
    decreases targets,
{
    if targets > 0 {
        lemma_speed_never_above_initial((targets - 1) as nat);
    }
}

/// The more targets were reached, the closer together the steps are.
pub proof fn lemma_speed_never_rises(fewer: nat, more: nat)
    requires
        fewer <= more,
    ensures
        speed_after(more) <= speed_after(fewer),
    decreases more,
{
    if fewer < more {
        lemma_speed_never_rises(fewer, (more - 1) as nat);
    }
}

/// Over `count` further targets the time between steps falls by no more than
/// `count` times a hundredth of what it was, rounded up.
proof fn lemma_decay_is_slow(targets: nat, count: nat)
    ensures
        speed_after(targets + count) >= speed_after(targets) - count * (speed_after(targets) / 100
            + 1),
    decreases count,
{
    if count > 0 {
        let drop = speed_after(targets) / 100 + 1;
        lemma_decay_is_slow(targets, (count - 1) as nat);
        lemma_speed_never_rises(targets, (targets + count - 1) as nat);
        assert(count * drop == (count - 1) * drop + drop) by (nonlinear_arith);
    }
}

/// Fifty further targets leave about half of the time between steps.
proof fn lemma_fifty_targets_halve(targets: nat)
    ensures
        speed_after(targets + 50) >= speed_after(targets) / 2 - 50,
{
    lemma_decay_is_slow(targets, 50);
}

/// A snake that fits on the grid never runs out of time between its steps.
pub proof fn lemma_speed_stays_positive(targets: nat)
    requires
        targets <= GRID_SIZE * GRID_SIZE,
    ensures
        speed_after(targets) > 0,
{
    lemma_fifty_targets_halve(0);
    lemma_fifty_targets_halve(50);
    lemma_fifty_targets_halve(100);
    lemma_fifty_targets_halve(150);
    lemma_speed_never_rises(targets, 200);
}

} // verus!
