//! The four facing directions of the snake's head and the input arbitration
//! rule: a requested direction is stored unless it is the exact opposite of
//! the current one (no 180-degree reversal).

use vstd::prelude::*;

verus! {

/// One of the four axis-aligned facing directions.
#[derive(Clone, Copy, Debug, PartialEq, Eq, Structural)]
pub enum Direction {
    Up,
    Down,
    Left,
    Right,
}

impl Direction {
    /// The direction pointing the opposite way: Up and Down swap,
    /// Left and Right swap.
    pub open spec fn opposite_spec(self) -> Direction {
        match self {
            Direction::Up => Direction::Down,
            Direction::Down => Direction::Up,
            Direction::Left => Direction::Right,
            Direction::Right => Direction::Left,
        }
    }

    /// Returns the opposite direction.
    pub fn opposite(self) -> (r: Direction)
        ensures
            r == self.opposite_spec(),
    {
        match self {
            Direction::Up => Direction::Down,
            Direction::Down => Direction::Up,
            Direction::Left => Direction::Right,
            Direction::Right => Direction::Left,
        }
    }
}

/// The direction stored after one round of input arbitration: a requested
/// direction is taken unless it is the exact opposite of the current one;
/// with no request the current direction is kept.
pub open spec fn arbitrate_spec(current: Direction, intent: Option<Direction>) -> Direction {
    match intent {
        Some(d) => if d == current.opposite_spec() {
            current
        } else {
            d
        },
        None => current,
    }
}

/// Taking the opposite twice gives the direction back, for every direction.
pub proof fn lemma_opposite_involution(d: Direction)
    ensures
        d.opposite_spec().opposite_spec() == d,
{
}

/// Reversal is rejected: for every current direction, a request for its
/// exact opposite leaves the stored direction unchanged.
pub proof fn lemma_reversal_rejected(current: Direction)
    ensures
        arbitrate_spec(current, Some(current.opposite_spec())) == current,
{
}

/// Every other request is accepted, including a repeat of the current
/// direction.
pub proof fn lemma_non_reversal_accepted(current: Direction, requested: Direction)
    requires
        requested != current.opposite_spec(),
    ensures
        arbitrate_spec(current, Some(requested)) == requested,
{
}

} // verus!
