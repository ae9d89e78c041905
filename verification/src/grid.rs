//! The arena: a bounded grid of integer cells, the position type, and the
//! single-cell step a head takes along a facing direction.

use vstd::prelude::*;
use crate::direction::Direction;

verus! {

/// Number of cells along the x axis; valid x coordinates are 0 .. ARENA_WIDTH - 1.
pub const ARENA_WIDTH: i32 = 10;

/// Number of cells along the y axis; valid y coordinates are 0 .. ARENA_HEIGHT - 1.
pub const ARENA_HEIGHT: i32 = 10;

/// One grid cell, in arena coordinates (cells, not pixels).
#[derive(Clone, Copy, Debug, PartialEq, Eq, Structural)]
pub struct Position {
    pub x: i32,
    pub y: i32,
}

/// A position lies inside the arena: both coordinates are at least 0 and
/// strictly below the arena's width and height.
pub open spec fn in_bounds_spec(p: Position) -> bool {
    0 <= p.x < ARENA_WIDTH && 0 <= p.y < ARENA_HEIGHT
}

/// Returns whether the position lies inside the arena.
pub fn in_bounds(p: Position) -> (r: bool)
    ensures
        r == in_bounds_spec(p),
{
    0 <= p.x && p.x < ARENA_WIDTH && 0 <= p.y && p.y < ARENA_HEIGHT
}

/// The cell one step from `p` along `d`: Left lowers x by one, Right raises
/// x by one, Up raises y by one, Down lowers y by one.
pub open spec fn step_spec(p: Position, d: Direction) -> Position {
    match d {
        Direction::Left => Position { x: (p.x - 1) as i32, y: p.y },
        Direction::Right => Position { x: (p.x + 1) as i32, y: p.y },
        Direction::Up => Position { x: p.x, y: (p.y + 1) as i32 },
        Direction::Down => Position { x: p.x, y: (p.y - 1) as i32 },
    }
}

/// Returns the cell one step from `p` along `d`.
pub fn step(p: Position, d: Direction) -> (r: Position)
    requires
        in_bounds_spec(p),
    ensures
        r == step_spec(p, d),
{
    match d {
        Direction::Left => Position { x: p.x - 1, y: p.y },
        Direction::Right => Position { x: p.x + 1, y: p.y },
        Direction::Up => Position { x: p.x, y: p.y + 1 },
        Direction::Down => Position { x: p.x, y: p.y - 1 },
    }
}

/// Returns whether `positions` holds a cell equal to `p`.
pub fn contains_position(positions: &Vec<Position>, p: Position) -> (r: bool)
    ensures
        r == positions@.contains(p),
{
    let mut i: usize = 0;
    while i < positions.len()
        invariant
            0 <= i <= positions@.len(),
            forall|j: int| 0 <= j < i ==> positions@[j] != p,
        decreases positions@.len() - i,
    {
        if positions[i] == p {
            return true;
        }
        i += 1;
    }
    false
}

} // verus!
