//! Grid vocabulary: cells, travel directions, and the adjacency relation that
//! the snake's body maintains.

use vstd::prelude::*;

verus! {

/// One of the four directions the snake can travel in. `Up` decreases the y
/// coordinate and `Down` increases it (screen coordinates).
#[derive(Clone, Copy, PartialEq, Eq, Structural, Debug)]
pub enum Direction {
    Up,
    Down,
    Left,
    Right,
}

/// The food's cell on the grid.
#[derive(Clone, Copy, PartialEq, Eq, Structural, Debug)]
pub struct Food {
    pub x: i32,
    pub y: i32,
}

/// The direction that is the exact reverse of `d`.
pub open spec fn opposite(d: Direction) -> Direction {
    match d {
        Direction::Up => Direction::Down,
        Direction::Down => Direction::Up,
        Direction::Left => Direction::Right,
        Direction::Right => Direction::Left,
    }
}

/// The direction after a direction-change request: the candidate, unless it is
/// the exact reverse of the current direction, which is rejected.
pub open spec fn next_dir(cur: Direction, cand: Direction) -> Direction {
    if cand == opposite(cur) {
        cur
    } else {
        cand
    }
}

/// Unit offset along the x axis when travelling in direction `d`.
pub open spec fn dx(d: Direction) -> int {
    match d {
        Direction::Left => -1,
        Direction::Right => 1,
        Direction::Up => 0,
        Direction::Down => 0,
    }
}

/// Unit offset along the y axis when travelling in direction `d`.
pub open spec fn dy(d: Direction) -> int {
    match d {
        Direction::Left => 0,
        Direction::Right => 0,
        Direction::Up => -1,
        Direction::Down => 1,
    }
}

/// The cell one unit from `c` along `d`, as unbounded coordinates.
pub open spec fn step(c: (i32, i32), d: Direction) -> (int, int) {
    (c.0 + dx(d), c.1 + dy(d))
}

/// Whether the cell one unit from `c` along `d` still has i32 coordinates.
pub open spec fn step_fits(c: (i32, i32), d: Direction) -> bool {
    &&& i32::MIN <= step(c, d).0 <= i32::MAX
    &&& i32::MIN <= step(c, d).1 <= i32::MAX
}

/// The cell one unit from `c` along `d`, as i32 coordinates (exact whenever
/// `step_fits(c, d)` holds).
pub open spec fn step_cell(c: (i32, i32), d: Direction) -> (i32, i32) {
    ((c.0 + dx(d)) as i32, (c.1 + dy(d)) as i32)
}

/// Two cells are grid-adjacent: they differ by exactly one unit in exactly one
/// axis.
pub open spec fn adjacent(a: (i32, i32), b: (i32, i32)) -> bool {
    ||| a.0 == b.0 && (a.1 - b.1 == 1 || b.1 - a.1 == 1)
    ||| a.1 == b.1 && (a.0 - b.0 == 1 || b.0 - a.0 == 1)
}

/// Every pair of neighbouring cells in the sequence is grid-adjacent.
pub open spec fn linked(s: Seq<(i32, i32)>) -> bool {
    forall|i: int| 0 <= i && i + 1 < s.len() ==> #[trigger] adjacent(s[i], s[i + 1])
}

/// A rejected reversal leaves the direction unchanged, however many times the
/// request is repeated: from `cur`, requesting its exact reverse yields `cur`
/// again, so every further identical request is rejected as well.
pub proof fn lemma_opposite_rejected(cur: Direction, cand: Direction)
    requires
        cand == opposite(cur),
    ensures
        next_dir(cur, cand) == cur,
        next_dir(next_dir(cur, cand), cand) == cur,
{
}

} // verus!
