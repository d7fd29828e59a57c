//! One game session: the snake, the current travel direction, the food, and
//! the playfield bounds, advanced one tick at a time.

use vstd::prelude::*;
use rand::Rng;
use crate::grid::{linked, next_dir, opposite, step_fits, Direction, Food};
use crate::snake::{spec_eat, spec_travel, Snake};

verus! {

/// Relies on rand::Rng::gen_range on the thread-local generator
/// (rand::thread_rng): the sampled value lies in the half-open range
/// `lo..hi`; the call panics only on an empty range, which the
/// precondition rules out.
#[verifier::external_body]
fn rand_in_range(lo: i32, hi: i32) -> (r: i32)
    requires
        lo < hi,
    ensures
        lo <= r < hi,
{
    rand::thread_rng().gen_range(lo..hi)
}

/// Whether the tick's move lands the snake's head on food `f`.
pub open spec fn spec_ate(s: Seq<(i32, i32)>, d: Direction, f: Food) -> bool
    recommends
        s.len() >= 1,
{
    spec_travel(s, d)[0] == (f.x, f.y)
}

/// One game session's whole state.
pub struct GameState {
    pub snake: Snake,
    pub dir: Direction,
    pub food: Food,
    pub width: i32,
    pub height: i32,
}

/// The exact reverse of `d`.
pub fn opposite_of(d: Direction) -> (r: Direction)
    ensures
        r == opposite(d),
{
    match d {
        Direction::Up => Direction::Down,
        Direction::Down => Direction::Up,
        Direction::Left => Direction::Right,
        Direction::Right => Direction::Left,
    }
}

/// Draw a fresh food cell with independent uniform-random coordinates in the
/// playfield interior: the outermost one-cell border is excluded, so the cell
/// lies in [1, width-2] x [1, height-2]. Overlap with the snake's body is not
/// rejected.
pub fn random_food(width: i32, height: i32) -> (f: Food)
    requires
        width >= 3,
        height >= 3,
    ensures
        1 <= f.x <= width - 2,
        1 <= f.y <= height - 2,
{
    Food { x: rand_in_range(1, width - 1), y: rand_in_range(1, height - 1) }
}

impl GameState {
    /// The playfield is at least 3x3 (so the interior is non-empty) and the
    /// snake's body is non-empty with neighbouring cells grid-adjacent.
    pub open spec fn wf(&self) -> bool {
        &&& self.width >= 3
        &&& self.height >= 3
        &&& self.snake.wf()
    }

    /// A session over a `width` x `height` playfield with the given snake
    /// cells (head first), direction, and food cell.
    pub fn new(width: i32, height: i32, cells: &Vec<(i32, i32)>, dir: Direction, food: Food) -> (g:
        GameState)
        requires
            width >= 3,
            height >= 3,
            cells@.len() >= 1,
            linked(cells@),
        ensures
            g.wf(),
            g.snake@ == cells@,
            g.dir == dir,
            g.food == food,
            g.width == width,
            g.height == height,
    {
        GameState { snake: Snake::new(cells), dir, food, width, height }
    }

    /// A session as it begins: a two-cell snake at the playfield's left edge
    /// at mid height, heading right, with the food placed randomly in the
    /// playfield interior.
    pub fn start(width: i32, height: i32) -> (g: GameState)
        requires
            width >= 3,
            height >= 3,
        ensures
            g.wf(),
            g.snake@.len() == 2,
            g.snake@[0].0 == 1 && g.snake@[0].1 == height as int / 2,
            g.snake@[1].0 == 0 && g.snake@[1].1 == height as int / 2,
            g.dir == Direction::Right,
            1 <= g.food.x <= width - 2,
            1 <= g.food.y <= height - 2,
            g.width == width,
            g.height == height,
    {
        let mid: i32 = height / 2;
        let cells: Vec<(i32, i32)> = vec![(1, mid), (0, mid)];
        GameState {
            snake: Snake::new(&cells),
            dir: Direction::Right,
            food: random_food(width, height),
            width,
            height,
        }
    }

    /// Apply a direction-change request: the candidate direction is accepted
    /// and overwrites the current one unless it is the exact reverse of the
    /// current direction, which is rejected; nothing else changes.
    pub fn set_direction(&mut self, candidate: Direction)
        ensures
            final(self).dir == next_dir(old(self).dir, candidate),
            final(self).snake@ == old(self).snake@,
            final(self).food == old(self).food,
            final(self).width == old(self).width,
            final(self).height == old(self).height,
            old(self).wf() ==> final(self).wf(),
    {
        let opp = opposite_of(self.dir);
        if candidate != opp {
            self.dir = candidate;
        }
    }

    /// One simulation tick: the snake travels one cell along the current
    /// direction; if its head lands on the food the body keeps the gained
    /// cell (net growth of one) and a fresh food cell is drawn at random in
    /// the playfield interior; otherwise the tail is dropped (net length
    /// unchanged) and the food stays where it was.
    pub fn update(&mut self)
        requires
            old(self).wf(),
            step_fits(old(self).snake@[0], old(self).dir),
        ensures
            final(self).wf(),
            final(self).snake@ == spec_eat(
                spec_travel(old(self).snake@, old(self).dir),
                old(self).food,
            ),
            spec_ate(old(self).snake@, old(self).dir, old(self).food) ==> {
                &&& final(self).snake@.len() == old(self).snake@.len() + 1
                &&& 1 <= final(self).food.x <= old(self).width - 2
                &&& 1 <= final(self).food.y <= old(self).height - 2
            },
            !spec_ate(old(self).snake@, old(self).dir, old(self).food) ==> {
                &&& final(self).snake@.len() == old(self).snake@.len()
                &&& final(self).food == old(self).food
            },
            final(self).snake@.len() >= old(self).snake@.len(),
            final(self).dir == old(self).dir,
            final(self).width == old(self).width,
            final(self).height == old(self).height,
    {
        let dir = self.dir;
        self.snake.travel(dir);
        let food = self.food;
        let food_remains = self.snake.eat(food);
        if !food_remains {
            self.food = random_food(self.width, self.height);
        }
    }
}

} // verus!
