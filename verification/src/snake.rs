//! The snake's body: an ordered sequence of occupied grid cells, head first,
//! tail last, advanced one cell per tick.

use vstd::prelude::*;
use std::collections::VecDeque;
use std::ops::Index;
use crate::grid::{adjacent, linked, step, step_cell, step_fits, Direction, Food};

verus! {

/// The body after a move along `d`: the cell one unit from the head is
/// prepended; the tail is left alone.
pub open spec fn spec_travel(s: Seq<(i32, i32)>, d: Direction) -> Seq<(i32, i32)>
    recommends
        s.len() >= 1,
{
    s.insert(0, step_cell(s[0], d))
}

/// The body after the growth decision against food `f`: if the head sits on
/// the food the body is kept whole (it keeps the cell gained by the move),
/// otherwise the tail cell is dropped.
pub open spec fn spec_eat(s: Seq<(i32, i32)>, f: Food) -> Seq<(i32, i32)>
    recommends
        s.len() >= 1,
{
    if s[0] == (f.x, f.y) {
        s
    } else {
        s.drop_last()
    }
}

/// The snake's occupied cells, in order from head to tail.
pub struct Snake {
    body: VecDeque<(i32, i32)>,
}

impl View for Snake {
    type V = Seq<(i32, i32)>;

    closed spec fn view(&self) -> Seq<(i32, i32)> {
        self.body@
    }
}

impl Snake {
    /// The body is never empty and neighbouring cells are grid-adjacent.
    pub open spec fn wf(&self) -> bool {
        self@.len() >= 1 && linked(self@)
    }

    /// A snake occupying exactly `cells`, head first.
    pub fn new(cells: &Vec<(i32, i32)>) -> (s: Snake)
        requires
            cells@.len() >= 1,
        ensures
            s@ == cells@,
    {
        let mut body: VecDeque<(i32, i32)> = VecDeque::new();
        let mut i: usize = 0;
        while i < cells.len()
            invariant
                i <= cells@.len(),
                body@ == cells@.subrange(0, i as int),
            decreases cells@.len() - i,
        {
            body.push_back(cells[i]);
            proof {
                assert(cells@.subrange(0, i as int).push(cells@[i as int]) =~= cells@.subrange(
                    0,
                    i as int + 1,
                ));
            }
            i = i + 1;
        }
        proof {
            assert(cells@.subrange(0, cells@.len() as int) =~= cells@);
        }
        Snake { body }
    }

    /// Number of occupied cells.
    pub fn len(&self) -> (n: usize)
        ensures
            n == self@.len(),
    {
        self.body.len()
    }

    /// The cell at position `i`, counted from the head.
    pub fn cell(&self, i: usize) -> (c: (i32, i32))
        requires
            i < self@.len(),
        ensures
            c == self@[i as int],
    {
        *self.body.index(i)
    }

    /// The head cell.
    pub fn head(&self) -> (c: (i32, i32))
        requires
            self@.len() >= 1,
        ensures
            c == self@[0],
    {
        *self.body.index(0)
    }

    /// All occupied cells as a vector, head first.
    pub fn cells(&self) -> (v: Vec<(i32, i32)>)
        ensures
            v@ == self@,
    {
        let mut v: Vec<(i32, i32)> = Vec::new();
        let mut i: usize = 0;
        while i < self.body.len()
            invariant
                i <= self@.len(),
                v@ == self@.subrange(0, i as int),
            decreases self@.len() - i,
        {
            v.push(*self.body.index(i));
            proof {
                assert(self@.subrange(0, i as int).push(self@[i as int]) =~= self@.subrange(
                    0,
                    i as int + 1,
                ));
            }
            i = i + 1;
        }
        proof {
            assert(self@.subrange(0, self@.len() as int) =~= self@);
        }
        v
    }

    /// Advance one tick: the cell one unit along `dir` from the current head
    /// becomes the new head and is prepended to the body. The tail is not
    /// removed here; growth is settled by `eat`, so the body grows by exactly
    /// one cell.
    pub fn travel(&mut self, dir: Direction)
        requires
            old(self)@.len() >= 1,
            step_fits(old(self)@[0], dir),
        ensures
            final(self)@ == spec_travel(old(self)@, dir),
            final(self)@.len() == old(self)@.len() + 1,
            (final(self)@[0].0 as int, final(self)@[0].1 as int) == step(old(self)@[0], dir),
            final(self)@.subrange(1, final(self)@.len() as int) == old(self)@,
            old(self).wf() ==> final(self).wf(),
    {
        let head: (i32, i32) = *self.body.index(0);
        let new_head: (i32, i32) = match dir {
            Direction::Left => (head.0 - 1, head.1),
            Direction::Right => (head.0 + 1, head.1),
            Direction::Up => (head.0, head.1 - 1),
            Direction::Down => (head.0, head.1 + 1),
        };
        self.body.push_front(new_head);
        proof {
            let pre = old(self)@;
            let post = self@;
            assert(post =~= spec_travel(pre, dir));
            assert(post.subrange(1, post.len() as int) =~= pre);
            if linked(pre) {
                assert(adjacent(post[0], post[1]));
                assert forall|i: int| 0 <= i && i + 1 < post.len() implies #[trigger] adjacent(
                    post[i],
                    post[i + 1],
                ) by {
                    if i >= 1 {
                        assert(adjacent(pre[i - 1], pre[i]));
                    }
                }
            }
        }
    }

    /// Settle the tick's growth against `food` and report whether the food
    /// remains uneaten. If the head sits on the food's cell the tail is kept
    /// (the body keeps the cell gained by `travel`) and the food is gone;
    /// otherwise the tail cell is removed.
    pub fn eat(&mut self, food: Food) -> (food_remains: bool)
        requires
            old(self)@.len() >= 1,
        ensures
            food_remains == (old(self)@[0] != (food.x, food.y)),
            final(self)@ == spec_eat(old(self)@, food),
            !food_remains ==> final(self)@ == old(self)@,
            food_remains ==> final(self)@ == old(self)@.drop_last(),
            food_remains ==> final(self)@.len() == old(self)@.len() - 1,
            !food_remains ==> final(self)@.len() == old(self)@.len(),
            old(self).wf() && old(self)@.len() >= 2 ==> final(self).wf(),
    {
        let head: (i32, i32) = *self.body.index(0);
        let food_remains: bool;
        if head.0 == food.x && head.1 == food.y {
            food_remains = false;
        } else {
            let _ = self.body.pop_back();
            proof {
                let pre = old(self)@;
                let post = self@;
                assert(post =~= pre.drop_last());
                if linked(pre) {
                    assert forall|i: int| 0 <= i && i + 1 < post.len() implies #[trigger] adjacent(
                        post[i],
                        post[i + 1],
                    ) by {
                        assert(adjacent(pre[i], pre[i + 1]));
                    }
                }
            }
            food_remains = true;
        }
        food_remains
    }
}

/// Net-growth law for one tick: moving and then settling growth against the
/// food leaves the body exactly one cell longer when the moved head lands on
/// the food, and exactly as long as before when it does not (the cell gained
/// by the move is offset by the dropped tail).
pub proof fn lemma_tick_net_growth(s: Seq<(i32, i32)>, d: Direction, f: Food)
    requires
        s.len() >= 1,
    ensures
        spec_travel(s, d)[0] == (f.x, f.y) ==> spec_eat(spec_travel(s, d), f).len() == s.len() + 1,
        spec_travel(s, d)[0] != (f.x, f.y) ==> spec_eat(spec_travel(s, d), f).len() == s.len(),
{
}

} // verus!
