use vstd::prelude::*;

use crate::grid::{in_bounds, next_position, step, Direction};
use std::collections::VecDeque;

verus! {

/// The snake: an ordered body of grid cells (front = head, back = tail), a
/// current movement direction, and an optional pending direction change that
/// is applied and cleared on the next move.
pub struct Snake {
    pub body: VecDeque<(usize, usize)>,
    pub direction: Direction,
    pub next_direction: Option<Direction>,
}

/// The head cell equals some other cell of the body.
pub open spec fn has_self_collision(body: Seq<(usize, usize)>) -> bool {
    exists|i: int| 1 <= i < body.len() && #[trigger] body[i] == body[0]
}

impl Snake {
    /// Well-formedness: the body is never empty and every cell lies on the
    /// grid.
    pub open spec fn wf(self) -> bool {
        &&& self.body@.len() >= 1
        &&& forall|i: int| 0 <= i < self.body@.len() ==> in_bounds(#[trigger] self.body@[i])
    }

    /// The direction the next move will take: the pending one if a change is
    /// queued, the current one otherwise.
    pub open spec fn applied_dir(self) -> Direction {
        match self.next_direction {
            Some(d) => d,
            None => self.direction,
        }
    }

    /// The cell the head moves to on the next move.
    pub open spec fn next_head(self) -> (usize, usize) {
        step(self.body@[0], self.applied_dir())
    }

    /// The body after one move: the new head in front, the tail cell dropped.
    pub open spec fn moved_body(self) -> Seq<(usize, usize)> {
        seq![self.next_head()] + self.body@.drop_last()
    }

    /// A fresh snake: two segments at (2,2) (head) and (2,3), moving right,
    /// with no pending direction change.
    pub fn new() -> (s: Snake)
        ensures
            s.wf(),
            s.body@ == seq![(2usize, 2usize), (2usize, 3usize)],
            s.direction == Direction::Right,
            s.next_direction is None,
    {
        let mut body: VecDeque<(usize, usize)> = VecDeque::new();
        body.push_back((2, 2));
        body.push_back((2, 3));
        proof {
            assert(body@ =~= seq![(2usize, 2usize), (2usize, 3usize)]);
        }
        Snake { body, direction: Direction::Right, next_direction: None }
    }

    /// Advances the snake one cell: applies and clears any pending direction
    /// change, pushes the head's next cell (with wraparound) to the front and
    /// drops the tail cell. The body length never changes here; growth
    /// happens only through `eat`.
    pub fn move_forward(&mut self)
        requires
            old(self).wf(),
        ensures
            final(self).wf(),
            final(self).body@ == old(self).moved_body(),
            final(self).body@.len() == old(self).body@.len(),
            final(self).direction == old(self).applied_dir(),
            final(self).next_direction is None,
    {
        let head: (usize, usize) = self.body[0];
        match self.next_direction {
            Some(dir) => {
                self.direction = dir;
                self.next_direction = None;
            },
            None => {},
        }
        let new_head = next_position(head, self.direction);
        self.body.pop_back();
        self.body.push_front(new_head);
        proof {
            assert(self.body@ =~= old(self).moved_body());
        }
    }

    /// Queues `dir` as the pending direction unless it is the exact opposite
    /// of the current direction; a reversal request leaves the pending
    /// direction untouched, so the snake can never turn back into itself.
    pub fn change_direction(&mut self, dir: Direction)
        ensures
            final(self).body == old(self).body,
            final(self).direction == old(self).direction,
            final(self).next_direction == (if old(self).direction == dir.opposite_spec() {
                old(self).next_direction
            } else {
                Some(dir)
            }),
            dir == old(self).direction.opposite_spec()
                ==> final(self).next_direction == old(self).next_direction,
    {
        if self.direction != dir.opposite() {
            self.next_direction = Some(dir);
        }
    }

    /// True exactly when the head occupies the same cell as some other body
    /// segment.
    pub fn check_collision(&self) -> (r: bool)
        requires
            self.wf(),
        ensures
            r == has_self_collision(self.body@),
    {
        let head: (usize, usize) = self.body[0];
        let mut i: usize = 1;
        while i < self.body.len()
            invariant
                self.wf(),
                1 <= i <= self.body@.len(),
                head == self.body@[0],
                forall|j: int| 1 <= j < i ==> #[trigger] self.body@[j] != self.body@[0],
            decreases self.body@.len() - i,
        {
            let c: (usize, usize) = self.body[i];
            if c.0 == head.0 && c.1 == head.1 {
                proof {
                    assert(self.body@[i as int] =~= self.body@[0]);
                }
                return true;
            }
            i += 1;
        }
        false
    }

    /// Appends `food` at the tail end: the body grows by exactly one segment
    /// and the head does not move.
    pub fn eat(&mut self, food: (usize, usize))
        requires
            old(self).wf(),
            in_bounds(food),
        ensures
            final(self).wf(),
            final(self).body@ == old(self).body@.push(food),
            final(self).body@.len() == old(self).body@.len() + 1,
            final(self).body@[0] == old(self).body@[0],
            final(self).direction == old(self).direction,
            final(self).next_direction == old(self).next_direction,
    {
        self.body.push_back(food);
    }

    /// True exactly when cell (x, y) is occupied by some body segment.
    pub fn occupies(&self, x: usize, y: usize) -> (r: bool)
        ensures
            r == self.body@.contains((x, y)),
    {
        let mut i: usize = 0;
        while i < self.body.len()
            invariant
                0 <= i <= self.body@.len(),
                forall|j: int| 0 <= j < i ==> #[trigger] self.body@[j] != (x, y),
            decreases self.body@.len() - i,
        {
            let c: (usize, usize) = self.body[i];
            if c.0 == x && c.1 == y {
                proof {
                    assert(self.body@[i as int] =~= (x, y));
                }
                return true;
            }
            i += 1;
        }
        false
    }
}

} // verus!
