use vstd::prelude::*;

verus! {

/// Width of the toroidal grid, in cells.
pub const WIDTH: usize = 20;

/// Height of the toroidal grid, in cells.
pub const HEIGHT: usize = 10;

/// A grid coordinate lies strictly inside the WIDTH x HEIGHT play field.
pub open spec fn in_bounds(p: (usize, usize)) -> bool {
    p.0 < WIDTH && p.1 < HEIGHT
}

/// A movement direction on the grid.
#[derive(Clone, Copy, Debug, PartialEq, Eq, Structural)]
pub enum Direction {
    Up,
    Down,
    Left,
    Right,
}

impl Direction {
    /// The direction pointing the opposite way.
    pub open spec fn opposite_spec(self) -> Direction {
        match self {
            Direction::Up => Direction::Down,
            Direction::Down => Direction::Up,
            Direction::Left => Direction::Right,
            Direction::Right => Direction::Left,
        }
    }

    pub fn opposite(&self) -> (r: Direction)
        ensures
            r == self.opposite_spec(),
    {
        match *self {
            Direction::Up => Direction::Down,
            Direction::Down => Direction::Up,
            Direction::Left => Direction::Right,
            Direction::Right => Direction::Left,
        }
    }
}

/// One step towards zero with wraparound: leaving the low edge re-enters at
/// the high edge.
pub open spec fn wrap_dec(v: usize, bound: usize) -> usize {
    if v == 0 {
        (bound - 1) as usize
    } else {
        (v - 1) as usize
    }
}

/// One step away from zero with wraparound: reaching the bound re-enters at
/// zero.
pub open spec fn wrap_inc(v: usize, bound: usize) -> usize {
    if v + 1 >= bound {
        0
    } else {
        (v + 1) as usize
    }
}

/// Where one step from `p` in direction `d` lands on the torus.
pub open spec fn step(p: (usize, usize), d: Direction) -> (usize, usize) {
    match d {
        Direction::Up => (p.0, wrap_dec(p.1, HEIGHT)),
        Direction::Down => (p.0, wrap_inc(p.1, HEIGHT)),
        Direction::Left => (wrap_dec(p.0, WIDTH), p.1),
        Direction::Right => (wrap_inc(p.0, WIDTH), p.1),
    }
}

/// Computes the cell one step from `p` in direction `dir`, wrapping around
/// the grid edges.
pub fn next_position(p: (usize, usize), dir: Direction) -> (r: (usize, usize))
    requires
        in_bounds(p),
    ensures
        r == step(p, dir),
        in_bounds(r),
{
    let (x, y): (usize, usize) = p;
    match dir {
        Direction::Up => {
            if y == 0 {
                (x, HEIGHT - 1)
            } else {
                (x, y - 1)
            }
        },
        Direction::Down => (x, (y + 1) % HEIGHT),
        Direction::Left => {
            if x == 0 {
                (WIDTH - 1, y)
            } else {
                (x - 1, y)
            }
        },
        Direction::Right => ((x + 1) % WIDTH, y),
    }
}

/// Wraparound law: a step never leaves the grid, moving left from column 0
/// lands in the last column, moving right from the last column lands in
/// column 0, and likewise for rows with up and down; every other step moves
/// exactly one cell along the axis of travel.
pub proof fn lemma_step_wraps(p: (usize, usize))
    requires
        in_bounds(p),
    ensures
        forall|d: Direction| in_bounds(#[trigger] step(p, d)),
        step(p, Direction::Left).1 == p.1,
        step(p, Direction::Left).0 == (if p.0 == 0 {
            (WIDTH - 1) as usize
        } else {
            (p.0 - 1) as usize
        }),
        step(p, Direction::Right).1 == p.1,
        step(p, Direction::Right).0 == (if p.0 == WIDTH - 1 {
            0usize
        } else {
            (p.0 + 1) as usize
        }),
        step(p, Direction::Up).0 == p.0,
        step(p, Direction::Up).1 == (if p.1 == 0 {
            (HEIGHT - 1) as usize
        } else {
            (p.1 - 1) as usize
        }),
        step(p, Direction::Down).0 == p.0,
        step(p, Direction::Down).1 == (if p.1 == HEIGHT - 1 {
            0usize
        } else {
            (p.1 + 1) as usize
        }),
{
    assert forall|d: Direction| in_bounds(#[trigger] step(p, d)) by {
        match d {
            Direction::Up => {},
            Direction::Down => {},
            Direction::Left => {},
            Direction::Right => {},
        }
    }
}

} // verus!
