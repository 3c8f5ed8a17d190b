use vstd::prelude::*;

use crate::grid::{in_bounds, HEIGHT, WIDTH};

verus! {

/// Relies on rand::random: draws a machine-random value from the thread-local
/// generator; nothing is promised of which value comes back.
#[verifier::external_body]
fn random_u64() -> u64 {
    rand::random::<u64>()
}

/// The food: a single grid cell the snake can eat.
pub struct Food {
    pub position: (usize, usize),
}

impl Food {
    /// Well-formedness: the food lies on the grid.
    pub open spec fn wf(self) -> bool {
        in_bounds(self.position)
    }

    /// A fresh food item at the fixed seed cell (5,5).
    pub fn new() -> (f: Food)
        ensures
            f.wf(),
            f.position == (5usize, 5usize),
    {
        Food { position: (5, 5) }
    }

    /// Places the food at the cell the two drawn values select: each value
    /// reduced modulo its axis bound. The old position is discarded; a cell
    /// occupied by the snake is not excluded.
    pub fn place_from(&mut self, rx: u64, ry: u64)
        ensures
            final(self).position == ((rx % (WIDTH as u64)) as usize, (ry % (HEIGHT as u64)) as usize),
            final(self).wf(),
    {
        let x = (rx % (WIDTH as u64)) as usize;
        let y = (ry % (HEIGHT as u64)) as usize;
        self.position = (x, y);
    }

    /// Relocates the food to a pseudo-random cell: one draw per axis, each
    /// reduced modulo its bound. Whatever values the generator yields, the
    /// new position lies on the grid.
    pub fn spawn(&mut self)
        ensures
            final(self).wf(),
    {
        let rx = random_u64();
        let ry = random_u64();
        self.place_from(rx, ry);
    }
}

} // verus!
