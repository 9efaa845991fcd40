//! The single movable agent: a position cursor on the grid.

use vstd::prelude::*;

verus! {

/// The drone's current grid coordinate. Staying within world bounds is the
/// game's invariant, enforced by wrap-around movement, never by rejection.
pub struct Drone {
    pub x: usize,
    pub y: usize,
}

impl Drone {
    /// A drone at (x, y).
    pub fn new(x: usize, y: usize) -> (d: Drone)
        ensures
            d == (Drone { x, y }),
    {
        Drone { x, y }
    }

    /// The drone's column.
    pub fn x(&self) -> (x: usize)
        ensures
            x == self.x,
    {
        self.x
    }

    /// The drone's row.
    pub fn y(&self) -> (y: usize)
        ensures
            y == self.y,
    {
        self.y
    }

    /// Moves the drone to (x, y).
    pub fn set_position(&mut self, x: usize, y: usize)
        ensures
            *final(self) == (Drone { x, y }),
    {
        self.x = x;
        self.y = y;
    }
}

} // verus!
