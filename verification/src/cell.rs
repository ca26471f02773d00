//! The two-valued state of a single grid position.

use vstd::prelude::*;

verus! {

/// The state of one grid position.
#[derive(Clone, Copy, Debug, PartialEq, Eq, Structural)]
pub enum Cell {
    Dead,
    Alive,
}

impl Cell {
    /// The number a cell contributes to a neighbour count: 1 when alive, 0 when dead.
    pub open spec fn value(self) -> int {
        match self {
            Cell::Dead => 0,
            Cell::Alive => 1,
        }
    }

    /// The opposite state.
    pub open spec fn toggled(self) -> Cell {
        match self {
            Cell::Dead => Cell::Alive,
            Cell::Alive => Cell::Dead,
        }
    }

    /// The cell's contribution to a neighbour count, as a machine integer.
    pub fn count(self) -> (n: u8)
        ensures
            n == self.value(),
    {
        match self {
            Cell::Dead => 0,
            Cell::Alive => 1,
        }
    }

    /// Flips the cell in place between dead and alive.
    pub fn toggle(&mut self)
        ensures
            *final(self) == old(self).toggled(),
    {
        match *self {
            Cell::Dead => *self = Cell::Alive,
            Cell::Alive => *self = Cell::Dead,
        }
    }
}

} // verus!
