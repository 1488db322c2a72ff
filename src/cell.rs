use vstd::prelude::*;

verus! {

/// One square of the board: either dead or alive.
#[derive(Clone, Copy, Debug, PartialEq, Eq, Structural)]
pub enum Cell {
    Dead,
    Alive,
}

/// The contribution of a cell to a neighbour count: 1 when alive, 0 when dead.
pub open spec fn cell_value(c: Cell) -> nat {
    match c {
        Cell::Dead => 0,
        Cell::Alive => 1,
    }
}

/// The other state.
pub open spec fn flipped(c: Cell) -> Cell {
    match c {
        Cell::Dead => Cell::Alive,
        Cell::Alive => Cell::Dead,
    }
}

impl Cell {
    /// The cell read as a small integer, 1 when alive and 0 when dead.
    pub fn value(self) -> (r: u8)
        ensures
            r as nat == cell_value(self),
    {
        match self {
            Cell::Dead => 0,
            Cell::Alive => 1,
        }
    }

    /// Flips the cell between dead and alive.
    pub fn toggle(&mut self)
        ensures
            *final(self) == flipped(*old(self)),
    {
        *self = match *self {
            Cell::Dead => Cell::Alive,
            Cell::Alive => Cell::Dead,
        };
    }

    /// The name of the state, `"Alive"` or `"Dead"`.
    pub fn to_string(&self) -> (r: String)
        ensures
            *self == Cell::Alive ==> r@ == "Alive"@,
            *self == Cell::Dead ==> r@ == "Dead"@,
    {
        match self {
            Cell::Alive => "Alive".to_owned(),
            Cell::Dead => "Dead".to_owned(),
        }
    }
}

} // verus!
