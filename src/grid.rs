use vstd::prelude::*;
use crate::cell::{Cell, cell_value, flipped};

verus! {

/// The abstract state of a board: its dimensions and its cells in row-major
/// order, the cell of row `r` and column `c` standing at `r * width + c`.
pub struct Grid {
    pub width: nat,
    pub height: nat,
    pub cells: Seq<Cell>,
}

/// The position of row `r`, column `c` in a row-major buffer of rows of `w` cells.
pub open spec fn index_of(w: nat, r: nat, c: nat) -> nat {
    r * w + c
}

/// The coordinate before `i` on an axis of length `n`, wrapping from 0 to `n - 1`.
pub open spec fn before(i: nat, n: nat) -> nat {
    if i == 0 {
        (n - 1) as nat
    } else {
        (i - 1) as nat
    }
}

/// The coordinate after `i` on an axis of length `n`, wrapping from `n - 1` to 0.
pub open spec fn after(i: nat, n: nat) -> nat {
    if i + 1 == n {
        0
    } else {
        i + 1
    }
}

/// 1 when the cell at row `r`, column `c` is alive, else 0.
pub open spec fn alive_at(cells: Seq<Cell>, w: nat, r: nat, c: nat) -> nat {
    cell_value(cells[index_of(w, r, c) as int])
}

/// How many of the eight cells around row `r`, column `c` are alive, the
/// edges of the board wrapping around on both axes.
pub open spec fn neighbor_count(cells: Seq<Cell>, w: nat, h: nat, r: nat, c: nat) -> nat {
    let n = before(r, h);
    let s = after(r, h);
    let west = before(c, w);
    let east = after(c, w);
    alive_at(cells, w, n, west) + alive_at(cells, w, n, c) + alive_at(cells, w, n, east)
        + alive_at(cells, w, r, west) + alive_at(cells, w, r, east)
        + alive_at(cells, w, s, west) + alive_at(cells, w, s, c) + alive_at(cells, w, s, east)
}

/// The state of a cell in the next generation, given its state and its
/// number of live neighbours: a live cell survives with two or three, a dead
/// cell comes alive with exactly three, and every other cell is dead.
pub open spec fn next_cell(c: Cell, n: nat) -> Cell {
    match c {
        Cell::Alive => if n == 2 || n == 3 { Cell::Alive } else { Cell::Dead },
        Cell::Dead => if n == 3 { Cell::Alive } else { Cell::Dead },
    }
}

/// The whole next generation, every cell computed from the same snapshot.
pub open spec fn next_generation(cells: Seq<Cell>, w: nat, h: nat) -> Seq<Cell> {
    Seq::new(
        w * h,
        |i: int| next_cell(cells[i], neighbor_count(cells, w, h, (i / w as int) as nat, (i % w as int) as nat)),
    )
}

/// A buffer of `n` dead cells.
pub open spec fn all_dead(n: nat) -> Seq<Cell> {
    Seq::new(n, |i: int| Cell::Dead)
}

impl Grid {
    /// The buffer holds exactly one cell per position.
    pub open spec fn wf(self) -> bool {
        self.cells.len() == self.width * self.height
    }

    /// The cell at row `r`, column `c`.
    pub open spec fn at(self, r: nat, c: nat) -> Cell {
        self.cells[index_of(self.width, r, c) as int]
    }

    /// The number of live neighbours of row `r`, column `c`.
    pub open spec fn neighbors(self, r: nat, c: nat) -> nat {
        neighbor_count(self.cells, self.width, self.height, r, c)
    }

    /// The board after one generation.
    pub open spec fn stepped(self) -> Grid {
        Grid { cells: next_generation(self.cells, self.width, self.height), ..self }
    }

    /// The board with every cell dead.
    pub open spec fn cleared(self) -> Grid {
        Grid { cells: all_dead(self.width * self.height), ..self }
    }

    /// The board with the cell at row `r`, column `c` flipped.
    pub open spec fn toggled(self, r: nat, c: nat) -> Grid {
        let i = index_of(self.width, r, c) as int;
        Grid { cells: self.cells.update(i, flipped(self.cells[i])), ..self }
    }

    /// The board with every listed (row, column) position alive and the others unchanged.
    pub open spec fn with_alive(self, positions: Seq<(u32, u32)>) -> Grid {
        Grid {
            cells: Seq::new(
                self.cells.len(),
                |i: int|
                    if exists|k: int|
                        0 <= k < positions.len() && index_of(
                            self.width,
                            positions[k].0 as nat,
                            positions[k].1 as nat,
                        ) == i {
                        Cell::Alive
                    } else {
                        self.cells[i]
                    },
            ),
            ..self
        }
    }
}

/// A position inside a board of `w` columns and `h` rows has an index inside its buffer.
pub proof fn lemma_index_in_bounds(w: nat, h: nat, r: nat, c: nat)
    requires
        r < h,
        c < w,
    ensures
        index_of(w, r, c) < w * h,
{
    assert(r * w + c < w * h) by (nonlinear_arith)
        requires
            r < h,
            c < w,
    ;
}

/// Row and column are recovered from an index by division and remainder.
pub proof fn lemma_index_coordinates(w: nat, r: nat, c: nat)
    requires
        c < w,
    ensures
        index_of(w, r, c) / w == r,
        index_of(w, r, c) % w == c,
{
    vstd::arithmetic::div_mod::lemma_fundamental_div_mod_converse(
        (r * w + c) as int,
        w as int,
        r as int,
        c as int,
    );
}

} // verus!
