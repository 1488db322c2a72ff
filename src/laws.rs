use vstd::prelude::*;
use crate::cell::{Cell, flipped};
use crate::grid::{
    Grid, index_of, before, after, alive_at, neighbor_count, lemma_index_in_bounds,
    lemma_index_coordinates,
};

verus! {

/// Neighbours wrap around the torus: on an axis of length `n`, the
/// coordinates before and after `i` are `i - 1` and `i + 1` taken modulo `n`,
/// so row `n - 1` is next to row 0 and column `n - 1` next to column 0.
pub proof fn lemma_wrap_is_modular(i: nat, n: nat)
    requires
        i < n,
    ensures
        before(i, n) as int == (i - 1) % (n as int),
        after(i, n) as int == (i + 1) as int % (n as int),
        before(0, n) == n - 1,
        after((n - 1) as nat, n) == 0,
{
    if i == 0 {
        vstd::arithmetic::div_mod::lemma_fundamental_div_mod_converse(-1, n as int, -1, n - 1);
    } else {
        vstd::arithmetic::div_mod::lemma_fundamental_div_mod_converse(i - 1, n as int, 0, i - 1);
    }
    if i + 1 == n {
        vstd::arithmetic::div_mod::lemma_fundamental_div_mod_converse(i + 1 as int, n as int, 1, 0);
    } else {
        vstd::arithmetic::div_mod::lemma_fundamental_div_mod_converse(i + 1 as int, n as int, 0, i + 1 as int);
    }
}

/// The live neighbour count of a cell in row 0 includes the cell right
/// above it across the edge, in row `height - 1`: making that cell alive
/// raises the count by at least one.
pub proof fn lemma_top_row_counts_bottom_row(cells: Seq<Cell>, w: nat, h: nat, c: nat)
    requires
        c < w,
        0 < h,
        cells.len() == w * h,
    ensures
        ({
            let i = index_of(w, (h - 1) as nat, c) as int;
            neighbor_count(cells.update(i, Cell::Alive), w, h, 0, c)
                >= neighbor_count(cells.update(i, Cell::Dead), w, h, 0, c) + 1
        }),
{
    let i = index_of(w, (h - 1) as nat, c) as int;
    lemma_index_in_bounds(w, h, (h - 1) as nat, c);
    let on = cells.update(i, Cell::Alive);
    let off = cells.update(i, Cell::Dead);
    assert(alive_at(on, w, before(0, h), c) == 1);
    assert(alive_at(off, w, before(0, h), c) == 0);
    assert forall|r: nat, k: nat| r < h && k < w implies alive_at(on, w, r, k) >= #[trigger] alive_at(
        off,
        w,
        r,
        k,
    ) by {
        lemma_index_in_bounds(w, h, r, k);
    }
    lemma_index_in_bounds(w, h, 0, c);
    lemma_index_in_bounds(w, h, 0, before(c, w));
    lemma_index_in_bounds(w, h, 0, after(c, w));
}

/// The live neighbour count of a cell in column 0 includes the cell right
/// beside it across the edge, in column `width - 1`: making that cell alive
/// raises the count by at least one.
pub proof fn lemma_left_column_counts_right_column(cells: Seq<Cell>, w: nat, h: nat, r: nat)
    requires
        r < h,
        0 < w,
        cells.len() == w * h,
    ensures
        ({
            let i = index_of(w, r, (w - 1) as nat) as int;
            neighbor_count(cells.update(i, Cell::Alive), w, h, r, 0)
                >= neighbor_count(cells.update(i, Cell::Dead), w, h, r, 0) + 1
        }),
{
    let i = index_of(w, r, (w - 1) as nat) as int;
    lemma_index_in_bounds(w, h, r, (w - 1) as nat);
    let on = cells.update(i, Cell::Alive);
    let off = cells.update(i, Cell::Dead);
    assert(alive_at(on, w, r, before(0, w)) == 1);
    assert(alive_at(off, w, r, before(0, w)) == 0);
    assert forall|a: nat, k: nat| a < h && k < w implies alive_at(on, w, a, k) >= #[trigger] alive_at(
        off,
        w,
        a,
        k,
    ) by {
        lemma_index_in_bounds(w, h, a, k);
    }
    lemma_index_in_bounds(w, h, before(r, h), 0);
    lemma_index_in_bounds(w, h, after(r, h), 0);
}

/// After a generation, a dead cell with exactly three live neighbours is
/// alive, and a live cell with two or three live neighbours is still alive.
pub proof fn lemma_birth_and_survival(g: Grid, r: nat, c: nat)
    requires
        g.wf(),
        r < g.height,
        c < g.width,
    ensures
        g.at(r, c) == Cell::Dead && g.neighbors(r, c) == 3 ==> g.stepped().at(r, c) == Cell::Alive,
        g.at(r, c) == Cell::Alive && (g.neighbors(r, c) == 2 || g.neighbors(r, c) == 3)
            ==> g.stepped().at(r, c) == Cell::Alive,
        g.stepped().wf(),
{
    lemma_index_in_bounds(g.width, g.height, r, c);
    lemma_index_coordinates(g.width, r, c);
}

/// Killing every cell twice leaves the same all-dead board as doing it once.
pub proof fn lemma_reset_dead_idempotent(g: Grid)
    ensures
        g.cleared().cleared() == g.cleared(),
{
}

/// Toggling the same cell twice gives back the board one started from.
pub proof fn lemma_toggle_twice(g: Grid, r: nat, c: nat)
    requires
        g.wf(),
        r < g.height,
        c < g.width,
    ensures
        g.toggled(r, c).toggled(r, c) == g,
{
    lemma_index_in_bounds(g.width, g.height, r, c);
    let i = index_of(g.width, r, c) as int;
    assert(flipped(flipped(g.cells[i])) == g.cells[i]);
    assert(g.toggled(r, c).toggled(r, c).cells =~= g.cells);
}

} // verus!
