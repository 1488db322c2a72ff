use vstd::prelude::*;
use crate::cell::Cell;
use crate::patterns::{glider, glider_shape, pulsar, pulsar_shape, place, placed, GLIDER_OFFSET, PULSAR_OFFSET};
use crate::text::{board_text, glyph, string_from_chars, ALIVE_GLYPH, DEAD_GLYPH};
use crate::random::{is_seeding, random_cells};
use crate::grid::{Grid, index_of, alive_at, before, after, all_dead, lemma_index_in_bounds, lemma_index_coordinates, next_generation};

verus! {

/// A toroidal Game of Life board. `active` holds the current generation;
/// `back` is a scratch buffer of the same size that `tick` fills and then
/// swaps into place.
pub struct Universe {
    width: u32,
    height: u32,
    active: Vec<Cell>,
    back: Vec<Cell>,
}

impl View for Universe {
    type V = Grid;

    closed spec fn view(&self) -> Grid {
        Grid { width: self.width as nat, height: self.height as nat, cells: self.active@ }
    }
}

impl Universe {
    /// Both buffers hold one cell per position, and every index fits in a `u32`.
    pub closed spec fn wf(&self) -> bool {
        &&& self.active@.len() == self.width * self.height
        &&& self.back@.len() == self.width * self.height
        &&& self.width * self.height <= u32::MAX
    }

    /// What every caller may rely on of a well-formed universe.
    pub proof fn lemma_wf(&self)
        requires
            self.wf(),
        ensures
            self@.wf(),
            self@.width * self@.height <= u32::MAX,
    {
    }

    /// A board sized for a drawing surface of `width` by `height` units with
    /// cells `cell_size` units wide plus a one-unit border: it has
    /// `width / (cell_size + 1)` columns and `height / (cell_size + 1)` rows,
    /// randomly seeded.
    pub fn new(width: u32, height: u32, cell_size: u32) -> (r: Universe)
        requires
            cell_size < u32::MAX,
            (width as int / (cell_size + 1)) * (height as int / (cell_size + 1)) <= u32::MAX,
        ensures
            r.wf(),
            r@.width == width as int / (cell_size + 1),
            r@.height == height as int / (cell_size + 1),
            is_seeding(r@.cells, r@.width * r@.height),
    {
        let scaled_width = width / (cell_size + 1);
        let scaled_height = height / (cell_size + 1);
        let active = Universe::set_random(scaled_width, scaled_height);
        let back = Universe::cells_zeroed(scaled_width, scaled_height);
        Universe { width: scaled_width, height: scaled_height, active, back }
    }

    /// Reseeds every cell at random; the dimensions stay.
    pub fn reset_rand(&mut self)
        requires
            old(self).wf(),
        ensures
            final(self).wf(),
            final(self)@.width == old(self)@.width,
            final(self)@.height == old(self)@.height,
            is_seeding(final(self)@.cells, old(self)@.width * old(self)@.height),
    {
        self.active = Universe::set_random(self.width, self.height);
    }

    /// A randomly seeded buffer of `width * height` cells: each cell comes
    /// from a draw in `[1, 100)` and is alive when the draw is above 50.
    pub fn set_random(width: u32, height: u32) -> (r: Vec<Cell>)
        requires
            width * height <= u32::MAX,
        ensures
            r@.len() == width * height,
            is_seeding(r@, (width * height) as nat),
    {
        random_cells(width * height)
    }

    /// A buffer of `width * height` dead cells.
    pub fn cells_zeroed(width: u32, height: u32) -> (r: Vec<Cell>)
        requires
            width * height <= u32::MAX,
        ensures
            r@ == all_dead((width * height) as nat),
    {
        let n: u32 = width * height;
        let mut v: Vec<Cell> = Vec::new();
        let mut i: u32 = 0;
        while i < n
            invariant
                i <= n,
                v@ == all_dead(i as nat),
            decreases n - i,
        {
            v.push(Cell::Dead);
            i = i + 1;
            assert(v@ =~= all_dead(i as nat));
        }
        v
    }

    /// Number of columns.
    pub fn width(&self) -> (r: u32)
        ensures
            r == self@.width,
    {
        self.width
    }

    /// Number of rows.
    pub fn height(&self) -> (r: u32)
        ensures
            r == self@.height,
    {
        self.height
    }

    /// The current generation, row-major, one cell per position.
    pub fn cells(&self) -> (r: &[Cell])
        ensures
            r@ == self@.cells,
    {
        self.active.as_slice()
    }

    /// The current generation, row-major, one cell per position.
    pub fn get_cells(&self) -> (r: &[Cell])
        ensures
            r@ == self@.cells,
    {
        self.active.as_slice()
    }

    fn get_index(&self, row: u32, column: u32) -> (r: usize)
        requires
            self.wf(),
            row < self.height,
            column < self.width,
        ensures
            r == index_of(self@.width, row as nat, column as nat),
            r < self@.cells.len(),
    {
        proof {
            lemma_index_in_bounds(self.width as nat, self.height as nat, row as nat, column as nat);
        }
        (row * self.width + column) as usize
    }

    fn alive(&self, row: u32, column: u32) -> (r: u8)
        requires
            self.wf(),
            row < self.height,
            column < self.width,
        ensures
            r as nat == alive_at(self@.cells, self@.width, row as nat, column as nat),
            r <= 1,
    {
        let i = self.get_index(row, column);
        self.active[i].value()
    }

    /// The number of live cells among the eight around row `row`, column
    /// `column`, wrapping around the edges of the board.
    pub fn live_neighbor_count(&self, row: u32, column: u32) -> (r: u8)
        requires
            self.wf(),
            row < self@.height,
            column < self@.width,
        ensures
            r as nat == self@.neighbors(row as nat, column as nat),
    {
        let north = if row == 0 { self.height - 1 } else { row - 1 };
        let south = if row == self.height - 1 { 0 } else { row + 1 };
        let west = if column == 0 { self.width - 1 } else { column - 1 };
        let east = if column == self.width - 1 { 0 } else { column + 1 };
        assert(north == before(row as nat, self@.height));
        assert(south == after(row as nat, self@.height));
        assert(west == before(column as nat, self@.width));
        assert(east == after(column as nat, self@.width));

        let mut count: u8 = 0;
        count = count + self.alive(north, west);
        count = count + self.alive(north, column);
        count = count + self.alive(north, east);
        count = count + self.alive(row, west);
        count = count + self.alive(row, east);
        count = count + self.alive(south, west);
        count = count + self.alive(south, column);
        count = count + self.alive(south, east);
        count
    }

    /// Advances the board by one generation. Every cell is computed from the
    /// same snapshot into the scratch buffer, which then becomes the live one.
    pub fn tick(&mut self)
        requires
            old(self).wf(),
        ensures
            final(self).wf(),
            final(self)@ == old(self)@.stepped(),
    {
        let ghost cells = self.active@;
        let ghost w = self.width as nat;
        let ghost h = self.height as nat;
        let ghost next = next_generation(cells, w, h);
        let mut row: u32 = 0;
        while row < self.height
            invariant
                self.wf(),
                self.active@ == cells,
                next == next_generation(cells, w, h),
                self.width == w,
                self.height == h,
                row <= h,
                forall|j: int| 0 <= j < row * w ==> #[trigger] self.back@[j] == next[j],
            decreases h - row,
        {
            let mut col: u32 = 0;
            while col < self.width
                invariant
                    self.wf(),
                    self.active@ == cells,
                    next == next_generation(cells, w, h),
                    self.width == w,
                    self.height == h,
                    row < h,
                    col <= w,
                    forall|j: int| 0 <= j < row * w + col ==> #[trigger] self.back@[j] == next[j],
                decreases w - col,
            {
                let idx = self.get_index(row, col);
                let cell = self.active[idx];
                let live_neighbors = self.live_neighbor_count(row, col);
                let updated = match cell {
                    Cell::Alive => if live_neighbors == 2 || live_neighbors == 3 {
                        Cell::Alive
                    } else {
                        Cell::Dead
                    },
                    Cell::Dead => if live_neighbors == 3 {
                        Cell::Alive
                    } else {
                        Cell::Dead
                    },
                };
                proof {
                    lemma_index_coordinates(w, row as nat, col as nat);
                    lemma_index_in_bounds(w, h, row as nat, col as nat);
                    assert(next[idx as int] == updated);
                }
                self.back.set(idx, updated);
                col = col + 1;
            }
            proof {
                assert((row + 1) * w == row * w + w) by (nonlinear_arith);
            }
            row = row + 1;
        }
        proof {
            assert(row == h);
            assert(self.back@ =~= next);
        }
        std::mem::swap(&mut self.active, &mut self.back);
    }

    /// Flips the cell at row `row`, column `column`.
    pub fn toggle_cell(&mut self, row: u32, column: u32)
        requires
            old(self).wf(),
            row < old(self)@.height,
            column < old(self)@.width,
        ensures
            final(self).wf(),
            final(self)@ == old(self)@.toggled(row as nat, column as nat),
    {
        let idx = self.get_index(row, column);
        let mut c = self.active[idx];
        c.toggle();
        self.active.set(idx, c);
    }

    /// Makes every listed (row, column) position alive; the other cells keep their state.
    pub fn set_cells(&mut self, cells: &[(u32, u32)])
        requires
            old(self).wf(),
            forall|k: int|
                0 <= k < cells@.len() ==> #[trigger] cells@[k].0 < old(self)@.height
                    && cells@[k].1 < old(self)@.width,
        ensures
            final(self).wf(),
            final(self)@ == old(self)@.with_alive(cells@),
    {
        let ghost start = self@;
        proof {
            assert(start.with_alive(cells@.subrange(0, 0)).cells =~= start.cells);
        }
        let mut k: usize = 0;
        while k < cells.len()
            invariant
                self.wf(),
                start.wf(),
                k <= cells@.len(),
                self.width == start.width,
                self.height == start.height,
                forall|j: int|
                    0 <= j < cells@.len() ==> #[trigger] cells@[j].0 < start.height
                        && cells@[j].1 < start.width,
                self@ == start.with_alive(cells@.subrange(0, k as int)),
            decreases cells@.len() - k,
        {
            let (row, col) = cells[k];
            let idx = self.get_index(row, col);
            self.active.set(idx, Cell::Alive);
            proof {
                let prev = cells@.subrange(0, k as int);
                let next = cells@.subrange(0, k + 1);
                assert(next[k as int] == (row, col));
                assert forall|i: int| 0 <= i < start.cells.len() implies
                    #[trigger] self.active@[i] == start.with_alive(next).cells[i] by {
                    if i == idx {
                        assert(index_of(start.width, next[k as int].0 as nat, next[k as int].1 as nat) == i);
                    } else {
                        if exists|m: int| 0 <= m < next.len()
                            && index_of(start.width, next[m].0 as nat, next[m].1 as nat) == i {
                            let m = choose|m: int| 0 <= m < next.len()
                                && index_of(start.width, next[m].0 as nat, next[m].1 as nat) == i;
                            assert(prev[m] == next[m]);
                        }
                        if exists|m: int| 0 <= m < prev.len()
                            && index_of(start.width, prev[m].0 as nat, prev[m].1 as nat) == i {
                            let m = choose|m: int| 0 <= m < prev.len()
                                && index_of(start.width, prev[m].0 as nat, prev[m].1 as nat) == i;
                            assert(prev[m] == next[m]);
                        }
                    }
                }
                assert(self@.cells =~= start.with_alive(next).cells);
            }
            k = k + 1;
        }
        proof {
            assert(cells@.subrange(0, k as int) =~= cells@);
        }
    }

    /// Replaces the live buffer with `width * height` dead cells.
    pub fn reset_cells(&mut self)
        requires
            old(self).wf(),
        ensures
            final(self).wf(),
            final(self)@ == old(self)@.cleared(),
    {
        self.active = Universe::cells_zeroed(self.width, self.height);
    }

    /// Kills every cell.
    pub fn reset_dead(&mut self)
        requires
            old(self).wf(),
        ensures
            final(self).wf(),
            final(self)@ == old(self)@.cleared(),
    {
        self.reset_cells();
    }

    /// Sets the number of columns. Both buffers are reallocated and every
    /// cell is dead afterwards: no earlier state is kept.
    pub fn set_width(&mut self, width: u32)
        requires
            old(self).wf(),
            width * old(self)@.height <= u32::MAX,
        ensures
            final(self).wf(),
            final(self)@.width == width,
            final(self)@.height == old(self)@.height,
            final(self)@.cells == all_dead(width as nat * old(self)@.height),
    {
        self.width = width;
        self.active = Universe::cells_zeroed(self.width, self.height);
        self.back = Universe::cells_zeroed(self.width, self.height);
    }

    /// Sets the number of rows. Both buffers are reallocated and every cell
    /// is dead afterwards: no earlier state is kept.
    pub fn set_height(&mut self, height: u32)
        requires
            old(self).wf(),
            old(self)@.width * height <= u32::MAX,
        ensures
            final(self).wf(),
            final(self)@.width == old(self)@.width,
            final(self)@.height == height,
            final(self)@.cells == all_dead(old(self)@.width * height as nat),
    {
        self.height = height;
        self.active = Universe::cells_zeroed(self.width, self.height);
        self.back = Universe::cells_zeroed(self.width, self.height);
    }

    /// Stamps a glider whose centre lands on row `row`, column `col`. Every
    /// coordinate wraps around the board, so any anchor is accepted; on a
    /// board without cells nothing changes.
    pub fn make_glider(&mut self, row: i32, col: i32)
        requires
            old(self).wf(),
        ensures
            final(self).wf(),
            old(self)@.width == 0 || old(self)@.height == 0 ==> final(self)@ == old(self)@,
            old(self)@.width > 0 && old(self)@.height > 0 ==> final(self)@ == old(self)@.with_alive(
                placed(glider_shape(), row as int, col as int, GLIDER_OFFSET as int, old(self)@.height, old(self)@.width),
            ),
    {
        if self.width == 0 || self.height == 0 {
            return;
        }
        let shape = glider();
        let cells = place(&shape, row, col, GLIDER_OFFSET, self.height, self.width);
        self.set_cells(cells.as_slice());
    }

    /// Stamps a pulsar whose centre lands on row `row`, column `col`. Every
    /// coordinate wraps around the board, so any anchor is accepted; on a
    /// board without cells nothing changes.
    pub fn make_pulsar(&mut self, row: i32, col: i32)
        requires
            old(self).wf(),
        ensures
            final(self).wf(),
            old(self)@.width == 0 || old(self)@.height == 0 ==> final(self)@ == old(self)@,
            old(self)@.width > 0 && old(self)@.height > 0 ==> final(self)@ == old(self)@.with_alive(
                placed(pulsar_shape(), row as int, col as int, PULSAR_OFFSET as int, old(self)@.height, old(self)@.width),
            ),
    {
        if self.width == 0 || self.height == 0 {
            return;
        }
        let shape = pulsar();
        let cells = place(&shape, row, col, PULSAR_OFFSET, self.height, self.width);
        self.set_cells(cells.as_slice());
    }

    /// The board as text: one line per row, one glyph per cell, each line
    /// ending in a newline.
    pub fn render(&self) -> (r: String)
        requires
            self.wf(),
        ensures
            r@ == board_text(self@.cells, self@.width, self@.height),
    {
        let mut out: Vec<char> = Vec::new();
        let mut row: u32 = 0;
        while row < self.height
            invariant
                self.wf(),
                row <= self.height,
                out@ == board_text(self@.cells, self@.width, row as nat),
            decreases self.height - row,
        {
            let ghost before_row = out@;
            let mut col: u32 = 0;
            while col < self.width
                invariant
                    self.wf(),
                    row < self.height,
                    col <= self.width,
                    out@ == before_row + Seq::new(
                        col as nat,
                        |c: int| glyph(self@.cells[row * self@.width + c]),
                    ),
                decreases self.width - col,
            {
                let idx = self.get_index(row, col);
                let g = if self.active[idx] == Cell::Dead { DEAD_GLYPH } else { ALIVE_GLYPH };
                out.push(g);
                proof {
                    assert(out@ =~= before_row + Seq::new(
                        (col + 1) as nat,
                        |c: int| glyph(self@.cells[row * self@.width + c]),
                    ));
                }
                col = col + 1;
            }
            out.push('\n');
            proof {
                assert(out@ =~= board_text(self@.cells, self@.width, (row + 1) as nat));
            }
            row = row + 1;
        }
        string_from_chars(out)
    }
}

} // verus!
