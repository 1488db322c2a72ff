use vstd::prelude::*;
use crate::cell::Cell;

verus! {

/// The glyph of a dead cell.
pub const DEAD_GLYPH: char = '\u{25FB}';

/// The glyph of a live cell.
pub const ALIVE_GLYPH: char = '\u{25FC}';

/// The glyph that shows a cell.
pub open spec fn glyph(c: Cell) -> char {
    match c {
        Cell::Dead => DEAD_GLYPH,
        Cell::Alive => ALIVE_GLYPH,
    }
}

/// Row `r` of a board of `w` columns as text: one glyph per cell, then a newline.
pub open spec fn row_text(cells: Seq<Cell>, w: nat, r: nat) -> Seq<char> {
    Seq::new(w, |c: int| glyph(cells[r * w + c])).push('\n')
}

/// The first `k` rows of a board of `w` columns as text.
pub open spec fn board_text(cells: Seq<Cell>, w: nat, k: nat) -> Seq<char>
    decreases k,
{
    if k == 0 {
        Seq::empty()
    } else {
        board_text(cells, w, (k - 1) as nat) + row_text(cells, w, (k - 1) as nat)
    }
}

/// Relies on `String::from_iter` over `char`s: the string holds the
/// characters in the order given.
#[verifier::external_body]
pub(crate) fn string_from_chars(chars: Vec<char>) -> (r: String)
    ensures
        r@ == chars@,
{
    String::from_iter(chars)
}

} // verus!
