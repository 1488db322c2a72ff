use vstd::prelude::*;
use rand::Rng;
use rand::rngs::ThreadRng;
use crate::cell::Cell;

verus! {

#[verifier::external_type_specification]
#[verifier::external_body]
pub struct ExThreadRng(ThreadRng);

/// Relies on `rand::rng`: a handle on the thread-local generator. Nothing is
/// promised of the values it will produce.
#[verifier::external_body]
fn thread_rng() -> ThreadRng {
    rand::rng()
}

/// Relies on `rand::Rng::random_range`: for a non-empty range `low..high`
/// it returns a value in that range (it panics on an empty one).
#[verifier::external_body]
fn random_range(rng: &mut ThreadRng, low: u32, high: u32) -> (r: u32)
    requires
        low < high,
    ensures
        low <= r < high,
{
    rng.random_range(low..high)
}

/// Smallest value a seeding draw can take.
pub const DRAW_LOW: u32 = 1;

/// Bound, excluded, of the values a seeding draw can take.
pub const DRAW_HIGH: u32 = 100;

/// A draw strictly above this value seeds a live cell.
pub const ALIVE_ABOVE: u32 = 50;

/// A seeding draw in range.
pub open spec fn valid_draw(d: u32) -> bool {
    DRAW_LOW <= d < DRAW_HIGH
}

/// The cell that a seeding draw produces: alive above the threshold, else dead.
pub open spec fn seeded_cell(d: u32) -> Cell {
    if d > ALIVE_ABOVE {
        Cell::Alive
    } else {
        Cell::Dead
    }
}

/// A buffer that some sequence of valid draws would seed.
pub open spec fn is_seeding(cells: Seq<Cell>, n: nat) -> bool {
    exists|d: Seq<u32>|
        d.len() == n && (forall|i: int| 0 <= i < n ==> valid_draw(#[trigger] d[i]))
            && cells == d.map_values(|x: u32| seeded_cell(x))
}

/// The cell seeded by one draw.
pub fn cell_from_draw(d: u32) -> (r: Cell)
    ensures
        r == seeded_cell(d),
{
    if d > ALIVE_ABOVE {
        Cell::Alive
    } else {
        Cell::Dead
    }
}

/// The buffer seeded by a sequence of draws, one cell per draw, in order.
pub fn cells_from_draws(draws: &[u32]) -> (r: Vec<Cell>)
    ensures
        r@ == draws@.map_values(|x: u32| seeded_cell(x)),
{
    let mut r: Vec<Cell> = Vec::new();
    let mut i: usize = 0;
    while i < draws.len()
        invariant
            i <= draws@.len(),
            r@ =~= draws@.subrange(0, i as int).map_values(|x: u32| seeded_cell(x)),
        decreases draws@.len() - i,
    {
        r.push(cell_from_draw(draws[i]));
        i = i + 1;
    }
    assert(draws@.subrange(0, i as int) =~= draws@);
    r
}

/// `n` draws from the thread-local generator, each in `[DRAW_LOW, DRAW_HIGH)`.
pub fn random_draws(n: u32) -> (r: Vec<u32>)
    ensures
        r@.len() == n,
        forall|i: int| 0 <= i < n ==> valid_draw(#[trigger] r@[i]),
{
    let mut rng = thread_rng();
    let mut r: Vec<u32> = Vec::new();
    let mut i: u32 = 0;
    while i < n
        invariant
            i <= n,
            r@.len() == i,
            forall|j: int| 0 <= j < i ==> valid_draw(#[trigger] r@[j]),
        decreases n - i,
    {
        let d = random_range(&mut rng, DRAW_LOW, DRAW_HIGH);
        r.push(d);
        i = i + 1;
    }
    r
}

/// A randomly seeded buffer of `n` cells, each alive with a chance of about
/// one half.
pub fn random_cells(n: u32) -> (r: Vec<Cell>)
    ensures
        r@.len() == n,
        is_seeding(r@, n as nat),
{
    let draws = random_draws(n);
    let r = cells_from_draws(draws.as_slice());
    assert(r@ == draws@.map_values(|x: u32| seeded_cell(x)));
    r
}

} // verus!
