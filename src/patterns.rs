use vstd::prelude::*;

verus! {

/// `x` brought into `[0, n)` by wrapping around an axis of length `n`.
pub open spec fn wrap(x: int, n: nat) -> int {
    x % (n as int)
}

/// Euclidean remainder of `x` by `n`: the coordinate `x` wrapped into `[0, n)`.
pub fn wrap_coordinate(x: i64, n: u32) -> (r: u32)
    requires
        n > 0,
    ensures
        r as int == wrap(x as int, n as nat),
{
    if x >= 0 {
        ((x as u64) % (n as u64)) as u32
    } else {
        let a: u64 = (-(x + 1)) as u64;
        let t: u64 = a % (n as u64);
        proof {
            let q = (a as int) / (n as int);
            vstd::arithmetic::div_mod::lemma_fundamental_div_mod(a as int, n as int);
            assert(x as int == (-q - 1) * (n as int) + (n - 1 - t)) by (nonlinear_arith)
                requires
                    a as int == (n as int) * q + t as int,
                    x as int == -(a as int) - 1,
            ;
            vstd::arithmetic::div_mod::lemma_fundamental_div_mod_converse(
                x as int,
                n as int,
                -q - 1,
                n - 1 - t,
            );
        }
        (n as u64 - 1 - t) as u32
    }
}


/// The glider, as (row, column) offsets from its top-left corner.
pub open spec fn glider_shape() -> Seq<(i32, i32)> {
    seq![(0, 1), (1, 2), (2, 0), (2, 1), (2, 2)]
}

/// The pulsar, as (row, column) offsets from its top-left corner.
pub open spec fn pulsar_shape() -> Seq<(i32, i32)> {
    seq![
        (0, 2), (0, 3), (0, 4), (0, 8), (0, 9), (0, 10),
        (2, 0), (2, 5), (2, 7), (2, 12),
        (3, 0), (3, 5), (3, 7), (3, 12),
        (4, 0), (4, 5), (4, 7), (4, 12),
        (5, 2), (5, 3), (5, 4), (5, 8), (5, 9), (5, 10),
        (7, 2), (7, 3), (7, 4), (7, 8), (7, 9), (7, 10),
        (8, 0), (8, 5), (8, 7), (8, 12),
        (9, 0), (9, 5), (9, 7), (9, 12),
        (10, 0), (10, 5), (10, 7), (10, 12),
        (12, 2), (12, 3), (12, 4), (12, 8), (12, 9), (12, 10),
    ]
}

/// How far the glider's top-left corner lies from its anchor on each axis.
pub const GLIDER_OFFSET: i32 = 1;

/// How far the pulsar's top-left corner lies from its anchor on each axis.
pub const PULSAR_OFFSET: i32 = 6;

/// The glider's offsets.
pub fn glider() -> (r: Vec<(i32, i32)>)
    ensures
        r@ == glider_shape(),
{
    let r = vec![(0, 1), (1, 2), (2, 0), (2, 1), (2, 2)];
    assert(r@ =~= glider_shape());
    r
}

/// The pulsar's offsets.
pub fn pulsar() -> (r: Vec<(i32, i32)>)
    ensures
        r@ == pulsar_shape(),
{
    let r = vec![
        (0, 2), (0, 3), (0, 4), (0, 8), (0, 9), (0, 10),
        (2, 0), (2, 5), (2, 7), (2, 12),
        (3, 0), (3, 5), (3, 7), (3, 12),
        (4, 0), (4, 5), (4, 7), (4, 12),
        (5, 2), (5, 3), (5, 4), (5, 8), (5, 9), (5, 10),
        (7, 2), (7, 3), (7, 4), (7, 8), (7, 9), (7, 10),
        (8, 0), (8, 5), (8, 7), (8, 12),
        (9, 0), (9, 5), (9, 7), (9, 12),
        (10, 0), (10, 5), (10, 7), (10, 12),
        (12, 2), (12, 3), (12, 4), (12, 8), (12, 9), (12, 10),
    ];
    assert(r@ =~= pulsar_shape());
    r
}

/// The board positions covered by `shape` placed with its top-left corner at
/// (`row - offset`, `col - offset`), each coordinate wrapped onto a board of
/// `h` rows and `w` columns.
pub open spec fn placed(shape: Seq<(i32, i32)>, row: int, col: int, offset: int, h: nat, w: nat) -> Seq<(u32, u32)> {
    Seq::new(
        shape.len(),
        |k: int| (
            wrap(shape[k].0 + row - offset, h) as u32,
            wrap(shape[k].1 + col - offset, w) as u32,
        ),
    )
}

/// The positions that `shape` covers when anchored at (`row`, `col`) on a
/// board of `h` rows and `w` columns.
pub fn place(shape: &Vec<(i32, i32)>, row: i32, col: i32, offset: i32, h: u32, w: u32) -> (r: Vec<(u32, u32)>)
    requires
        h > 0,
        w > 0,
    ensures
        r@ == placed(shape@, row as int, col as int, offset as int, h as nat, w as nat),
        forall|k: int| 0 <= k < r@.len() ==> #[trigger] r@[k].0 < h && r@[k].1 < w,
{
    let mut r: Vec<(u32, u32)> = Vec::new();
    let mut k: usize = 0;
    while k < shape.len()
        invariant
            h > 0,
            w > 0,
            k <= shape@.len(),
            r@ =~= placed(shape@, row as int, col as int, offset as int, h as nat, w as nat).subrange(0, k as int),
            forall|j: int| 0 <= j < r@.len() ==> #[trigger] r@[j].0 < h && r@[j].1 < w,
        decreases shape@.len() - k,
    {
        let (dr, dc) = shape[k];
        let first = wrap_coordinate(dr as i64 + row as i64 - offset as i64, h);
        let second = wrap_coordinate(dc as i64 + col as i64 - offset as i64, w);
        r.push((first, second));
        k = k + 1;
    }
    r
}

} // verus!
