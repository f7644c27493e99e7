use vstd::prelude::*;

use crate::ids::{generate_id, is_generated_id};
use crate::vec::Vec2;

verus! {

/// The side of the square of chunks around the origin that a preload radius
/// covers.
pub open spec fn square_side(radius: int) -> int {
    2 * radius + 1
}

/// The `k`-th chunk of the preload square, counting `cz` fastest: the square
/// is walked with `cx` from `-radius` to `radius` and, for each, `cz` from
/// `-radius` to `radius`.
pub open spec fn square_coord(radius: int, k: int) -> Vec2<i32> {
    Vec2((-radius + k / square_side(radius)) as i32, (-radius + k % square_side(radius)) as i32)
}

/// How many chunks the preload square holds (none for a negative radius).
pub open spec fn square_len(radius: int) -> int {
    if radius < 0 {
        0
    } else {
        square_side(radius) * square_side(radius)
    }
}

/// The chunks of the preload square, in the order in which they are visited.
pub fn preload_coords(radius: i32) -> (coords: Vec<Vec2<i32>>)
    requires
        // the square's size fits in a `usize`
        usize::BITS == 64 || radius <= 32767,
    ensures
        coords@.len() == square_len(radius as int),
        forall|k: int| 0 <= k < coords@.len() ==> #[trigger] coords@[k] == square_coord(radius as int, k),
{
    let mut coords: Vec<Vec2<i32>> = Vec::new();
    if radius < 0 {
        return coords;
    }
    let side: usize = (2 * (radius as i64) + 1) as usize;
    proof {
        assert(side * side <= usize::MAX) by (nonlinear_arith)
            requires
                1 <= side <= 0xffff_ffff,
                usize::BITS == 64 || side <= 65535,
                usize::BITS == 64 ==> usize::MAX == 0xffff_ffff_ffff_ffff,
                usize::BITS == 32 ==> usize::MAX == 0xffff_ffff,
                usize::BITS == 32 || usize::BITS == 64,
        ;
        assert(side >= 1);
        assert(side * side >= side) by (nonlinear_arith)
            requires
                side >= 1,
        ;
    }
    let total: usize = side * side;
    let mut k: usize = 0;
    while k < total
        invariant
            side == square_side(radius as int),
            total == square_len(radius as int),
            radius >= 0,
            k <= total,
            coords@.len() == k,
            forall|j: int| 0 <= j < k ==> #[trigger] coords@[j] == square_coord(radius as int, j),
        decreases total - k,
    {
        let row: usize = k / side;
        let col: usize = k % side;
        proof {
            assert(row < side) by (nonlinear_arith)
                requires
                    k < side * side,
                    row == k / side,
                    side >= 1,
            ;
        }
        let cx: i32 = (row as i64 - radius as i64) as i32;
        let cz: i32 = (col as i64 - radius as i64) as i32;
        coords.push(Vec2(cx, cz));
        k = k + 1;
    }
    coords
}

/// Some position of the preload square holds the chunk `c`.
pub open spec fn in_square(radius: int, c: Vec2<i32>) -> bool {
    exists|k: int| 0 <= k < square_len(radius) && #[trigger] square_coord(radius, k) == c
}

/// The preload square holds every chunk `(cx, cz)` with both coordinates in
/// `-radius..=radius`, each exactly once.
pub proof fn law_preload_square(radius: int)
    requires
        0 <= radius <= i32::MAX,
    ensures
        forall|j: int, k: int|
            0 <= j < k < square_len(radius) ==> square_coord(radius, j) != square_coord(radius, k),
        forall|c: Vec2<i32>|
            -radius <= c.0 <= radius && -radius <= c.1 <= radius ==> #[trigger] in_square(radius, c),
{
    let side: int = square_side(radius);
    assert forall|j: int, k: int| 0 <= j < k < square_len(radius) implies square_coord(radius, j)
        != square_coord(radius, k) by {
        vstd::arithmetic::div_mod::lemma_fundamental_div_mod(j, side);
        vstd::arithmetic::div_mod::lemma_fundamental_div_mod(k, side);
        lemma_row_col_in_range(radius, j);
        lemma_row_col_in_range(radius, k);
        if j / side == k / side && j % side == k % side {
            assert(side * (j / side) == side * (k / side));
        }
    }
    assert forall|c: Vec2<i32>| -radius <= c.0 <= radius && -radius <= c.1 <= radius implies #[trigger] in_square(radius, c) by {
        let q: int = c.0 + radius;
        let r: int = c.1 + radius;
        let k: int = q * side + r;
        vstd::arithmetic::div_mod::lemma_fundamental_div_mod_converse(k, side, q, r);
        assert(0 <= k < side * side) by (nonlinear_arith)
            requires
                0 <= q < side,
                0 <= r < side,
                k == q * side + r,
        ;
        assert(square_coord(radius, k) == c);
    }
}

/// The row and column of a position of the square lie inside the square.
proof fn lemma_row_col_in_range(radius: int, k: int)
    requires
        0 <= radius,
        0 <= k < square_len(radius),
    ensures
        0 <= k / square_side(radius) < square_side(radius),
        0 <= k % square_side(radius) < square_side(radius),
{
    let side: int = square_side(radius);
    assert(0 <= k / side < side) by (nonlinear_arith)
        requires
            side >= 1,
            0 <= k < side * side,
    ;
    vstd::arithmetic::div_mod::lemma_mod_bound(k, side);
}

/// The shape of a chunk: its height, how many sub-chunks it is cut into, and
/// its size along each horizontal axis.
#[derive(Clone, Copy, Debug, PartialEq, Eq, Structural)]
pub struct ChunkParams {
    pub max_height: usize,
    pub sub_chunks: usize,
    pub size: usize,
}

/// A chunk to create while preloading: a fresh id, its coordinates and its shape.
pub struct ChunkSeed {
    pub id: String,
    pub coords: Vec2<i32>,
    pub params: ChunkParams,
}

/// The coordinates among the first `n` whose flag is set, in order.
pub open spec fn selected(coords: Seq<Vec2<i32>>, within: Seq<bool>, n: int) -> Seq<Vec2<i32>>
    decreases n,
{
    if n <= 0 {
        Seq::empty()
    } else if within[n - 1] {
        selected(coords, within, n - 1).push(coords[n - 1])
    } else {
        selected(coords, within, n - 1)
    }
}

/// The chunks to create while preloading: one, with a freshly generated id
/// and the given shape, for each coordinate of `coords` whose flag in `within`
/// (whether the chunk lies inside the world) is set, in the order of `coords`.
pub fn preload_plan(coords: &Vec<Vec2<i32>>, within: &Vec<bool>, params: ChunkParams) -> (seeds: Vec<ChunkSeed>)
    requires
        coords@.len() == within@.len(),
    ensures
        seeds@.map_values(|s: ChunkSeed| s.coords) == selected(coords@, within@, coords@.len() as int),
        forall|i: int| 0 <= i < seeds@.len() ==> is_generated_id(#[trigger] seeds@[i].id@),
        forall|i: int| 0 <= i < seeds@.len() ==> (#[trigger] seeds@[i]).params == params,
{
    let mut seeds: Vec<ChunkSeed> = Vec::new();
    let mut i: usize = 0;
    while i < coords.len()
        invariant
            coords@.len() == within@.len(),
            i <= coords@.len(),
            seeds@.map_values(|s: ChunkSeed| s.coords) == selected(coords@, within@, i as int),
            forall|j: int| 0 <= j < seeds@.len() ==> is_generated_id(#[trigger] seeds@[j].id@),
            forall|j: int| 0 <= j < seeds@.len() ==> (#[trigger] seeds@[j]).params == params,
        decreases coords@.len() - i,
    {
        if within[i] {
            let id = generate_id();
            seeds.push(ChunkSeed { id, coords: coords[i], params });
            assert(seeds@.map_values(|s: ChunkSeed| s.coords) =~= selected(coords@, within@, i as int).push(coords@[i as int]));
        }
        i = i + 1;
    }
    seeds
}

} // verus!
