//! Least-explored locator: repeatedly splits the known map into quadrants,
//! keeps the one with the fewest revealed tiles and aims at its centre.
use vstd::prelude::*;
use crate::world::Coord;

verus! {

/// The revealed cells of a known map, as a grid of booleans.
pub open spec fn grid(map: &Vec<Vec<bool>>) -> Seq<Seq<bool>> {
    Seq::new(map@.len(), |i: int| map@[i]@)
}

/// The map is square: every row is as long as there are rows.
pub open spec fn is_square(map: &Vec<Vec<bool>>) -> bool {
    forall|i: int| 0 <= i < map@.len() ==> #[trigger] map@[i]@.len() == map@.len()
}

/// Revealed cells of `row` among the columns `c0 .. c1`.
pub open spec fn row_count(row: Seq<bool>, c0: int, c1: int) -> nat
    decreases c1 - c0,
{
    if c1 <= c0 {
        0
    } else {
        row_count(row, c0, c1 - 1) + if row[c1 - 1] { 1nat } else { 0nat }
    }
}

/// Revealed cells of `m` in rows `r0 .. r1` and columns `c0 .. c1`.
pub open spec fn rect_count(m: Seq<Seq<bool>>, r0: int, r1: int, c0: int, c1: int) -> nat
    decreases r1 - r0,
{
    if r1 <= r0 {
        0
    } else {
        rect_count(m, r0, r1 - 1, c0, c1) + row_count(m[r1 - 1], c0, c1)
    }
}

/// Quadrant `q` of the square of side `d` whose top-left corner is
/// (`r0`, `c0`): 0 top-left, 1 top-right, 2 bottom-right, 3 bottom-left.
pub open spec fn quadrant_count(m: Seq<Seq<bool>>, r0: int, c0: int, d: int, q: int) -> nat {
    let h = d / 2;
    if q == 0 {
        rect_count(m, r0, r0 + h, c0, c0 + h)
    } else if q == 1 {
        rect_count(m, r0, r0 + h, c0 + h, c0 + d)
    } else if q == 2 {
        rect_count(m, r0 + h, r0 + d, c0 + h, c0 + d)
    } else {
        rect_count(m, r0 + h, r0 + d, c0, c0 + h)
    }
}

/// The first quadrant, in order 0 to 3, with the fewest revealed cells.
pub open spec fn min_quadrant(m: Seq<Seq<bool>>, r0: int, c0: int, d: int) -> int {
    let n0 = quadrant_count(m, r0, c0, d, 0);
    let n1 = quadrant_count(m, r0, c0, d, 1);
    let n2 = quadrant_count(m, r0, c0, d, 2);
    let n3 = quadrant_count(m, r0, c0, d, 3);
    let (i01, v01) = if n1 < n0 { (1int, n1) } else { (0int, n0) };
    let (i012, v012) = if n2 < v01 { (2int, n2) } else { (i01, v01) };
    if n3 < v012 { 3 } else { i012 }
}

pub open spec fn is_top(q: int) -> bool {
    q == 0 || q == 1
}

pub open spec fn is_left(q: int) -> bool {
    q == 0 || q == 3
}

/// The target after `k` more refinements of the square (`r0`, `c0`, `d`),
/// starting from target `t`: each refinement moves the target a quarter of
/// the side towards the least revealed quadrant and recurses into it.
pub open spec fn locate(m: Seq<Seq<bool>>, r0: int, c0: int, d: int, t: (int, int), k: nat) -> (int, int)
    decreases k,
{
    if k == 0 {
        t
    } else {
        let q = min_quadrant(m, r0, c0, d);
        let h = d / 2;
        let t2 = (
            if is_top(q) { t.0 - d / 4 } else { t.0 + d / 4 },
            if is_left(q) { t.1 - d / 4 } else { t.1 + d / 4 },
        );
        locate(
            m,
            if is_top(q) { r0 } else { r0 + h },
            if is_left(q) { c0 } else { c0 + h },
            h,
            t2,
            (k - 1) as nat,
        )
    }
}

/// The whole search on a map of side `dim` with `k` refinements.
pub open spec fn least_explored(m: Seq<Seq<bool>>, k: nat) -> (int, int) {
    let dim = m.len() as int;
    locate(m, 0, 0, dim, (dim / 2, dim / 2), k)
}

/// Floor of the base-two logarithm, zero for zero and one.
pub open spec fn log2(n: nat) -> nat
    decreases n,
{
    if n <= 1 {
        0
    } else {
        1 + log2(n / 2)
    }
}

pub proof fn lemma_row_count_bound(row: Seq<bool>, c0: int, c1: int)
    ensures
        row_count(row, c0, c1) <= if c1 > c0 { c1 - c0 } else { 0 },
    decreases c1 - c0,
{
    if c1 > c0 {
        lemma_row_count_bound(row, c0, c1 - 1);
    }
}

pub proof fn lemma_rect_count_bound(m: Seq<Seq<bool>>, r0: int, r1: int, c0: int, c1: int)
    requires
        r0 <= r1,
        c0 <= c1,
    ensures
        rect_count(m, r0, r1, c0, c1) <= (r1 - r0) * (c1 - c0),
    decreases r1 - r0,
{
    if r1 > r0 {
        lemma_rect_count_bound(m, r0, r1 - 1, c0, c1);
        lemma_row_count_bound(m[r1 - 1], c0, c1);
        assert((r1 - 1 - r0) * (c1 - c0) + (c1 - c0) == (r1 - r0) * (c1 - c0)) by (nonlinear_arith);
    }
}

/// Counts the revealed cells of the rectangle rows `r0 .. r1`, columns
/// `c0 .. c1` of a square map.
fn count_revealed(map: &Vec<Vec<bool>>, r0: usize, r1: usize, c0: usize, c1: usize) -> (n: u128)
    requires
        is_square(map),
        r0 <= r1 <= map@.len(),
        c0 <= c1 <= map@.len(),
    ensures
        n == rect_count(grid(map), r0 as int, r1 as int, c0 as int, c1 as int),
{
    let len = map.len();
    let ghost m = grid(map);
    let ghost dim = len as int;
    let mut n: u128 = 0;
    let mut r: usize = r0;
    while r < r1
        invariant
            is_square(map),
            m == grid(map),
            dim == map@.len(),
            dim <= usize::MAX,
            r0 <= r <= r1 <= dim,
            c0 <= c1 <= dim,
            n == rect_count(m, r0 as int, r as int, c0 as int, c1 as int),
        decreases r1 - r,
    {
        let row = &map[r];
        let mut k: u128 = 0;
        let mut c: usize = c0;
        while c < c1
            invariant
                row@ == m[r as int],
                row@.len() == dim,
                c0 <= c <= c1 <= dim,
                k == row_count(m[r as int], c0 as int, c as int),
                k <= c - c0,
            decreases c1 - c,
        {
            if row[c] {
                k = k + 1;
            }
            c = c + 1;
        }
        proof {
            assert(n + k == rect_count(m, r0 as int, r + 1, c0 as int, c1 as int));
            lemma_rect_count_bound(m, r0 as int, r + 1, c0 as int, c1 as int);
            assert((r + 1 - r0) * (c1 - c0) <= dim * dim) by (nonlinear_arith)
                requires r0 <= r < dim, c0 <= c1 <= dim;
            assert(dim * dim < 0x1_0000_0000_0000_0000_0000_0000_0000_0000) by (nonlinear_arith)
                requires 0 <= dim <= usize::MAX;
        }
        n = n + k;
        r = r + 1;
    }
    n
}

/// How many cells of a square map are revealed.
pub fn revealed_cells(map: &Vec<Vec<bool>>) -> (n: u128)
    requires
        is_square(map),
    ensures
        n == rect_count(grid(map), 0, map@.len() as int, 0, map@.len() as int),
{
    count_revealed(map, 0, map.len(), 0, map.len())
}

/// Index of the least revealed quadrant of the square (`r0`, `c0`, `d`),
/// ties going to the first in order.
fn least_revealed_quadrant(map: &Vec<Vec<bool>>, r0: usize, c0: usize, d: usize) -> (q: usize)
    requires
        is_square(map),
        r0 + d <= map@.len(),
        c0 + d <= map@.len(),
    ensures
        q == min_quadrant(grid(map), r0 as int, c0 as int, d as int),
        q < 4,
{
    let _dim = map.len();
    let h = d / 2;
    let n0 = count_revealed(map, r0, r0 + h, c0, c0 + h);
    let n1 = count_revealed(map, r0, r0 + h, c0 + h, c0 + d);
    let n2 = count_revealed(map, r0 + h, r0 + d, c0 + h, c0 + d);
    let n3 = count_revealed(map, r0 + h, r0 + d, c0, c0 + h);
    let mut q: usize = 0;
    let mut min = n0;
    if n1 < min {
        q = 1;
        min = n1;
    }
    if n2 < min {
        q = 2;
        min = n2;
    }
    if n3 < min {
        q = 3;
    }
    q
}

/// The target of the least-explored search after `precision` refinements.
pub fn least_explored_target(map: &Vec<Vec<bool>>, precision: u32) -> (r: Coord)
    requires
        is_square(map),
    ensures
        (r.0 as int, r.1 as int) == least_explored(grid(map), precision as nat),
{
    let dim = map.len();
    let mut d: usize = dim;
    let mut r0: usize = 0;
    let mut c0: usize = 0;
    let mut target: Coord = (dim / 2, dim / 2);
    let mut i: u32 = 0;
    while i < precision
        invariant
            is_square(map),
            dim == map@.len(),
            i <= precision,
            r0 + d <= dim,
            c0 + d <= dim,
            d / 2 <= target.0,
            d / 2 <= target.1,
            target.0 + d / 2 <= dim,
            target.1 + d / 2 <= dim,
            least_explored(grid(map), precision as nat) == locate(
                grid(map),
                r0 as int,
                c0 as int,
                d as int,
                (target.0 as int, target.1 as int),
                (precision - i) as nat,
            ),
        decreases precision - i,
    {
        let q = least_revealed_quadrant(map, r0, c0, d);
        let h = d / 2;
        let quarter = d / 4;
        assert(quarter * 2 <= h);
        assert(h / 2 == quarter);
        if q == 0 || q == 1 {
            target.0 = target.0 - quarter;
        } else {
            target.0 = target.0 + quarter;
            r0 = r0 + h;
        }
        if q == 0 || q == 3 {
            target.1 = target.1 - quarter;
        } else {
            target.1 = target.1 + quarter;
            c0 = c0 + h;
        }
        d = h;
        i = i + 1;
    }
    target
}

/// Floor of the base-two logarithm of `n`, zero for zero and one.
pub fn ilog2(n: usize) -> (r: u32)
    ensures
        r == log2(n as nat),
        r < 64,
{
    proof {
        lemma_log2_usize(n as nat);
    }
    let mut m: usize = n;
    let mut r: u32 = 0;
    while m > 1
        invariant
            log2(n as nat) == r + log2(m as nat),
            r + log2(m as nat) < 64,
        decreases m,
    {
        m = m / 2;
        r = r + 1;
    }
    r
}

pub open spec fn pow2(k: nat) -> nat
    decreases k,
{
    if k == 0 {
        1
    } else {
        2 * pow2((k - 1) as nat)
    }
}

proof fn lemma_log2_lt(n: nat, k: nat)
    requires
        k >= 1,
        n < pow2(k),
    ensures
        log2(n) < k,
    decreases k,
{
    if n > 1 {
        assert(pow2(k) == 2 * pow2((k - 1) as nat));
        if k == 1 {
            assert(pow2(0) == 1);
        } else {
            lemma_log2_lt(n / 2, (k - 1) as nat);
        }
    }
}

proof fn lemma_log2_usize(n: nat)
    requires
        n <= usize::MAX,
    ensures
        log2(n) < 64,
{
    reveal_with_fuel(pow2, 65);
    assert(pow2(64) == 0x1_0000_0000_0000_0000);
    lemma_log2_lt(n, 64);
}

/// How many refinements a search on a map of side `dim` makes for the
/// random draw `roll`: between one and the base-two logarithm of the side.
pub open spec fn precision_of(dim: nat, roll: u32) -> nat {
    if log2(dim) == 0 {
        0
    } else {
        (roll as nat % log2(dim)) + 1
    }
}

/// The number of refinements for the draw `roll` on a map of side `dim`.
pub fn precision_from_roll(dim: usize, roll: u32) -> (p: u32)
    ensures
        p == precision_of(dim as nat, roll),
{
    let l = ilog2(dim);
    if l == 0 {
        0
    } else {
        roll % l + 1
    }
}

/// Picks a destination in the least explored part of the map, refining a
/// randomly drawn number of times, so that consecutive calls may lead to
/// different under-observed areas.
pub fn random_least_explored_target(map: &Vec<Vec<bool>>) -> (r: Coord)
    requires
        is_square(map),
    ensures
        exists|roll: u32|
            (r.0 as int, r.1 as int) == least_explored(grid(map), #[trigger] precision_of(map@.len() as nat, roll)),
{
    let roll = rand::random::<u32>();
    let p = precision_from_roll(map.len(), roll);
    least_explored_target(map, p)
}

/// The quadrant that the search keeps holds no more revealed cells than any
/// other, and so no more than the average of the four.
pub proof fn lemma_least_explored_below_average(m: Seq<Seq<bool>>, r0: int, c0: int, d: int)
    ensures
        forall|q: int|
            0 <= q < 4 ==> quadrant_count(m, r0, c0, d, min_quadrant(m, r0, c0, d)) <= #[trigger] quadrant_count(m, r0, c0, d, q),
        4 * quadrant_count(m, r0, c0, d, min_quadrant(m, r0, c0, d)) <= quadrant_count(m, r0, c0, d, 0)
            + quadrant_count(m, r0, c0, d, 1) + quadrant_count(m, r0, c0, d, 2) + quadrant_count(m, r0, c0, d, 3),
        0 <= min_quadrant(m, r0, c0, d) < 4,
{
}

} // verus!
