//! The common mathematical model of every trajectory: a closed polygon,
//! given as a finite sequence of points, traversed cyclically.  A generator
//! never materialises the polygon's absolute path; each call returns the
//! delta from the current point to the next one, so no rounding error can
//! accumulate across cycles.

use vstd::arithmetic::div_mod::{
    lemma_add_mod_noop_right, lemma_mod_add_multiples_vanish, lemma_mod_self_0, lemma_mod_twice,
    lemma_small_mod,
};
use vstd::prelude::*;

verus! {

/// The displacement produced at step `k` when walking cyclically along the
/// polygon `pts`: the vector from point `k mod n` to point `(k + 1) mod n`.
pub open spec fn poly_delta(pts: Seq<(int, int)>, k: int) -> (int, int)
    recommends
        pts.len() > 0,
        0 <= k,
{
    let n = pts.len() as int;
    (pts[(k + 1) % n].0 - pts[k % n].0, pts[(k + 1) % n].1 - pts[k % n].1)
}

/// The accumulated position after the first `n` displacements, starting
/// from the origin.
pub open spec fn poly_pos(pts: Seq<(int, int)>, n: int) -> (int, int)
    recommends
        pts.len() > 0,
    decreases n,
{
    if n <= 0 {
        (0, 0)
    } else {
        let p = poly_pos(pts, n - 1);
        let d = poly_delta(pts, n - 1);
        (p.0 + d.0, p.1 + d.1)
    }
}

/// The squared euclidean magnitude of a displacement.
pub open spec fn mag_sq(d: (int, int)) -> int {
    d.0 * d.0 + d.1 * d.1
}

/// Walking a polygon is memoryless: the sum of the first `n` deltas
/// telescopes to the vector from the starting point to point `n mod len`,
/// so the traced path always lies on the polygon.
pub proof fn lemma_poly_pos(pts: Seq<(int, int)>, n: int)
    requires
        pts.len() > 0,
        0 <= n,
    ensures
        poly_pos(pts, n) == (
            pts[n % (pts.len() as int)].0 - pts[0].0,
            pts[n % (pts.len() as int)].1 - pts[0].1,
        ),
    decreases n,
{
    let len = pts.len() as int;
    if n == 0 {
        lemma_small_mod(0, pts.len());
    } else {
        lemma_poly_pos(pts, n - 1);
    }
}

/// Closure invariant: over exactly one period the displacements sum to
/// zero, returning the traced position to its starting value.
pub proof fn lemma_poly_closed(pts: Seq<(int, int)>)
    requires
        pts.len() > 0,
    ensures
        poly_pos(pts, pts.len() as int) == (0int, 0int),
{
    let len = pts.len() as int;
    lemma_poly_pos(pts, len);
    lemma_mod_self_0(len);
}

/// The delta at step `k` only depends on `k` modulo the polygon's length.
pub proof fn lemma_poly_delta_mod(pts: Seq<(int, int)>, k: int)
    requires
        pts.len() > 0,
        0 <= k,
    ensures
        poly_delta(pts, k) == poly_delta(pts, k % (pts.len() as int)),
{
    let len = pts.len() as int;
    lemma_add_mod_noop_right(1, k, len);
    lemma_mod_twice(k, len);
    assert(1 + k % len == k % len + 1);
    assert(1 + k == k + 1);
}

/// Periodicity: the delta sequence repeats exactly with period `len`.
pub proof fn lemma_poly_periodic(pts: Seq<(int, int)>, k: int)
    requires
        pts.len() > 0,
        0 <= k,
    ensures
        poly_delta(pts, k + pts.len() as int) == poly_delta(pts, k),
{
    let len = pts.len() as int;
    lemma_mod_add_multiples_vanish(k, len);
    lemma_mod_add_multiples_vanish(k + 1, len);
    assert((k + len + 1) % len == (k + 1) % len) by {
        assert(k + len + 1 == (k + 1) + len);
    }
}

} // verus!
