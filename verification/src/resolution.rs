//! Resolution engine: a pure, deterministic winner from two revealed
//! coordinates, a target, a tolerance radius and commit-order tie-break data.
//!
//! Distances are compared as squared integers; no floating point. The rule,
//! in priority order: a participant who is alone within tolerance wins;
//! otherwise the strictly smaller distance wins; at exactly equal distances
//! the earlier commit timestamp wins.

use vstd::prelude::*;

verus! {

/// Squared Euclidean distance between two points, over the integers.
pub open spec fn dist_sq(x1: int, y1: int, x2: int, y2: int) -> int {
    (x1 - x2) * (x1 - x2) + (y1 - y2) * (y1 - y2)
}

/// Whether a point lies within the tolerance radius of a target: its squared
/// distance is at most the squared radius.
pub open spec fn in_tolerance(px: int, py: int, tx: int, ty: int, tol: int) -> bool {
    dist_sq(px, py, tx, ty) <= tol * tol
}

/// Squared Euclidean distance (no floats needed).
pub fn distance_squared(x1: u32, y1: u32, x2: u32, y2: u32) -> (r: u64)
    requires
        dist_sq(x1 as int, y1 as int, x2 as int, y2 as int) <= i64::MAX,
    ensures
        r == dist_sq(x1 as int, y1 as int, x2 as int, y2 as int),
{
    let dx = (x1 as i64) - (x2 as i64);
    let dy = (y1 as i64) - (y2 as i64);
    proof {
        assert(dx * dx >= 0 && dy * dy >= 0) by (nonlinear_arith);
    }
    (dx * dx + dy * dy) as u64
}

/// Check if a point is within the tolerance radius of a target.
pub fn is_within_tolerance(px: u32, py: u32, tx: u32, ty: u32, tolerance: u32) -> (r: bool)
    requires
        dist_sq(px as int, py as int, tx as int, ty as int) <= i64::MAX,
    ensures
        r == in_tolerance(px as int, py as int, tx as int, ty as int, tolerance as int),
{
    let t = tolerance as u64;
    proof {
        assert(tolerance <= 0xffff_ffffu64 ==> (tolerance as u64) * (tolerance as u64)
            <= 0xffff_ffffu64 * 0xffff_ffffu64) by (nonlinear_arith);
    }
    distance_squared(px, py, tx, ty) <= t * t
}

/// The three-tier resolution rule, as a predicate saying that participant 1
/// wins: alone in tolerance wins; otherwise the strictly smaller distance
/// wins; at equal distances the earlier (or equal) commit timestamp of
/// participant 1 makes participant 1 win.
pub open spec fn player1_wins_spec(d1: int, d2: int, in1: bool, in2: bool, l1: int, l2: int) -> bool {
    if in1 && !in2 {
        true
    } else if in2 && !in1 {
        false
    } else if d1 < d2 {
        true
    } else if d2 < d1 {
        false
    } else {
        l1 <= l2
    }
}

/// Decide the winner from squared distances, tolerance membership and commit
/// timestamps.
pub fn player1_wins(d1: u64, d2: u64, in1: bool, in2: bool, l1: u32, l2: u32) -> (r: bool)
    ensures
        r == player1_wins_spec(d1 as int, d2 as int, in1, in2, l1 as int, l2 as int),
{
    if in1 && in2 {
        if d1 < d2 {
            true
        } else if d2 < d1 {
            false
        } else {
            l1 <= l2
        }
    } else if in1 {
        true
    } else if in2 {
        false
    } else {
        if d1 < d2 {
            true
        } else if d2 < d1 {
            false
        } else {
            l1 <= l2
        }
    }
}

/// Tie-break: when both participants stand equally (same tolerance verdict)
/// at exactly equal distances, the participant whose commit timestamp is
/// earlier (or equal, for participant 1) wins, regardless of reveal order.
pub proof fn lemma_tie_breaks_by_commit_order(d1: int, d2: int, in1: bool, in2: bool, l1: int, l2:
    int)
    requires
        d1 == d2,
        in1 == in2,
    ensures
        player1_wins_spec(d1, d2, in1, in2, l1, l2) == (l1 <= l2),
{
}

} // verus!
