//! Cubic Bézier ease curves and their baked lookup tables.
//!
//! A curve is given by two control points inside the unit square; the end
//! points are fixed at `(0,0)` and `(1,1)`. Evaluating the curve as a function
//! `y(x)` requires inverting the parametric `x(t)`, which is done by baking
//! [`BAKED_POINTS`] samples of `(x(t), y(t))` and bracketing a query between
//! two adjacent samples with a binary search.
//!
//! Coordinates are doubles to the numeric code of a host; here they are
//! carried as 64-bit representations. For non-negative doubles the order of
//! the bit representations coincides with the numeric order, so the search in
//! this module, which compares the raw 64-bit keys, brackets exactly as a
//! comparison of the doubles would whenever the table lies in the unit square.

use vstd::prelude::*;

verus! {

/// An `(x, y)` coordinate pair, each half the 64-bit representation of a
/// double.
#[derive(Debug, Clone, Copy, PartialEq, Eq, Structural)]
pub struct ControlPoint {
    /// Horizontal coordinate.
    pub x: u64,
    /// Vertical coordinate.
    pub y: u64,
}

/// Number of samples baked for one curve.
pub const BAKED_POINTS: usize = 255;

/// The parameters of a cubic Bézier ease curve: its two interior control
/// points.
#[derive(Debug, Clone, Copy, PartialEq, Eq, Structural)]
pub struct Curve {
    /// First control point.
    pub p1: ControlPoint,
    /// Second control point.
    pub p2: ControlPoint,
}

impl Curve {
    /// Create the parameter set of a curve from its two control points.
    pub fn new(p1: ControlPoint, p2: ControlPoint) -> (r: Curve)
        ensures
            r == (Curve { p1, p2 }),
    {
        Curve { p1, p2 }
    }
}

/// The `x` keys of the table are non-decreasing.
pub open spec fn table_sorted(t: Seq<ControlPoint>) -> bool {
    forall|i: int, j: int| #![trigger t[i].x, t[j].x] 0 <= i <= j < t.len() ==> t[i].x <= t[j].x
}

/// The index of the first entry whose `x` key is at least `x`, or the length
/// of the table when every key is below `x`.
spec fn first_at_or_above(t: Seq<ControlPoint>, x: u64) -> int
    decreases t.len(),
{
    if t.len() == 0 {
        0
    } else if t[0].x >= x {
        0
    } else {
        1 + first_at_or_above(t.drop_first(), x)
    }
}

/// The slot the search homes in on: the first entry at or above `x`, but at
/// least 1 so that a bracket `[slot - 1, slot]` exists.
spec fn search_slot(t: Seq<ControlPoint>, x: u64) -> int {
    if first_at_or_above(t, x) >= 1 {
        first_at_or_above(t, x)
    } else {
        1
    }
}

proof fn lemma_first_at_or_above_bounds(t: Seq<ControlPoint>, x: u64)
    ensures
        0 <= first_at_or_above(t, x) <= t.len(),
        forall|j: int| 0 <= j < first_at_or_above(t, x) ==> #[trigger] t[j].x < x,
        first_at_or_above(t, x) < t.len() ==> t[first_at_or_above(t, x)].x >= x,
    decreases t.len(),
{
    if t.len() == 0 || t[0].x >= x {
    } else {
        lemma_first_at_or_above_bounds(t.drop_first(), x);
        assert forall|j: int| 0 <= j < first_at_or_above(t, x) implies #[trigger] t[j].x < x by {
            if j >= 1 {
                assert(t.drop_first()[j - 1] == t[j]);
            }
        }
        if first_at_or_above(t, x) < t.len() {
            assert(t.drop_first()[first_at_or_above(t, x) - 1] == t[first_at_or_above(t, x)]);
        }
    }
}

/// In a sorted table, an entry's key lies below `x` exactly when the entry
/// sits before the first entry at or above `x`.
proof fn lemma_probe(t: Seq<ControlPoint>, x: u64, p: int)
    requires
        table_sorted(t),
        0 <= p < t.len(),
    ensures
        (t[p].x < x) <==> p < first_at_or_above(t, x),
{
    lemma_first_at_or_above_bounds(t, x);
    if p >= first_at_or_above(t, x) {
        assert(t[first_at_or_above(t, x)].x <= t[p].x);
    }
}

/// Check that a baked table has the expected size and non-decreasing `x`
/// keys, so that [`bracket_index`] may be used on it.
pub fn check_table(baked: &Vec<ControlPoint>) -> (ok: bool)
    ensures
        ok <==> (baked@.len() == BAKED_POINTS && table_sorted(baked@)),
{
    if baked.len() != BAKED_POINTS {
        return false;
    }
    let mut i: usize = 0;
    while i + 1 < baked.len()
        invariant
            baked@.len() == BAKED_POINTS,
            i < baked@.len(),
            forall|a: int, b: int|
                #![trigger baked@[a].x, baked@[b].x]
                0 <= a <= b <= i ==> baked@[a].x <= baked@[b].x,
        decreases baked@.len() - i,
    {
        if baked[i].x > baked[i + 1].x {
            assert(!table_sorted(baked@));
            return false;
        }
        i = i + 1;
    }
    true
}

/// Find the lower end of the bracket of samples enclosing the query `x`.
///
/// The search starts at index 0 and repeatedly moves by a halving step, up
/// while the probed key is below `x` and down otherwise, exactly covering the
/// index space because the table holds 255 entries. The returned index `lower`
/// satisfies `lower + 1 < BAKED_POINTS`, every key before `lower` is below
/// `x`, and the key at `lower + 1` is at least `x`; when `x` exceeds the first
/// key, the key at `lower` is itself below `x`, so the pair
/// `(lower, lower + 1)` brackets `x`. Queries at or below the first key yield
/// `lower == 0`, leaving the host to extrapolate from the first bracket.
pub fn bracket_index(baked: &Vec<ControlPoint>, x: u64) -> (lower: usize)
    requires
        baked@.len() == BAKED_POINTS,
        table_sorted(baked@),
        x <= baked@[BAKED_POINTS - 1].x,
    ensures
        lower + 1 < BAKED_POINTS,
        forall|j: int| 0 <= j < lower ==> #[trigger] baked@[j].x < x,
        baked@[lower + 1].x >= x,
        x > baked@[0].x ==> baked@[lower as int].x < x,
{
    let ghost slot: int = search_slot(baked@, x);
    proof {
        lemma_first_at_or_above_bounds(baked@, x);
        lemma_probe(baked@, x, BAKED_POINTS - 1);
    }
    let mut index: usize = 0;
    let mut below: bool = true;
    let mut step: usize = (BAKED_POINTS + 1) / 2;
    while step > 0
        invariant
            baked@.len() == BAKED_POINTS,
            table_sorted(baked@),
            x <= baked@[BAKED_POINTS - 1].x,
            slot == search_slot(baked@, x),
            1 <= slot <= BAKED_POINTS - 1,
            step == 128 || step == 64 || step == 32 || step == 16 || step == 8 || step == 4
                || step == 2 || step == 1 || step == 0,
            index + 2 * step <= 256,
            (index == 0 && below) || index >= 2 * step,
            below ==> index < slot,
            below ==> slot <= index + (if step >= 1 { 2 * (step as int) } else { 1int }),
            !below ==> slot <= index,
            !below ==> index - (if step >= 1 { 2 * (step as int) } else { 1int }) < slot,
        decreases step,
    {
        if below {
            index = index + step;
        } else {
            index = index - step;
        }
        proof {
            lemma_probe(baked@, x, index as int);
        }
        below = baked[index].x < x;
        step = step / 2;
    }
    let lower: usize = if !below || index == BAKED_POINTS - 1 {
        index - 1
    } else {
        index
    };
    proof {
        assert(lower == slot - 1);
        lemma_first_at_or_above_bounds(baked@, x);
        lemma_probe(baked@, x, slot);
        if x > baked@[0].x {
            assert(first_at_or_above(baked@, x) >= 1);
            assert(baked@[slot - 1].x < x);
        }
    }
    lower
}

} // verus!
