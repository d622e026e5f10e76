use vstd::prelude::*;
use crate::riemann::{Domain, Sample};

verus! {

/// The visible y-axis window, in thousandths of a unit. It only decides which
/// points are shown; it never clamps a value.
#[derive(Clone, Copy, Debug, PartialEq, Eq, Structural)]
pub struct ViewRange {
    pub min: i64,
    pub max: i64,
}

/// A point of the curve, in thousandths of a unit.
#[derive(Clone, Copy, Debug, PartialEq, Eq, Structural)]
pub struct Point {
    pub x: i32,
    pub y: i64,
}

/// How many grid positions the curve has: one per thousandth of a unit from
/// `min` (included) to `max` (excluded), none when `max <= min`.
pub open spec fn grid_len(d: Domain) -> int {
    if d.max > d.min {
        d.max - d.min
    } else {
        0
    }
}

/// Whether `v` is finite and lies strictly inside `r`.
pub open spec fn visible(v: Sample, r: ViewRange) -> bool {
    match v {
        Sample::Finite(y) => r.min < y < r.max,
        Sample::Undefined => false,
    }
}

/// The points of the curve: `ys[k]` is the value at `start + k`, and a point is
/// kept only where its value is visible, in increasing order of `k`.
pub open spec fn curve_points(start: int, ys: Seq<Sample>, r: ViewRange) -> Seq<Point>
    decreases ys.len(),
{
    if ys.len() == 0 {
        Seq::empty()
    } else {
        let prev = curve_points(start, ys.drop_last(), r);
        match ys.last() {
            Sample::Finite(y) if visible(ys.last(), r) => prev.push(
                Point { x: (start + ys.len() - 1) as i32, y },
            ),
            _ => prev,
        }
    }
}

/// The grid positions at which the curve is evaluated, in increasing order.
pub fn grid_positions(d: Domain) -> (r: Vec<i32>)
    ensures
        r.len() == grid_len(d),
        forall|k: int| 0 <= k < r.len() ==> r[k] == d.min + k,
{
    let mut r: Vec<i32> = Vec::new();
    if d.max <= d.min {
        return r;
    }
    let mut x: i32 = d.min;
    while x < d.max
        invariant
            d.min <= x <= d.max,
            r.len() == x - d.min,
            forall|k: int| 0 <= k < r.len() ==> r[k] == d.min + k,
        decreases d.max - x,
    {
        r.push(x);
        x = x + 1;
    }
    r
}

/// The visible points of the curve whose values at `grid_positions(d)` are `ys`.
pub fn visible_points(d: Domain, ys: &Vec<Sample>, r: ViewRange) -> (out: Vec<Point>)
    requires
        ys.len() == grid_len(d),
    ensures
        out@ == curve_points(d.min as int, ys@, r),
{
    let mut out: Vec<Point> = Vec::new();
    let mut k: usize = 0;
    while k < ys.len()
        invariant
            k <= ys.len(),
            ys.len() == grid_len(d),
            out@ == curve_points(d.min as int, ys@.take(k as int), r),
        decreases ys.len() - k,
    {
        assert(ys@.take(k as int + 1).drop_last() =~= ys@.take(k as int));
        match ys[k] {
            Sample::Finite(y) => {
                if r.min < y && y < r.max {
                    out.push(Point { x: (d.min as i64 + k as i64) as i32, y });
                }
            },
            Sample::Undefined => {},
        }
        k = k + 1;
    }
    assert(ys@.take(k as int) =~= ys@);
    out
}

/// Whether `p` has strictly increasing x, every x in `[lo, hi]`, and every y
/// strictly inside `r`.
pub open spec fn ordered_within(p: Seq<Point>, lo: int, hi: int, r: ViewRange) -> bool {
    &&& forall|j: int, k: int| 0 <= j < k < p.len() ==> #[trigger] p[j].x < #[trigger] p[k].x
    &&& forall|j: int| 0 <= j < p.len() ==> lo <= #[trigger] p[j].x <= hi
    &&& forall|j: int| 0 <= j < p.len() ==> r.min < #[trigger] p[j].y < r.max
}

/// The curve's points have strictly increasing x, all within `[start, start + n - 1]`
/// for `n` values, and every y strictly inside the range.
pub proof fn lemma_curve_ordered(start: int, ys: Seq<Sample>, r: ViewRange)
    requires
        i32::MIN <= start,
        start + ys.len() <= i32::MAX + 1,
    ensures
        ordered_within(curve_points(start, ys, r), start, start + ys.len() - 1, r),
    decreases ys.len(),
{
    if ys.len() > 0 {
        lemma_curve_ordered(start, ys.drop_last(), r);
    }
}

/// For a domain with `max > min`, the visible points returned for it have
/// strictly increasing x within `[min, max]` and y strictly inside the range.
pub proof fn lemma_visible_points_ordered(d: Domain, ys: Seq<Sample>, r: ViewRange)
    requires
        d.max > d.min,
        ys.len() == grid_len(d),
    ensures
        ordered_within(curve_points(d.min as int, ys, r), d.min as int, d.max as int, r),
{
    lemma_curve_ordered(d.min as int, ys, r);
}

} // verus!
