use vstd::prelude::*;

verus! {

/// Grid steps per unit: a position or value `v` stands for `v / 1000` units.
pub const STEPS_PER_UNIT: i64 = 1000;

/// The visible x-axis window, in thousandths of a unit.
#[derive(Clone, Copy, Debug, PartialEq, Eq, Structural)]
pub struct Domain {
    pub min: i32,
    pub max: i32,
}

/// How many rectangles to place, and where in each one the function is sampled.
///
/// `coefficient` is in thousandths of a rectangle's width: 0 samples at the left
/// edge, 1000 at the right edge. Values outside that span sample outside the
/// rectangle and are accepted as they are.
#[derive(Clone, Copy, Debug, PartialEq, Eq, Structural)]
pub struct RectangleSpec {
    pub count: u32,
    pub coefficient: i32,
}

/// A function value in thousandths of a unit, or `Undefined` where the function
/// has no finite value.
#[derive(Clone, Copy, Debug, PartialEq, Eq, Structural)]
pub enum Sample {
    Finite(i64),
    Undefined,
}

/// The exact rational `num / den`, with `den > 0`.
#[derive(Clone, Copy, Debug, PartialEq, Eq, Structural)]
pub struct Fraction {
    pub num: i128,
    pub den: i128,
}

/// One rectangle: it spans x from `left` to `right` (thousandths of a unit) and
/// y from 0 to `height`.
#[derive(Clone, Copy, Debug, PartialEq, Eq, Structural)]
pub struct Rectangle {
    pub left: Fraction,
    pub right: Fraction,
    pub height: Sample,
}

/// The summed signed area, in square units, or `Undefined` where some height is.
#[derive(Clone, Copy, Debug, PartialEq, Eq, Structural)]
pub enum Area {
    Finite(Fraction),
    Undefined,
}

/// The rectangles of one approximation and their total area.
pub struct RectangleSet {
    pub rectangles: Vec<Rectangle>,
    pub area: Area,
}

/// Numerator of the left edge of rectangle `i`, over the denominator `count`.
pub open spec fn left_edge_num(d: Domain, count: int, i: int) -> int {
    d.min * count + (d.max - d.min) * i
}

/// Numerator of the sample position of rectangle `i`, over `1000 * count`:
/// the left edge plus `coefficient / 1000` of the width.
pub open spec fn sample_num(d: Domain, s: RectangleSpec, i: int) -> int {
    d.min * 1000 * s.count + (d.max - d.min) * (1000 * i + s.coefficient)
}

/// The sum of the heights, or `None` if any of them is undefined; a left-to-right fold.
pub open spec fn height_sum(h: Seq<Sample>) -> Option<int>
    decreases h.len(),
{
    if h.len() == 0 {
        Some(0)
    } else {
        match (height_sum(h.drop_last()), h.last()) {
            (Some(acc), Sample::Finite(y)) => Some(acc + y),
            _ => None,
        }
    }
}

/// The total area of rectangles of width `(max - min) / count` and heights `h`,
/// as the pair (numerator, denominator) in square units.
pub open spec fn total_area(d: Domain, count: int, h: Seq<Sample>) -> Option<(int, int)> {
    if count == 0 {
        Some((0, 1))
    } else {
        match height_sum(h) {
            Some(sum) => Some(((d.max - d.min) * sum, count * 1_000_000)),
            None => None,
        }
    }
}

/// Whether `a` is the area that `total_area` gives.
pub open spec fn area_matches(a: Area, expected: Option<(int, int)>) -> bool {
    match (a, expected) {
        (Area::Finite(f), Some((n, q))) => f.num == n && f.den == q,
        (Area::Undefined, None) => true,
        _ => false,
    }
}

/// Bounds on the products that position numerators are built from.
proof fn lemma_position_bounds(d: Domain, s: RectangleSpec, i: int)
    requires
        0 <= i <= s.count,
    ensures
        -0x1_0000_0000_0000_0000_0000 <= d.min * 1000 * s.count <= 0x1_0000_0000_0000_0000_0000,
        -0x1_0000_0000_0000_0000_0000 <= (d.max - d.min) * (1000 * i + s.coefficient)
            <= 0x1_0000_0000_0000_0000_0000,
        -0x1_0000_0000_0000_0000_0000 <= d.min * s.count <= 0x1_0000_0000_0000_0000_0000,
        -0x1_0000_0000_0000_0000_0000 <= (d.max - d.min) * i <= 0x1_0000_0000_0000_0000_0000,
{
    let w = d.max - d.min;
    let m = d.min as int;
    let c = s.count as int;
    let k = 1000 * i + s.coefficient;
    assert(-0x1_0000_0000 <= w <= 0x1_0000_0000);
    assert(-0x1_0000_0000_0000 <= k <= 0x1_0000_0000_0000);
    assert(-0x1_0000_0000_0000_0000_0000 <= w * k <= 0x1_0000_0000_0000_0000_0000) by (nonlinear_arith)
        requires
            -0x1_0000_0000 <= w <= 0x1_0000_0000,
            -0x1_0000_0000_0000 <= k <= 0x1_0000_0000_0000,
    ;
    assert(-0x1_0000_0000_0000_0000_0000 <= m * 1000 * c <= 0x1_0000_0000_0000_0000_0000) by (nonlinear_arith)
        requires
            -0x1_0000_0000 <= m <= 0x1_0000_0000,
            0 <= c <= 0x1_0000_0000,
    ;
    assert(-0x1_0000_0000_0000_0000_0000 <= m * c <= 0x1_0000_0000_0000_0000_0000) by (nonlinear_arith)
        requires
            -0x1_0000_0000 <= m <= 0x1_0000_0000,
            0 <= c <= 0x1_0000_0000,
    ;
    assert(-0x1_0000_0000_0000_0000_0000 <= w * i <= 0x1_0000_0000_0000_0000_0000) by (nonlinear_arith)
        requires
            -0x1_0000_0000 <= w <= 0x1_0000_0000,
            0 <= i <= 0x1_0000_0000,
    ;
}

/// Where the function is evaluated for each rectangle: position `i` is
/// `sample_num(d, s, i) / (1000 * count)` thousandths of a unit.
pub fn sample_positions(d: Domain, s: RectangleSpec) -> (r: Vec<Fraction>)
    ensures
        r.len() == s.count,
        forall|i: int|
            0 <= i < s.count ==> r[i].num == sample_num(d, s, i) && r[i].den == 1000 * s.count,
{
    let mut r: Vec<Fraction> = Vec::new();
    let count = s.count;
    let den: i128 = 1000 * (count as i128);
    let width: i128 = d.max as i128 - d.min as i128;
    proof {
        lemma_position_bounds(d, s, 0);
    }
    let base: i128 = d.min as i128 * 1000 * (count as i128);
    let mut i: u32 = 0;
    while i < count
        invariant
            count == s.count,
            i <= count,
            den == 1000 * s.count,
            width == d.max - d.min,
            base == d.min * 1000 * s.count,
            r.len() == i,
            forall|j: int|
                0 <= j < i ==> r[j].num == sample_num(d, s, j) && r[j].den == 1000 * s.count,
        decreases count - i,
    {
        proof {
            lemma_position_bounds(d, s, i as int);
        }
        let k: i128 = 1000 * (i as i128) + s.coefficient as i128;
        let num: i128 = base + width * k;
        r.push(Fraction { num, den });
        i = i + 1;
    }
    r
}

/// The sum of the first `i` heights, and a bound on it that keeps the area in `i128`.
proof fn lemma_height_sum_step(h: Seq<Sample>, i: int)
    requires
        0 <= i < h.len(),
    ensures
        h.take(i + 1).drop_last() == h.take(i),
        h.take(i + 1).last() == h[i],
        height_sum(h.take(i + 1)) == match (height_sum(h.take(i)), h[i]) {
            (Some(acc), Sample::Finite(y)) => Some(acc + y),
            _ => None::<int>,
        },
{
    assert(h.take(i + 1).drop_last() =~= h.take(i));
}

/// Whether `r` holds the rectangles of a Riemann sum over `d` with heights `h`
/// and their total area: rectangle `i` spans `[left_edge_num(i) / count,
/// left_edge_num(i + 1) / count]` and rises to `h[i]`.
pub open spec fn is_riemann_set(d: Domain, s: RectangleSpec, h: Seq<Sample>, r: RectangleSet) -> bool {
    &&& r.rectangles.len() == s.count
    &&& forall|i: int|
        0 <= i < s.count ==> {
            &&& #[trigger] r.rectangles[i].left == (Fraction {
                num: left_edge_num(d, s.count as int, i) as i128,
                den: s.count as i128,
            })
            &&& r.rectangles[i].right == (Fraction {
                num: left_edge_num(d, s.count as int, i + 1) as i128,
                den: s.count as i128,
            })
            &&& r.rectangles[i].height == h[i]
        }
    &&& area_matches(r.area, total_area(d, s.count as int, h))
}

/// The rectangles of a Riemann sum over `d` and their total signed area.
///
/// `heights[i]` is the function's value at `sample_positions(d, s)[i]`. Rectangle
/// `i` spans `[left_edge_num(i) / count, left_edge_num(i + 1) / count]`; the area
/// folds `width * heights[i]` from left to right and is undefined as soon as one
/// height is. With no rectangles the set is empty and the area is zero.
pub fn compute_rectangles(d: Domain, s: RectangleSpec, heights: &Vec<Sample>) -> (r: RectangleSet)
    requires
        heights.len() == s.count,
    ensures
        is_riemann_set(d, s, heights@, r),
{
    let count = s.count;
    if count == 0 {
        return RectangleSet { rectangles: Vec::new(), area: Area::Finite(Fraction { num: 0, den: 1 }) };
    }
    let width: i128 = d.max as i128 - d.min as i128;
    proof {
        lemma_position_bounds(d, s, 0);
    }
    let base: i128 = d.min as i128 * (count as i128);
    let mut rectangles: Vec<Rectangle> = Vec::new();
    let mut i: u32 = 0;
    while i < count
        invariant
            count == s.count,
            count > 0,
            i <= count,
            heights.len() == count,
            width == d.max - d.min,
            base == d.min * s.count,
            rectangles.len() == i,
            forall|j: int|
                0 <= j < i ==> {
                    &&& rectangles[j].left == (Fraction {
                        num: left_edge_num(d, s.count as int, j) as i128,
                        den: s.count as i128,
                    })
                    &&& rectangles[j].right == (Fraction {
                        num: left_edge_num(d, s.count as int, j + 1) as i128,
                        den: s.count as i128,
                    })
                    &&& rectangles[j].height == heights[j]
                },
        decreases count - i,
    {
        proof {
            lemma_position_bounds(d, s, i as int);
            lemma_position_bounds(d, s, i as int + 1);
        }
        let left = Fraction { num: base + width * (i as i128), den: count as i128 };
        let right = Fraction { num: base + width * (i as i128 + 1), den: count as i128 };
        rectangles.push(Rectangle { left, right, height: heights[i as usize] });
        i = i + 1;
    }
    let mut sum: i128 = 0;
    let mut defined = true;
    let mut k: usize = 0;
    while k < heights.len()
        invariant
            k <= heights.len(),
            heights.len() == count,
            count <= 0xffff_ffff,
            defined ==> height_sum(heights@.take(k as int)) == Some(sum as int),
            defined ==> -(k * 0x8000_0000_0000_0000) <= sum <= k * 0x8000_0000_0000_0000,
            !defined ==> height_sum(heights@.take(k as int)) == None::<int>,
        decreases heights.len() - k,
    {
        proof {
            lemma_height_sum_step(heights@, k as int);
        }
        match heights[k] {
            Sample::Finite(y) => {
                if defined {
                    sum = sum + y as i128;
                }
            },
            Sample::Undefined => {
                defined = false;
            },
        }
        k = k + 1;
    }
    assert(heights@.take(k as int) =~= heights@);
    let area = if defined {
        assert(-0x7fff_ffff_ffff_ffff_ffff_ffff_ffff_ffff <= width * sum
            <= 0x7fff_ffff_ffff_ffff_ffff_ffff_ffff_ffff) by (nonlinear_arith)
            requires
                -0xffff_ffff <= width <= 0xffff_ffff,
                -(0xffff_ffff * 0x8000_0000_0000_0000) <= sum <= 0xffff_ffff * 0x8000_0000_0000_0000,
        ;
        Area::Finite(Fraction { num: width * sum, den: count as i128 * 1_000_000 })
    } else {
        Area::Undefined
    };
    RectangleSet { rectangles, area }
}

/// With no rectangles the total area is exactly zero, whatever the heights.
pub proof fn lemma_no_rectangles_zero_area(d: Domain, h: Seq<Sample>)
    ensures
        total_area(d, 0, h) == Some((0int, 1int)),
{
}

/// A coefficient of 0 samples each rectangle at its left edge (a left sum), and a
/// coefficient of 1000 at its right edge (a right sum): the sample position
/// `sample_num / (1000 * count)` equals the edge `left_edge_num / count`.
pub proof fn lemma_left_and_right_sums(d: Domain, s: RectangleSpec, i: int)
    requires
        0 <= i < s.count,
    ensures
        s.coefficient == 0 ==> sample_num(d, s, i) == 1000 * left_edge_num(d, s.count as int, i),
        s.coefficient == 1000 ==> sample_num(d, s, i) == 1000 * left_edge_num(
            d,
            s.count as int,
            i + 1,
        ),
{
    let m = d.min as int;
    let w = d.max - d.min;
    let c = s.count as int;
    assert(m * 1000 * c + w * (1000 * i) == 1000 * (m * c + w * i)) by (nonlinear_arith);
    assert(m * 1000 * c + w * (1000 * i + 1000) == 1000 * (m * c + w * (i + 1))) by (nonlinear_arith);
}

/// The area is a function of the inputs alone: two areas that both meet the
/// contract of `compute_rectangles` for the same domain, count and heights are equal.
pub proof fn lemma_area_deterministic(d: Domain, count: int, h: Seq<Sample>, a1: Area, a2: Area)
    requires
        area_matches(a1, total_area(d, count, h)),
        area_matches(a2, total_area(d, count, h)),
    ensures
        a1 == a2,
{
}

/// The sum of `n` equal heights `y` is `n * y`.
proof fn lemma_constant_height_sum(h: Seq<Sample>, y: int)
    requires
        forall|i: int| 0 <= i < h.len() ==> h[i] == Sample::Finite(y as i64),
        i64::MIN <= y <= i64::MAX,
    ensures
        height_sum(h) == Some(h.len() * y),
    decreases h.len(),
{
    if h.len() > 0 {
        lemma_constant_height_sum(h.drop_last(), y);
        assert(h.len() * y == (h.len() - 1) * y + y) by (nonlinear_arith);
    }
}

/// Rectangles of one constant height `y` have the exact area `(max - min) * y`
/// (in thousandths squared), for any count of at least one and any coefficient.
pub proof fn lemma_constant_height_area(d: Domain, count: int, h: Seq<Sample>, y: i64)
    requires
        count >= 1,
        h.len() == count,
        forall|i: int| 0 <= i < h.len() ==> h[i] == Sample::Finite(y),
    ensures
        total_area(d, count, h) == Some(((d.max - d.min) * (count * y), count * 1_000_000)),
        total_area(d, count, h).unwrap().0 * 1_000_000 == (d.max - d.min) * y * total_area(
            d,
            count,
            h,
        ).unwrap().1,
{
    lemma_constant_height_sum(h, y as int);
    let w = d.max - d.min;
    assert(w * (count * y) * 1_000_000 == w * y * (count * 1_000_000)) by (nonlinear_arith);
}

/// The constant 1 over `[0, 10]` has the exact area 10 for every count of at least
/// one: numerator and denominator stand in the ratio 10.
pub proof fn lemma_unit_height_over_ten(count: int, h: Seq<Sample>)
    requires
        count >= 1,
        h.len() == count,
        forall|i: int| 0 <= i < h.len() ==> h[i] == Sample::Finite(1000),
    ensures
        total_area(Domain { min: 0, max: 10_000 }, count, h).unwrap().0 == 10 * total_area(
            Domain { min: 0, max: 10_000 },
            count,
            h,
        ).unwrap().1,
{
    let d = Domain { min: 0, max: 10_000 };
    lemma_constant_height_area(d, count, h, 1000);
    assert(10_000 * (count * 1000) == 10 * (count * 1_000_000)) by (nonlinear_arith);
}

} // verus!
