use riemann_visualizer::riemann::{
    compute_rectangles, sample_positions, Area, Domain, Fraction, RectangleSpec, Sample,
};

fn ten_units() -> Domain {
    Domain { min: 0, max: 10_000 }
}

/// Heights of f(x) = x at the given positions, in thousandths (exact here).
fn identity_heights(positions: &[Fraction]) -> Vec<Sample> {
    positions
        .iter()
        .map(|p| {
            assert_eq!(p.num % p.den, 0);
            Sample::Finite((p.num / p.den) as i64)
        })
        .collect()
}

fn area_of(area: Area) -> Fraction {
    match area {
        Area::Finite(f) => f,
        Area::Undefined => panic!("area is undefined"),
    }
}

#[test]
fn left_sum_of_identity_is_forty() {
    let spec = RectangleSpec { count: 5, coefficient: 0 };
    let positions = sample_positions(ten_units(), spec);
    let heights = identity_heights(&positions);
    let expected: Vec<i64> = vec![0, 2000, 4000, 6000, 8000];
    assert_eq!(heights, expected.into_iter().map(Sample::Finite).collect::<Vec<_>>());
    let set = compute_rectangles(ten_units(), spec, &heights);
    let a = area_of(set.area);
    assert_eq!(a.num, 40 * a.den);
}

#[test]
fn right_sum_of_identity_is_sixty() {
    let spec = RectangleSpec { count: 5, coefficient: 1000 };
    let positions = sample_positions(ten_units(), spec);
    let heights = identity_heights(&positions);
    let set = compute_rectangles(ten_units(), spec, &heights);
    let a = area_of(set.area);
    assert_eq!(a.num, 60 * a.den);
}

#[test]
fn midpoint_sum_of_identity_is_exact() {
    let spec = RectangleSpec { count: 5, coefficient: 500 };
    let positions = sample_positions(ten_units(), spec);
    let heights = identity_heights(&positions);
    let set = compute_rectangles(ten_units(), spec, &heights);
    let a = area_of(set.area);
    assert_eq!(a.num, 50 * a.den);
}

#[test]
fn constant_one_has_area_ten_for_every_count() {
    for count in 1..=30u32 {
        for coefficient in [0, 250, 500, 1000, -300, 1700] {
            let spec = RectangleSpec { count, coefficient };
            let heights = vec![Sample::Finite(1000); count as usize];
            let set = compute_rectangles(ten_units(), spec, &heights);
            let a = area_of(set.area);
            assert_eq!(a.num, 10 * a.den, "count {count}, coefficient {coefficient}");
        }
    }
}

#[test]
fn no_rectangles_give_empty_set_and_zero_area() {
    let spec = RectangleSpec { count: 0, coefficient: 500 };
    assert!(sample_positions(ten_units(), spec).is_empty());
    let set = compute_rectangles(ten_units(), spec, &Vec::new());
    assert!(set.rectangles.is_empty());
    assert_eq!(area_of(set.area).num, 0);
}

#[test]
fn zero_coefficient_samples_left_edges_and_one_right_edges() {
    let d = Domain { min: -3000, max: 4000 };
    let count = 7u32;
    let left = sample_positions(d, RectangleSpec { count, coefficient: 0 });
    let right = sample_positions(d, RectangleSpec { count, coefficient: 1000 });
    let heights = vec![Sample::Finite(1); count as usize];
    let set = compute_rectangles(d, RectangleSpec { count, coefficient: 0 }, &heights);
    for i in 0..count as usize {
        let r = &set.rectangles[i];
        // left[i] == r.left and right[i] == r.right as rationals
        assert_eq!(left[i].num * r.left.den, r.left.num * left[i].den);
        assert_eq!(right[i].num * r.right.den, r.right.num * right[i].den);
    }
    assert_eq!(set.rectangles[0].left, Fraction { num: -3000 * 7, den: 7 });
    assert_eq!(set.rectangles[6].right, Fraction { num: 4000 * 7, den: 7 });
}

#[test]
fn rectangles_tile_the_domain() {
    let d = Domain { min: 0, max: 10_000 };
    let spec = RectangleSpec { count: 3, coefficient: 0 };
    let heights = vec![Sample::Finite(5), Sample::Finite(-7), Sample::Finite(9)];
    let set = compute_rectangles(d, spec, &heights);
    assert_eq!(set.rectangles.len(), 3);
    for i in 0..2 {
        assert_eq!(set.rectangles[i].right, set.rectangles[i + 1].left);
    }
    assert_eq!(set.rectangles[1].left, Fraction { num: 10_000, den: 3 });
    assert_eq!(set.rectangles[1].height, Sample::Finite(-7));
}

#[test]
fn negative_heights_give_negative_area() {
    let spec = RectangleSpec { count: 2, coefficient: 0 };
    let heights = vec![Sample::Finite(-1000), Sample::Finite(-3000)];
    let set = compute_rectangles(ten_units(), spec, &heights);
    let a = area_of(set.area);
    // 5 * (-1) + 5 * (-3) = -20
    assert_eq!(a.num, -20 * a.den);
}

#[test]
fn one_undefined_height_makes_area_undefined() {
    let spec = RectangleSpec { count: 3, coefficient: 0 };
    let heights = vec![Sample::Finite(1000), Sample::Undefined, Sample::Finite(1000)];
    let set = compute_rectangles(ten_units(), spec, &heights);
    assert_eq!(set.area, Area::Undefined);
    assert_eq!(set.rectangles.len(), 3);
}

#[test]
fn same_inputs_give_identical_area() {
    let spec = RectangleSpec { count: 13, coefficient: 333 };
    let heights: Vec<Sample> = (0..13).map(|i| Sample::Finite(i * i - 40)).collect();
    let a = compute_rectangles(ten_units(), spec, &heights).area;
    let b = compute_rectangles(ten_units(), spec, &heights).area;
    assert_eq!(a, b);
}

#[test]
fn sample_positions_exact_values() {
    let spec = RectangleSpec { count: 4, coefficient: 250 };
    let p = sample_positions(Domain { min: 1000, max: 3000 }, spec);
    // width 500, sample at left + 125
    let expect = [1125, 1625, 2125, 2625];
    for (f, e) in p.iter().zip(expect) {
        assert_eq!(f.den, 4000);
        assert_eq!(f.num, e * 4000);
    }
}

#[test]
fn largest_heights_do_not_overflow() {
    let d = Domain { min: i32::MIN, max: i32::MAX };
    let spec = RectangleSpec { count: 2, coefficient: 0 };
    let heights = vec![Sample::Finite(i64::MAX), Sample::Finite(i64::MAX)];
    let a = area_of(compute_rectangles(d, spec, &heights).area);
    assert_eq!(a.num, (u32::MAX as i128) * 2 * (i64::MAX as i128));
    assert_eq!(a.den, 2_000_000);
}
