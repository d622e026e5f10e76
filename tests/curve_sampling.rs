use riemann_visualizer::curve::{grid_positions, visible_points, Point, ViewRange};
use riemann_visualizer::riemann::{Domain, Sample};

#[test]
fn grid_covers_domain_in_thousandths() {
    let g = grid_positions(Domain { min: -2, max: 3 });
    assert_eq!(g, vec![-2, -1, 0, 1, 2]);
}

#[test]
fn empty_or_inverted_domain_has_no_positions() {
    assert!(grid_positions(Domain { min: 5, max: 5 }).is_empty());
    assert!(grid_positions(Domain { min: 5, max: -5 }).is_empty());
    let d = Domain { min: 5, max: -5 };
    assert!(visible_points(d, &Vec::new(), ViewRange { min: 0, max: 10 }).is_empty());
}

#[test]
fn points_outside_range_or_undefined_are_dropped() {
    let d = Domain { min: 10, max: 16 };
    let ys = vec![
        Sample::Finite(0),
        Sample::Finite(1),
        Sample::Undefined,
        Sample::Finite(9),
        Sample::Finite(10),
        Sample::Finite(5),
    ];
    let pts = visible_points(d, &ys, ViewRange { min: 0, max: 10 });
    assert_eq!(
        pts,
        vec![Point { x: 11, y: 1 }, Point { x: 13, y: 9 }, Point { x: 15, y: 5 }]
    );
}

#[test]
fn visible_points_are_increasing_and_inside() {
    let d = Domain { min: 0, max: 10_000 };
    let range = ViewRange { min: 0, max: 10_000 };
    let ys: Vec<Sample> = grid_positions(d)
        .iter()
        .map(|&x| Sample::Finite((x as i64 * x as i64) / 1000 - 2000))
        .collect();
    let pts = visible_points(d, &ys, range);
    assert!(!pts.is_empty());
    for w in pts.windows(2) {
        assert!(w[0].x < w[1].x);
    }
    for p in &pts {
        assert!(d.min <= p.x && p.x <= d.max);
        assert!(range.min < p.y && p.y < range.max);
    }
}
