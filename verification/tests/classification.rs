use plane_figure::{
    box_calc, distance_relation, partition, point_location, radii_calc, Metric, Quadrant, Relation,
    INNER_RADIUS, OUTER_RADIUS,
};

/// The figure written out once more, region by region, in plain arithmetic.
fn expected(x: i32, y: i32) -> Relation {
    let square = |r: i32| {
        let d = x.abs().max(y.abs());
        if d < r {
            Relation::Inside
        } else if d == r {
            Relation::Border
        } else {
            Relation::Outside
        }
    };
    let circle = |r: i32| {
        let d = x * x + y * y;
        if d < r * r {
            Relation::Inside
        } else if d == r * r {
            Relation::Border
        } else {
            Relation::Outside
        }
    };
    let (inner, outer) = match (x > 0, y > 0) {
        (true, true) => (square(10), circle(20)),
        (true, false) => (circle(10), circle(20)),
        (false, true) => (circle(10), square(20)),
        (false, false) => (square(10), square(20)),
    };
    match inner {
        Relation::Border => Relation::Border,
        Relation::Inside => Relation::Outside,
        Relation::Outside => outer,
    }
}

#[test]
fn radii_are_ten_and_twenty() {
    assert_eq!(INNER_RADIUS, 10);
    assert_eq!(OUTER_RADIUS, 20);
}

#[test]
fn distance_relation_compares_exactly() {
    assert_eq!(distance_relation(9, 10), Relation::Inside);
    assert_eq!(distance_relation(10, 10), Relation::Border);
    assert_eq!(distance_relation(11, 10), Relation::Outside);
    assert_eq!(distance_relation(-1, 0), Relation::Inside);
    assert_eq!(distance_relation(0, -1), Relation::Outside);
    assert_eq!(distance_relation(0, 0), Relation::Border);
}

#[test]
fn distance_relation_holds_wide_values() {
    let big: i128 = 1 << 63;
    assert_eq!(distance_relation(big, big), Relation::Border);
    assert_eq!(distance_relation(big - 1, big), Relation::Inside);
    assert_eq!(distance_relation(big + 1, big), Relation::Outside);
}

#[test]
fn box_calc_takes_the_larger_magnitude() {
    assert_eq!(box_calc(3, -7, 7), Relation::Border);
    assert_eq!(box_calc(-7, 3, 7), Relation::Border);
    assert_eq!(box_calc(7, 7, 7), Relation::Border);
    assert_eq!(box_calc(3, -7, 8), Relation::Inside);
    assert_eq!(box_calc(3, -7, 6), Relation::Outside);
    assert_eq!(box_calc(0, 0, 0), Relation::Border);
    assert_eq!(box_calc(0, 0, 1), Relation::Inside);
}

#[test]
fn box_calc_is_symmetric_under_sign_flips() {
    for (x, y) in [(3, 7), (10, 2), (0, 5), (20, 20), (1, 0)] {
        for border in [0, 5, 7, 10, 20] {
            let r = box_calc(x, y, border);
            assert_eq!(box_calc(-x, y, border), r);
            assert_eq!(box_calc(x, -y, border), r);
            assert_eq!(box_calc(-x, -y, border), r);
        }
    }
}

#[test]
fn box_calc_at_the_ends_of_i32() {
    assert_eq!(box_calc(i32::MIN, 0, i32::MAX), Relation::Outside);
    assert_eq!(box_calc(i32::MAX, i32::MIN, i32::MAX), Relation::Outside);
    assert_eq!(box_calc(i32::MAX, -i32::MAX, i32::MAX), Relation::Border);
    assert_eq!(box_calc(0, 0, i32::MIN), Relation::Outside);
    assert_eq!(box_calc(5, 5, -5), Relation::Outside);
}

#[test]
fn radii_calc_compares_squares() {
    assert_eq!(radii_calc(3, 4, 5), Relation::Border);
    assert_eq!(radii_calc(-3, 4, 5), Relation::Border);
    assert_eq!(radii_calc(3, -4, 5), Relation::Border);
    assert_eq!(radii_calc(3, 4, 6), Relation::Inside);
    assert_eq!(radii_calc(3, 4, 4), Relation::Outside);
    assert_eq!(radii_calc(0, 10, 10), Relation::Border);
    assert_eq!(radii_calc(7, 7, 10), Relation::Inside);
    assert_eq!(radii_calc(8, 8, 10), Relation::Outside);
    assert_eq!(radii_calc(0, 0, 0), Relation::Border);
}

#[test]
fn radii_calc_squares_the_border() {
    assert_eq!(radii_calc(3, 4, -5), Relation::Border);
    assert_eq!(radii_calc(0, 0, -1), Relation::Inside);
}

#[test]
fn radii_calc_is_symmetric_under_sign_flips() {
    for (x, y) in [(3, 4), (6, 8), (0, 10), (12, 16), (7, 7)] {
        for border in [5, 10, 20] {
            let r = radii_calc(x, y, border);
            assert_eq!(radii_calc(-x, y, border), r);
            assert_eq!(radii_calc(x, -y, border), r);
            assert_eq!(radii_calc(-x, -y, border), r);
        }
    }
}

#[test]
fn radii_calc_at_the_ends_of_i32() {
    assert_eq!(radii_calc(i32::MIN, i32::MIN, i32::MAX), Relation::Outside);
    assert_eq!(radii_calc(i32::MIN, 0, i32::MIN), Relation::Border);
    assert_eq!(radii_calc(i32::MAX, 0, i32::MIN), Relation::Inside);
    assert_eq!(radii_calc(46341, 0, 46341), Relation::Border);
    assert_eq!(radii_calc(46341, 1, 46341), Relation::Outside);
}

#[test]
fn metric_evaluate_dispatches() {
    assert_eq!(Metric::Chebyshev.evaluate(7, 7, 7), Relation::Border);
    assert_eq!(Metric::Euclidean.evaluate(7, 7, 7), Relation::Outside);
    assert_eq!(Metric::Chebyshev.evaluate(3, 4, 5), Relation::Inside);
    assert_eq!(Metric::Euclidean.evaluate(3, 4, 5), Relation::Border);
}

#[test]
fn quadrant_goes_by_strict_signs() {
    assert_eq!(Quadrant::of(1, 1), Quadrant::UpperRight);
    assert_eq!(Quadrant::of(1, 0), Quadrant::LowerRight);
    assert_eq!(Quadrant::of(1, -1), Quadrant::LowerRight);
    assert_eq!(Quadrant::of(0, 1), Quadrant::UpperLeft);
    assert_eq!(Quadrant::of(-1, 1), Quadrant::UpperLeft);
    assert_eq!(Quadrant::of(0, 0), Quadrant::LowerLeft);
    assert_eq!(Quadrant::of(-1, 0), Quadrant::LowerLeft);
    assert_eq!(Quadrant::of(0, -1), Quadrant::LowerLeft);
    assert_eq!(Quadrant::of(i32::MAX, i32::MIN), Quadrant::LowerRight);
}

#[test]
fn quadrant_metrics_follow_the_sign_table() {
    assert_eq!(Quadrant::UpperRight.metrics(), (Metric::Chebyshev, Metric::Euclidean));
    assert_eq!(Quadrant::LowerRight.metrics(), (Metric::Euclidean, Metric::Euclidean));
    assert_eq!(Quadrant::UpperLeft.metrics(), (Metric::Euclidean, Metric::Chebyshev));
    assert_eq!(Quadrant::LowerLeft.metrics(), (Metric::Chebyshev, Metric::Chebyshev));
}

#[test]
fn partition_turns_the_inside_of_the_inner_boundary_out() {
    assert_eq!(partition(Metric::Chebyshev, Metric::Chebyshev, 9, 9), Relation::Outside);
    assert_eq!(partition(Metric::Euclidean, Metric::Euclidean, 7, 7), Relation::Outside);
    assert_eq!(partition(Metric::Chebyshev, Metric::Euclidean, 0, 0), Relation::Outside);
}

#[test]
fn partition_reports_both_boundaries_as_border() {
    assert_eq!(partition(Metric::Chebyshev, Metric::Euclidean, 10, 3), Relation::Border);
    assert_eq!(partition(Metric::Euclidean, Metric::Chebyshev, 6, 8), Relation::Border);
    assert_eq!(partition(Metric::Chebyshev, Metric::Euclidean, 12, 16), Relation::Border);
    assert_eq!(partition(Metric::Euclidean, Metric::Chebyshev, 20, 5), Relation::Border);
}

#[test]
fn partition_passes_the_outer_relation_through() {
    assert_eq!(partition(Metric::Chebyshev, Metric::Euclidean, 11, 11), Relation::Inside);
    assert_eq!(partition(Metric::Chebyshev, Metric::Euclidean, 15, 15), Relation::Outside);
    assert_eq!(partition(Metric::Euclidean, Metric::Chebyshev, 15, 15), Relation::Inside);
    assert_eq!(partition(Metric::Euclidean, Metric::Chebyshev, 21, 0), Relation::Outside);
}

#[test]
fn classify_ten_ten_is_border() {
    assert_eq!(point_location(10, 10), Relation::Border);
}

#[test]
fn classify_five_five_is_in_the_hole() {
    assert_eq!(point_location(5, 5), Relation::Outside);
}

#[test]
fn classify_outer_box_boundary_in_upper_left() {
    assert_eq!(point_location(-20, 1), Relation::Border);
}

#[test]
fn classify_origin_is_in_the_hole() {
    assert_eq!(point_location(0, 0), Relation::Outside);
}

#[test]
fn upper_right_quadrant() {
    assert_eq!(point_location(9, 9), Relation::Outside);
    assert_eq!(point_location(10, 1), Relation::Border);
    assert_eq!(point_location(1, 10), Relation::Border);
    assert_eq!(point_location(11, 11), Relation::Inside);
    assert_eq!(point_location(12, 16), Relation::Border);
    assert_eq!(point_location(16, 12), Relation::Border);
    assert_eq!(point_location(14, 14), Relation::Inside);
    assert_eq!(point_location(15, 15), Relation::Outside);
    assert_eq!(point_location(20, 1), Relation::Outside);
    assert_eq!(point_location(100, 100), Relation::Outside);
}

#[test]
fn lower_right_quadrant() {
    assert_eq!(point_location(7, -7), Relation::Outside);
    assert_eq!(point_location(6, -8), Relation::Border);
    assert_eq!(point_location(10, 0), Relation::Border);
    assert_eq!(point_location(8, -8), Relation::Inside);
    assert_eq!(point_location(11, 0), Relation::Inside);
    assert_eq!(point_location(12, -16), Relation::Border);
    assert_eq!(point_location(20, 0), Relation::Border);
    assert_eq!(point_location(15, -15), Relation::Outside);
    assert_eq!(point_location(100, -100), Relation::Outside);
}

#[test]
fn upper_left_quadrant() {
    assert_eq!(point_location(-7, 7), Relation::Outside);
    assert_eq!(point_location(0, 9), Relation::Outside);
    assert_eq!(point_location(-6, 8), Relation::Border);
    assert_eq!(point_location(0, 10), Relation::Border);
    assert_eq!(point_location(-8, 8), Relation::Inside);
    assert_eq!(point_location(-19, 19), Relation::Inside);
    assert_eq!(point_location(-20, 20), Relation::Border);
    assert_eq!(point_location(0, 20), Relation::Border);
    assert_eq!(point_location(-5, 20), Relation::Border);
    assert_eq!(point_location(-21, 1), Relation::Outside);
    assert_eq!(point_location(-100, 100), Relation::Outside);
}

#[test]
fn lower_left_quadrant() {
    assert_eq!(point_location(-9, -9), Relation::Outside);
    assert_eq!(point_location(-10, -10), Relation::Border);
    assert_eq!(point_location(-10, 0), Relation::Border);
    assert_eq!(point_location(0, -10), Relation::Border);
    assert_eq!(point_location(-11, -3), Relation::Inside);
    assert_eq!(point_location(-19, -19), Relation::Inside);
    assert_eq!(point_location(-20, -20), Relation::Border);
    assert_eq!(point_location(0, -20), Relation::Border);
    assert_eq!(point_location(-21, 0), Relation::Outside);
    assert_eq!(point_location(-100, -100), Relation::Outside);
}

#[test]
fn axes_side_with_the_non_positive_quadrants() {
    // (x, 0) with x > 0 is measured radially; (0, y) with y > 0 radially
    // inside and by the box outside; the rest of the axes by the box.
    assert_eq!(point_location(10, 0), partition(Metric::Euclidean, Metric::Euclidean, 10, 0));
    assert_eq!(point_location(0, 15), partition(Metric::Euclidean, Metric::Chebyshev, 0, 15));
    assert_eq!(point_location(-15, 0), partition(Metric::Chebyshev, Metric::Chebyshev, -15, 0));
    assert_eq!(point_location(0, -15), partition(Metric::Chebyshev, Metric::Chebyshev, 0, -15));
    // Where the two metric pairs part: (8, 8) is in the hole of the box
    // but beyond the inner circle.
    assert_eq!(point_location(8, 8), Relation::Outside);
    assert_eq!(point_location(8, -8), Relation::Inside);
    assert_eq!(point_location(-8, 8), Relation::Inside);
    assert_eq!(point_location(-8, -8), Relation::Outside);
}

#[test]
fn every_coordinate_pair_is_classified_as_the_figure_says() {
    for x in -100..=100 {
        for y in -100..=100 {
            assert_eq!(point_location(x, y), expected(x, y), "at ({}, {})", x, y);
        }
    }
}

#[test]
fn every_coordinate_pair_follows_the_sign_table() {
    for x in -100..=100 {
        for y in -100..=100 {
            let (inner, outer) = Quadrant::of(x, y).metrics();
            assert_eq!(point_location(x, y), partition(inner, outer, x, y));
        }
    }
}

#[test]
fn the_hole_is_outside() {
    for x in -100..=100 {
        for y in -100..=100 {
            let (inner, _) = Quadrant::of(x, y).metrics();
            if inner.evaluate(x, y, INNER_RADIUS) == Relation::Inside {
                assert_eq!(point_location(x, y), Relation::Outside);
            }
        }
    }
}

#[test]
fn both_boundaries_are_border() {
    for x in -100..=100 {
        for y in -100..=100 {
            let (inner, outer) = Quadrant::of(x, y).metrics();
            let at_inner = inner.evaluate(x, y, INNER_RADIUS);
            if at_inner == Relation::Border {
                assert_eq!(point_location(x, y), Relation::Border);
            }
            if at_inner == Relation::Outside {
                assert_eq!(point_location(x, y), outer.evaluate(x, y, OUTER_RADIUS));
            }
        }
    }
}

#[test]
fn classification_is_repeatable() {
    for (x, y) in [(10, 10), (5, 5), (-20, 1), (0, 0), (13, -7), (-100, 100)] {
        let first = point_location(x, y);
        for _ in 0..5 {
            assert_eq!(point_location(x, y), first);
        }
    }
}

#[test]
fn classification_is_total_on_i32() {
    assert_eq!(point_location(i32::MIN, i32::MIN), Relation::Outside);
    assert_eq!(point_location(i32::MAX, i32::MAX), Relation::Outside);
    assert_eq!(point_location(i32::MIN, i32::MAX), Relation::Outside);
    assert_eq!(point_location(i32::MAX, i32::MIN), Relation::Outside);
    assert_eq!(point_location(-50000, -50000), Relation::Outside);
    assert_eq!(point_location(50000, 50000), Relation::Outside);
}
