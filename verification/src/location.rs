//! The figure itself: a ring between an inner boundary at radius 10 and an
//! outer boundary at radius 20, each drawn with the metric that the point's
//! quadrant assigns to it.

use vstd::prelude::*;
use crate::metric::{box_distance, radial_distance, Metric};
use crate::quadrant::Quadrant;
use crate::relation::Relation;

verus! {

/// The radius of the inner boundary. What lies strictly within it is a hole
/// in the figure.
pub const INNER_RADIUS: i32 = 10;

/// The radius of the outer boundary.
pub const OUTER_RADIUS: i32 = 20;

/// The relation of `(x, y)` to the ring whose inner boundary is drawn with
/// `inner` and whose outer boundary is drawn with `outer`.
///
/// A point strictly within the inner boundary lies in the hole, hence
/// outside the figure. A point on the inner boundary is on the border.
/// Any other point relates to the figure as it relates to the outer
/// boundary.
pub open spec fn ring_relation(inner: Metric, outer: Metric, x: int, y: int) -> Relation {
    match inner.relation(x, y, INNER_RADIUS as int) {
        Relation::Inside => Relation::Outside,
        Relation::Border => Relation::Border,
        Relation::Outside => outer.relation(x, y, OUTER_RADIUS as int),
    }
}

/// The relation of the point `(x, y)` to the figure.
pub open spec fn classify(x: int, y: int) -> Relation {
    let quadrant = Quadrant::containing(x, y);
    ring_relation(quadrant.inner(), quadrant.outer(), x, y)
}

/// The distance of `(x, y)` from the origin by the inner metric of its
/// quadrant.
pub open spec fn inner_distance(x: int, y: int) -> int {
    Quadrant::containing(x, y).inner().distance(x, y)
}

/// The inner radius on the scale of `inner_distance(x, y)`.
pub open spec fn inner_threshold(x: int, y: int) -> int {
    Quadrant::containing(x, y).inner().threshold(INNER_RADIUS as int)
}

/// The distance of `(x, y)` from the origin by the outer metric of its
/// quadrant.
pub open spec fn outer_distance(x: int, y: int) -> int {
    Quadrant::containing(x, y).outer().distance(x, y)
}

/// The outer radius on the scale of `outer_distance(x, y)`.
pub open spec fn outer_threshold(x: int, y: int) -> int {
    Quadrant::containing(x, y).outer().threshold(OUTER_RADIUS as int)
}

/// Relates `(x, y)` to the ring bounded by `lo` at the inner radius and by
/// `h1` at the outer radius. The outer metric is consulted only for points
/// strictly beyond the inner boundary.
pub fn partition(lo: Metric, h1: Metric, x: i32, y: i32) -> (r: Relation)
    ensures
        r == ring_relation(lo, h1, x as int, y as int),
{
    match lo.evaluate(x, y, INNER_RADIUS) {
        Relation::Border => Relation::Border,
        Relation::Inside => Relation::Outside,
        Relation::Outside => h1.evaluate(x, y, OUTER_RADIUS),
    }
}

/// Classifies the point `(x, y)` against the figure. Defined for every pair
/// of `i32` coordinates; the result depends on nothing but the pair.
pub fn point_location(x: i32, y: i32) -> (r: Relation)
    ensures
        r == classify(x as int, y as int),
{
    let (inner, outer) = Quadrant::of(x, y).metrics();
    partition(inner, outer, x, y)
}

/// The sign table of the figure: the strict signs of the coordinates choose
/// the pair of metrics, and a zero coordinate sides with the negative ones.
pub proof fn lemma_classify_by_signs(x: int, y: int)
    ensures
        x > 0 && y > 0 ==> classify(x, y) == ring_relation(
            Metric::Chebyshev,
            Metric::Euclidean,
            x,
            y,
        ),
        x > 0 && y <= 0 ==> classify(x, y) == ring_relation(
            Metric::Euclidean,
            Metric::Euclidean,
            x,
            y,
        ),
        x <= 0 && y > 0 ==> classify(x, y) == ring_relation(
            Metric::Euclidean,
            Metric::Chebyshev,
            x,
            y,
        ),
        x <= 0 && y <= 0 ==> classify(x, y) == ring_relation(
            Metric::Chebyshev,
            Metric::Chebyshev,
            x,
            y,
        ),
{
}

/// The two distances that decide the relation of a point, written out for
/// each combination of signs.
pub proof fn lemma_distances_by_signs(x: int, y: int)
    ensures
        x > 0 && y > 0 ==> {
            &&& inner_distance(x, y) == box_distance(x, y)
            &&& inner_threshold(x, y) == 10
            &&& outer_distance(x, y) == radial_distance(x, y)
            &&& outer_threshold(x, y) == 400
        },
        x > 0 && y <= 0 ==> {
            &&& inner_distance(x, y) == radial_distance(x, y)
            &&& inner_threshold(x, y) == 100
            &&& outer_distance(x, y) == radial_distance(x, y)
            &&& outer_threshold(x, y) == 400
        },
        x <= 0 && y > 0 ==> {
            &&& inner_distance(x, y) == radial_distance(x, y)
            &&& inner_threshold(x, y) == 100
            &&& outer_distance(x, y) == box_distance(x, y)
            &&& outer_threshold(x, y) == 20
        },
        x <= 0 && y <= 0 ==> {
            &&& inner_distance(x, y) == box_distance(x, y)
            &&& inner_threshold(x, y) == 10
            &&& outer_distance(x, y) == box_distance(x, y)
            &&& outer_threshold(x, y) == 20
        },
{
}

/// Each relation to the figure, stated by the two distances alone. The
/// three conditions exclude one another and leave no point out, so every
/// point has exactly one relation.
pub proof fn lemma_classify_cases(x: int, y: int)
    ensures
        classify(x, y) == Relation::Inside <==> {
            &&& inner_distance(x, y) > inner_threshold(x, y)
            &&& outer_distance(x, y) < outer_threshold(x, y)
        },
        classify(x, y) == Relation::Border <==> {
            ||| inner_distance(x, y) == inner_threshold(x, y)
            ||| {
                &&& inner_distance(x, y) > inner_threshold(x, y)
                &&& outer_distance(x, y) == outer_threshold(x, y)
            }
        },
        classify(x, y) == Relation::Outside <==> {
            ||| inner_distance(x, y) < inner_threshold(x, y)
            ||| {
                &&& inner_distance(x, y) > inner_threshold(x, y)
                &&& outer_distance(x, y) > outer_threshold(x, y)
            }
        },
{
}

/// The hole: a point strictly closer to the origin than the inner boundary,
/// by the inner metric of its quadrant, is outside the figure, not inside.
pub proof fn lemma_hole_is_outside(x: int, y: int)
    requires
        inner_distance(x, y) < inner_threshold(x, y),
    ensures
        classify(x, y) == Relation::Outside,
{
}

/// A point exactly on the inner boundary of its quadrant is on the border
/// of the figure.
pub proof fn lemma_inner_boundary_is_border(x: int, y: int)
    requires
        inner_distance(x, y) == inner_threshold(x, y),
    ensures
        classify(x, y) == Relation::Border,
{
}

/// A point strictly beyond the inner boundary of its quadrant and exactly
/// on the outer one is on the border of the figure.
pub proof fn lemma_outer_boundary_is_border(x: int, y: int)
    requires
        inner_distance(x, y) > inner_threshold(x, y),
        outer_distance(x, y) == outer_threshold(x, y),
    ensures
        classify(x, y) == Relation::Border,
{
}

/// A point strictly beyond the inner boundary of its quadrant relates to
/// the figure exactly as it relates to the outer boundary.
pub proof fn lemma_beyond_inner_boundary(x: int, y: int)
    requires
        inner_distance(x, y) > inner_threshold(x, y),
    ensures
        classify(x, y) == Quadrant::containing(x, y).outer().relation(x, y, OUTER_RADIUS as int),
{
}

/// Classification is a function of the point: the relations that any two
/// calls of `point_location` return for the same coordinates are equal.
pub proof fn lemma_point_location_repeatable(x: i32, y: i32, first: Relation, second: Relation)
    requires
        first == classify(x as int, y as int),
        second == classify(x as int, y as int),
    ensures
        first == second,
{
}

} // verus!
