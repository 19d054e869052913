//! The two distance metrics of the figure, both measured from the origin in
//! exact integer arithmetic.

use vstd::prelude::*;
use crate::relation::{distance_relation, relation_of, Relation};

verus! {

/// A way of measuring how far a point lies from the origin.
#[derive(Clone, Copy, Debug, PartialEq, Eq, Structural)]
pub enum Metric {
    /// The box metric: the Chebyshev norm, whose circles are axis-parallel
    /// squares.
    Chebyshev,
    /// The radial metric: the squared Euclidean norm, which keeps circles
    /// exact without leaving the integers.
    Euclidean,
}

/// The absolute value of an integer.
pub open spec fn magnitude(v: int) -> int {
    if v < 0 {
        -v
    } else {
        v
    }
}

/// The box distance of `(x, y)` from the origin: the larger of `|x|` and `|y|`.
pub open spec fn box_distance(x: int, y: int) -> int {
    if magnitude(y) > magnitude(x) {
        magnitude(y)
    } else {
        magnitude(x)
    }
}

/// The radial distance of `(x, y)` from the origin, as its square `x² + y²`.
pub open spec fn radial_distance(x: int, y: int) -> int {
    x * x + y * y
}

impl Metric {
    /// The distance of `(x, y)` from the origin on this metric's own scale.
    pub open spec fn distance(self, x: int, y: int) -> int {
        match self {
            Metric::Chebyshev => box_distance(x, y),
            Metric::Euclidean => radial_distance(x, y),
        }
    }

    /// A radius brought to the scale of `distance`: unchanged for the box
    /// metric, squared for the radial one.
    pub open spec fn threshold(self, radius: int) -> int {
        match self {
            Metric::Chebyshev => radius,
            Metric::Euclidean => radius * radius,
        }
    }

    /// The relation of `(x, y)` to the boundary that this metric draws at
    /// `radius`.
    pub open spec fn relation(self, x: int, y: int, radius: int) -> Relation {
        relation_of(self.distance(x, y), self.threshold(radius))
    }

    /// Evaluates this metric at `(x, y)` against the boundary at `border`.
    pub fn evaluate(self, x: i32, y: i32, border: i32) -> (r: Relation)
        ensures
            r == self.relation(x as int, y as int, border as int),
    {
        match self {
            Metric::Chebyshev => box_calc(x, y, border),
            Metric::Euclidean => radii_calc(x, y, border),
        }
    }
}

/// The square of an `i32` fits in 63 bits.
proof fn lemma_square_bound(v: int)
    by (nonlinear_arith)
    requires
        -0x8000_0000 <= v <= 0x7fff_ffff,
    ensures
        0 <= v * v <= 0x4000_0000_0000_0000,
{
}

/// Relates `(x, y)` to the square of half-width `border` centred at the
/// origin, by the box distance `max(|x|, |y|)`.
pub fn box_calc(x: i32, y: i32, border: i32) -> (r: Relation)
    ensures
        r == relation_of(box_distance(x as int, y as int), border as int),
{
    let x_wide: i128 = x as i128;
    let y_wide: i128 = y as i128;
    let x_abs: i128 = if x_wide < 0 { -x_wide } else { x_wide };
    let y_abs: i128 = if y_wide < 0 { -y_wide } else { y_wide };
    let dist: i128 = if y_abs > x_abs { y_abs } else { x_abs };

    distance_relation(dist, border as i128)
}

/// Relates `(x, y)` to the circle of radius `border` centred at the origin,
/// by comparing `x² + y²` with `border²`.
pub fn radii_calc(x: i32, y: i32, border: i32) -> (r: Relation)
    ensures
        r == relation_of(radial_distance(x as int, y as int), border * border),
{
    let x_wide: i128 = x as i128;
    let y_wide: i128 = y as i128;
    let border_wide: i128 = border as i128;
    proof {
        lemma_square_bound(x as int);
        lemma_square_bound(y as int);
        lemma_square_bound(border as int);
    }

    distance_relation(x_wide * x_wide + y_wide * y_wide, border_wide * border_wide)
}

/// Both metrics are symmetric under a sign flip of either coordinate, and
/// hence of both.
pub proof fn lemma_distance_sign_symmetric(metric: Metric, x: int, y: int)
    ensures
        metric.distance(-x, y) == metric.distance(x, y),
        metric.distance(x, -y) == metric.distance(x, y),
        metric.distance(-x, -y) == metric.distance(x, y),
{
    assert((-x) * (-x) == x * x && (-y) * (-y) == y * y) by (nonlinear_arith);
}

} // verus!
