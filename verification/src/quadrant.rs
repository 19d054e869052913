//! The four sign regions of the plane and the pair of metrics that each one
//! assigns to the figure's two boundaries.

use vstd::prelude::*;
use crate::metric::Metric;

verus! {

/// A sign region of the plane. A coordinate equal to zero counts as
/// non-positive, so both axes belong to the regions on their lower or left
/// side.
#[derive(Clone, Copy, Debug, PartialEq, Eq, Structural)]
pub enum Quadrant {
    /// `x > 0` and `y > 0`.
    UpperRight,
    /// `x > 0` and `y <= 0`.
    LowerRight,
    /// `x <= 0` and `y > 0`.
    UpperLeft,
    /// `x <= 0` and `y <= 0`.
    LowerLeft,
}

impl Quadrant {
    /// The quadrant that holds the point `(x, y)`.
    pub open spec fn containing(x: int, y: int) -> Quadrant {
        if x > 0 {
            if y > 0 {
                Quadrant::UpperRight
            } else {
                Quadrant::LowerRight
            }
        } else {
            if y > 0 {
                Quadrant::UpperLeft
            } else {
                Quadrant::LowerLeft
            }
        }
    }

    /// The metric that draws the inner boundary in this quadrant.
    pub open spec fn inner(self) -> Metric {
        match self {
            Quadrant::UpperRight => Metric::Chebyshev,
            Quadrant::LowerRight => Metric::Euclidean,
            Quadrant::UpperLeft => Metric::Euclidean,
            Quadrant::LowerLeft => Metric::Chebyshev,
        }
    }

    /// The metric that draws the outer boundary in this quadrant.
    pub open spec fn outer(self) -> Metric {
        match self {
            Quadrant::UpperRight => Metric::Euclidean,
            Quadrant::LowerRight => Metric::Euclidean,
            Quadrant::UpperLeft => Metric::Chebyshev,
            Quadrant::LowerLeft => Metric::Chebyshev,
        }
    }

    /// Finds the quadrant of `(x, y)` from the strict signs of its
    /// coordinates.
    pub fn of(x: i32, y: i32) -> (q: Quadrant)
        ensures
            q == Quadrant::containing(x as int, y as int),
    {
        if x > 0 {
            if y > 0 {
                Quadrant::UpperRight
            } else {
                Quadrant::LowerRight
            }
        } else {
            if y > 0 {
                Quadrant::UpperLeft
            } else {
                Quadrant::LowerLeft
            }
        }
    }

    /// Looks up this quadrant's metrics: the inner one first, then the
    /// outer one.
    pub fn metrics(self) -> (pair: (Metric, Metric))
        ensures
            pair.0 == self.inner(),
            pair.1 == self.outer(),
    {
        match self {
            Quadrant::UpperRight => (Metric::Chebyshev, Metric::Euclidean),
            Quadrant::LowerRight => (Metric::Euclidean, Metric::Euclidean),
            Quadrant::UpperLeft => (Metric::Euclidean, Metric::Chebyshev),
            Quadrant::LowerLeft => (Metric::Chebyshev, Metric::Chebyshev),
        }
    }
}

/// The quadrant of a point is decided by the strict signs of its
/// coordinates, each quadrant by exactly one combination of them.
pub proof fn lemma_quadrant_by_signs(x: int, y: int)
    ensures
        Quadrant::containing(x, y) == Quadrant::UpperRight <==> x > 0 && y > 0,
        Quadrant::containing(x, y) == Quadrant::LowerRight <==> x > 0 && y <= 0,
        Quadrant::containing(x, y) == Quadrant::UpperLeft <==> x <= 0 && y > 0,
        Quadrant::containing(x, y) == Quadrant::LowerLeft <==> x <= 0 && y <= 0,
{
}

} // verus!
