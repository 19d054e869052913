//! The three-way relation of a point to a boundary, and the comparison that
//! produces it.

use vstd::prelude::*;

verus! {

/// Where a point lies with respect to a boundary or to the whole figure.
#[derive(Clone, Copy, Debug, PartialEq, Eq, Structural)]
pub enum Relation {
    /// Strictly closer to the origin than the boundary.
    Inside,
    /// Exactly on the boundary.
    Border,
    /// Strictly farther from the origin than the boundary.
    Outside,
}

/// The relation of a distance to a threshold measured on the same scale:
/// `Inside` below it, `Border` exactly on it, `Outside` above it.
pub open spec fn relation_of(distance: int, threshold: int) -> Relation {
    if distance < threshold {
        Relation::Inside
    } else if distance == threshold {
        Relation::Border
    } else {
        Relation::Outside
    }
}

/// Compares a distance with a threshold. Both are exact integers, so the
/// border is hit on equality alone.
///
/// The operands are wide enough to hold the squared length of any vector
/// with `i32` components.
pub fn distance_relation(distance: i128, border: i128) -> (r: Relation)
    ensures
        r == relation_of(distance as int, border as int),
{
    if distance < border {
        Relation::Inside
    } else if distance == border {
        Relation::Border
    } else {
        Relation::Outside
    }
}

/// The three relations exclude one another: each is characterised by one
/// outcome of comparing the distance with the threshold.
pub proof fn lemma_relation_of_trichotomy(distance: int, threshold: int)
    ensures
        relation_of(distance, threshold) == Relation::Inside <==> distance < threshold,
        relation_of(distance, threshold) == Relation::Border <==> distance == threshold,
        relation_of(distance, threshold) == Relation::Outside <==> distance > threshold,
{
}

} // verus!
