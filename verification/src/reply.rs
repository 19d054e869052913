//! The text of a reply, and the entry point for a point that arrives as a
//! pair of integers.

use vstd::prelude::*;
use crate::coord::{deserialize_coord, is_coordinate};
use crate::decimal::decimal_text;
use crate::error::Error;
use crate::line::{lemma_line_of_pair, line_location};
use crate::location::{classify, point_location};
use crate::relation::Relation;

verus! {

/// The text that reports `result`: the lower-case name of a relation, or
/// `error: ` followed by what is wrong.
pub open spec fn result_text(result: Result<Relation, Error>) -> Seq<char> {
    match result {
        Ok(Relation::Outside) => "outside"@,
        Ok(Relation::Inside) => "inside"@,
        Ok(Relation::Border) => "border"@,
        Err(Error::BadFormat) => "error: bad format"@,
        Err(Error::EmptyString) => "error: empty string"@,
        Err(Error::OutOfRange) => "error: out of range"@,
        Err(Error::OneCoord) => "error: one coord"@,
        Err(Error::TooMuchCoords) => "error: too much coords"@,
    }
}

/// What a pair of integers asks for and gets: the relation of the point
/// `(x, y)` to the figure when both are coordinates, else `OutOfRange`.
pub open spec fn pair_location(x: int, y: int) -> Result<Relation, Error> {
    if is_coordinate(x) && is_coordinate(y) {
        Ok(classify(x, y))
    } else {
        Err(Error::OutOfRange)
    }
}

/// Renders the outcome of a request as the text of the reply.
pub fn format_result(result: Result<Relation, Error>) -> (text: &'static str)
    ensures
        text@ == result_text(result),
{
    match result {
        Ok(Relation::Outside) => "outside",
        Ok(Relation::Inside) => "inside",
        Ok(Relation::Border) => "border",
        Err(Error::BadFormat) => "error: bad format",
        Err(Error::EmptyString) => "error: empty string",
        Err(Error::OutOfRange) => "error: out of range",
        Err(Error::OneCoord) => "error: one coord",
        Err(Error::TooMuchCoords) => "error: too much coords",
    }
}

/// Answers a request for the point `(x, y)`: validates both integers as
/// coordinates, classifies the point, and renders the outcome.
pub fn figure(x: i32, y: i32) -> (body: &'static str)
    ensures
        body@ == result_text(pair_location(x as int, y as int)),
{
    let located = match deserialize_coord(x) {
        Err(e) => Err(e),
        Ok(x) => match deserialize_coord(y) {
            Err(e) => Err(e),
            Ok(y) => Ok(point_location(x, y)),
        },
    };
    format_result(located)
}

/// A pair of coordinates never fails: it yields the relation of the point
/// to the figure.
pub proof fn lemma_coordinates_never_fail(x: int, y: int)
    requires
        is_coordinate(x),
        is_coordinate(y),
    ensures
        pair_location(x, y) == Ok::<Relation, Error>(classify(x, y)),
{
}

/// The two entry points agree: a pair of integers gets what the line gets
/// that holds their plain notations with a space between them.
pub proof fn lemma_pair_agrees_with_line(x: i32, y: i32)
    ensures
        pair_location(x as int, y as int) == line_location(
            decimal_text(x as int).push(' ') + decimal_text(y as int),
        ),
{
    lemma_line_of_pair(x, y);
}

/// A reply tells failure from success: the text of an error is the text of
/// no relation.
pub proof fn lemma_error_text_is_no_relation_text(error: Error, relation: Relation)
    ensures
        result_text(Err(error)) != result_text(Ok(relation)),
{
    reveal_strlit("outside");
    reveal_strlit("inside");
    reveal_strlit("border");
    reveal_strlit("error: bad format");
    reveal_strlit("error: empty string");
    reveal_strlit("error: out of range");
    reveal_strlit("error: one coord");
    reveal_strlit("error: too much coords");
    assert(result_text(Ok(relation))[0] != 'e');
}

} // verus!
