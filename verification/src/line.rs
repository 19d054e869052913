//! The line-oriented entry point: one line of text that should hold
//! exactly two coordinates.

use vstd::prelude::*;
use vstd::slice::slice_subrange;
use crate::coord::{coord_from_chars, is_coordinate, token_coordinate};
use crate::decimal::{decimal_text, lemma_decimal_text_round_trip, lemma_digits_text_round_trip};
use crate::error::Error;
use crate::location::{classify, point_location};
use crate::relation::Relation;
use crate::text::chars_of;
use crate::token::{
    blank_free, lemma_tokens_across_blank, lemma_word_is_single_token, next_token, tokens,
};

verus! {

/// What a line of text asks for and gets.
///
/// The tokens are examined from left to right and the first fault found
/// decides: no token at all, a first token that is no coordinate, no second
/// token, a second token that is no coordinate, a third token. A line
/// without fault holds the two coordinates of a point, and yields the
/// relation of that point to the figure.
pub open spec fn line_location(line: Seq<char>) -> Result<Relation, Error> {
    let words = tokens(line);
    if words.len() == 0 {
        Err(Error::EmptyString)
    } else {
        match token_coordinate(words[0]) {
            Err(e) => Err(e),
            Ok(x) => if words.len() == 1 {
                Err(Error::OneCoord)
            } else {
                match token_coordinate(words[1]) {
                    Err(e) => Err(e),
                    Ok(y) => if words.len() > 2 {
                        Err(Error::TooMuchCoords)
                    } else {
                        Ok(classify(x as int, y as int))
                    },
                }
            },
        }
    }
}

/// Reads two coordinates from `line` and classifies the point they name.
/// No geometry is computed for a line with a fault.
pub fn set_point_location(line: String) -> (r: Result<Relation, Error>)
    ensures
        r == line_location(line@),
{
    let chars = chars_of(line.as_str());
    let text = chars.as_slice();
    assert(text@.skip(0) =~= line@);

    let (x_start, x_end): (usize, usize) = match next_token(text, 0) {
        None => {
            return Err(Error::EmptyString);
        },
        Some(range) => range,
    };
    let x: i32 = match coord_from_chars(slice_subrange(text, x_start, x_end)) {
        Err(e) => {
            return Err(e);
        },
        Ok(x) => x,
    };

    let (y_start, y_end): (usize, usize) = match next_token(text, x_end) {
        None => {
            return Err(Error::OneCoord);
        },
        Some(range) => range,
    };
    let y: i32 = match coord_from_chars(slice_subrange(text, y_start, y_end)) {
        Err(e) => {
            return Err(e);
        },
        Ok(y) => y,
    };

    match next_token(text, y_end) {
        Some(_) => Err(Error::TooMuchCoords),
        None => Ok(point_location(x, y)),
    }
}

/// Each outcome of a line, stated by its tokens. A line yields a relation
/// exactly when it holds two tokens that both denote coordinates; every
/// error has its own condition, and no two conditions hold together.
pub proof fn lemma_line_location_cases(line: Seq<char>)
    ensures
        line_location(line) == Err::<Relation, Error>(Error::EmptyString) <==> tokens(line).len()
            == 0,
        line_location(line) == Err::<Relation, Error>(Error::OneCoord) <==> {
            &&& tokens(line).len() == 1
            &&& token_coordinate(tokens(line)[0]) is Ok
        },
        line_location(line) == Err::<Relation, Error>(Error::TooMuchCoords) <==> {
            &&& tokens(line).len() > 2
            &&& token_coordinate(tokens(line)[0]) is Ok
            &&& token_coordinate(tokens(line)[1]) is Ok
        },
        line_location(line) == Err::<Relation, Error>(Error::BadFormat) <==> {
            ||| {
                &&& tokens(line).len() >= 1
                &&& token_coordinate(tokens(line)[0]) == Err::<i32, Error>(Error::BadFormat)
            }
            ||| {
                &&& tokens(line).len() >= 2
                &&& token_coordinate(tokens(line)[0]) is Ok
                &&& token_coordinate(tokens(line)[1]) == Err::<i32, Error>(Error::BadFormat)
            }
        },
        line_location(line) == Err::<Relation, Error>(Error::OutOfRange) <==> {
            ||| {
                &&& tokens(line).len() >= 1
                &&& token_coordinate(tokens(line)[0]) == Err::<i32, Error>(Error::OutOfRange)
            }
            ||| {
                &&& tokens(line).len() >= 2
                &&& token_coordinate(tokens(line)[0]) is Ok
                &&& token_coordinate(tokens(line)[1]) == Err::<i32, Error>(Error::OutOfRange)
            }
        },
        line_location(line) is Ok <==> {
            &&& tokens(line).len() == 2
            &&& token_coordinate(tokens(line)[0]) is Ok
            &&& token_coordinate(tokens(line)[1]) is Ok
        },
        line_location(line) is Ok ==> line_location(line) == Ok::<Relation, Error>(
            classify(
                token_coordinate(tokens(line)[0])->Ok_0 as int,
                token_coordinate(tokens(line)[1])->Ok_0 as int,
            ),
        ),
{
}

/// A line of two tokens that denote coordinates never fails: it yields the
/// relation of the point they name.
pub proof fn lemma_two_coordinates_never_fail(line: Seq<char>, x: i32, y: i32)
    requires
        tokens(line).len() == 2,
        token_coordinate(tokens(line)[0]) == Ok::<i32, Error>(x),
        token_coordinate(tokens(line)[1]) == Ok::<i32, Error>(y),
    ensures
        line_location(line) == Ok::<Relation, Error>(classify(x as int, y as int)),
{
}

/// The plain notation of an integer is a word: it is not empty and holds
/// no blank.
pub proof fn lemma_decimal_text_is_word(v: int)
    ensures
        decimal_text(v).len() > 0,
        blank_free(decimal_text(v)),
{
    if v < 0 {
        lemma_digits_text_round_trip((-v) as nat);
    } else {
        lemma_digits_text_round_trip(v as nat);
    }
}

/// Two integers written in plain notation with a space between them make a
/// line that asks for the point they name: the line yields its relation
/// when both are coordinates, and `OutOfRange` when one is not.
pub proof fn lemma_line_of_pair(x: i32, y: i32)
    ensures
        line_location(decimal_text(x as int).push(' ') + decimal_text(y as int)) == (if is_coordinate(
            x as int,
        ) && is_coordinate(y as int) {
            Ok::<Relation, Error>(classify(x as int, y as int))
        } else {
            Err::<Relation, Error>(Error::OutOfRange)
        }),
{
    let left = decimal_text(x as int);
    let right = decimal_text(y as int);
    lemma_decimal_text_is_word(x as int);
    lemma_decimal_text_is_word(y as int);
    lemma_word_is_single_token(left);
    lemma_word_is_single_token(right);
    lemma_tokens_across_blank(left, ' ', right);
    lemma_decimal_text_round_trip(x as int);
    lemma_decimal_text_round_trip(y as int);
}

} // verus!
