//! Coordinates: the integers from -100 to 100, both included, and their
//! validation from typed values and from text.

use vstd::prelude::*;
use crate::decimal::{decimal_value, is_decimal, parse_decimal, Parsed};
use crate::error::Error;
use crate::text::chars_of;

verus! {

/// The smallest coordinate.
pub const MIN_COORD: i32 = -100;

/// The largest coordinate.
pub const MAX_COORD: i32 = 100;

/// Whether `v` is a coordinate.
pub open spec fn is_coordinate(v: int) -> bool {
    MIN_COORD <= v <= MAX_COORD
}

/// The outcome of validating the integer `v`: `v` itself when it is a
/// coordinate, else `OutOfRange`.
pub open spec fn checked_coordinate(v: i32) -> Result<i32, Error> {
    if is_coordinate(v as int) {
        Ok(v)
    } else {
        Err(Error::OutOfRange)
    }
}

/// The outcome of validating the token `token`: `BadFormat` when it is not
/// the decimal notation of an integer, `OutOfRange` when the integer it
/// denotes is not a coordinate, however large, else that integer.
pub open spec fn token_coordinate(token: Seq<char>) -> Result<i32, Error> {
    if !is_decimal(token) {
        Err(Error::BadFormat)
    } else if !is_coordinate(decimal_value(token)) {
        Err(Error::OutOfRange)
    } else {
        Ok(decimal_value(token) as i32)
    }
}

/// Validates a coordinate that arrives as an integer. Both ends of the
/// range are checked and both belong to it: 100 and -100 are coordinates,
/// 101 and -101 are not. The value is never clamped or rounded: it comes
/// back unchanged or not at all.
pub fn deserialize_coord(c: i32) -> (r: Result<i32, Error>)
    ensures
        r == checked_coordinate(c),
{
    if MIN_COORD <= c && c <= MAX_COORD {
        Ok(c)
    } else {
        Err(Error::OutOfRange)
    }
}

/// Validates a coordinate given as the characters of one token.
pub fn coord_from_chars(token: &[char]) -> (r: Result<i32, Error>)
    ensures
        r == token_coordinate(token@),
{
    match parse_decimal(token) {
        Parsed::Malformed => Err(Error::BadFormat),
        Parsed::Overflow => Err(Error::OutOfRange),
        Parsed::Number(v) => deserialize_coord(v),
    }
}

/// Validates a coordinate given as text: an optional sign and decimal
/// digits, with nothing before, between or after them.
pub fn parse_coord(coord: &str) -> (r: Result<i32, Error>)
    ensures
        r == token_coordinate(coord@),
{
    let chars = chars_of(coord);
    coord_from_chars(chars.as_slice())
}

/// Each outcome of validating a token. Validation succeeds on exactly the
/// tokens that denote a coordinate, and then yields the coordinate denoted;
/// a token is out of range when it denotes an integer that is no
/// coordinate, and of bad format when it denotes no integer.
pub proof fn lemma_token_coordinate_cases(token: Seq<char>)
    ensures
        token_coordinate(token) is Ok <==> is_decimal(token) && is_coordinate(decimal_value(token)),
        token_coordinate(token) is Ok ==> token_coordinate(token)->Ok_0 == decimal_value(token),
        token_coordinate(token) == Err::<i32, Error>(Error::OutOfRange) <==> is_decimal(token)
            && !is_coordinate(decimal_value(token)),
        token_coordinate(token) == Err::<i32, Error>(Error::BadFormat) <==> !is_decimal(token),
{
}

} // verus!
