//! The ways in which input can fail to name a point.

use vstd::prelude::*;

verus! {

/// Why a request names no point. Classification itself cannot fail: every
/// error is found before any geometry is computed.
#[derive(Clone, Copy, Debug, PartialEq, Eq, Structural)]
pub enum Error {
    /// A token is not the decimal notation of an integer.
    BadFormat,
    /// A token denotes an integer that is not a coordinate.
    OutOfRange,
    /// The line holds no token at all.
    EmptyString,
    /// The line holds a single token.
    OneCoord,
    /// The line holds more than two tokens.
    TooMuchCoords,
}

} // verus!
