//! The two ways in which input can be refused.

use vstd::prelude::*;

verus! {

/// Why a value handed to the library was refused.
#[derive(Clone, Copy, Debug, PartialEq, Eq, Structural)]
pub enum CANAerospaceError {
    /// The bytes are too few to hold the four-byte message header.
    MalformedFrame,
    /// A message class wraps an identifier outside the bounds of that class.
    OutOfRange,
}

} // verus!
