//! The error type shared by every fee computation.

use vstd::prelude::*;

verus! {

/// Why a fee computation was abandoned.
#[derive(Clone, Copy, Debug, PartialEq, Eq, Structural)]
pub enum ErrorCode {
    /// A checked multiplication, division or subtraction had no result: the
    /// product exceeded 128 bits, the divisor was zero, or the subtrahend
    /// exceeded the minuend.
    MathError,
}

pub type ClearingHouseResult<T> = Result<T, ErrorCode>;

} // verus!
