//! Fee arithmetic for a derivatives exchange.
//!
//! Every quantity is an unsigned integer amount of the quote asset. A fee is a
//! ratio of the traded notional; discounts and rewards are ratios carved out of
//! that fee. All arithmetic is checked: a product that does not fit, a zero
//! denominator or a carve-out larger than what it is taken from is reported as
//! [`error::ErrorCode::MathError`] and never wraps.

pub mod error;
pub mod math;
pub mod state;
