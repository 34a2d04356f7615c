//! Checked integer arithmetic on fees.

pub mod fees;
pub mod laws;
pub mod ratio;
pub mod tiers;
