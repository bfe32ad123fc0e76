//! Discounted-cash-flow valuation of tokenized quarterly advertising revenue.
//!
//! All money amounts, rates and factors are fixed-point decimals ([`fixed::Fixed`],
//! a signed count of millionths), so every computation is exact integer
//! arithmetic with stated rounding, and every contract pins the result down.

pub mod discount;
pub mod error;
pub mod fixed;
pub mod laws;
pub mod model;
pub mod valuation;
