//! Pricing and liquidity accounting for a constant-product market maker that
//! trades one token against the native coin.
//!
//! - [`amount`]: unbounded unsigned integers.
//! - [`pricing`]: the quote formulas and the arithmetic facts about them.
//! - [`swap`]: one swap with its correction of the product.
//! - [`testdex`]: the ledger of a pair and the rules of its operations.
//! - [`laws`]: what holds of the ledger over any sequence of operations.

pub mod amount;
pub mod laws;
pub mod pricing;
pub mod swap;
pub mod testdex;
