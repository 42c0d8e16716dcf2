//! Fee-credit ledger of a margin account: a signed running balance that every
//! settlement path credits through one clamped, saturating operation.
pub mod account;
pub mod ledger;
