//! Decision logic of a delta-hedging bot for an options account: request
//! signing, the hedge decision, the order lifecycle, the hedging cycle and
//! the schedule of checks.
//!
//! The library's own functions are verified against their contracts. What
//! they have from `std` and from other crates stands behind a few wrappers
//! and assumed specifications, each marked as such where it stands: their
//! contracts are taken on trust and say what those functions are documented
//! to do. Sending a request and sleeping are left to the program that drives
//! the library.

pub mod bybit;
pub mod clock;
pub mod cycle;
pub mod decimal;
pub mod hedge;
pub mod order;
pub mod schedule;
pub mod utils;
