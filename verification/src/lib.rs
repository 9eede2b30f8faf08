//! Extraction of dividend facts from brokerage-statement token streams and
//! conversion into a home-currency tax liability.
//!
//! The crate has three independent parts: a finite-state scanner that walks a
//! document's text-show operations and recovers one dividend record
//! ([`scanner`]), a backward date search that resolves a transaction date to
//! the most recent published exchange rate strictly before that date
//! ([`resolver`]), and a pure reduction of resolved transactions into two
//! home-currency totals ([`aggregate`]).
//!
//! All money amounts are exact decimals held as integers: amounts carry two
//! fractional digits (minor units), exchange rates carry four, and aggregated
//! totals therefore carry six.

pub mod aggregate;
pub mod amount;
pub mod date;
pub mod resolver;
pub mod scanner;
