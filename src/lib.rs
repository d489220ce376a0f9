//! A time-locked asset-commitment vault.
//!
//! A user locks an amount of an asset under risk rules (duration, tolerated
//! loss, risk tier) and receives a certificate for the position. The ledger
//! tracks each commitment's value, reports rule violations, and settles
//! positions at maturity, keeping its counters equal to what its records say.
//!
//! - `rules`: validation of commitment rules.
//! - `id`: commitment ids derived from the commitment counter.
//! - `guard`: the reentrancy guard.
//! - `violation`: loss percentage and violation checks.
//! - `commitment`: the commitment record and the sums over records.
//! - `ledger`, `queries`, `updates`, `admin`: the commitment ledger.
//! - `access`: admin and whitelisted callers.
//! - `certificate`: the certificate registry.
//! - `laws`: properties that relate several ledger operations.

pub mod access;
pub mod admin;
pub mod certificate;
pub mod commitment;
pub mod error;
pub mod guard;
pub mod id;
pub mod laws;
pub mod ledger;
pub mod queries;
pub mod rules;
pub mod updates;
pub mod violation;
