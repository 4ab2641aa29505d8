//! A single-pass ledger: an ordered stream of deposits, withdrawals, disputes,
//! resolutions and chargebacks is applied to per-client accounts, and every
//! record that cannot be applied is kept aside with the reason.
//!
//! Amounts are whole numbers of the minor unit, one ten-thousandth of a unit
//! of currency, so that balances are exact to four decimal digits.

pub mod amount;
pub mod transaction;
pub mod error;
pub mod account;
pub mod payment_engine;
