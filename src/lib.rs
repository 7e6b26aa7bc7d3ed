//! Verified state-transition logic for four small custodial ledgers: a DAO
//! treasury with proposal voting, a collateralised lending ledger, a
//! time-weighted staking ledger and a constant-product swap.
//!
//! Every operation is a function from the records it reads, the values the
//! host supplies (the clock, token balances, account addresses) and its
//! arguments, to either a typed error or an [`ledger::Outcome`]: the record's
//! next value together with the token transfers that must succeed before that
//! value is written back (see [`ledger::settle`]).

pub mod governance;
pub mod ledger;
pub mod lending;
pub mod staking;
pub mod swap;
