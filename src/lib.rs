//! Accounting and governance core of a fungible-token economy: a
//! reward-per-share accumulator for staking rewards and a time-boxed
//! proposal/vote lifecycle, with every state transition verified.

pub mod address;
pub mod error;
pub mod rewards;
pub mod events;
pub mod governance;
pub mod config;
