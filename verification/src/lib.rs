//! Reward-accounting engine.
//!
//! A global, monotonically increasing reward index records the cumulative
//! payout per unit of a tracked asset's supply. Holders settle lazily:
//! each user record carries a snapshot of the index, and the newly earned
//! amount is the balance times the index delta since the snapshot, scaled
//! down by [`state::INDEX_SCALE`]. Index advancement is authorized,
//! rate-limited by a minimum interval, and capped per call and per
//! rolling day.
//!
//! Every operation either succeeds and commits exactly the state change
//! its contract describes, or fails with a [`errors::GorkError`] and
//! leaves the records untouched.

pub mod claim;
pub mod errors;
pub mod initialize;
pub mod initialize_user;
pub mod laws;
pub mod pause;
pub mod set_config;
pub mod state;
pub mod update_index;
