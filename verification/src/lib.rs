//! A verified core for time-locked staking of non-fungible assets.
//!
//! An owner locks ("stakes") an asset for one of a fixed set of locking
//! periods. The asset stays in the owner's wallet but is handed to a
//! program-controlled authority: the engine orders the custody gateway to
//! delegate the asset and freeze it, and only after the lock has expired to
//! thaw it and revoke the delegation. This crate holds the state machine and
//! the validation rules; performing the custody commands, deriving the
//! authority address and reading the clock are the host's business and are
//! passed in and out as plain values.

pub mod account;
pub mod custody;
pub mod engine;
pub mod errors;
pub mod laws;
pub mod registry;
pub mod state;
