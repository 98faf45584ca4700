use vstd::prelude::*;

verus! {

/// Every way a staking operation can be refused. Each rejection is a distinct
/// named condition, so a caller can tell "not yet eligible" (`EndTimeNotOver`)
/// from "wrong state" (`InvalidStakeState`) from "bad input"
/// (`UnexpectedLockingPeriod`) from a plain authorization failure
/// (`OwnerMismatch`, `AssetMismatch`).
#[derive(Clone, Copy, Debug, PartialEq, Eq, Structural)]
pub enum StakeError {
    /// The ledger entry is already in the staked state.
    AlreadyStaked,
    /// The ledger entry has never been bound by a first stake.
    UninitializedAccount,
    /// The ledger entry is not in the staked state.
    InvalidStakeState,
    /// The requested locking period is not in the allowed set.
    UnexpectedLockingPeriod,
    /// The lock has not expired yet.
    EndTimeNotOver,
    /// The pool registry has not been initialized.
    NotInitializedPool,
    /// The pool registry was already initialized once.
    AlreadyInitializedPool,
    /// The presented owner is not the owner bound to the ledger entry.
    OwnerMismatch,
    /// The presented asset is not the asset bound to the ledger entry.
    AssetMismatch,
}

} // verus!
