use vstd::prelude::*;

use crate::account::AccountId;

verus! {

/// The two states of a ledger entry. `stake` is the only transition out of
/// `Unstaked`, and `unstake` the only transition out of `Staked`.
#[derive(Clone, Copy, Debug, PartialEq, Eq, Structural)]
pub enum StakeState {
    Unstaked,
    Staked,
}

/// The singleton pool registry: who initialized it, and how many assets are
/// currently locked across all ledger entries.
#[derive(Clone, Copy, Debug, PartialEq, Eq, Structural)]
pub struct Pool {
    /// The identity that performed the one-time initialization. Immutable
    /// after creation.
    pub authority: AccountId,
    /// Count of currently locked assets; one increment per successful stake,
    /// one decrement per successful unstake.
    pub staked_count: i64,
    /// Set exactly once by `initialize_pool`.
    pub is_initialized: bool,
}

impl Pool {
    /// The counter never goes negative, and counts nothing before the pool
    /// has been initialized.
    pub open spec fn wf(self) -> bool {
        &&& self.staked_count >= 0
        &&& !self.is_initialized ==> self.staked_count == 0
    }

    /// A pool as it stands before `initialize_pool`: unowned, empty, closed.
    pub fn new() -> (r: Pool)
        ensures
            r == (Pool {
                authority: AccountId { w0: 0, w1: 0, w2: 0, w3: 0 },
                staked_count: 0,
                is_initialized: false,
            }),
            r.wf(),
    {
        Pool { authority: AccountId::zero(), staked_count: 0, is_initialized: false }
    }
}

/// One ledger entry per (owner, asset) pair: the per-stake state machine.
#[derive(Clone, Copy, Debug, PartialEq, Eq, Structural)]
pub struct UserStakeInfo {
    /// The staking party. Bound at the first successful stake.
    pub owner: AccountId,
    /// The asset held under custody. Bound at the first successful stake.
    pub asset: AccountId,
    /// Whether the asset is currently locked.
    pub stake_state: StakeState,
    /// Time of the most recent successful stake.
    pub stake_start_time: i64,
    /// Time strictly after which `unstake` becomes permitted.
    pub lock_end_time: i64,
    /// Time of the most recent successful unstake (telemetry).
    pub unstaked_at: i64,
    /// False until the first successful stake binds the entry.
    pub is_initialized: bool,
}

impl UserStakeInfo {
    /// The entry is in the locked state.
    pub open spec fn is_staked(self) -> bool {
        self.stake_state == StakeState::Staked
    }

    /// A staked entry was always bound by a stake, and its lock cannot end
    /// before it started.
    pub open spec fn wf(self) -> bool {
        self.is_staked() ==> self.is_initialized && self.stake_start_time <= self.lock_end_time
    }

    /// The value a ledger entry holds before its first stake: unbound and
    /// unstaked, as a freshly allocated record would be.
    pub open spec fn spec_fresh() -> UserStakeInfo {
        UserStakeInfo {
            owner: AccountId { w0: 0, w1: 0, w2: 0, w3: 0 },
            asset: AccountId { w0: 0, w1: 0, w2: 0, w3: 0 },
            stake_state: StakeState::Unstaked,
            stake_start_time: 0,
            lock_end_time: 0,
            unstaked_at: 0,
            is_initialized: false,
        }
    }

    /// Builds the fresh, never-staked entry.
    pub fn fresh() -> (r: UserStakeInfo)
        ensures
            r == UserStakeInfo::spec_fresh(),
            r.wf(),
    {
        UserStakeInfo {
            owner: AccountId::zero(),
            asset: AccountId::zero(),
            stake_state: StakeState::Unstaked,
            stake_start_time: 0,
            lock_end_time: 0,
            unstaked_at: 0,
            is_initialized: false,
        }
    }

    /// The entry a successful stake leaves behind: bound to (owner, asset),
    /// locked from `start` until `lock_end`, with earlier telemetry kept.
    pub open spec fn spec_staked(
        owner: AccountId,
        asset: AccountId,
        start: i64,
        lock_end: i64,
        prev_unstaked_at: i64,
    ) -> UserStakeInfo {
        UserStakeInfo {
            owner,
            asset,
            stake_state: StakeState::Staked,
            stake_start_time: start,
            lock_end_time: lock_end,
            unstaked_at: prev_unstaked_at,
            is_initialized: true,
        }
    }

    /// The entry a successful unstake leaves behind: the same binding and
    /// times, unlocked, with the unstake time recorded.
    pub open spec fn spec_unstaked(self, now: i64) -> UserStakeInfo {
        UserStakeInfo { stake_state: StakeState::Unstaked, unstaked_at: now, ..self }
    }
}

} // verus!
