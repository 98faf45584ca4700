use vstd::prelude::*;

use crate::account::AccountId;
use crate::engine::is_allowed_period;
use crate::engine::stake_denial;
use crate::engine::unstake_denial;
use crate::errors::StakeError;
use crate::registry::StakingRegistry;
use crate::registry::staked_total;
use crate::state::Pool;
use crate::state::UserStakeInfo;

verus! {

/// A successful stake leaves the entry staked, so a second stake demand on
/// the same (owner, asset) entry, with any locking period and before any
/// unstake, is refused with `AlreadyStaked` — of two concurrent stake
/// attempts on one entry, at most one can succeed.
pub proof fn lemma_no_double_stake(
    pool: Pool,
    owner: AccountId,
    asset: AccountId,
    start: i64,
    lock_end: i64,
    prev_unstaked_at: i64,
    second_locking_period: i64,
)
    requires
        pool.is_initialized,
    ensures
        stake_denial(
            pool,
            UserStakeInfo::spec_staked(owner, asset, start, lock_end, prev_unstaked_at),
            second_locking_period,
        ) == Some(StakeError::AlreadyStaked),
{
}

/// Time-lock enforcement on a staked, bound entry addressed with its own
/// owner and asset: up to and including the lock end the demand is refused
/// with `EndTimeNotOver`; strictly after the lock end it is granted.
pub proof fn lemma_unstake_timing(pool: Pool, entry: UserStakeInfo, now: i64)
    requires
        pool.is_initialized,
        entry.is_initialized,
        entry.is_staked(),
    ensures
        now <= entry.lock_end_time ==> unstake_denial(pool, entry, entry.owner, entry.asset, now)
            == Some(StakeError::EndTimeNotOver),
        now > entry.lock_end_time ==> unstake_denial(
            pool,
            entry,
            entry.owner,
            entry.asset,
            now,
        ) is None,
{
}

/// An unstake demand whose presented owner or asset differs from the
/// binding is never granted; on an initialized entry of an initialized pool
/// it is refused with the matching authorization error, before state or
/// timing are even considered. The engine changes nothing on a refusal.
pub proof fn lemma_unstake_authorization(
    pool: Pool,
    entry: UserStakeInfo,
    owner: AccountId,
    asset: AccountId,
    now: i64,
)
    requires
        entry.owner != owner || entry.asset != asset,
    ensures
        unstake_denial(pool, entry, owner, asset, now) is Some,
        pool.is_initialized && entry.is_initialized && entry.owner != owner ==> unstake_denial(
            pool,
            entry,
            owner,
            asset,
            now,
        ) == Some(StakeError::OwnerMismatch),
        pool.is_initialized && entry.is_initialized && entry.owner == owner && entry.asset != asset
            ==> unstake_denial(pool, entry, owner, asset, now) == Some(StakeError::AssetMismatch),
{
}

/// Round trip: an entry left behind by a stake can be unstaked strictly
/// after its lock end, and the released entry can at once be staked again
/// with any allowed period — the repeat stake then records the fresh start
/// time, as `engine::stake` ensures.
pub proof fn lemma_restake_after_round_trip(
    pool: Pool,
    owner: AccountId,
    asset: AccountId,
    start: i64,
    lock_end: i64,
    prev_unstaked_at: i64,
    unstake_time: i64,
    second_locking_period: i64,
)
    requires
        pool.is_initialized,
        unstake_time > lock_end,
        is_allowed_period(second_locking_period),
    ensures
        ({
            let first = UserStakeInfo::spec_staked(owner, asset, start, lock_end, prev_unstaked_at);
            let released = first.spec_unstaked(unstake_time);
            &&& unstake_denial(pool, first, owner, asset, unstake_time) is None
            &&& stake_denial(pool, released, second_locking_period) is None
        }),
{
}

/// The pool counter tells the truth: in every well-formed system it equals
/// the number of currently staked ledger entries, and so it can never go
/// negative. Since a successful stake raises it by exactly one and a
/// successful unstake lowers it by exactly one, after N successful stakes
/// and M successful unstakes it stands at N - M.
pub proof fn lemma_counter_consistency(registry: StakingRegistry)
    requires
        registry.wf(),
    ensures
        registry.pool.staked_count == staked_total(registry.entries@),
        registry.pool.staked_count >= 0,
{
}

} // verus!
