use vstd::prelude::*;

use crate::account::AccountId;
use crate::custody::CustodyCommand;
use crate::custody::stake_commands;
use crate::custody::unstake_commands;
use crate::errors::StakeError;
use crate::state::Pool;
use crate::state::StakeState;
use crate::state::UserStakeInfo;

verus! {

/// The shorter of the two configured locking periods, in seconds.
pub const LOCKING_PERIOD_SHORT: i64 = 120;

/// The longer of the two configured locking periods, in seconds.
pub const LOCKING_PERIOD_LONG: i64 = 300;

/// Membership in the fixed allow-list of locking periods.
pub open spec fn is_allowed_period(locking_period: i64) -> bool {
    locking_period == LOCKING_PERIOD_SHORT || locking_period == LOCKING_PERIOD_LONG
}

/// Why a stake demand is refused, if it is; checked in this order, first
/// failure wins: pool initialized, entry not already staked, period allowed.
pub open spec fn stake_denial(
    pool: Pool,
    entry: UserStakeInfo,
    locking_period: i64,
) -> Option<StakeError> {
    if !pool.is_initialized {
        Some(StakeError::NotInitializedPool)
    } else if entry.is_staked() {
        Some(StakeError::AlreadyStaked)
    } else if !is_allowed_period(locking_period) {
        Some(StakeError::UnexpectedLockingPeriod)
    } else {
        None
    }
}

/// Why an unstake demand is refused, if it is; checked in this order: pool
/// initialized, entry bound, caller and asset authorized against the
/// binding, entry staked, lock strictly expired.
pub open spec fn unstake_denial(
    pool: Pool,
    entry: UserStakeInfo,
    owner: AccountId,
    asset: AccountId,
    now: i64,
) -> Option<StakeError> {
    if !pool.is_initialized {
        Some(StakeError::NotInitializedPool)
    } else if !entry.is_initialized {
        Some(StakeError::UninitializedAccount)
    } else if entry.owner != owner {
        Some(StakeError::OwnerMismatch)
    } else if entry.asset != asset {
        Some(StakeError::AssetMismatch)
    } else if !entry.is_staked() {
        Some(StakeError::InvalidStakeState)
    } else if now <= entry.lock_end_time {
        Some(StakeError::EndTimeNotOver)
    } else {
        None
    }
}

/// One-time setup of the pool registry: records `authority` as the first
/// initializer and zeroes the counter. Explicitly not idempotent: a second
/// call is refused, preserving "first initializer becomes authority".
pub fn initialize_pool(pool: &mut Pool, authority: AccountId) -> (r: Result<(), StakeError>)
    requires
        old(pool).wf(),
    ensures
        final(pool).wf(),
        old(pool).is_initialized ==> r == Err::<(), StakeError>(StakeError::AlreadyInitializedPool)
            && *final(pool) == *old(pool),
        !old(pool).is_initialized ==> r == Ok::<(), StakeError>(()) && *final(pool) == (Pool {
            authority,
            staked_count: 0,
            is_initialized: true,
        }),
{
    if pool.is_initialized {
        return Err(StakeError::AlreadyInitializedPool);
    }
    pool.authority = authority;
    pool.is_initialized = true;
    pool.staked_count = 0;
    Ok(())
}

/// Locks `asset` for `owner` for `locking_period` seconds starting at `now`.
///
/// On success the entry is bound and staked, with
/// `lock_end_time == stake_start_time + locking_period`, the pool counter
/// grows by one, and the returned commands instruct the custody gateway to
/// delegate one unit of the asset to `delegate_authority` and freeze it.
/// On refusal nothing changes.
pub fn stake(
    pool: &mut Pool,
    entry: &mut UserStakeInfo,
    owner: AccountId,
    asset: AccountId,
    delegate_authority: AccountId,
    locking_period: i64,
    now: i64,
) -> (r: Result<Vec<CustodyCommand>, StakeError>)
    requires
        old(pool).wf(),
        old(entry).wf(),
        // the host hands over the entry addressed by (owner, asset), so a
        // bound entry always carries exactly that binding
        old(entry).is_initialized ==> old(entry).owner == owner && old(entry).asset == asset,
        old(pool).staked_count < i64::MAX,
        is_allowed_period(locking_period) ==> now + locking_period <= i64::MAX,
    ensures
        final(pool).wf(),
        final(entry).wf(),
        r is Err ==> *final(pool) == *old(pool) && *final(entry) == *old(entry),
        match stake_denial(*old(pool), *old(entry), locking_period) {
            Some(denial) => r == Err::<Vec<CustodyCommand>, StakeError>(denial),
            None => {
                &&& r is Ok
                &&& r->Ok_0@ == stake_commands(owner, asset, delegate_authority)
                &&& *final(entry) == UserStakeInfo::spec_staked(
                    owner,
                    asset,
                    now,
                    (now + locking_period) as i64,
                    old(entry).unstaked_at,
                )
                &&& final(entry).is_staked()
                &&& final(entry).lock_end_time == final(entry).stake_start_time + locking_period
                &&& *final(pool) == (Pool {
                    staked_count: (old(pool).staked_count + 1) as i64,
                    ..*old(pool)
                })
            },
        },
{
    if !pool.is_initialized {
        return Err(StakeError::NotInitializedPool);
    }
    if entry.stake_state == StakeState::Staked {
        return Err(StakeError::AlreadyStaked);
    }
    if !(locking_period == LOCKING_PERIOD_SHORT || locking_period == LOCKING_PERIOD_LONG) {
        return Err(StakeError::UnexpectedLockingPeriod);
    }
    let lock_end_time: i64 = now + locking_period;

    let mut commands: Vec<CustodyCommand> = Vec::new();
    commands.push(CustodyCommand::Delegate { owner, asset, delegate_authority, amount: 1 });
    commands.push(CustodyCommand::Freeze { asset, delegate_authority });

    entry.owner = owner;
    entry.asset = asset;
    entry.stake_state = StakeState::Staked;
    entry.stake_start_time = now;
    entry.lock_end_time = lock_end_time;
    entry.is_initialized = true;

    pool.staked_count = pool.staked_count + 1;

    proof {
        assert(commands@ =~= stake_commands(owner, asset, delegate_authority));
    }
    Ok(commands)
}

/// Releases `asset` back to `owner` once the lock has strictly expired.
///
/// On success the entry keeps its binding and times, turns `Unstaked` with
/// the unstake time recorded, the pool counter shrinks by one, and the
/// returned commands instruct the custody gateway to thaw the asset and
/// revoke the delegation. On refusal nothing changes.
pub fn unstake(
    pool: &mut Pool,
    entry: &mut UserStakeInfo,
    owner: AccountId,
    asset: AccountId,
    delegate_authority: AccountId,
    now: i64,
) -> (r: Result<Vec<CustodyCommand>, StakeError>)
    requires
        old(pool).wf(),
        old(entry).wf(),
        // internal consistency: a staked entry is counted in the pool
        old(entry).is_staked() ==> old(pool).staked_count > 0,
    ensures
        final(pool).wf(),
        final(entry).wf(),
        r is Err ==> *final(pool) == *old(pool) && *final(entry) == *old(entry),
        match unstake_denial(*old(pool), *old(entry), owner, asset, now) {
            Some(denial) => r == Err::<Vec<CustodyCommand>, StakeError>(denial),
            None => {
                &&& r is Ok
                &&& r->Ok_0@ == unstake_commands(owner, asset, delegate_authority)
                &&& *final(entry) == old(entry).spec_unstaked(now)
                &&& !final(entry).is_staked()
                &&& *final(pool) == (Pool {
                    staked_count: (old(pool).staked_count - 1) as i64,
                    ..*old(pool)
                })
            },
        },
{
    if !pool.is_initialized {
        return Err(StakeError::NotInitializedPool);
    }
    if !entry.is_initialized {
        return Err(StakeError::UninitializedAccount);
    }
    if entry.owner != owner {
        return Err(StakeError::OwnerMismatch);
    }
    if entry.asset != asset {
        return Err(StakeError::AssetMismatch);
    }
    if entry.stake_state != StakeState::Staked {
        return Err(StakeError::InvalidStakeState);
    }
    if now <= entry.lock_end_time {
        return Err(StakeError::EndTimeNotOver);
    }

    let mut commands: Vec<CustodyCommand> = Vec::new();
    commands.push(CustodyCommand::Thaw { asset, delegate_authority });
    commands.push(CustodyCommand::Revoke { asset, owner });

    entry.stake_state = StakeState::Unstaked;
    entry.unstaked_at = now;

    pool.staked_count = pool.staked_count - 1;

    proof {
        assert(commands@ =~= unstake_commands(owner, asset, delegate_authority));
    }
    Ok(commands)
}

} // verus!
