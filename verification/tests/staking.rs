use nft_staking::account::AccountId;
use nft_staking::custody::CustodyCommand;
use nft_staking::errors::StakeError;
use nft_staking::registry::StakingRegistry;

fn id(n: u64) -> AccountId {
    AccountId { w0: n, w1: n, w2: n, w3: n }
}

fn ready_registry() -> StakingRegistry {
    let mut registry = StakingRegistry::new();
    registry.initialize_pool(id(100)).unwrap();
    registry
}

#[test]
fn initialize_pool_records_authority() {
    let mut registry = StakingRegistry::new();
    assert!(!registry.pool.is_initialized);
    let r = registry.initialize_pool(id(100));
    assert_eq!(r, Ok(()));
    assert!(registry.pool.is_initialized);
    assert_eq!(registry.pool.authority, id(100));
    assert_eq!(registry.pool.staked_count, 0);
}

#[test]
fn initialize_pool_twice_is_refused() {
    let mut registry = StakingRegistry::new();
    assert_eq!(registry.initialize_pool(id(100)), Ok(()));
    let r = registry.initialize_pool(id(101));
    assert_eq!(r, Err(StakeError::AlreadyInitializedPool));
    // the first initializer stays the authority
    assert_eq!(registry.pool.authority, id(100));
}

#[test]
fn stake_before_pool_init_is_refused() {
    let mut registry = StakingRegistry::new();
    let r = registry.stake(id(1), id(2), id(9), 120, 1000);
    assert_eq!(r, Err(StakeError::NotInitializedPool));
    assert_eq!(registry.entries.len(), 0);
}

#[test]
fn unstake_before_pool_init_is_refused() {
    let mut registry = StakingRegistry::new();
    let r = registry.unstake(id(1), id(2), id(9), 1000);
    assert_eq!(r, Err(StakeError::NotInitializedPool));
}

#[test]
fn stake_binds_and_locks_the_entry() {
    let mut registry = ready_registry();
    let r = registry.stake(id(1), id(2), id(9), 120, 1000);
    assert!(r.is_ok());
    let entry = registry.lookup(id(1), id(2)).unwrap();
    assert_eq!(entry.owner, id(1));
    assert_eq!(entry.asset, id(2));
    assert!(entry.is_initialized);
    assert_eq!(entry.stake_start_time, 1000);
    assert_eq!(entry.lock_end_time, 1000 + 120);
    assert_eq!(registry.pool.staked_count, 1);
}

#[test]
fn stake_with_long_period_locks_accordingly() {
    let mut registry = ready_registry();
    registry.stake(id(1), id(2), id(9), 300, 5000).unwrap();
    let entry = registry.lookup(id(1), id(2)).unwrap();
    assert_eq!(entry.lock_end_time, 5000 + 300);
}

#[test]
fn stake_issues_delegate_then_freeze() {
    let mut registry = ready_registry();
    let commands = registry.stake(id(1), id(2), id(9), 120, 1000).unwrap();
    assert_eq!(
        commands,
        vec![
            CustodyCommand::Delegate {
                owner: id(1),
                asset: id(2),
                delegate_authority: id(9),
                amount: 1,
            },
            CustodyCommand::Freeze { asset: id(2), delegate_authority: id(9) },
        ]
    );
}

#[test]
fn stake_twice_is_refused_with_already_staked() {
    let mut registry = ready_registry();
    assert!(registry.stake(id(1), id(2), id(9), 120, 1000).is_ok());
    let r = registry.stake(id(1), id(2), id(9), 120, 1001);
    assert_eq!(r, Err(StakeError::AlreadyStaked));
    // the entry still shows the first stake
    let entry = registry.lookup(id(1), id(2)).unwrap();
    assert_eq!(entry.stake_start_time, 1000);
    assert_eq!(registry.pool.staked_count, 1);
}

#[test]
fn stake_with_unexpected_period_is_refused() {
    let mut registry = ready_registry();
    let r = registry.stake(id(1), id(2), id(9), 301, 1000);
    assert_eq!(r, Err(StakeError::UnexpectedLockingPeriod));
    // no ledger entry was created
    assert!(registry.lookup(id(1), id(2)).is_none());
    assert_eq!(registry.entries.len(), 0);
    assert_eq!(registry.pool.staked_count, 0);
}

#[test]
fn unstake_before_lock_end_is_refused() {
    let mut registry = ready_registry();
    registry.stake(id(1), id(2), id(9), 120, 1000).unwrap();
    let r = registry.unstake(id(1), id(2), id(9), 1119);
    assert_eq!(r, Err(StakeError::EndTimeNotOver));
    let entry = registry.lookup(id(1), id(2)).unwrap();
    assert_eq!(entry.stake_start_time, 1000);
    assert_eq!(registry.pool.staked_count, 1);
}

#[test]
fn unstake_exactly_at_lock_end_is_refused() {
    let mut registry = ready_registry();
    registry.stake(id(1), id(2), id(9), 120, 1000).unwrap();
    // the lock is released only strictly after the lock end
    let r = registry.unstake(id(1), id(2), id(9), 1120);
    assert_eq!(r, Err(StakeError::EndTimeNotOver));
}

#[test]
fn unstake_after_lock_end_releases_the_entry() {
    let mut registry = ready_registry();
    registry.stake(id(1), id(2), id(9), 120, 1000).unwrap();
    let r = registry.unstake(id(1), id(2), id(9), 1121);
    assert!(r.is_ok());
    let entry = registry.lookup(id(1), id(2)).unwrap();
    assert_eq!(entry.unstaked_at, 1121);
    assert_eq!(entry.owner, id(1));
    assert_eq!(entry.asset, id(2));
    assert_eq!(registry.pool.staked_count, 0);
}

#[test]
fn unstake_issues_thaw_then_revoke() {
    let mut registry = ready_registry();
    registry.stake(id(1), id(2), id(9), 120, 1000).unwrap();
    let commands = registry.unstake(id(1), id(2), id(9), 1121).unwrap();
    assert_eq!(
        commands,
        vec![
            CustodyCommand::Thaw { asset: id(2), delegate_authority: id(9) },
            CustodyCommand::Revoke { asset: id(2), owner: id(1) },
        ]
    );
}

#[test]
fn unstake_without_stake_is_refused() {
    let mut registry = ready_registry();
    let r = registry.unstake(id(1), id(2), id(9), 1000);
    assert_eq!(r, Err(StakeError::UninitializedAccount));
}

#[test]
fn unstake_by_other_owner_finds_no_entry() {
    let mut registry = ready_registry();
    registry.stake(id(1), id(2), id(9), 120, 1000).unwrap();
    // another owner addresses another (owner, asset) entry, which is unbound
    let r = registry.unstake(id(3), id(2), id(9), 2000);
    assert_eq!(r, Err(StakeError::UninitializedAccount));
    // the real entry is untouched
    let entry = registry.lookup(id(1), id(2)).unwrap();
    assert_eq!(entry.stake_start_time, 1000);
    assert_eq!(registry.pool.staked_count, 1);
}

#[test]
fn unstake_twice_is_refused_with_invalid_state() {
    let mut registry = ready_registry();
    registry.stake(id(1), id(2), id(9), 120, 1000).unwrap();
    registry.unstake(id(1), id(2), id(9), 1121).unwrap();
    let r = registry.unstake(id(1), id(2), id(9), 1122);
    assert_eq!(r, Err(StakeError::InvalidStakeState));
}

#[test]
fn round_trip_allows_a_fresh_stake() {
    let mut registry = ready_registry();
    registry.stake(id(1), id(2), id(9), 120, 1000).unwrap();
    registry.unstake(id(1), id(2), id(9), 1121).unwrap();
    let r = registry.stake(id(1), id(2), id(9), 300, 2000);
    assert!(r.is_ok());
    let entry = registry.lookup(id(1), id(2)).unwrap();
    assert_eq!(entry.stake_start_time, 2000);
    assert_eq!(entry.lock_end_time, 2000 + 300);
    assert_eq!(entry.unstaked_at, 1121);
    assert_eq!(registry.pool.staked_count, 1);
}

#[test]
fn pool_counter_tracks_stakes_minus_unstakes() {
    let mut registry = ready_registry();
    // three stakes on distinct assets
    registry.stake(id(1), id(2), id(9), 120, 1000).unwrap();
    assert_eq!(registry.pool.staked_count, 1);
    registry.stake(id(1), id(3), id(9), 120, 1000).unwrap();
    assert_eq!(registry.pool.staked_count, 2);
    registry.stake(id(4), id(5), id(9), 300, 1000).unwrap();
    assert_eq!(registry.pool.staked_count, 3);
    // two unstakes
    registry.unstake(id(1), id(2), id(9), 1121).unwrap();
    assert_eq!(registry.pool.staked_count, 2);
    registry.unstake(id(4), id(5), id(9), 1301).unwrap();
    assert_eq!(registry.pool.staked_count, 1);
    // failed calls leave the counter alone
    assert!(registry.unstake(id(1), id(2), id(9), 2000).is_err());
    assert!(registry.stake(id(1), id(3), id(9), 120, 2000).is_err());
    assert_eq!(registry.pool.staked_count, 1);
}

#[test]
fn lookup_reports_only_bound_entries() {
    let mut registry = ready_registry();
    assert!(registry.lookup(id(1), id(2)).is_none());
    registry.stake(id(1), id(2), id(9), 120, 1000).unwrap();
    assert!(registry.lookup(id(1), id(2)).is_some());
    // same owner, other asset: still unbound
    assert!(registry.lookup(id(1), id(3)).is_none());
}
