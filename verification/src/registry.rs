use vstd::prelude::*;

use crate::account::AccountId;
use crate::custody::CustodyCommand;
use crate::custody::stake_commands;
use crate::custody::unstake_commands;
use crate::engine;
use crate::engine::is_allowed_period;
use crate::engine::stake_denial;
use crate::engine::unstake_denial;
use crate::errors::StakeError;
use crate::state::Pool;
use crate::state::UserStakeInfo;

verus! {

/// The entry is the one addressed by (`owner`, `asset`).
pub open spec fn matches_key(e: UserStakeInfo, owner: AccountId, asset: AccountId) -> bool {
    e.owner == owner && e.asset == asset
}

/// How many entries of `entries` are currently staked.
pub open spec fn staked_total(entries: Seq<UserStakeInfo>) -> int
    decreases entries.len(),
{
    if entries.len() == 0 {
        0
    } else {
        staked_total(entries.drop_last()) + if entries.last().is_staked() {
            1int
        } else {
            0int
        }
    }
}

proof fn lemma_staked_total_nonneg(entries: Seq<UserStakeInfo>)
    ensures
        staked_total(entries) >= 0,
    decreases entries.len(),
{
    if entries.len() > 0 {
        lemma_staked_total_nonneg(entries.drop_last());
    }
}

proof fn lemma_staked_total_push(entries: Seq<UserStakeInfo>, e: UserStakeInfo)
    ensures
        staked_total(entries.push(e)) == staked_total(entries) + if e.is_staked() {
            1int
        } else {
            0int
        },
{
    assert(entries.push(e).drop_last() =~= entries);
    assert(entries.push(e).last() == e);
}

proof fn lemma_staked_total_update(entries: Seq<UserStakeInfo>, i: int, e: UserStakeInfo)
    requires
        0 <= i < entries.len(),
    ensures
        staked_total(entries.update(i, e)) == staked_total(entries) - (if entries[i].is_staked() {
            1int
        } else {
            0int
        }) + if e.is_staked() {
            1int
        } else {
            0int
        },
    decreases entries.len(),
{
    let updated = entries.update(i, e);
    if i == entries.len() - 1 {
        assert(updated.drop_last() =~= entries.drop_last());
        assert(updated.last() == e);
    } else {
        assert(updated.drop_last() =~= entries.drop_last().update(i, e));
        assert(updated.last() == entries.last());
        lemma_staked_total_update(entries.drop_last(), i, e);
    }
}

proof fn lemma_staked_total_element(entries: Seq<UserStakeInfo>, i: int)
    requires
        0 <= i < entries.len(),
        entries[i].is_staked(),
    ensures
        staked_total(entries) >= 1,
    decreases entries.len(),
{
    if i == entries.len() - 1 {
        lemma_staked_total_nonneg(entries.drop_last());
    } else {
        lemma_staked_total_element(entries.drop_last(), i);
        assert(entries.drop_last()[i] == entries[i]);
    }
}

/// The whole staking system: the singleton pool and one ledger entry per
/// (owner, asset) pair, addressed by that key. The uniqueness of the key is
/// the concurrency control: of two stake demands on the same pair, the
/// second finds the entry already staked.
pub struct StakingRegistry {
    /// The singleton pool registry.
    pub pool: Pool,
    /// The ledger entries, at most one per (owner, asset).
    pub entries: Vec<UserStakeInfo>,
}

impl StakingRegistry {
    /// Some ledger entry is bound to (`owner`, `asset`).
    pub open spec fn has_entry(self, owner: AccountId, asset: AccountId) -> bool {
        exists|i: int|
            0 <= i < self.entries@.len() && matches_key(#[trigger] self.entries@[i], owner, asset)
    }

    /// The position of the entry bound to (`owner`, `asset`); meaningful
    /// only when `has_entry` holds (and then unique, by `wf`).
    pub open spec fn entry_index(self, owner: AccountId, asset: AccountId) -> int {
        choose|i: int|
            0 <= i < self.entries@.len() && matches_key(#[trigger] self.entries@[i], owner, asset)
    }

    /// The entry bound to (`owner`, `asset`); meaningful only under
    /// `has_entry`.
    pub open spec fn entry_for(self, owner: AccountId, asset: AccountId) -> UserStakeInfo {
        self.entries@[self.entry_index(owner, asset)]
    }

    /// The entry the engine works on: the bound one, or the fresh record a
    /// first stake starts from.
    pub open spec fn entry_or_fresh(self, owner: AccountId, asset: AccountId) -> UserStakeInfo {
        if self.has_entry(owner, asset) {
            self.entry_for(owner, asset)
        } else {
            UserStakeInfo::spec_fresh()
        }
    }

    /// No two entries share a (owner, asset) key.
    pub open spec fn keys_unique(self) -> bool {
        forall|i: int, j: int|
            #![trigger self.entries@[i], self.entries@[j]]
            0 <= i < j < self.entries@.len() ==> !(self.entries@[i].owner == self.entries@[j].owner
                && self.entries@[i].asset == self.entries@[j].asset)
    }

    /// The system invariant: a well-formed pool; well-formed, bound entries
    /// under unique keys; a counter that equals the number of staked
    /// entries; and no entries at all before the pool is initialized.
    pub open spec fn wf(self) -> bool {
        &&& self.pool.wf()
        &&& self.keys_unique()
        &&& forall|i: int|
            0 <= i < self.entries@.len() ==> (#[trigger] self.entries@[i]).wf()
                && self.entries@[i].is_initialized
        &&& self.pool.staked_count == staked_total(self.entries@)
        &&& !self.pool.is_initialized ==> self.entries@.len() == 0
    }

    /// An empty system: no pool authority yet, no ledger entries.
    pub fn new() -> (r: StakingRegistry)
        ensures
            r.wf(),
            !r.pool.is_initialized,
            r.entries@.len() == 0,
    {
        StakingRegistry { pool: Pool::new(), entries: Vec::new() }
    }

    /// One-time pool setup; see `engine::initialize_pool`.
    pub fn initialize_pool(&mut self, authority: AccountId) -> (r: Result<(), StakeError>)
        requires
            old(self).wf(),
        ensures
            final(self).wf(),
            final(self).entries@ == old(self).entries@,
            old(self).pool.is_initialized ==> r == Err::<(), StakeError>(
                StakeError::AlreadyInitializedPool,
            ) && *final(self) == *old(self),
            !old(self).pool.is_initialized ==> r == Ok::<(), StakeError>(())
                && final(self).pool == (Pool { authority, staked_count: 0, is_initialized: true }),
    {
        engine::initialize_pool(&mut self.pool, authority)
    }

    /// The position of the entry bound to (`owner`, `asset`), if any.
    fn find_entry(&self, owner: AccountId, asset: AccountId) -> (r: Option<usize>)
        ensures
            match r {
                Some(i) => i < self.entries@.len() && matches_key(
                    self.entries@[i as int],
                    owner,
                    asset,
                ),
                None => !self.has_entry(owner, asset),
            },
    {
        let n = self.entries.len();
        let mut i: usize = 0;
        while i < n
            invariant
                i <= n,
                n == self.entries@.len(),
                forall|j: int|
                    0 <= j < i ==> !matches_key(#[trigger] self.entries@[j], owner, asset),
            decreases n - i,
        {
            let e = self.entries[i];
            if e.owner == owner && e.asset == asset {
                return Some(i);
            }
            i = i + 1;
        }
        None
    }

    /// The ledger entry bound to (`owner`, `asset`), if any: the read
    /// surface for inspecting a stake.
    pub fn lookup(&self, owner: AccountId, asset: AccountId) -> (r: Option<UserStakeInfo>)
        requires
            self.keys_unique(),
        ensures
            match r {
                Some(e) => self.has_entry(owner, asset) && e == self.entry_for(owner, asset),
                None => !self.has_entry(owner, asset),
            },
    {
        match self.find_entry(owner, asset) {
            Some(i) => {
                proof {
                    lemma_unique_index(*self, owner, asset, i as int);
                }
                Some(self.entries[i])
            },
            None => None,
        }
    }

    /// Locks `asset` for `owner`, creating the ledger entry on its first
    /// stake; see `engine::stake`. The entry worked on is the one addressed
    /// by (`owner`, `asset`), so no other entry is touched.
    pub fn stake(
        &mut self,
        owner: AccountId,
        asset: AccountId,
        delegate_authority: AccountId,
        locking_period: i64,
        now: i64,
    ) -> (r: Result<Vec<CustodyCommand>, StakeError>)
        requires
            old(self).wf(),
            old(self).pool.staked_count < i64::MAX,
            is_allowed_period(locking_period) ==> now + locking_period <= i64::MAX,
        ensures
            final(self).wf(),
            match stake_denial(
                old(self).pool,
                old(self).entry_or_fresh(owner, asset),
                locking_period,
            ) {
                Some(denial) => r == Err::<Vec<CustodyCommand>, StakeError>(denial) && *final(self)
                    == *old(self),
                None => {
                    &&& r is Ok
                    &&& r->Ok_0@ == stake_commands(owner, asset, delegate_authority)
                    &&& final(self).has_entry(owner, asset)
                    &&& final(self).entry_for(owner, asset) == UserStakeInfo::spec_staked(
                        owner,
                        asset,
                        now,
                        (now + locking_period) as i64,
                        old(self).entry_or_fresh(owner, asset).unstaked_at,
                    )
                    &&& old(self).has_entry(owner, asset) ==> final(self).entries@ == old(
                        self,
                    ).entries@.update(
                        old(self).entry_index(owner, asset),
                        final(self).entry_for(owner, asset),
                    )
                    &&& !old(self).has_entry(owner, asset) ==> final(self).entries@ == old(
                        self,
                    ).entries@.push(final(self).entry_for(owner, asset))
                    &&& final(self).pool == (Pool {
                        staked_count: (old(self).pool.staked_count + 1) as i64,
                        ..old(self).pool
                    })
                },
            },
    {
        let found = self.find_entry(owner, asset);
        match found {
            Some(i) => {
                proof {
                    lemma_unique_index(*self, owner, asset, i as int);
                }
                let mut e = self.entries[i];
                let r = engine::stake(
                    &mut self.pool,
                    &mut e,
                    owner,
                    asset,
                    delegate_authority,
                    locking_period,
                    now,
                );
                match r {
                    Ok(commands) => {
                        self.entries.set(i, e);
                        proof {
                            lemma_staked_total_update(old(self).entries@, i as int, e);
                            assert forall|a: int, b: int|
                                0 <= a < b < self.entries@.len() implies !(self.entries@[a].owner
                                == self.entries@[b].owner && self.entries@[a].asset
                                == self.entries@[b].asset) by {
                                assert(!(old(self).entries@[a].owner == old(self).entries@[b].owner
                                    && old(self).entries@[a].asset == old(self).entries@[b].asset));
                            }
                            assert forall|k: int|
                                0 <= k < self.entries@.len() implies (#[trigger] self.entries@[k]).wf()
                                && self.entries@[k].is_initialized by {
                                if k != i as int {
                                    assert(self.entries@[k] == old(self).entries@[k]);
                                }
                            }
                            lemma_unique_index(*self, owner, asset, i as int);
                        }
                        Ok(commands)
                    },
                    Err(denial) => Err(denial),
                }
            },
            None => {
                let mut e = UserStakeInfo::fresh();
                let r = engine::stake(
                    &mut self.pool,
                    &mut e,
                    owner,
                    asset,
                    delegate_authority,
                    locking_period,
                    now,
                );
                match r {
                    Ok(commands) => {
                        self.entries.push(e);
                        proof {
                            lemma_staked_total_push(old(self).entries@, e);
                            let len = old(self).entries@.len() as int;
                            assert forall|a: int, b: int|
                                0 <= a < b < self.entries@.len() implies !(self.entries@[a].owner
                                == self.entries@[b].owner && self.entries@[a].asset
                                == self.entries@[b].asset) by {
                                if b < len {
                                    assert(!(old(self).entries@[a].owner == old(
                                        self,
                                    ).entries@[b].owner && old(self).entries@[a].asset == old(
                                        self,
                                    ).entries@[b].asset));
                                } else {
                                    if self.entries@[a].owner == e.owner && self.entries@[a].asset
                                        == e.asset {
                                        assert(matches_key(old(self).entries@[a], owner, asset));
                                        assert(old(self).has_entry(owner, asset));
                                    }
                                }
                            }
                            assert forall|k: int|
                                0 <= k < self.entries@.len() implies (#[trigger] self.entries@[k]).wf()
                                && self.entries@[k].is_initialized by {
                                if k < len {
                                    assert(self.entries@[k] == old(self).entries@[k]);
                                }
                            }
                            lemma_unique_index(*self, owner, asset, len);
                        }
                        Ok(commands)
                    },
                    Err(denial) => Err(denial),
                }
            },
        }
    }

    /// Releases `asset` back to `owner` once the lock has expired; see
    /// `engine::unstake`. A demand addressed to a pair that was never staked
    /// finds no bound entry and is refused.
    pub fn unstake(
        &mut self,
        owner: AccountId,
        asset: AccountId,
        delegate_authority: AccountId,
        now: i64,
    ) -> (r: Result<Vec<CustodyCommand>, StakeError>)
        requires
            old(self).wf(),
        ensures
            final(self).wf(),
            match unstake_denial(
                old(self).pool,
                old(self).entry_or_fresh(owner, asset),
                owner,
                asset,
                now,
            ) {
                Some(denial) => r == Err::<Vec<CustodyCommand>, StakeError>(denial) && *final(self)
                    == *old(self),
                None => {
                    &&& r is Ok
                    &&& r->Ok_0@ == unstake_commands(owner, asset, delegate_authority)
                    &&& old(self).has_entry(owner, asset)
                    &&& final(self).has_entry(owner, asset)
                    &&& final(self).entry_for(owner, asset) == old(self).entry_for(
                        owner,
                        asset,
                    ).spec_unstaked(now)
                    &&& final(self).entries@ == old(self).entries@.update(
                        old(self).entry_index(owner, asset),
                        final(self).entry_for(owner, asset),
                    )
                    &&& final(self).pool == (Pool {
                        staked_count: (old(self).pool.staked_count - 1) as i64,
                        ..old(self).pool
                    })
                },
            },
    {
        let found = self.find_entry(owner, asset);
        match found {
            Some(i) => {
                proof {
                    lemma_unique_index(*self, owner, asset, i as int);
                    if self.entries@[i as int].is_staked() {
                        lemma_staked_total_element(self.entries@, i as int);
                    }
                }
                let mut e = self.entries[i];
                let r = engine::unstake(
                    &mut self.pool,
                    &mut e,
                    owner,
                    asset,
                    delegate_authority,
                    now,
                );
                match r {
                    Ok(commands) => {
                        self.entries.set(i, e);
                        proof {
                            lemma_staked_total_update(old(self).entries@, i as int, e);
                            assert forall|a: int, b: int|
                                0 <= a < b < self.entries@.len() implies !(self.entries@[a].owner
                                == self.entries@[b].owner && self.entries@[a].asset
                                == self.entries@[b].asset) by {
                                assert(!(old(self).entries@[a].owner == old(self).entries@[b].owner
                                    && old(self).entries@[a].asset == old(self).entries@[b].asset));
                            }
                            assert forall|k: int|
                                0 <= k < self.entries@.len() implies (#[trigger] self.entries@[k]).wf()
                                && self.entries@[k].is_initialized by {
                                if k != i as int {
                                    assert(self.entries@[k] == old(self).entries@[k]);
                                }
                            }
                            lemma_unique_index(*self, owner, asset, i as int);
                        }
                        Ok(commands)
                    },
                    Err(denial) => Err(denial),
                }
            },
            None => {
                let mut e = UserStakeInfo::fresh();
                let r = engine::unstake(
                    &mut self.pool,
                    &mut e,
                    owner,
                    asset,
                    delegate_authority,
                    now,
                );
                r
            },
        }
    }
}

/// Under unique keys, any position whose entry is bound to (`owner`,
/// `asset`) is the position `entry_index` denotes.
pub proof fn lemma_unique_index(
    registry: StakingRegistry,
    owner: AccountId,
    asset: AccountId,
    i: int,
)
    requires
        registry.keys_unique(),
        0 <= i < registry.entries@.len(),
        matches_key(registry.entries@[i], owner, asset),
    ensures
        registry.has_entry(owner, asset),
        registry.entry_index(owner, asset) == i,
        registry.entry_for(owner, asset) == registry.entries@[i],
{
    assert(registry.has_entry(owner, asset));
    let k = registry.entry_index(owner, asset);
    if k != i {
        let lo = if k < i {
            k
        } else {
            i
        };
        let hi = if k < i {
            i
        } else {
            k
        };
        assert(!(registry.entries@[lo].owner == registry.entries@[hi].owner
            && registry.entries@[lo].asset == registry.entries@[hi].asset));
    }
}

} // verus!
