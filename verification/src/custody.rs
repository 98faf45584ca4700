use vstd::prelude::*;

use crate::account::AccountId;

verus! {

/// One instruction to the custody gateway. The engine never performs these
/// itself: it returns them in order, and the host must carry them out within
/// the same atomic unit as the ledger mutation, or abandon both.
#[derive(Clone, Copy, Debug, PartialEq, Eq, Structural)]
pub enum CustodyCommand {
    /// Approve `delegate_authority` to move `amount` units of `asset` out of
    /// `owner`'s holding.
    Delegate { owner: AccountId, asset: AccountId, delegate_authority: AccountId, amount: u64 },
    /// Freeze `asset` under the delegated authority, so that the owner keeps
    /// the asset but cannot transfer it.
    Freeze { asset: AccountId, delegate_authority: AccountId },
    /// Undo `Freeze`.
    Thaw { asset: AccountId, delegate_authority: AccountId },
    /// Return transfer authority over `asset` solely to `owner`.
    Revoke { asset: AccountId, owner: AccountId },
}

/// The custody protocol of a successful stake: delegate exactly one unit of
/// the asset to the program authority, then freeze it under that authority.
pub open spec fn stake_commands(
    owner: AccountId,
    asset: AccountId,
    delegate_authority: AccountId,
) -> Seq<CustodyCommand> {
    seq![
        CustodyCommand::Delegate { owner, asset, delegate_authority, amount: 1 },
        CustodyCommand::Freeze { asset, delegate_authority },
    ]
}

/// The custody protocol of a successful unstake: thaw the asset, then revoke
/// the delegation, releasing custody back to the owner.
pub open spec fn unstake_commands(
    owner: AccountId,
    asset: AccountId,
    delegate_authority: AccountId,
) -> Seq<CustodyCommand> {
    seq![
        CustodyCommand::Thaw { asset, delegate_authority },
        CustodyCommand::Revoke { asset, owner },
    ]
}

} // verus!
