//! The engine's model of the external token service, at the boundary the
//! engine consumes: a token account holds a balance of one settlement asset
//! and may carry a capped spending delegation, and the service offers
//! `transfer`, `approve` and `revoke`.
//!
//! A transfer is authorized either by the account's holder or by its
//! delegate, spending against (and consuming) the standing delegation.
//! These operations require their feasibility up front: the instruction
//! handlers establish every leg of an operation before applying any of it,
//! which is what makes a whole operation atomic.

use vstd::prelude::*;

use crate::state::Address;

verus! {

/// One token account of the settlement ledger.
#[derive(Clone, Copy, Debug, PartialEq, Eq, Structural)]
pub struct TokenAccount {
    /// The identity that holds this account.
    pub owner: Address,
    /// The settlement asset this account denominates.
    pub mint: Address,
    /// Current balance, in the asset's smallest unit.
    pub amount: u64,
    /// The one identity, if any, holding a spending delegation.
    pub delegate: Option<Address>,
    /// How much the delegate may still spend.
    pub delegated_amount: u64,
}

/// Whether `authority` may move `amount` out of `from`: the delegate may,
/// against its remaining delegation, and otherwise the holder may.
pub open spec fn spec_authorized(from: TokenAccount, authority: Address, amount: u64) -> bool {
    if from.delegate == Some(authority) {
        from.delegated_amount >= amount
    } else {
        from.owner == authority
    }
}

/// Whether the ledger would accept a transfer of `amount` from `from` to
/// `to` under `authority`: the authority must have the spend, the source
/// must have the funds, the two accounts must share the asset, and the
/// destination balance must be able to take the credit.
pub open spec fn spec_transfer_ok(
    from: TokenAccount,
    to: TokenAccount,
    authority: Address,
    amount: u64,
) -> bool {
    &&& spec_authorized(from, authority, amount)
    &&& from.amount >= amount
    &&& from.mint == to.mint
    &&& to.amount + amount <= u64::MAX
}

/// The source account after a transfer of `amount` under `authority`: the
/// balance drops, and a delegated spend consumes that much delegation,
/// clearing an exhausted delegation entirely.
pub open spec fn spec_debited(from: TokenAccount, authority: Address, amount: u64) -> TokenAccount
    recommends
        spec_authorized(from, authority, amount),
        from.amount >= amount,
{
    if from.delegate == Some(authority) {
        if from.delegated_amount - amount == 0 {
            TokenAccount {
                amount: (from.amount - amount) as u64,
                delegate: None,
                delegated_amount: 0,
                ..from
            }
        } else {
            TokenAccount {
                amount: (from.amount - amount) as u64,
                delegated_amount: (from.delegated_amount - amount) as u64,
                ..from
            }
        }
    } else {
        TokenAccount { amount: (from.amount - amount) as u64, ..from }
    }
}

/// Both accounts of a transfer after it is applied: the debited source and
/// the credited destination.
pub open spec fn spec_transfer_step(
    from: TokenAccount,
    to: TokenAccount,
    authority: Address,
    amount: u64,
) -> (TokenAccount, TokenAccount)
    recommends
        spec_transfer_ok(from, to, authority, amount),
{
    (
        spec_debited(from, authority, amount),
        TokenAccount { amount: (to.amount + amount) as u64, ..to },
    )
}

/// Decides `spec_transfer_ok`: whether the ledger would accept the
/// transfer.
pub fn transfer_ok_check(
    from: &TokenAccount,
    to: &TokenAccount,
    authority: &Address,
    amount: u64,
) -> (b: bool)
    ensures
        b == spec_transfer_ok(*from, *to, *authority, amount),
{
    let authorized: bool = if from.delegate == Some(*authority) {
        from.delegated_amount >= amount
    } else {
        from.owner == *authority
    };
    authorized && from.amount >= amount && from.mint == to.mint && amount <= u64::MAX - to.amount
}

/// Moves `amount` from `from` to `to` on the authority of `authority`.
pub fn transfer(from: &mut TokenAccount, to: &mut TokenAccount, authority: &Address, amount: u64)
    requires
        spec_transfer_ok(*old(from), *old(to), *authority, amount),
    ensures
        (*final(from), *final(to)) == spec_transfer_step(*old(from), *old(to), *authority, amount),
        *final(from) == spec_debited(*old(from), *authority, amount),
        *final(to) == (TokenAccount { amount: (old(to).amount + amount) as u64, ..*old(to) }),
        final(from).amount + final(to).amount == old(from).amount + old(to).amount,
{
    from.amount = from.amount - amount;
    if from.delegate == Some(*authority) {
        from.delegated_amount = from.delegated_amount - amount;
        if from.delegated_amount == 0 {
            from.delegate = None;
        }
    }
    to.amount = to.amount + amount;
}

/// Grants `delegate` a spending delegation of `amount` over `account`,
/// replacing any earlier delegation. Only the holder may grant one.
pub fn approve(account: &mut TokenAccount, authority: &Address, delegate: &Address, amount: u64)
    requires
        old(account).owner == *authority,
    ensures
        *final(account) == (TokenAccount {
            delegate: Some(*delegate),
            delegated_amount: amount,
            ..*old(account)
        }),
{
    account.delegate = Some(*delegate);
    account.delegated_amount = amount;
}

/// Clears any standing delegation over `account`. Only the holder may.
pub fn revoke(account: &mut TokenAccount, authority: &Address)
    requires
        old(account).owner == *authority,
    ensures
        *final(account) == (TokenAccount { delegate: None, delegated_amount: 0, ..*old(account) }),
{
    account.delegate = None;
    account.delegated_amount = 0;
}

} // verus!
