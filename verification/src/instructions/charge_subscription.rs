//! The periodic charge: the heart of the billing engine.
//!
//! A charge is gated on time, soft-fails into `PastDue` when the subscriber
//! is short, and otherwise moves the term's price in three legs — from the
//! subscriber's funding account into the plan's settlement account on the
//! subscription authority's standing delegation, from there to the plan
//! owner minus the fee, and the fee to the fee collector — then advances
//! the due date by exactly one term. All three legs are applied atomically:
//! if the ledger would reject any leg, nothing at all changes.

use vstd::prelude::*;

use crate::authority::{fee_collector, spec_fee_collector};
use crate::errors::SubscriptionErrors;
use crate::math::{spec_tax, tax_of};
use crate::state::{spec_term_seconds, Address, Plan, Subscription, SubscriptionState};
use crate::token::{
    spec_transfer_ok, spec_transfer_step, transfer, transfer_ok_check, TokenAccount,
};

verus! {

/// The accounts a charge operates on. The `*_key` fields carry the ledger
/// addresses of the records, as resolved by the host: `subscription_key` is
/// the subscription's own derived address, which doubles as its escrow
/// authority, and `plan_key` the plan's, which holds the settlement
/// account. Any caller may invoke a charge; `payer` is the caller.
#[derive(Clone, Debug)]
pub struct ChargeSubscriptionParams {
    pub subscription_account: Subscription,
    pub plan_account: Plan,
    pub plan_token_account: TokenAccount,
    pub subscriber_token_account: TokenAccount,
    pub owner_token_account: TokenAccount,
    pub deployer_token_account: TokenAccount,
    pub subscription_key: Address,
    pub plan_key: Address,
    pub payer: Address,
}

/// The account constraints of a charge: every token account denominates the
/// plan's settlement asset, the settlement account is held by the plan, the
/// funding account by the subscriber, the payout account by the plan owner,
/// the fee account by the fixed fee collector, and the subscription indeed
/// references the supplied plan.
pub open spec fn charge_accounts_ok(p: ChargeSubscriptionParams) -> bool {
    &&& p.plan_token_account.mint == p.plan_account.token_mint
    &&& p.plan_token_account.owner == p.plan_key
    &&& p.subscriber_token_account.mint == p.plan_account.token_mint
    &&& p.subscriber_token_account.owner == p.subscription_account.owner
    &&& p.owner_token_account.mint == p.plan_account.token_mint
    &&& p.owner_token_account.owner == p.plan_account.owner
    &&& p.deployer_token_account.mint == p.plan_account.token_mint
    &&& p.deployer_token_account.owner == spec_fee_collector()
    &&& p.subscription_account.plan_account == p.plan_key
}

/// Whether the ledger accepts all three legs of a funded charge, each
/// checked against the balances the earlier legs leave behind.
pub open spec fn charge_transfers_ok(p: ChargeSubscriptionParams) -> bool {
    let price = p.plan_account.price;
    let tax = spec_tax(price as int);
    let (s1, e1) = spec_transfer_step(
        p.subscriber_token_account,
        p.plan_token_account,
        p.subscription_key,
        price,
    );
    let (e2, o1) = spec_transfer_step(e1, p.owner_token_account, p.plan_key, (price - tax) as u64);
    &&& spec_transfer_ok(p.subscriber_token_account, p.plan_token_account, p.subscription_key, price)
    &&& spec_transfer_ok(e1, p.owner_token_account, p.plan_key, (price - tax) as u64)
    &&& spec_transfer_ok(e2, p.deployer_token_account, p.plan_key, tax as u64)
}

/// The accounts after the three legs of a funded charge and the term
/// rollover: the subscriber paid the price, the owner received the price
/// minus the fee, the fee collector the fee, the settlement account is
/// passed through net-zero, the due date advanced by one term, and a
/// `PastDue` subscription is caught up to `Active`.
pub open spec fn charge_applied(p: ChargeSubscriptionParams) -> ChargeSubscriptionParams
    recommends
        charge_transfers_ok(p),
{
    let price = p.plan_account.price;
    let tax = spec_tax(price as int);
    let (s1, e1) = spec_transfer_step(
        p.subscriber_token_account,
        p.plan_token_account,
        p.subscription_key,
        price,
    );
    let (e2, o1) = spec_transfer_step(e1, p.owner_token_account, p.plan_key, (price - tax) as u64);
    let (e3, d1) = spec_transfer_step(e2, p.deployer_token_account, p.plan_key, tax as u64);
    ChargeSubscriptionParams {
        subscription_account: Subscription {
            next_term_date: (p.subscription_account.next_term_date + spec_term_seconds(
                p.plan_account.term,
            )) as i64,
            state: if p.subscription_account.state is PastDue {
                SubscriptionState::Active
            } else {
                p.subscription_account.state
            },
            ..p.subscription_account
        },
        subscriber_token_account: s1,
        plan_token_account: e3,
        owner_token_account: o1,
        deployer_token_account: d1,
        ..p
    }
}

/// What a charge at time `current` does to its accounts, and what it
/// returns: rejected accounts and early attempts change nothing; a due
/// charge against a short funding account succeeds, freezes the due date
/// and marks the subscription `PastDue`; a due, funded charge applies the
/// three legs and the rollover, or changes nothing if the ledger would
/// reject a leg.
pub open spec fn spec_charge(p: ChargeSubscriptionParams, current: i64) -> (
    ChargeSubscriptionParams,
    Result<(), SubscriptionErrors>,
) {
    if !charge_accounts_ok(p) {
        (p, Err(SubscriptionErrors::AccountMismatch))
    } else if current < p.subscription_account.next_term_date {
        (p, Err(SubscriptionErrors::SubscriptionNotReady))
    } else if p.subscriber_token_account.amount < p.plan_account.price {
        (
            ChargeSubscriptionParams {
                subscription_account: Subscription {
                    state: SubscriptionState::PastDue,
                    ..p.subscription_account
                },
                ..p
            },
            Ok(()),
        )
    } else if !charge_transfers_ok(p) {
        (p, Err(SubscriptionErrors::TransferFailed))
    } else {
        (charge_applied(p), Ok(()))
    }
}

/// The total held across the four token accounts of a charge.
pub open spec fn charge_balance_total(p: ChargeSubscriptionParams) -> int {
    p.subscriber_token_account.amount + p.plan_token_account.amount
        + p.owner_token_account.amount + p.deployer_token_account.amount
}

/// Decides `charge_accounts_ok`.
fn charge_accounts_valid(p: &ChargeSubscriptionParams) -> (b: bool)
    ensures
        b == charge_accounts_ok(*p),
{
    let fee = fee_collector();
    p.plan_token_account.mint == p.plan_account.token_mint
        && p.plan_token_account.owner == p.plan_key
        && p.subscriber_token_account.mint == p.plan_account.token_mint
        && p.subscriber_token_account.owner == p.subscription_account.owner
        && p.owner_token_account.mint == p.plan_account.token_mint
        && p.owner_token_account.owner == p.plan_account.owner
        && p.deployer_token_account.mint == p.plan_account.token_mint
        && p.deployer_token_account.owner == fee
        && p.subscription_account.plan_account == p.plan_key
}

/// Charges the subscription for its next term, as `spec_charge` lays down.
///
/// On every outcome the four token balances conserve: nothing is minted and
/// nothing leaks. On the successful funded outcome the due date advances by
/// exactly one term length, never more, never less.
pub fn handle_charge_subscription(p: &mut ChargeSubscriptionParams, current: i64) -> (r: Result<
    (),
    SubscriptionErrors,
>)
    requires
        old(p).subscription_account.next_term_date + spec_term_seconds(old(p).plan_account.term)
            <= i64::MAX,
    ensures
        (*final(p), r) == spec_charge(*old(p), current),
        charge_balance_total(*final(p)) == charge_balance_total(*old(p)),
        r is Ok && old(p).subscriber_token_account.amount >= old(p).plan_account.price
            ==> final(p).subscription_account.next_term_date
            == old(p).subscription_account.next_term_date
            + spec_term_seconds(old(p).plan_account.term),
{
    if !charge_accounts_valid(p) {
        return Err(SubscriptionErrors::AccountMismatch);
    }
    if current < p.subscription_account.next_term_date {
        return Err(SubscriptionErrors::SubscriptionNotReady);
    }
    if p.subscriber_token_account.amount < p.plan_account.price {
        p.subscription_account.state = SubscriptionState::PastDue;
        return Ok(());
    }
    let price = p.plan_account.price;
    let tax = tax_of(price);

    let mut subscriber_token = p.subscriber_token_account;
    let mut plan_token = p.plan_token_account;
    let mut owner_token = p.owner_token_account;
    let mut deployer_token = p.deployer_token_account;

    if !transfer_ok_check(&subscriber_token, &plan_token, &p.subscription_key, price) {
        return Err(SubscriptionErrors::TransferFailed);
    }
    transfer(&mut subscriber_token, &mut plan_token, &p.subscription_key, price);
    if !transfer_ok_check(&plan_token, &owner_token, &p.plan_key, price - tax) {
        return Err(SubscriptionErrors::TransferFailed);
    }
    transfer(&mut plan_token, &mut owner_token, &p.plan_key, price - tax);
    if !transfer_ok_check(&plan_token, &deployer_token, &p.plan_key, tax) {
        return Err(SubscriptionErrors::TransferFailed);
    }
    transfer(&mut plan_token, &mut deployer_token, &p.plan_key, tax);

    p.subscriber_token_account = subscriber_token;
    p.plan_token_account = plan_token;
    p.owner_token_account = owner_token;
    p.deployer_token_account = deployer_token;
    p.subscription_account.next_term_date = p.subscription_account.next_term_date
        + (p.plan_account.term.seconds() as i64);
    if p.subscription_account.state == SubscriptionState::PastDue {
        p.subscription_account.state = SubscriptionState::Active;
    }
    Ok(())
}

} // verus!
