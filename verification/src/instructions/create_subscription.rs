//! Enrollment: creating a subscription against a plan.
//!
//! In one atomic step the fresh subscription record is written (state
//! `Active`, first due date one term from now), the plan's count of active
//! subscriptions rises, the subscriber grants the subscription's escrow
//! authority a capped spending delegation over the funding account — the
//! bound on worst-case drain — and the first term's price moves, under the
//! subscriber's own authority, into the plan's settlement account. If the
//! ledger would reject that first transfer, nothing at all changes.

use vstd::prelude::*;

use crate::errors::SubscriptionErrors;
use crate::state::{
    spec_term_seconds, Address, CreateSubscriptionData, Plan, Subscription, SubscriptionState,
};
use crate::token::{
    approve, spec_transfer_ok, spec_transfer_step, transfer, transfer_ok_check, TokenAccount,
};

verus! {

/// The accounts an enrollment operates on. `subscription_key` is the
/// address the host allocated for the fresh subscription record — it
/// doubles as the subscription's escrow authority and so becomes the
/// delegate on the funding account. `payer_token_key` is the funding
/// account's address, recorded in the subscription; `payer` is the
/// enrolling subscriber.
#[derive(Clone, Debug)]
pub struct CreateSubscriptionParams {
    pub subscription_account: Subscription,
    pub plan_account: Plan,
    pub payer_token_account: TokenAccount,
    pub plan_token_account: TokenAccount,
    pub subscription_key: Address,
    pub plan_key: Address,
    pub payer_token_key: Address,
    pub payer: Address,
}

/// The account constraints of an enrollment: both token accounts
/// denominate the plan's settlement asset, the funding account is held by
/// the enrolling subscriber, and the settlement account by the plan.
pub open spec fn create_subscription_accounts_ok(p: CreateSubscriptionParams) -> bool {
    &&& p.payer_token_account.mint == p.plan_account.token_mint
    &&& p.payer_token_account.owner == p.payer
    &&& p.plan_token_account.mint == p.plan_account.token_mint
    &&& p.plan_token_account.owner == p.plan_key
}

/// The funding account once the delegation to the subscription authority
/// is in place.
pub open spec fn funding_delegated(p: CreateSubscriptionParams, data: CreateSubscriptionData)
    -> TokenAccount {
    TokenAccount {
        delegate: Some(p.subscription_key),
        delegated_amount: data.delegation_amount,
        ..p.payer_token_account
    }
}

/// Whether the ledger accepts the first term's payment out of the
/// delegated funding account under the subscriber's own authority.
pub open spec fn create_subscription_transfer_ok(
    p: CreateSubscriptionParams,
    data: CreateSubscriptionData,
) -> bool {
    spec_transfer_ok(funding_delegated(p, data), p.plan_token_account, p.payer, p.plan_account.price)
}

/// What an enrollment at time `now` does to its accounts, and what it
/// returns: mismatched accounts change nothing, as does an enrollment
/// whose first payment the ledger would reject; otherwise the record is
/// written, the count rises, the delegation is granted and the first
/// term's price is paid.
pub open spec fn spec_create_subscription(
    p: CreateSubscriptionParams,
    data: CreateSubscriptionData,
    now: i64,
) -> (CreateSubscriptionParams, Result<(), SubscriptionErrors>) {
    if !create_subscription_accounts_ok(p) {
        (p, Err(SubscriptionErrors::AccountMismatch))
    } else if !create_subscription_transfer_ok(p, data) {
        (p, Err(SubscriptionErrors::TransferFailed))
    } else {
        let (pay1, esc1) = spec_transfer_step(
            funding_delegated(p, data),
            p.plan_token_account,
            p.payer,
            p.plan_account.price,
        );
        (
            CreateSubscriptionParams {
                subscription_account: Subscription {
                    plan_account: p.plan_key,
                    payer_token_account: p.payer_token_key,
                    next_term_date: (now + spec_term_seconds(p.plan_account.term)) as i64,
                    owner: p.payer,
                    state: SubscriptionState::Active,
                },
                plan_account: Plan {
                    active_subscriptions: (p.plan_account.active_subscriptions + 1) as u32,
                    ..p.plan_account
                },
                payer_token_account: pay1,
                plan_token_account: esc1,
                ..p
            },
            Ok(()),
        )
    }
}

/// Decides `create_subscription_accounts_ok`.
fn create_subscription_accounts_valid(p: &CreateSubscriptionParams) -> (b: bool)
    ensures
        b == create_subscription_accounts_ok(*p),
{
    p.payer_token_account.mint == p.plan_account.token_mint
        && p.payer_token_account.owner == p.payer
        && p.plan_token_account.mint == p.plan_account.token_mint
        && p.plan_token_account.owner == p.plan_key
}

/// Enrolls the subscriber against the plan, as `spec_create_subscription`
/// lays down. The two token balances conserve: the first term's price
/// moves from funding to settlement account, and nothing else moves.
pub fn handle_create_subscription(
    p: &mut CreateSubscriptionParams,
    data: CreateSubscriptionData,
    now: i64,
) -> (r: Result<(), SubscriptionErrors>)
    requires
        now + spec_term_seconds(old(p).plan_account.term) <= i64::MAX,
        old(p).plan_account.active_subscriptions < u32::MAX,
    ensures
        (*final(p), r) == spec_create_subscription(*old(p), data, now),
        final(p).payer_token_account.amount + final(p).plan_token_account.amount == old(
            p,
        ).payer_token_account.amount + old(p).plan_token_account.amount,
{
    if !create_subscription_accounts_valid(p) {
        return Err(SubscriptionErrors::AccountMismatch);
    }
    let mut payer_token = p.payer_token_account;
    let mut plan_token = p.plan_token_account;
    approve(&mut payer_token, &p.payer, &p.subscription_key, data.delegation_amount);
    if !transfer_ok_check(&payer_token, &plan_token, &p.payer, p.plan_account.price) {
        return Err(SubscriptionErrors::TransferFailed);
    }
    transfer(&mut payer_token, &mut plan_token, &p.payer, p.plan_account.price);

    p.subscription_account = Subscription {
        plan_account: p.plan_key,
        payer_token_account: p.payer_token_key,
        next_term_date: now + (p.plan_account.term.seconds() as i64),
        owner: p.payer,
        state: SubscriptionState::Active,
    };
    p.plan_account.active_subscriptions = p.plan_account.active_subscriptions + 1;
    p.payer_token_account = payer_token;
    p.plan_token_account = plan_token;
    Ok(())
}

} // verus!
