//! Closing a subscription: the terminal operation, with pro-rated refund.
//!
//! Only the subscriber may close. The plan's count of active subscriptions
//! drops (never below zero). If part of the paid term is unused, the
//! subscriber is refunded the floor of `price * remaining / term_length`
//! out of the settlement account, the plan owner is paid the rest minus
//! the fee, and the fee goes to the fee collector — three legs, applied
//! atomically or not at all. At or past the due date no refund leg is
//! attempted. Either way the standing delegation on the subscriber's
//! funding account is revoked; the host then reclaims the record's storage
//! for the closer.

use vstd::prelude::*;

use crate::authority::{fee_collector, spec_fee_collector};
use crate::errors::SubscriptionErrors;
use crate::math::{refund_of, spec_refund, spec_tax, tax_of};
use crate::state::{spec_term_seconds, Address, Plan, Subscription};
use crate::token::{
    revoke, spec_transfer_ok, spec_transfer_step, transfer, transfer_ok_check, TokenAccount,
};

verus! {

/// The accounts a close operates on. `plan_key` is the plan record's
/// ledger address, which holds the settlement account; `payer` is the
/// caller, who must be the subscriber. The refund, if any, goes to
/// `payer_token_account`, the subscriber's funding account, which also
/// carries the delegation to revoke.
#[derive(Clone, Debug)]
pub struct CloseSubscriptionParams {
    pub subscription_account: Subscription,
    pub plan_account: Plan,
    pub plan_token_account: TokenAccount,
    pub subscriber_token_account: TokenAccount,
    pub payer_token_account: TokenAccount,
    pub plan_owner_token_account: TokenAccount,
    pub deployer_token_account: TokenAccount,
    pub plan_key: Address,
    pub payer: Address,
}

/// The account constraints of a close: every token account denominates the
/// plan's settlement asset, the settlement account is held by the plan,
/// the subscriber's accounts by the subscriber, the payout account by the
/// plan owner, the fee account by the fixed fee collector, and the
/// subscription references the supplied plan.
pub open spec fn close_accounts_ok(p: CloseSubscriptionParams) -> bool {
    &&& p.plan_token_account.mint == p.plan_account.token_mint
    &&& p.plan_token_account.owner == p.plan_key
    &&& p.subscriber_token_account.mint == p.plan_account.token_mint
    &&& p.subscriber_token_account.owner == p.subscription_account.owner
    &&& p.payer_token_account.mint == p.plan_account.token_mint
    &&& p.payer_token_account.owner == p.subscription_account.owner
    &&& p.plan_owner_token_account.mint == p.plan_account.token_mint
    &&& p.plan_owner_token_account.owner == p.plan_account.owner
    &&& p.deployer_token_account.mint == p.plan_account.token_mint
    &&& p.deployer_token_account.owner == spec_fee_collector()
    &&& p.subscription_account.plan_account == p.plan_key
}

/// The plan after a close: one fewer active subscription, floored at zero.
pub open spec fn plan_after_close(plan: Plan) -> Plan {
    if plan.active_subscriptions > 0 {
        Plan { active_subscriptions: (plan.active_subscriptions - 1) as u32, ..plan }
    } else {
        plan
    }
}

/// The refund owed at `current` for the unused part of the term:
/// `spec_refund` of the remaining seconds, or nothing at or past the due
/// date.
pub open spec fn refund_due(p: CloseSubscriptionParams, current: i64) -> int {
    if current < p.subscription_account.next_term_date {
        spec_refund(
            p.plan_account.price as int,
            p.subscription_account.next_term_date - current,
            spec_term_seconds(p.plan_account.term) as int,
        )
    } else {
        0
    }
}

/// Whether the ledger accepts all three refund legs, each checked against
/// the balances the earlier legs leave behind.
pub open spec fn close_transfers_ok(p: CloseSubscriptionParams, current: i64) -> bool {
    let refund = refund_due(p, current);
    let total = p.plan_account.price - refund;
    let tax = spec_tax(total);
    let (e1, pay1) = spec_transfer_step(
        p.plan_token_account,
        p.payer_token_account,
        p.plan_key,
        refund as u64,
    );
    let (e2, own1) = spec_transfer_step(
        e1,
        p.plan_owner_token_account,
        p.plan_key,
        (total - tax) as u64,
    );
    &&& spec_transfer_ok(p.plan_token_account, p.payer_token_account, p.plan_key, refund as u64)
    &&& spec_transfer_ok(e1, p.plan_owner_token_account, p.plan_key, (total - tax) as u64)
    &&& spec_transfer_ok(e2, p.deployer_token_account, p.plan_key, tax as u64)
}

/// The accounts after the three refund legs, the delegation revocation and
/// the count decrement of a close before the due date.
pub open spec fn close_applied(p: CloseSubscriptionParams, current: i64) -> CloseSubscriptionParams
    recommends
        close_transfers_ok(p, current),
{
    let refund = refund_due(p, current);
    let total = p.plan_account.price - refund;
    let tax = spec_tax(total);
    let (e1, pay1) = spec_transfer_step(
        p.plan_token_account,
        p.payer_token_account,
        p.plan_key,
        refund as u64,
    );
    let (e2, own1) = spec_transfer_step(
        e1,
        p.plan_owner_token_account,
        p.plan_key,
        (total - tax) as u64,
    );
    let (e3, d1) = spec_transfer_step(e2, p.deployer_token_account, p.plan_key, tax as u64);
    CloseSubscriptionParams {
        plan_account: plan_after_close(p.plan_account),
        plan_token_account: e3,
        payer_token_account: TokenAccount { delegate: None, delegated_amount: 0, ..pay1 },
        plan_owner_token_account: own1,
        deployer_token_account: d1,
        ..p
    }
}

/// What a close at time `current` does to its accounts, and what it
/// returns. A non-owner caller and mismatched accounts change nothing.
/// Before the due date the three refund legs are applied, or nothing at
/// all changes if the ledger would reject one; at or past the due date no
/// refund leg is attempted. On success the count drops and the delegation
/// on the subscriber's funding account is cleared.
pub open spec fn spec_close(p: CloseSubscriptionParams, current: i64) -> (
    CloseSubscriptionParams,
    Result<(), SubscriptionErrors>,
) {
    if p.payer != p.subscription_account.owner {
        (p, Err(SubscriptionErrors::Unauthorized))
    } else if !close_accounts_ok(p) {
        (p, Err(SubscriptionErrors::AccountMismatch))
    } else if current < p.subscription_account.next_term_date {
        if !close_transfers_ok(p, current) {
            (p, Err(SubscriptionErrors::TransferFailed))
        } else {
            (close_applied(p, current), Ok(()))
        }
    } else {
        (
            CloseSubscriptionParams {
                plan_account: plan_after_close(p.plan_account),
                payer_token_account: TokenAccount {
                    delegate: None,
                    delegated_amount: 0,
                    ..p.payer_token_account
                },
                ..p
            },
            Ok(()),
        )
    }
}

/// The total held across the five token accounts of a close.
pub open spec fn close_balance_total(p: CloseSubscriptionParams) -> int {
    p.plan_token_account.amount + p.subscriber_token_account.amount
        + p.payer_token_account.amount + p.plan_owner_token_account.amount
        + p.deployer_token_account.amount
}

/// Decides `close_accounts_ok`.
fn close_accounts_valid(p: &CloseSubscriptionParams) -> (b: bool)
    ensures
        b == close_accounts_ok(*p),
{
    let fee = fee_collector();
    p.plan_token_account.mint == p.plan_account.token_mint
        && p.plan_token_account.owner == p.plan_key
        && p.subscriber_token_account.mint == p.plan_account.token_mint
        && p.subscriber_token_account.owner == p.subscription_account.owner
        && p.payer_token_account.mint == p.plan_account.token_mint
        && p.payer_token_account.owner == p.subscription_account.owner
        && p.plan_owner_token_account.mint == p.plan_account.token_mint
        && p.plan_owner_token_account.owner == p.plan_account.owner
        && p.deployer_token_account.mint == p.plan_account.token_mint
        && p.deployer_token_account.owner == fee
        && p.subscription_account.plan_account == p.plan_key
}

/// Closes the subscription, as `spec_close` lays down.
///
/// On every outcome the five token balances conserve. The subscription
/// record itself is not altered here: on success the host destroys it and
/// returns its storage cost to the closer.
pub fn handle_close_subscription(p: &mut CloseSubscriptionParams, current: i64) -> (r: Result<
    (),
    SubscriptionErrors,
>)
    requires
        old(p).subscription_account.next_term_date - current <= spec_term_seconds(
            old(p).plan_account.term,
        ),
    ensures
        (*final(p), r) == spec_close(*old(p), current),
        close_balance_total(*final(p)) == close_balance_total(*old(p)),
{
    if p.payer != p.subscription_account.owner {
        return Err(SubscriptionErrors::Unauthorized);
    }
    if !close_accounts_valid(p) {
        return Err(SubscriptionErrors::AccountMismatch);
    }
    if current < p.subscription_account.next_term_date {
        let remaining: i64 = p.subscription_account.next_term_date - current;
        let term_len = p.plan_account.term.seconds();
        let price = p.plan_account.price;
        let refund = refund_of(price, remaining as u64, term_len);
        let total = price - refund;
        let tax = tax_of(total);

        let mut plan_token = p.plan_token_account;
        let mut payer_token = p.payer_token_account;
        let mut owner_token = p.plan_owner_token_account;
        let mut deployer_token = p.deployer_token_account;

        if !transfer_ok_check(&plan_token, &payer_token, &p.plan_key, refund) {
            return Err(SubscriptionErrors::TransferFailed);
        }
        transfer(&mut plan_token, &mut payer_token, &p.plan_key, refund);
        if !transfer_ok_check(&plan_token, &owner_token, &p.plan_key, total - tax) {
            return Err(SubscriptionErrors::TransferFailed);
        }
        transfer(&mut plan_token, &mut owner_token, &p.plan_key, total - tax);
        if !transfer_ok_check(&plan_token, &deployer_token, &p.plan_key, tax) {
            return Err(SubscriptionErrors::TransferFailed);
        }
        transfer(&mut plan_token, &mut deployer_token, &p.plan_key, tax);

        revoke(&mut payer_token, &p.payer);

        p.plan_token_account = plan_token;
        p.payer_token_account = payer_token;
        p.plan_owner_token_account = owner_token;
        p.deployer_token_account = deployer_token;
    } else {
        let mut payer_token = p.payer_token_account;
        revoke(&mut payer_token, &p.payer);
        p.payer_token_account = payer_token;
    }
    if p.plan_account.active_subscriptions > 0 {
        p.plan_account.active_subscriptions = p.plan_account.active_subscriptions - 1;
    }
    Ok(())
}

} // verus!
