//! The engine-wide laws, proved over the operation models.
//!
//! Each lemma here states a guarantee that spans more than one clause of a
//! single operation: idempotence of early charge attempts, the frozen due
//! date of an underfunded subscription, the exactly-one-term rollover, and
//! conservation of funds.

use vstd::prelude::*;

use crate::errors::SubscriptionErrors;
use crate::instructions::charge_subscription::{
    charge_accounts_ok, charge_balance_total, charge_transfers_ok, spec_charge,
    ChargeSubscriptionParams,
};
use crate::instructions::close_subscription::{close_balance_total, spec_close, CloseSubscriptionParams};
use crate::state::{spec_term_seconds, SubscriptionState, Subscription};
use crate::token::TokenAccount;

verus! {

/// A charge attempted before the due date fails with not-ready and changes
/// nothing — and therefore a second early attempt does exactly the same:
/// retrying is a pure no-op.
pub proof fn lemma_charge_not_ready_idempotent(p: ChargeSubscriptionParams, current: i64)
    requires
        charge_accounts_ok(p),
        current < p.subscription_account.next_term_date,
    ensures
        spec_charge(p, current) == (p, Err::<(), SubscriptionErrors>(
            SubscriptionErrors::SubscriptionNotReady,
        )),
        spec_charge(spec_charge(p, current).0, current) == (p, Err::<(), SubscriptionErrors>(
            SubscriptionErrors::SubscriptionNotReady,
        )),
{
}

/// A due charge against a short funding account succeeds, marks the
/// subscription past due, and moves nothing: every account balance and the
/// due date stay exactly as they were. Charging again, at any time, while
/// the account stays short, changes nothing further.
pub proof fn lemma_charge_underfunded_freezes(p: ChargeSubscriptionParams, current: i64)
    requires
        charge_accounts_ok(p),
        current >= p.subscription_account.next_term_date,
        p.subscriber_token_account.amount < p.plan_account.price,
    ensures
        spec_charge(p, current).1 == Ok::<(), SubscriptionErrors>(()),
        spec_charge(p, current).0.subscription_account.next_term_date
            == p.subscription_account.next_term_date,
        spec_charge(p, current).0.subscription_account.state is PastDue,
        spec_charge(p, current).0.subscriber_token_account == p.subscriber_token_account,
        spec_charge(p, current).0.plan_token_account == p.plan_token_account,
        spec_charge(p, current).0.owner_token_account == p.owner_token_account,
        spec_charge(p, current).0.deployer_token_account == p.deployer_token_account,
        forall|later: i64| #[trigger] spec_charge(spec_charge(p, current).0, later).0
            == spec_charge(p, current).0,
{
    let p1 = spec_charge(p, current).0;
    assert forall|later: i64| #[trigger] spec_charge(p1, later).0 == p1 by {
        if later >= p1.subscription_account.next_term_date {
            assert(spec_charge(p1, later).0 == ChargeSubscriptionParams {
                subscription_account: Subscription {
                    state: SubscriptionState::PastDue,
                    ..p1.subscription_account
                },
                ..p1
            });
            assert(Subscription {
                state: SubscriptionState::PastDue,
                ..p1.subscription_account
            } == p1.subscription_account);
        }
    }
}

/// Once a past-due subscriber is funded again, a single charge catches the
/// subscription up: it succeeds and advances the due date by exactly one
/// term from where it was frozen — not two — and the subscription returns
/// to `Active`.
pub proof fn lemma_charge_after_topup_single_advance(
    p: ChargeSubscriptionParams,
    current: i64,
    topped_up: u64,
    later: i64,
)
    requires
        charge_accounts_ok(p),
        current >= p.subscription_account.next_term_date,
        p.subscriber_token_account.amount < p.plan_account.price,
        topped_up >= p.plan_account.price,
        later >= p.subscription_account.next_term_date,
        charge_transfers_ok(
            ChargeSubscriptionParams {
                subscriber_token_account: TokenAccount {
                    amount: topped_up,
                    ..spec_charge(p, current).0.subscriber_token_account
                },
                ..spec_charge(p, current).0
            },
        ),
        p.subscription_account.next_term_date + spec_term_seconds(p.plan_account.term)
            <= i64::MAX,
    ensures
        ({
            let frozen = spec_charge(p, current).0;
            let funded = ChargeSubscriptionParams {
                subscriber_token_account: TokenAccount {
                    amount: topped_up,
                    ..frozen.subscriber_token_account
                },
                ..frozen
            };
            &&& spec_charge(funded, later).1 == Ok::<(), SubscriptionErrors>(())
            &&& spec_charge(funded, later).0.subscription_account.next_term_date
                == p.subscription_account.next_term_date + spec_term_seconds(p.plan_account.term)
            &&& spec_charge(funded, later).0.subscription_account.state is Active
        }),
{
}

/// A charge either leaves the due date exactly where it was, or — on the
/// successful funded outcome — advances it by exactly one term length,
/// regardless of price or term. It never moves backward and never skips.
pub proof fn lemma_charge_advances_exactly_one_term(p: ChargeSubscriptionParams, current: i64)
    requires
        p.subscription_account.next_term_date + spec_term_seconds(p.plan_account.term)
            <= i64::MAX,
    ensures
        ({
            let after = spec_charge(p, current).0.subscription_account.next_term_date;
            let before = p.subscription_account.next_term_date;
            &&& after == before || after == before + spec_term_seconds(p.plan_account.term)
            &&& spec_charge(p, current).1 is Ok && charge_accounts_ok(p)
                && p.subscriber_token_account.amount >= p.plan_account.price ==> after == before
                + spec_term_seconds(p.plan_account.term)
            &&& after >= before
        }),
{
}

/// No charge outcome mints or leaks funds: whatever a charge does, the
/// total held across the subscriber's funding account, the settlement
/// account, the owner's account and the fee collector's account is
/// unchanged — what the subscriber pays is exactly what the owner and the
/// fee collector receive.
pub proof fn lemma_charge_conserves(p: ChargeSubscriptionParams, current: i64)
    ensures
        charge_balance_total(spec_charge(p, current).0) == charge_balance_total(p),
{
}

/// No close outcome mints or leaks funds: whatever a close does, the total
/// held across the settlement account and the four destination accounts is
/// unchanged — the refund, the owner payout and the fee add up to exactly
/// what leaves the settlement account.
pub proof fn lemma_close_conserves(p: CloseSubscriptionParams, current: i64)
    ensures
        close_balance_total(spec_close(p, current).0) == close_balance_total(p),
{
}

} // verus!
