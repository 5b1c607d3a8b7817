//! End-to-end scenarios of the billing engine on concrete accounts.

use subscription_program::authority::fee_collector;
use subscription_program::create_plan;
use subscription_program::create_subscription;
use subscription_program::charge_subscription;
use subscription_program::cancel_subscription;
use subscription_program::uncancel_subscription;
use subscription_program::close_subscription;
use subscription_program::errors::SubscriptionErrors;
use subscription_program::instructions::cancel_subscription::CancelSubscriptionParams;
use subscription_program::instructions::charge_subscription::ChargeSubscriptionParams;
use subscription_program::instructions::close_subscription::CloseSubscriptionParams;
use subscription_program::instructions::create_plan::CreatePlanParams;
use subscription_program::instructions::create_subscription::CreateSubscriptionParams;
use subscription_program::instructions::uncancel_subscription::UncancelSubscriptionParams;
use subscription_program::state::{
    Address, CreatePlanData, CreateSubscriptionData, Plan, Subscription, SubscriptionState, Term,
};
use subscription_program::token::TokenAccount;

fn addr(n: u64) -> Address {
    Address { w0: n, w1: 0, w2: 0, w3: 0 }
}

fn token(owner: Address, mint: Address, amount: u64) -> TokenAccount {
    TokenAccount { owner, mint, amount, delegate: None, delegated_amount: 0 }
}

fn plan(price: u64, term: Term) -> Plan {
    Plan {
        code: b"basic".to_vec(),
        owner: addr(3),
        price,
        token_mint: addr(1),
        term,
        active_subscriptions: 1,
    }
}

/// A consistent set of charge accounts: plan price 1000 per 30 days, the
/// subscriber funded with `funded` and delegated `delegated` to the
/// subscription authority, due at 1000.
fn charge_params(funded: u64, delegated: u64) -> ChargeSubscriptionParams {
    let mint = addr(1);
    let sub_owner = addr(2);
    let plan_owner = addr(3);
    let plan_key = addr(4);
    let sub_key = addr(5);
    ChargeSubscriptionParams {
        subscription_account: Subscription {
            plan_account: plan_key,
            payer_token_account: addr(6),
            next_term_date: 1000,
            owner: sub_owner,
            state: SubscriptionState::Active,
        },
        plan_account: plan(1000, Term::ThirtyDays),
        plan_token_account: token(plan_key, mint, 0),
        subscriber_token_account: TokenAccount {
            owner: sub_owner,
            mint,
            amount: funded,
            delegate: Some(sub_key),
            delegated_amount: delegated,
        },
        owner_token_account: token(plan_owner, mint, 0),
        deployer_token_account: token(fee_collector(), mint, 0),
        subscription_key: sub_key,
        plan_key,
        payer: addr(9),
    }
}

fn close_params(escrow: u64, next_term_date: i64) -> CloseSubscriptionParams {
    let mint = addr(1);
    let sub_owner = addr(2);
    let plan_owner = addr(3);
    let plan_key = addr(4);
    let sub_key = addr(5);
    CloseSubscriptionParams {
        subscription_account: Subscription {
            plan_account: plan_key,
            payer_token_account: addr(6),
            next_term_date,
            owner: sub_owner,
            state: SubscriptionState::Active,
        },
        plan_account: plan(1000, Term::ThirtyDays),
        plan_token_account: token(plan_key, mint, escrow),
        subscriber_token_account: token(sub_owner, mint, 0),
        payer_token_account: TokenAccount {
            owner: sub_owner,
            mint,
            amount: 0,
            delegate: Some(sub_key),
            delegated_amount: 4000,
        },
        plan_owner_token_account: token(plan_owner, mint, 0),
        deployer_token_account: token(fee_collector(), mint, 0),
        plan_key,
        payer: sub_owner,
    }
}

#[test]
fn create_plan_writes_record() {
    let mint = addr(1);
    let plan_key = addr(4);
    let mut p = CreatePlanParams {
        plan_account: plan(0, Term::OneSecond),
        plan_token_account: token(plan_key, mint, 0),
        plan_key,
        payer: addr(7),
    };
    let data = CreatePlanData { code: b"gold".to_vec(), price: 2500, term: Term::OneWeek };
    assert_eq!(create_plan(&mut p, data), Ok(()));
    assert_eq!(p.plan_account.code, b"gold".to_vec());
    assert_eq!(p.plan_account.owner, addr(7));
    assert_eq!(p.plan_account.price, 2500);
    assert_eq!(p.plan_account.token_mint, mint);
    assert_eq!(p.plan_account.term, Term::OneWeek);
    assert_eq!(p.plan_account.active_subscriptions, 0);
}

#[test]
fn create_plan_rejects_long_code() {
    let mint = addr(1);
    let plan_key = addr(4);
    let mut p = CreatePlanParams {
        plan_account: plan(0, Term::OneSecond),
        plan_token_account: token(plan_key, mint, 0),
        plan_key,
        payer: addr(7),
    };
    let data = CreatePlanData { code: vec![7u8; 33], price: 1, term: Term::OneYear };
    assert_eq!(create_plan(&mut p, data), Err(SubscriptionErrors::PlanCodeTooLong));
    assert_eq!(p.plan_account.price, 0);
}

#[test]
fn create_plan_rejects_foreign_settlement_account() {
    let mint = addr(1);
    let mut p = CreatePlanParams {
        plan_account: plan(0, Term::OneSecond),
        plan_token_account: token(addr(8), mint, 0),
        plan_key: addr(4),
        payer: addr(7),
    };
    let data = CreatePlanData { code: b"gold".to_vec(), price: 1, term: Term::OneYear };
    assert_eq!(create_plan(&mut p, data), Err(SubscriptionErrors::AccountMismatch));
}

fn enrollment() -> CreateSubscriptionParams {
    let mint = addr(1);
    let payer = addr(2);
    let plan_key = addr(4);
    CreateSubscriptionParams {
        subscription_account: Subscription {
            plan_account: addr(0),
            payer_token_account: addr(0),
            next_term_date: 0,
            owner: addr(0),
            state: SubscriptionState::PastDue,
        },
        plan_account: plan(1000, Term::ThirtyDays),
        payer_token_account: token(payer, mint, 1000),
        plan_token_account: token(plan_key, mint, 0),
        subscription_key: addr(5),
        plan_key,
        payer_token_key: addr(6),
        payer,
    }
}

#[test]
fn create_subscription_funds_first_term_and_delegates() {
    let mut p = enrollment();
    let now: i64 = 1_700_000_000;
    let r = create_subscription(&mut p, CreateSubscriptionData { delegation_amount: 5000 }, now);
    assert_eq!(r, Ok(()));
    assert_eq!(p.subscription_account.plan_account, addr(4));
    assert_eq!(p.subscription_account.payer_token_account, addr(6));
    assert_eq!(p.subscription_account.owner, addr(2));
    assert_eq!(p.subscription_account.state, SubscriptionState::Active);
    assert_eq!(p.subscription_account.next_term_date, now + 2_592_000);
    assert_eq!(p.plan_account.active_subscriptions, 2);
    assert_eq!(p.payer_token_account.amount, 0);
    assert_eq!(p.payer_token_account.delegate, Some(addr(5)));
    assert_eq!(p.payer_token_account.delegated_amount, 5000);
    assert_eq!(p.plan_token_account.amount, 1000);
}

#[test]
fn create_subscription_underfunded_changes_nothing() {
    let mut p = enrollment();
    p.payer_token_account.amount = 999;
    let r = create_subscription(&mut p, CreateSubscriptionData { delegation_amount: 5000 }, 0);
    assert_eq!(r, Err(SubscriptionErrors::TransferFailed));
    assert_eq!(p.payer_token_account.amount, 999);
    assert_eq!(p.payer_token_account.delegate, None);
    assert_eq!(p.plan_token_account.amount, 0);
    assert_eq!(p.plan_account.active_subscriptions, 1);
}

#[test]
fn charge_one_second_early_is_rejected_unchanged() {
    let mut p = charge_params(1000, 5000);
    let r = charge_subscription(&mut p, 999);
    assert_eq!(r, Err(SubscriptionErrors::SubscriptionNotReady));
    assert_eq!(p.subscriber_token_account.amount, 1000);
    assert_eq!(p.plan_token_account.amount, 0);
    assert_eq!(p.owner_token_account.amount, 0);
    assert_eq!(p.deployer_token_account.amount, 0);
    assert_eq!(p.subscription_account.next_term_date, 1000);
    assert_eq!(p.subscription_account.state, SubscriptionState::Active);
    // retrying changes nothing either
    let r2 = charge_subscription(&mut p, 999);
    assert_eq!(r2, Err(SubscriptionErrors::SubscriptionNotReady));
    assert_eq!(p.subscriber_token_account.amount, 1000);
    assert_eq!(p.subscription_account.next_term_date, 1000);
}

#[test]
fn charge_due_and_funded_splits_and_rolls_over() {
    let mut p = charge_params(1000, 5000);
    let r = charge_subscription(&mut p, 1000);
    assert_eq!(r, Ok(()));
    assert_eq!(p.subscriber_token_account.amount, 0);
    assert_eq!(p.subscriber_token_account.delegated_amount, 4000);
    assert_eq!(p.plan_token_account.amount, 0);
    assert_eq!(p.owner_token_account.amount, 970);
    assert_eq!(p.deployer_token_account.amount, 30);
    assert_eq!(p.subscription_account.next_term_date, 1000 + 2_592_000);
}

#[test]
fn charge_underfunded_goes_past_due_frozen() {
    let mut p = charge_params(500, 5000);
    let r = charge_subscription(&mut p, 1000);
    assert_eq!(r, Ok(()));
    assert_eq!(p.subscription_account.state, SubscriptionState::PastDue);
    assert_eq!(p.subscription_account.next_term_date, 1000);
    assert_eq!(p.subscriber_token_account.amount, 500);
    assert_eq!(p.plan_token_account.amount, 0);
    assert_eq!(p.owner_token_account.amount, 0);
    assert_eq!(p.deployer_token_account.amount, 0);
    // retrying while still short changes nothing further
    let r2 = charge_subscription(&mut p, 2000);
    assert_eq!(r2, Ok(()));
    assert_eq!(p.subscription_account.state, SubscriptionState::PastDue);
    assert_eq!(p.subscription_account.next_term_date, 1000);
    assert_eq!(p.subscriber_token_account.amount, 500);
    // once topped up, one charge advances the date by exactly one term
    p.subscriber_token_account.amount = 1000;
    let r3 = charge_subscription(&mut p, 2000);
    assert_eq!(r3, Ok(()));
    assert_eq!(p.subscription_account.state, SubscriptionState::Active);
    assert_eq!(p.subscription_account.next_term_date, 1000 + 2_592_000);
    assert_eq!(p.subscriber_token_account.amount, 0);
    assert_eq!(p.owner_token_account.amount, 970);
    assert_eq!(p.deployer_token_account.amount, 30);
}

#[test]
fn charge_without_delegation_aborts_whole_operation() {
    let mut p = charge_params(1000, 5000);
    p.subscriber_token_account.delegate = None;
    p.subscriber_token_account.delegated_amount = 0;
    let r = charge_subscription(&mut p, 1000);
    assert_eq!(r, Err(SubscriptionErrors::TransferFailed));
    assert_eq!(p.subscriber_token_account.amount, 1000);
    assert_eq!(p.plan_token_account.amount, 0);
    assert_eq!(p.owner_token_account.amount, 0);
    assert_eq!(p.subscription_account.next_term_date, 1000);
}

#[test]
fn charge_with_exhausted_delegation_aborts() {
    let mut p = charge_params(1000, 500);
    let r = charge_subscription(&mut p, 1000);
    assert_eq!(r, Err(SubscriptionErrors::TransferFailed));
    assert_eq!(p.subscriber_token_account.amount, 1000);
    assert_eq!(p.subscriber_token_account.delegated_amount, 500);
}

#[test]
fn charge_wrong_mint_is_rejected() {
    let mut p = charge_params(1000, 5000);
    p.subscriber_token_account.mint = addr(99);
    let r = charge_subscription(&mut p, 1000);
    assert_eq!(r, Err(SubscriptionErrors::AccountMismatch));
    assert_eq!(p.subscriber_token_account.amount, 1000);
}

#[test]
fn charge_ignores_pending_cancellation() {
    // cancellation marks intent only: billing continues until close
    let mut p = charge_params(1000, 5000);
    p.subscription_account.state = SubscriptionState::PendingCancellation;
    let r = charge_subscription(&mut p, 1000);
    assert_eq!(r, Ok(()));
    assert_eq!(p.owner_token_account.amount, 970);
    assert_eq!(p.subscription_account.state, SubscriptionState::PendingCancellation);
    assert_eq!(p.subscription_account.next_term_date, 1000 + 2_592_000);
}

#[test]
fn cancel_then_uncancel_round_trip() {
    let mut p = CancelSubscriptionParams {
        subscription_account: Subscription {
            plan_account: addr(4),
            payer_token_account: addr(6),
            next_term_date: 1000,
            owner: addr(2),
            state: SubscriptionState::Active,
        },
        plan_account: plan(1000, Term::ThirtyDays),
        payer: addr(2),
    };
    assert_eq!(cancel_subscription(&mut p), Ok(()));
    assert_eq!(p.subscription_account.state, SubscriptionState::PendingCancellation);
    let mut q = UncancelSubscriptionParams {
        subscription_account: p.subscription_account,
        plan_account: p.plan_account,
        payer: addr(2),
    };
    assert_eq!(uncancel_subscription(&mut q), Ok(()));
    assert_eq!(q.subscription_account.state, SubscriptionState::Active);
    assert_eq!(q.subscription_account.next_term_date, 1000);
}

#[test]
fn cancel_by_non_owner_is_rejected() {
    let mut p = CancelSubscriptionParams {
        subscription_account: Subscription {
            plan_account: addr(4),
            payer_token_account: addr(6),
            next_term_date: 1000,
            owner: addr(2),
            state: SubscriptionState::Active,
        },
        plan_account: plan(1000, Term::ThirtyDays),
        payer: addr(3),
    };
    assert_eq!(cancel_subscription(&mut p), Err(SubscriptionErrors::Unauthorized));
    assert_eq!(p.subscription_account.state, SubscriptionState::Active);
}

#[test]
fn cancel_from_past_due_is_rejected() {
    let mut p = CancelSubscriptionParams {
        subscription_account: Subscription {
            plan_account: addr(4),
            payer_token_account: addr(6),
            next_term_date: 1000,
            owner: addr(2),
            state: SubscriptionState::PastDue,
        },
        plan_account: plan(1000, Term::ThirtyDays),
        payer: addr(2),
    };
    assert_eq!(cancel_subscription(&mut p), Err(SubscriptionErrors::InvalidState));
    assert_eq!(p.subscription_account.state, SubscriptionState::PastDue);
}

#[test]
fn uncancel_of_active_subscription_is_rejected() {
    let mut p = UncancelSubscriptionParams {
        subscription_account: Subscription {
            plan_account: addr(4),
            payer_token_account: addr(6),
            next_term_date: 1000,
            owner: addr(2),
            state: SubscriptionState::Active,
        },
        plan_account: plan(1000, Term::ThirtyDays),
        payer: addr(2),
    };
    assert_eq!(uncancel_subscription(&mut p), Err(SubscriptionErrors::InvalidState));
}

#[test]
fn close_right_after_enrollment_refunds_whole_price() {
    // a full term remains, so the whole price comes back untaxed and the
    // owner leg and fee leg carry zero
    let now: i64 = 1_700_000_000;
    let mut p = close_params(1000, now + 2_592_000);
    let r = close_subscription(&mut p, now);
    assert_eq!(r, Ok(()));
    assert_eq!(p.payer_token_account.amount, 1000);
    assert_eq!(p.plan_token_account.amount, 0);
    assert_eq!(p.plan_owner_token_account.amount, 0);
    assert_eq!(p.deployer_token_account.amount, 0);
    assert_eq!(p.payer_token_account.delegate, None);
    assert_eq!(p.payer_token_account.delegated_amount, 0);
    assert_eq!(p.plan_account.active_subscriptions, 0);
}

#[test]
fn close_halfway_splits_refund_and_taxed_payout() {
    // half the term remains: refund 500; of the owed 500, tax 15, owner 485
    let mut p = close_params(1000, 2_592_000);
    let r = close_subscription(&mut p, 1_296_000);
    assert_eq!(r, Ok(()));
    assert_eq!(p.payer_token_account.amount, 500);
    assert_eq!(p.plan_owner_token_account.amount, 485);
    assert_eq!(p.deployer_token_account.amount, 15);
    assert_eq!(p.plan_token_account.amount, 0);
}

#[test]
fn close_exactly_at_due_date_refunds_nothing() {
    let due: i64 = 1_700_000_000;
    let mut p = close_params(1000, due);
    let r = close_subscription(&mut p, due);
    assert_eq!(r, Ok(()));
    assert_eq!(p.payer_token_account.amount, 0);
    assert_eq!(p.plan_token_account.amount, 1000);
    assert_eq!(p.plan_owner_token_account.amount, 0);
    assert_eq!(p.deployer_token_account.amount, 0);
    // the delegation is still revoked and the count still drops
    assert_eq!(p.payer_token_account.delegate, None);
    assert_eq!(p.plan_account.active_subscriptions, 0);
}

#[test]
fn close_by_non_owner_is_rejected() {
    let mut p = close_params(1000, 2_592_000);
    p.payer = addr(99);
    let r = close_subscription(&mut p, 0);
    assert_eq!(r, Err(SubscriptionErrors::Unauthorized));
    assert_eq!(p.plan_token_account.amount, 1000);
    assert_eq!(p.plan_account.active_subscriptions, 1);
}

#[test]
fn close_with_underfunded_settlement_account_aborts() {
    let mut p = close_params(400, 2_592_000);
    let r = close_subscription(&mut p, 1_296_000);
    assert_eq!(r, Err(SubscriptionErrors::TransferFailed));
    assert_eq!(p.plan_token_account.amount, 400);
    assert_eq!(p.payer_token_account.amount, 0);
    assert_eq!(p.payer_token_account.delegate, Some(addr(5)));
    assert_eq!(p.plan_account.active_subscriptions, 1);
}

#[test]
fn close_count_never_goes_below_zero() {
    let due: i64 = 1_700_000_000;
    let mut p = close_params(0, due);
    p.plan_account.active_subscriptions = 0;
    let r = close_subscription(&mut p, due);
    assert_eq!(r, Ok(()));
    assert_eq!(p.plan_account.active_subscriptions, 0);
}

#[test]
fn charge_and_close_conserve_funds() {
    // whatever a charge does, the four balances add up to the same total
    let mut p = charge_params(1000, 5000);
    p.plan_token_account.amount = 77;
    p.owner_token_account.amount = 11;
    p.deployer_token_account.amount = 5;
    let before = p.subscriber_token_account.amount
        + p.plan_token_account.amount
        + p.owner_token_account.amount
        + p.deployer_token_account.amount;
    charge_subscription(&mut p, 1000).unwrap();
    let after = p.subscriber_token_account.amount
        + p.plan_token_account.amount
        + p.owner_token_account.amount
        + p.deployer_token_account.amount;
    assert_eq!(before, after);

    // and a close keeps the five balances' total: refund + payout + fee is
    // exactly what leaves the settlement account
    let mut q = close_params(1300, 2_592_000);
    q.plan_owner_token_account.amount = 9;
    let before = q.plan_token_account.amount
        + q.subscriber_token_account.amount
        + q.payer_token_account.amount
        + q.plan_owner_token_account.amount
        + q.deployer_token_account.amount;
    close_subscription(&mut q, 1_296_000).unwrap();
    let after = q.plan_token_account.amount
        + q.subscriber_token_account.amount
        + q.payer_token_account.amount
        + q.plan_owner_token_account.amount
        + q.deployer_token_account.amount;
    assert_eq!(before, after);
    assert_eq!(q.payer_token_account.amount, 500);
    assert_eq!(q.plan_owner_token_account.amount, 9 + 485);
    assert_eq!(q.deployer_token_account.amount, 15);
    assert_eq!(q.plan_token_account.amount, 300);
}

#[test]
fn error_messages_name_their_failure() {
    assert_eq!(
        SubscriptionErrors::SubscriptionNotReady.message(),
        "Subscription is not ready to be credited"
    );
    assert_ne!(
        SubscriptionErrors::Unauthorized.message(),
        SubscriptionErrors::TransferFailed.message()
    );
}
