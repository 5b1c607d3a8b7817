//! A recurring-billing engine: plan owners register subscription plans, and
//! subscribers enroll, are charged once per billing term, may cancel or
//! uncancel, and may close with a pro-rated refund.
//!
//! The engine itself never holds a signing key. Funds move only through
//! derived escrow authorities (`authority`), and every movement is expressed
//! against the token-account model in `token`. The instruction handlers in
//! `instructions` validate the supplied accounts, gate on time and balance,
//! and apply all transfers of an operation atomically: either every leg of an
//! operation is applied or none is.

pub mod authority;
pub mod errors;
pub mod instructions;
pub mod math;
pub mod laws;
pub mod state;
pub mod token;

use vstd::prelude::*;

use crate::errors::SubscriptionErrors;
use crate::instructions::cancel_subscription::{
    handle_cancel_subscription, spec_cancel, CancelSubscriptionParams,
};
use crate::instructions::charge_subscription::{
    charge_balance_total, handle_charge_subscription, spec_charge, ChargeSubscriptionParams,
};
use crate::instructions::close_subscription::{
    close_balance_total, handle_close_subscription, spec_close, CloseSubscriptionParams,
};
use crate::instructions::create_plan::{handle_create_plan, spec_create_plan, CreatePlanParams};
use crate::instructions::create_subscription::{
    handle_create_subscription, spec_create_subscription, CreateSubscriptionParams,
};
use crate::instructions::uncancel_subscription::{
    handle_uncancel_subscription, spec_uncancel, UncancelSubscriptionParams,
};
use crate::state::{spec_term_seconds, CreatePlanData, CreateSubscriptionData};

verus! {

/// Registers a plan (see `spec_create_plan`).
pub fn create_plan(params: &mut CreatePlanParams, data: CreatePlanData) -> (r: Result<
    (),
    SubscriptionErrors,
>)
    ensures
        (*final(params), r) == spec_create_plan(*old(params), data),
{
    handle_create_plan(params, data)
}

/// Enrolls a subscriber against a plan at time `now` (see
/// `spec_create_subscription`).
pub fn create_subscription(
    params: &mut CreateSubscriptionParams,
    data: CreateSubscriptionData,
    now: i64,
) -> (r: Result<(), SubscriptionErrors>)
    requires
        now + spec_term_seconds(old(params).plan_account.term) <= i64::MAX,
        old(params).plan_account.active_subscriptions < u32::MAX,
    ensures
        (*final(params), r) == spec_create_subscription(*old(params), data, now),
{
    handle_create_subscription(params, data, now)
}

/// Charges a subscription for its next term at time `current` (see
/// `spec_charge`). The four token balances conserve on every outcome.
pub fn charge_subscription(params: &mut ChargeSubscriptionParams, current: i64) -> (r: Result<
    (),
    SubscriptionErrors,
>)
    requires
        old(params).subscription_account.next_term_date + spec_term_seconds(
            old(params).plan_account.term,
        ) <= i64::MAX,
    ensures
        (*final(params), r) == spec_charge(*old(params), current),
        charge_balance_total(*final(params)) == charge_balance_total(*old(params)),
{
    handle_charge_subscription(params, current)
}

/// Marks a subscription for cancellation (see `spec_cancel`).
pub fn cancel_subscription(params: &mut CancelSubscriptionParams) -> (r: Result<
    (),
    SubscriptionErrors,
>)
    ensures
        (*final(params), r) == spec_cancel(*old(params)),
{
    handle_cancel_subscription(params)
}

/// Reverts a cancellation mark (see `spec_uncancel`).
pub fn uncancel_subscription(params: &mut UncancelSubscriptionParams) -> (r: Result<
    (),
    SubscriptionErrors,
>)
    ensures
        (*final(params), r) == spec_uncancel(*old(params)),
{
    handle_uncancel_subscription(params)
}

/// Closes a subscription at time `current`, refunding the unused part of
/// the term (see `spec_close`). The five token balances conserve on every
/// outcome.
pub fn close_subscription(params: &mut CloseSubscriptionParams, current: i64) -> (r: Result<
    (),
    SubscriptionErrors,
>)
    requires
        old(params).subscription_account.next_term_date - current <= spec_term_seconds(
            old(params).plan_account.term,
        ),
    ensures
        (*final(params), r) == spec_close(*old(params), current),
        close_balance_total(*final(params)) == close_balance_total(*old(params)),
{
    handle_close_subscription(params, current)
}

} // verus!
