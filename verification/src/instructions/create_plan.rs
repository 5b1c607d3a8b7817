//! Registering a plan: a pure record write.
//!
//! The host allocates the plan record at the address derived from the
//! creator and the plan code, and a settlement account held by the plan;
//! the handler fills the record in. Nothing is charged here.

use vstd::prelude::*;

use crate::errors::SubscriptionErrors;
use crate::state::{plan_wf, Address, CreatePlanData, Plan};
use crate::token::TokenAccount;

verus! {

/// The accounts a plan registration operates on. `plan_key` is the address
/// the host allocated for the fresh plan record; the settlement account
/// must already be held by it. `payer`, the caller, becomes the plan's
/// owner.
#[derive(Clone, Debug)]
pub struct CreatePlanParams {
    pub plan_account: Plan,
    pub plan_token_account: TokenAccount,
    pub plan_key: Address,
    pub payer: Address,
}

/// The account constraint of a plan registration: the settlement account
/// is held by the plan record's address.
pub open spec fn create_plan_accounts_ok(p: CreatePlanParams) -> bool {
    p.plan_token_account.owner == p.plan_key
}

/// The freshly written plan: the caller's code, price and term, the
/// settlement asset taken from the settlement account, and no active
/// subscriptions yet.
pub open spec fn plan_created(p: CreatePlanParams, data: CreatePlanData) -> Plan {
    Plan {
        code: data.code,
        owner: p.payer,
        price: data.price,
        token_mint: p.plan_token_account.mint,
        term: data.term,
        active_subscriptions: 0,
    }
}

/// What a plan registration does, and what it returns: a code over 32
/// bytes or a mismatched settlement account changes nothing; otherwise
/// the record is written.
pub open spec fn spec_create_plan(p: CreatePlanParams, data: CreatePlanData) -> (
    CreatePlanParams,
    Result<(), SubscriptionErrors>,
) {
    if data.code@.len() > 32 {
        (p, Err(SubscriptionErrors::PlanCodeTooLong))
    } else if !create_plan_accounts_ok(p) {
        (p, Err(SubscriptionErrors::AccountMismatch))
    } else {
        (CreatePlanParams { plan_account: plan_created(p, data), ..p }, Ok(()))
    }
}

/// Registers the plan, as `spec_create_plan` lays down. A written plan is
/// well formed: its code fits the 32-byte seed limit.
pub fn handle_create_plan(p: &mut CreatePlanParams, data: CreatePlanData) -> (r: Result<
    (),
    SubscriptionErrors,
>)
    ensures
        (*final(p), r) == spec_create_plan(*old(p), data),
        r is Ok ==> plan_wf(final(p).plan_account),
{
    if data.code.len() > 32 {
        return Err(SubscriptionErrors::PlanCodeTooLong);
    }
    if !(p.plan_token_account.owner == p.plan_key) {
        return Err(SubscriptionErrors::AccountMismatch);
    }
    p.plan_account = Plan {
        code: data.code,
        owner: p.payer,
        price: data.price,
        token_mint: p.plan_token_account.mint,
        term: data.term,
        active_subscriptions: 0,
    };
    Ok(())
}

} // verus!
