//! Reverting a cancellation.
//!
//! Only the subscriber may uncancel, and only a subscription in
//! `PendingCancellation`; it returns to `Active` with its due date
//! untouched.

use vstd::prelude::*;

use crate::errors::SubscriptionErrors;
use crate::state::{Address, Plan, Subscription, SubscriptionState};

verus! {

/// The accounts an uncancel operates on; `payer` is the caller, who must
/// be the subscriber.
#[derive(Clone, Debug)]
pub struct UncancelSubscriptionParams {
    pub subscription_account: Subscription,
    pub plan_account: Plan,
    pub payer: Address,
}

/// What an uncancel does, and what it returns: a non-owner caller or a
/// subscription not in `PendingCancellation` changes nothing; otherwise
/// the state returns to `Active` and nothing else changes.
pub open spec fn spec_uncancel(p: UncancelSubscriptionParams) -> (
    UncancelSubscriptionParams,
    Result<(), SubscriptionErrors>,
) {
    if p.payer != p.subscription_account.owner {
        (p, Err(SubscriptionErrors::Unauthorized))
    } else if !(p.subscription_account.state is PendingCancellation) {
        (p, Err(SubscriptionErrors::InvalidState))
    } else {
        (
            UncancelSubscriptionParams {
                subscription_account: Subscription {
                    state: SubscriptionState::Active,
                    ..p.subscription_account
                },
                ..p
            },
            Ok(()),
        )
    }
}

/// Reverts the cancellation mark, as `spec_uncancel` lays down.
pub fn handle_uncancel_subscription(p: &mut UncancelSubscriptionParams) -> (r: Result<
    (),
    SubscriptionErrors,
>)
    ensures
        (*final(p), r) == spec_uncancel(*old(p)),
{
    if p.payer != p.subscription_account.owner {
        return Err(SubscriptionErrors::Unauthorized);
    }
    if !(p.subscription_account.state == SubscriptionState::PendingCancellation) {
        return Err(SubscriptionErrors::InvalidState);
    }
    p.subscription_account.state = SubscriptionState::Active;
    Ok(())
}

} // verus!
