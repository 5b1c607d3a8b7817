//! Marking intent to cancel.
//!
//! Cancellation does not stop billing: a pending-cancellation subscription
//! still runs out its paid term and may still be charged for later terms
//! until it is closed. Only the subscriber may cancel, and only an
//! `Active` subscription.

use vstd::prelude::*;

use crate::errors::SubscriptionErrors;
use crate::state::{Address, Plan, Subscription, SubscriptionState};

verus! {

/// The accounts a cancel operates on; `payer` is the caller, who must be
/// the subscriber.
#[derive(Clone, Debug)]
pub struct CancelSubscriptionParams {
    pub subscription_account: Subscription,
    pub plan_account: Plan,
    pub payer: Address,
}

/// What a cancel does, and what it returns: a non-owner caller or a
/// subscription not in `Active` changes nothing; otherwise the state
/// becomes `PendingCancellation` and nothing else changes.
pub open spec fn spec_cancel(p: CancelSubscriptionParams) -> (
    CancelSubscriptionParams,
    Result<(), SubscriptionErrors>,
) {
    if p.payer != p.subscription_account.owner {
        (p, Err(SubscriptionErrors::Unauthorized))
    } else if !(p.subscription_account.state is Active) {
        (p, Err(SubscriptionErrors::InvalidState))
    } else {
        (
            CancelSubscriptionParams {
                subscription_account: Subscription {
                    state: SubscriptionState::PendingCancellation,
                    ..p.subscription_account
                },
                ..p
            },
            Ok(()),
        )
    }
}

/// Marks the subscription for cancellation, as `spec_cancel` lays down.
pub fn handle_cancel_subscription(p: &mut CancelSubscriptionParams) -> (r: Result<
    (),
    SubscriptionErrors,
>)
    ensures
        (*final(p), r) == spec_cancel(*old(p)),
{
    if p.payer != p.subscription_account.owner {
        return Err(SubscriptionErrors::Unauthorized);
    }
    if !(p.subscription_account.state == SubscriptionState::Active) {
        return Err(SubscriptionErrors::InvalidState);
    }
    p.subscription_account.state = SubscriptionState::PendingCancellation;
    Ok(())
}

} // verus!
