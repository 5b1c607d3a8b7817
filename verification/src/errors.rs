//! The discrete failure kinds an operation of the engine can report.
//!
//! A failed operation changes nothing: no record is mutated and no funds
//! move. The one deliberate exception is the insufficient-funds outcome of a
//! charge, which is not an error at all — the charge succeeds, marks the
//! subscription `PastDue`, and moves nothing.

use vstd::prelude::*;

verus! {

#[derive(Clone, Copy, Debug, PartialEq, Eq, Structural)]
pub enum SubscriptionErrors {
    /// A charge was attempted before the subscription's next term date.
    SubscriptionNotReady,
    /// The caller is not the owner the operation requires.
    Unauthorized,
    /// The subscription is not in a state that permits the operation.
    InvalidState,
    /// A supplied account does not satisfy the operation's constraints
    /// (wrong settlement asset, wrong holder, or wrong record linkage).
    AccountMismatch,
    /// A plan code longer than the 32 bytes a plan may carry.
    PlanCodeTooLong,
    /// The ledger would reject a transfer leg of the operation (missing or
    /// exhausted delegation, underfunded source, or a balance that cannot
    /// take the credit), so the whole operation is abandoned.
    TransferFailed,
}

impl SubscriptionErrors {
    /// A short description of the failure.
    pub fn message(&self) -> String {
        match self {
            SubscriptionErrors::SubscriptionNotReady => {
                "Subscription is not ready to be credited".to_string()
            },
            SubscriptionErrors::Unauthorized => "Caller is not the owner".to_string(),
            SubscriptionErrors::InvalidState => {
                "Subscription state does not permit this operation".to_string()
            },
            SubscriptionErrors::AccountMismatch => {
                "An account does not satisfy the operation's constraints".to_string()
            },
            SubscriptionErrors::PlanCodeTooLong => {
                "Plan code is longer than 32 bytes".to_string()
            },
            SubscriptionErrors::TransferFailed => {
                "The ledger would reject a transfer leg".to_string()
            },
        }
    }
}

} // verus!
