//! Durable records of the billing engine: the `Plan` a creator registers and
//! the `Subscription` a subscriber holds against it, together with the value
//! types they are built from.

use vstd::prelude::*;

verus! {

/// A 32-byte account address, stored as four 64-bit words in little-endian
/// order (word 0 holds bytes 0..8 of the address, and so on).
#[derive(Clone, Copy, Debug, PartialEq, Eq, Structural)]
pub struct Address {
    pub w0: u64,
    pub w1: u64,
    pub w2: u64,
    pub w3: u64,
}

/// The 32 bytes of an address, word 0 first, each word little-endian.
pub open spec fn addr_bytes(a: Address) -> Seq<u8> {
    vstd::bytes::spec_u64_to_le_bytes(a.w0) + vstd::bytes::spec_u64_to_le_bytes(a.w1)
        + vstd::bytes::spec_u64_to_le_bytes(a.w2) + vstd::bytes::spec_u64_to_le_bytes(a.w3)
}

/// The billing period of a plan, mapped to a fixed number of seconds.
/// The two short periods exist for exercising the engine.
#[derive(Clone, Copy, Debug, PartialEq, Eq, Structural)]
pub enum Term {
    OneSecond,
    ThirtySeconds,
    OneWeek,
    ThirtyDays,
    OneYear,
}

/// How many seconds one billing term of `term` lasts.
pub open spec fn spec_term_seconds(term: Term) -> u64 {
    match term {
        Term::OneSecond => 1,
        Term::ThirtySeconds => 30,
        Term::OneWeek => 604800,
        Term::ThirtyDays => 2592000,
        Term::OneYear => 31536000,
    }
}

impl Term {
    /// The length of one billing term, in seconds.
    pub fn seconds(&self) -> (s: u64)
        ensures
            s == spec_term_seconds(*self),
            1 <= s <= 31536000,
    {
        match self {
            Term::OneSecond => 1,
            Term::ThirtySeconds => 30,
            Term::OneWeek => 604800,
            Term::ThirtyDays => 2592000,
            Term::OneYear => 31536000,
        }
    }
}

impl Default for Term {
    fn default() -> (t: Term)
        ensures
            t == Term::ThirtyDays,
    {
        Term::ThirtyDays
    }
}

/// The lifecycle state of a subscription.
///
/// `PendingCancellation` marks intent only: a pending-cancellation
/// subscription still runs out its paid term and may still be charged until
/// it is closed. `PastDue` marks a subscription whose due charge found the
/// funding account short; its due date stays frozen until a charge succeeds.
#[derive(Clone, Copy, Debug, PartialEq, Eq, Structural)]
pub enum SubscriptionState {
    Active,
    PendingCancellation,
    PastDue,
}

impl Default for SubscriptionState {
    fn default() -> (s: SubscriptionState)
        ensures
            s == SubscriptionState::Active,
    {
        SubscriptionState::Active
    }
}

/// A billable offering, owned by its creator.
///
/// After creation the only field that ever changes is
/// `active_subscriptions`, the count of non-closed subscriptions against
/// this plan.
#[derive(Clone, Debug)]
pub struct Plan {
    /// Short identifier, unique per owner; part of the plan's storage
    /// address and of its escrow-authority derivation. At most 32 bytes.
    pub code: Vec<u8>,
    /// The identity entitled to the settled funds, minus the fee.
    pub owner: Address,
    /// Amount per billing term, in the settlement asset's smallest unit.
    pub price: u64,
    /// The settlement asset every transfer for this plan must use.
    pub token_mint: Address,
    /// The billing period.
    pub term: Term,
    /// Count of non-closed subscriptions; never below zero.
    pub active_subscriptions: u32,
}

/// A plan is well formed when its code fits the 32-byte seed limit.
pub open spec fn plan_wf(p: Plan) -> bool {
    p.code@.len() <= 32
}

/// One subscriber's enrollment against one plan.
#[derive(Clone, Copy, Debug, PartialEq, Eq, Structural)]
pub struct Subscription {
    /// Address of the `Plan` record this subscription is against.
    pub plan_account: Address,
    /// Address of the subscriber's funding token account.
    pub payer_token_account: Address,
    /// Timestamp (seconds) at or after which the next charge is permitted.
    /// Never set backward, and advanced by exactly one term per successful
    /// charge.
    pub next_term_date: i64,
    /// The subscriber's identity.
    pub owner: Address,
    /// Lifecycle state.
    pub state: SubscriptionState,
}

/// The caller-supplied payload of `create_plan`.
#[derive(Clone, Debug)]
pub struct CreatePlanData {
    pub code: Vec<u8>,
    pub price: u64,
    pub term: Term,
}

/// The caller-supplied payload of `create_subscription`: the cap on the
/// spending delegation granted to the subscription's escrow authority.
#[derive(Clone, Copy, Debug, PartialEq, Eq, Structural)]
pub struct CreateSubscriptionData {
    pub delegation_amount: u64,
}

} // verus!
