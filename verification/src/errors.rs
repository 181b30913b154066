use vstd::prelude::*;

verus! {

/// Why an operation was rejected.
///
/// Every failure is a violated precondition, never an internal fault: the
/// first failing check aborts the whole operation and no state is mutated.
#[derive(Clone, Copy, PartialEq, Eq, Structural, Debug)]
pub enum ErrorCode {
    /// The payment offered for a subscription plan is below the plan's price.
    InsufficientPayment,
    /// The user has no active subscription.
    NoActiveSubscription,
    /// The user's subscription exists but has expired.
    SubscriptionExpired,
    /// The requested protection action kind is not dispatchable.
    InvalidAction,
    /// The coverage record backing a claim has expired.
    InsuranceExpired,
    /// The requested claim amount exceeds the coverage's payout cap.
    ClaimExceedsCap,
    /// The voter is not the configured governance authority.
    UnauthorizedGovernance,
    /// The requested subscription plan id does not exist.
    InvalidPlan,
    /// The oracle signature over a score message did not verify.
    InvalidSignature,
    /// A vote arrived after the claim had already resolved.
    ClaimAlreadyResolved,
    /// A claim's proof payload exceeds the hard size bound.
    ProofTooLarge,
    /// A protection action was requested before any score was ingested.
    NoScoreHistory,
}

} // verus!
