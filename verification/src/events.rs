use vstd::prelude::*;

use crate::model::Pubkey;

verus! {

/// Emitted when a user subscribes to a plan.
#[derive(Clone, Copy, PartialEq, Eq, Structural, Debug)]
pub struct SubscriptionEvent {
    pub wallet: Pubkey,
    pub plan_id: u8,
    pub expiry: i64,
    pub timestamp: i64,
}

/// Emitted when a coverage record is minted.
#[derive(Clone, Copy, PartialEq, Eq, Structural, Debug)]
pub struct InsuranceNftMinted {
    pub wallet: Pubkey,
    pub mint: Pubkey,
    pub tier: u8,
    pub expiry: i64,
    pub payout_cap: u64,
}

/// Emitted when a protection action is dispatched.
#[derive(Clone, PartialEq, Eq, Debug)]
pub struct ProtectionTriggered {
    pub wallet: Pubkey,
    /// The dispatched action's name: `"SWAP"` or `"FREEZE"`.
    pub action: String,
    pub token: Pubkey,
    pub amount: u64,
    pub timestamp: i64,
}

/// Emitted when a newly ingested score reaches the user's threshold.
#[derive(Clone, Copy, PartialEq, Eq, Structural, Debug)]
pub struct RiskThresholdBreached {
    pub wallet: Pubkey,
    pub score: u8,
    pub threshold: u8,
    pub timestamp: i64,
}

/// Emitted when a claim is opened and its coverage escrowed.
#[derive(Clone, Copy, PartialEq, Eq, Structural, Debug)]
pub struct ClaimInitiated {
    pub wallet: Pubkey,
    pub claim_id: Pubkey,
    pub amount: u64,
    pub timestamp: i64,
}

/// Emitted on every accepted vote, whether or not it resolved the claim.
#[derive(Clone, Copy, PartialEq, Eq, Structural, Debug)]
pub struct ClaimVoted {
    pub claim_id: Pubkey,
    pub voter: Pubkey,
    pub approve: bool,
    pub timestamp: i64,
}

} // verus!
