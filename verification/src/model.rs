use vstd::prelude::*;

use crate::errors::ErrorCode;

verus! {

/// Upper bound on a profile's stored score history; the oldest entry is
/// evicted when a new score arrives at capacity.
pub const SCORE_HISTORY_CAP: usize = 10;

/// Upper bound on the number of watched assets in a user's preferences.
pub const WATCHLIST_CAP: usize = 10;

/// Upper bound, in bytes, on a claim's opaque proof payload.
pub const MAX_PROOF_LEN: usize = 1024;

/// Identity of an account: a wallet, token account, escrow, treasury or pool.
///
/// The engine only ever compares identities for equality, so an identity is
/// held as a plain numeric id.
#[derive(Clone, Copy, PartialEq, Eq, Structural, Debug)]
pub struct Pubkey {
    pub id: u64,
}

/// A request to the external asset-transfer service:
/// move `amount` units from `from` to `to`.
#[derive(Clone, Copy, PartialEq, Eq, Structural, Debug)]
pub struct TransferRequest {
    pub from: Pubkey,
    pub to: Pubkey,
    pub amount: u64,
}

/// A request to the external asset-transfer service:
/// mint `quantity` units of a token to `to`.
#[derive(Clone, Copy, PartialEq, Eq, Structural, Debug)]
pub struct MintRequest {
    pub to: Pubkey,
    pub quantity: u64,
}

/// A user's protection preferences.
#[derive(Clone, Debug)]
pub struct RiskParams {
    /// A newly ingested score at or above this value breaches the threshold.
    pub risk_threshold: u8,
    /// Assets the user wants watched; bounded by [`WATCHLIST_CAP`].
    pub watchlist: Vec<Pubkey>,
    pub auto_swap: bool,
    pub auto_freeze: bool,
}

impl RiskParams {
    pub open spec fn wf(self) -> bool {
        self.watchlist@.len() <= WATCHLIST_CAP
    }
}

/// One oracle-reported risk score.
#[derive(Clone, Copy, PartialEq, Eq, Structural, Debug)]
pub struct Score {
    pub value: u8,
    pub timestamp: i64,
}

/// The canonical message an oracle signs when reporting a score.
#[derive(Clone, Copy, PartialEq, Eq, Structural, Debug)]
pub struct ScoreMessage {
    pub wallet: Pubkey,
    pub score: u8,
    pub timestamp: i64,
}

/// The kinds of protection action a user or trigger can request.
///
/// Only `Swap` and `Freeze` are dispatchable; `Alert` and `Claim` are
/// declared but rejected with [`ErrorCode::InvalidAction`].
#[derive(Clone, Copy, PartialEq, Eq, Structural, Debug)]
pub enum ProtectionAction {
    Swap,
    Freeze,
    Alert,
    Claim,
}

/// Lifecycle state of a claim: `Pending` until quorum is reached, then
/// terminally `Approved` or `Rejected`.
#[derive(Clone, Copy, PartialEq, Eq, Structural, Debug)]
pub enum ClaimStatus {
    Pending,
    Approved,
    Rejected,
}

/// Per-user profile record: preferences, subscription status and the bounded
/// history of recently ingested scores.
#[derive(Clone, Debug)]
pub struct UserAccount {
    pub wallet: Pubkey,
    pub preferences: RiskParams,
    pub active_sub: bool,
    /// Absolute time at which the subscription lapses.
    pub subscription_expiry: i64,
    /// Most recent scores, oldest first; bounded by [`SCORE_HISTORY_CAP`].
    pub score_history: Vec<Score>,
}

impl UserAccount {
    pub open spec fn wf(self) -> bool {
        &&& self.score_history@.len() <= SCORE_HISTORY_CAP
        &&& self.preferences.wf()
    }
}

/// A time-bounded, capped coverage record ("insurance NFT") owned by one
/// user; immutable once minted.
#[derive(Clone, Copy, PartialEq, Eq, Structural, Debug)]
pub struct InsuranceNFT {
    pub tier: u8,
    /// Absolute time at which the coverage lapses.
    pub expiry: i64,
    /// Hard upper bound on any claim against this coverage.
    pub payout_cap: u64,
    pub token_mint: Pubkey,
    pub owner: Pubkey,
}

/// Append-only audit record of one protection action.
#[derive(Clone, Copy, PartialEq, Eq, Structural, Debug)]
pub struct ActionLog {
    pub timestamp: i64,
    pub trigger_type: ProtectionAction,
    pub token: Pubkey,
    /// The latest ingested score at the time the action fired.
    pub score: u8,
}

/// A claim against a coverage record, resolved by quorum voting.
#[derive(Clone, Debug)]
pub struct Claim {
    pub claimant: Pubkey,
    pub amount: u64,
    pub timestamp: i64,
    pub status: ClaimStatus,
    /// Opaque evidence payload; bounded by [`MAX_PROOF_LEN`].
    pub evidence: Vec<u8>,
    /// Identity of the coverage record this claim is filed against.
    pub insurance_nft: Pubkey,
    pub approval_votes: u64,
    pub rejection_votes: u64,
}

/// Governance configuration for claim voting.
#[derive(Clone, Copy, PartialEq, Eq, Structural, Debug)]
pub struct Governance {
    pub authority: Pubkey,
    /// Votes on one side needed to resolve a claim; always at least 1.
    pub quorum: u64,
    pub voting_duration: i64,
}

impl Governance {
    pub open spec fn wf(self) -> bool {
        self.quorum >= 1
    }

    /// Voting policy: only the configured authority may vote.
    pub fn is_authorized(&self, voter: &Pubkey) -> (r: bool)
        ensures
            r == (*voter == self.authority),
    {
        *voter == self.authority
    }
}

/// A fixed protection plan: its id, nominal duration in seconds, and price
/// in 6-decimal currency units.
#[derive(Clone, Copy, PartialEq, Eq, Structural, Debug)]
pub struct SubscriptionPlan {
    pub id: u8,
    pub duration: u64,
    pub price: u64,
}

/// The fixed plan table: what `plan_id` resolves to, or `InvalidPlan`.
pub open spec fn spec_get_plan(plan_id: u8) -> Result<SubscriptionPlan, ErrorCode> {
    if plan_id == 1 {
        Ok(SubscriptionPlan { id: 1, duration: 2_592_000, price: 10_000_000 })
    } else if plan_id == 2 {
        Ok(SubscriptionPlan { id: 2, duration: 7_776_000, price: 25_000_000 })
    } else {
        Err(ErrorCode::InvalidPlan)
    }
}

impl SubscriptionPlan {
    /// Look up the fixed plan table: plan 1 runs 30 days for 10 units,
    /// plan 2 runs 90 days for 25 units, and any other id is rejected.
    pub fn get_plan(plan_id: u8) -> (r: Result<Self, ErrorCode>)
        ensures
            r == spec_get_plan(plan_id),
    {
        match plan_id {
            1 => Ok(SubscriptionPlan { id: 1, duration: 2_592_000, price: 10_000_000 }),
            2 => Ok(SubscriptionPlan { id: 2, duration: 7_776_000, price: 25_000_000 }),
            _ => Err(ErrorCode::InvalidPlan),
        }
    }
}

} // verus!
