use vstd::prelude::*;

use crate::errors::ErrorCode;
use crate::events::{ClaimInitiated, ClaimVoted};
use crate::model::{
    Claim, ClaimStatus, Governance, InsuranceNFT, Pubkey, TransferRequest, MAX_PROOF_LEN,
};

verus! {

/// What a resolved claim asks of the asset-transfer service.
#[derive(Clone, Copy, PartialEq, Eq, Structural, Debug)]
pub enum ClaimResolution {
    /// The claim was approved: pay the claimant from the insurance pool.
    Payout,
    /// The claim was rejected: return the escrowed coverage to its owner.
    ReturnToOwner,
}

/// Claim invariant under a given quorum: while a claim is still pending,
/// neither vote counter has reached the quorum (otherwise it would already
/// have resolved). `initiate_claim` establishes it and `vote_on_claim`
/// preserves it.
pub open spec fn claim_votes_bounded(c: Claim, quorum: u64) -> bool {
    c.status == ClaimStatus::Pending ==> c.approval_votes < quorum && c.rejection_votes < quorum
}

/// What opening a claim yields: the pending claim record and the escrow
/// transfer (one coverage token, owner to escrow), or the exact error.
pub open spec fn spec_initiate_claim(
    cov: InsuranceNFT,
    claimant: Pubkey,
    amount: u64,
    evidence: Vec<u8>,
    now: i64,
    coverage_id: Pubkey,
    escrow: Pubkey,
) -> Result<(Claim, TransferRequest), ErrorCode> {
    if now >= cov.expiry {
        Err(ErrorCode::InsuranceExpired)
    } else if amount > cov.payout_cap {
        Err(ErrorCode::ClaimExceedsCap)
    } else if evidence@.len() > MAX_PROOF_LEN {
        Err(ErrorCode::ProofTooLarge)
    } else {
        Ok(
            (
                Claim {
                    claimant,
                    amount,
                    timestamp: now,
                    status: ClaimStatus::Pending,
                    evidence,
                    insurance_nft: coverage_id,
                    approval_votes: 0,
                    rejection_votes: 0,
                },
                TransferRequest { from: cov.owner, to: escrow, amount: 1 },
            ),
        )
    }
}

/// Open a claim against an unexpired coverage record.
///
/// Rejected with `InsuranceExpired` when the coverage has lapsed, with
/// `ClaimExceedsCap` when `claim_amount` exceeds the coverage's payout cap,
/// and with `ProofTooLarge` when the evidence payload exceeds its hard size
/// bound — in that order, and with no claim created. On success the claim is
/// `Pending` with both vote counters at zero, and the caller is handed the
/// escrow transfer that locks the coverage token (owner to escrow) together
/// with the claim-initiated event; claim and escrow commit atomically.
pub fn initiate_claim(
    insurance_nft: &InsuranceNFT,
    coverage_id: Pubkey,
    claim_id: Pubkey,
    claimant: Pubkey,
    claim_amount: u64,
    evidence: Vec<u8>,
    now: i64,
    escrow: Pubkey,
) -> (r: Result<(Claim, ClaimInitiated, TransferRequest), ErrorCode>)
    ensures
        claim_amount > insurance_nft.payout_cap ==> r is Err,
        now < insurance_nft.expiry && claim_amount > insurance_nft.payout_cap ==> (r matches Err(e)
            && e == ErrorCode::ClaimExceedsCap),
        ({
            let s = spec_initiate_claim(
                *insurance_nft,
                claimant,
                claim_amount,
                evidence,
                now,
                coverage_id,
                escrow,
            );
            match s {
                Err(e) => r == Err::<(Claim, ClaimInitiated, TransferRequest), ErrorCode>(e),
                Ok(pair) => r == Ok::<(Claim, ClaimInitiated, TransferRequest), ErrorCode>(
                    (
                        pair.0,
                        ClaimInitiated { wallet: claimant, claim_id, amount: claim_amount, timestamp: now },
                        pair.1,
                    ),
                ),
            }
        }),
        r matches Ok(out) ==> out.0.status == ClaimStatus::Pending && out.0.approval_votes == 0
            && out.0.rejection_votes == 0,
{
    if now >= insurance_nft.expiry {
        return Err(ErrorCode::InsuranceExpired);
    }
    if claim_amount > insurance_nft.payout_cap {
        return Err(ErrorCode::ClaimExceedsCap);
    }
    if evidence.len() > MAX_PROOF_LEN {
        return Err(ErrorCode::ProofTooLarge);
    }
    let claim = Claim {
        claimant,
        amount: claim_amount,
        timestamp: now,
        status: ClaimStatus::Pending,
        evidence,
        insurance_nft: coverage_id,
        approval_votes: 0,
        rejection_votes: 0,
    };
    let event = ClaimInitiated { wallet: claimant, claim_id, amount: claim_amount, timestamp: now };
    let escrow_transfer = TransferRequest { from: insurance_nft.owner, to: escrow, amount: 1 };
    Ok((claim, event, escrow_transfer))
}

/// The voting transition: the claim after one vote, and the outcome — the
/// resolution the vote caused (if any), or the exact error.
pub open spec fn spec_vote(c: Claim, g: Governance, voter: Pubkey, approve: bool) -> (
    Claim,
    Result<Option<ClaimResolution>, ErrorCode>,
) {
    if voter != g.authority {
        (c, Err(ErrorCode::UnauthorizedGovernance))
    } else if c.status != ClaimStatus::Pending {
        (c, Err(ErrorCode::ClaimAlreadyResolved))
    } else if approve {
        let bumped = Claim { approval_votes: (c.approval_votes + 1) as u64, ..c };
        if bumped.approval_votes >= g.quorum {
            (
                Claim { status: ClaimStatus::Approved, ..bumped },
                Ok(Some(ClaimResolution::Payout)),
            )
        } else {
            (bumped, Ok(None))
        }
    } else {
        let bumped = Claim { rejection_votes: (c.rejection_votes + 1) as u64, ..c };
        if bumped.rejection_votes >= g.quorum {
            (
                Claim { status: ClaimStatus::Rejected, ..bumped },
                Ok(Some(ClaimResolution::ReturnToOwner)),
            )
        } else {
            (bumped, Ok(None))
        }
    }
}

/// Cast one governance vote on a claim.
///
/// Only the configured authority may vote (`UnauthorizedGovernance`
/// otherwise), and a claim that has already resolved admits no further vote:
/// the call fails with `ClaimAlreadyResolved` and mutates nothing. An
/// accepted vote increments exactly one counter; the vote that brings a
/// counter to the quorum resolves the claim — `Approved` with a `Payout`
/// resolution, or `Rejected` with a `ReturnToOwner` resolution — and every
/// accepted vote yields the claim-voted event, resolved or not.
pub fn vote_on_claim(
    claim: &mut Claim,
    governance: &Governance,
    voter: Pubkey,
    approve: bool,
    claim_id: Pubkey,
    now: i64,
) -> (r: Result<(ClaimVoted, Option<ClaimResolution>), ErrorCode>)
    requires
        governance.wf(),
        claim_votes_bounded(*old(claim), governance.quorum),
    ensures
        *final(claim) == spec_vote(*old(claim), *governance, voter, approve).0,
        claim_votes_bounded(*final(claim), governance.quorum),
        ({
            let outcome = spec_vote(*old(claim), *governance, voter, approve).1;
            match outcome {
                Err(e) => r == Err::<(ClaimVoted, Option<ClaimResolution>), ErrorCode>(e),
                Ok(res) => r == Ok::<(ClaimVoted, Option<ClaimResolution>), ErrorCode>(
                    (ClaimVoted { claim_id, voter, approve, timestamp: now }, res),
                ),
            }
        }),
        voter != governance.authority ==> *final(claim) == *old(claim) && r == Err::<(
            ClaimVoted,
            Option<ClaimResolution>,
        ), ErrorCode>(ErrorCode::UnauthorizedGovernance),
        voter == governance.authority && old(claim).status != ClaimStatus::Pending ==> *final(claim)
            == *old(claim) && r == Err::<(ClaimVoted, Option<ClaimResolution>), ErrorCode>(
            ErrorCode::ClaimAlreadyResolved,
        ),
{
    if !governance.is_authorized(&voter) {
        return Err(ErrorCode::UnauthorizedGovernance);
    }
    if !(matches!(claim.status, ClaimStatus::Pending)) {
        return Err(ErrorCode::ClaimAlreadyResolved);
    }
    let mut resolution: Option<ClaimResolution> = None;
    if approve {
        claim.approval_votes = claim.approval_votes + 1;
        if claim.approval_votes >= governance.quorum {
            claim.status = ClaimStatus::Approved;
            resolution = Some(ClaimResolution::Payout);
        }
    } else {
        claim.rejection_votes = claim.rejection_votes + 1;
        if claim.rejection_votes >= governance.quorum {
            claim.status = ClaimStatus::Rejected;
            resolution = Some(ClaimResolution::ReturnToOwner);
        }
    }
    Ok((ClaimVoted { claim_id, voter, approve, timestamp: now }, resolution))
}

/// The payout transfer an approved claim asks of the asset-transfer
/// service: the claimed amount, insurance pool to claimant.
pub open spec fn spec_payout_transfer(c: Claim, insurance_pool: Pubkey) -> TransferRequest {
    TransferRequest { from: insurance_pool, to: c.claimant, amount: c.amount }
}

/// Build the payout for an approved claim: the claimed amount moves from the
/// insurance pool to the claimant.
pub fn process_payout(claim: &Claim, insurance_pool: Pubkey) -> (t: TransferRequest)
    requires
        claim.status == ClaimStatus::Approved,
    ensures
        t == spec_payout_transfer(*claim, insurance_pool),
{
    TransferRequest { from: insurance_pool, to: claim.claimant, amount: claim.amount }
}

/// The return transfer a rejected claim asks of the asset-transfer service:
/// one coverage token, escrow back to the coverage's original owner.
pub open spec fn spec_return_transfer(cov: InsuranceNFT, escrow: Pubkey) -> TransferRequest {
    TransferRequest { from: escrow, to: cov.owner, amount: 1 }
}

/// Build the return transfer for a rejected claim: the escrowed coverage
/// token goes back to the coverage's original owner.
pub fn return_nft_to_owner(claim: &Claim, coverage: &InsuranceNFT, escrow: Pubkey) -> (t:
    TransferRequest)
    requires
        claim.status == ClaimStatus::Rejected,
    ensures
        t == spec_return_transfer(*coverage, escrow),
{
    TransferRequest { from: escrow, to: coverage.owner, amount: 1 }
}

/// The claim after a run of `n` identical votes.
pub open spec fn spec_vote_seq(c: Claim, g: Governance, voter: Pubkey, approve: bool, n: nat) -> Claim
    decreases n,
{
    if n == 0 {
        c
    } else {
        spec_vote(spec_vote_seq(c, g, voter, approve, (n - 1) as nat), g, voter, approve).0
    }
}

/// Law: starting from a pending claim whose counters are below the quorum, a
/// run of `n` authorized approving votes adds exactly `n` approval votes and
/// changes nothing else about the claim; the claim stays `Pending` strictly
/// below the quorum and becomes `Approved` exactly when the quorum is
/// reached, and the payout resolution is produced by that one vote and by no
/// other.
pub proof fn lemma_approval_run(c: Claim, g: Governance, voter: Pubkey, n: nat)
    requires
        g.wf(),
        voter == g.authority,
        c.status == ClaimStatus::Pending,
        c.approval_votes < g.quorum,
        c.rejection_votes < g.quorum,
        c.approval_votes + n <= g.quorum,
    ensures
        spec_vote_seq(c, g, voter, true, n).approval_votes == c.approval_votes + n,
        spec_vote_seq(c, g, voter, true, n).rejection_votes == c.rejection_votes,
        spec_vote_seq(c, g, voter, true, n).claimant == c.claimant,
        spec_vote_seq(c, g, voter, true, n).amount == c.amount,
        spec_vote_seq(c, g, voter, true, n).insurance_nft == c.insurance_nft,
        c.approval_votes + n < g.quorum ==> spec_vote_seq(c, g, voter, true, n).status
            == ClaimStatus::Pending,
        c.approval_votes + n == g.quorum ==> spec_vote_seq(c, g, voter, true, n).status
            == ClaimStatus::Approved,
        forall|k: nat|
            k < n ==> spec_vote(#[trigger] spec_vote_seq(c, g, voter, true, k), g, voter, true).1
                == Ok::<Option<ClaimResolution>, ErrorCode>(
                if c.approval_votes + k + 1 == g.quorum {
                    Some(ClaimResolution::Payout)
                } else {
                    None
                },
            ),
    decreases n,
{
    if n > 0 {
        lemma_approval_run(c, g, voter, (n - 1) as nat);
    }
}

/// Law: the mirror of [`lemma_approval_run`] for rejecting votes — the run
/// adds exactly `n` rejection votes, the claim becomes `Rejected` exactly
/// when the quorum is reached, and the return-to-owner resolution is
/// produced by that one vote and by no other.
pub proof fn lemma_rejection_run(c: Claim, g: Governance, voter: Pubkey, n: nat)
    requires
        g.wf(),
        voter == g.authority,
        c.status == ClaimStatus::Pending,
        c.approval_votes < g.quorum,
        c.rejection_votes < g.quorum,
        c.rejection_votes + n <= g.quorum,
    ensures
        spec_vote_seq(c, g, voter, false, n).rejection_votes == c.rejection_votes + n,
        spec_vote_seq(c, g, voter, false, n).approval_votes == c.approval_votes,
        spec_vote_seq(c, g, voter, false, n).claimant == c.claimant,
        spec_vote_seq(c, g, voter, false, n).amount == c.amount,
        spec_vote_seq(c, g, voter, false, n).insurance_nft == c.insurance_nft,
        c.rejection_votes + n < g.quorum ==> spec_vote_seq(c, g, voter, false, n).status
            == ClaimStatus::Pending,
        c.rejection_votes + n == g.quorum ==> spec_vote_seq(c, g, voter, false, n).status
            == ClaimStatus::Rejected,
        forall|k: nat|
            k < n ==> spec_vote(#[trigger] spec_vote_seq(c, g, voter, false, k), g, voter, false).1
                == Ok::<Option<ClaimResolution>, ErrorCode>(
                if c.rejection_votes + k + 1 == g.quorum {
                    Some(ClaimResolution::ReturnToOwner)
                } else {
                    None
                },
            ),
    decreases n,
{
    if n > 0 {
        lemma_rejection_run(c, g, voter, (n - 1) as nat);
    }
}

/// Law: a claim that has reached a terminal state admits no further vote —
/// whoever votes, the vote fails, no counter moves, the status stays as it
/// is, and no payout or return is triggered again.
pub proof fn lemma_terminal_claim_frozen(c: Claim, g: Governance, voter: Pubkey, approve: bool)
    requires
        c.status != ClaimStatus::Pending,
    ensures
        spec_vote(c, g, voter, approve).0 == c,
        spec_vote(c, g, voter, approve).1 is Err,
{
}

/// Law: a claim opened against a coverage record and then approved by a
/// quorum of approving votes pays out exactly the amount that was claimed,
/// from the insurance pool to the claimant who opened the claim.
pub proof fn lemma_approved_claim_payout(
    cov: InsuranceNFT,
    claimant: Pubkey,
    amount: u64,
    evidence: Vec<u8>,
    now: i64,
    coverage_id: Pubkey,
    escrow: Pubkey,
    g: Governance,
    voter: Pubkey,
    insurance_pool: Pubkey,
)
    requires
        g.wf(),
        voter == g.authority,
        now < cov.expiry,
        amount <= cov.payout_cap,
        evidence@.len() <= MAX_PROOF_LEN,
    ensures
        ({
            let opened = spec_initiate_claim(cov, claimant, amount, evidence, now, coverage_id, escrow);
            &&& opened is Ok
            &&& {
                let resolved = spec_vote_seq(opened->Ok_0.0, g, voter, true, g.quorum as nat);
                &&& resolved.status == ClaimStatus::Approved
                &&& spec_payout_transfer(resolved, insurance_pool) == (TransferRequest {
                    from: insurance_pool,
                    to: claimant,
                    amount,
                })
            }
        }),
{
    let opened = spec_initiate_claim(cov, claimant, amount, evidence, now, coverage_id, escrow);
    lemma_approval_run(opened->Ok_0.0, g, voter, g.quorum as nat);
}

/// Law (round trip): opening a claim escrows exactly one coverage token,
/// owner to escrow; if a quorum of rejecting votes then rejects the claim,
/// the return transfer is that escrow transfer's exact inverse — the token
/// goes from the escrow back to the coverage's original owner — while the
/// coverage record itself (tier, expiry, payout cap, owner) was never
/// touched.
pub proof fn lemma_rejected_claim_round_trip(
    cov: InsuranceNFT,
    claimant: Pubkey,
    amount: u64,
    evidence: Vec<u8>,
    now: i64,
    coverage_id: Pubkey,
    escrow: Pubkey,
    g: Governance,
    voter: Pubkey,
)
    requires
        g.wf(),
        voter == g.authority,
        now < cov.expiry,
        amount <= cov.payout_cap,
        evidence@.len() <= MAX_PROOF_LEN,
    ensures
        ({
            let opened = spec_initiate_claim(cov, claimant, amount, evidence, now, coverage_id, escrow);
            &&& opened is Ok
            &&& {
                let c0 = opened->Ok_0.0;
                let esc = opened->Ok_0.1;
                let resolved = spec_vote_seq(c0, g, voter, false, g.quorum as nat);
                &&& esc == (TransferRequest { from: cov.owner, to: escrow, amount: 1 })
                &&& resolved.status == ClaimStatus::Rejected
                &&& spec_return_transfer(cov, escrow) == (TransferRequest {
                    from: esc.to,
                    to: esc.from,
                    amount: esc.amount,
                })
            }
        }),
{
    let opened = spec_initiate_claim(cov, claimant, amount, evidence, now, coverage_id, escrow);
    lemma_rejection_run(opened->Ok_0.0, g, voter, g.quorum as nat);
}

} // verus!
