use iris_core::claims::{
    initiate_claim, process_payout, return_nft_to_owner, vote_on_claim, ClaimResolution,
};
use iris_core::coverage::mint_insurance_nft;
use iris_core::errors::ErrorCode;
use iris_core::model::{
    ClaimStatus, Governance, InsuranceNFT, Pubkey, RiskParams, MAX_PROOF_LEN,
};
use iris_core::subscription::{initialize_user, subscribe};

const WALLET: Pubkey = Pubkey { id: 7 };
const ESCROW: Pubkey = Pubkey { id: 200 };
const POOL: Pubkey = Pubkey { id: 300 };
const COVERAGE_ID: Pubkey = Pubkey { id: 40 };
const CLAIM_ID: Pubkey = Pubkey { id: 41 };
const AUTHORITY: Pubkey = Pubkey { id: 1 };

fn governance(quorum: u64) -> Governance {
    Governance { authority: AUTHORITY, quorum, voting_duration: 86_400 }
}

fn coverage() -> InsuranceNFT {
    InsuranceNFT {
        tier: 2,
        expiry: 10_000,
        payout_cap: 5_000,
        token_mint: Pubkey { id: 50 },
        owner: WALLET,
    }
}

#[test]
fn minting_requires_active_unexpired_subscription() {
    let prefs = RiskParams {
        risk_threshold: 80,
        watchlist: Vec::new(),
        auto_swap: false,
        auto_freeze: false,
    };
    let mut ua = initialize_user(WALLET, prefs);
    let r = mint_insurance_nft(&ua, 2, 5_000, 9_000, 1_000, Pubkey { id: 50 });
    assert_eq!(r, Err(ErrorCode::NoActiveSubscription));

    subscribe(&mut ua, 1, 2_592_000, 10_000_000, 1_000, Pubkey { id: 99 }).unwrap();
    let r = mint_insurance_nft(&ua, 2, 5_000, 9_000, ua.subscription_expiry, Pubkey { id: 50 });
    assert_eq!(r, Err(ErrorCode::SubscriptionExpired));
}

#[test]
fn minting_issues_owned_capped_coverage() {
    let prefs = RiskParams {
        risk_threshold: 80,
        watchlist: Vec::new(),
        auto_swap: false,
        auto_freeze: false,
    };
    let mut ua = initialize_user(WALLET, prefs);
    subscribe(&mut ua, 1, 2_592_000, 10_000_000, 1_000, Pubkey { id: 99 }).unwrap();
    let (nft, event, mint) =
        mint_insurance_nft(&ua, 2, 5_000, 9_000, 1_000, Pubkey { id: 50 }).unwrap();
    assert_eq!(nft.owner, WALLET);
    assert_eq!(nft.tier, 2);
    assert_eq!(nft.payout_cap, 5_000);
    assert_eq!(nft.expiry, 10_000);
    assert_eq!(nft.token_mint, Pubkey { id: 50 });
    assert_eq!(event.wallet, WALLET);
    assert_eq!(event.mint, Pubkey { id: 50 });
    assert_eq!(event.tier, 2);
    assert_eq!(event.expiry, 10_000);
    assert_eq!(event.payout_cap, 5_000);
    assert_eq!(mint.to, WALLET);
    assert_eq!(mint.quantity, 1);
}

#[test]
fn claim_on_expired_coverage_rejected() {
    let cov = coverage();
    for now in [cov.expiry, cov.expiry + 1] {
        let r = initiate_claim(&cov, COVERAGE_ID, CLAIM_ID, WALLET, 100, vec![1, 2], now, ESCROW);
        assert_eq!(r.unwrap_err(), ErrorCode::InsuranceExpired);
    }
}

#[test]
fn claim_above_cap_rejected_and_not_created() {
    let cov = coverage();
    let r = initiate_claim(&cov, COVERAGE_ID, CLAIM_ID, WALLET, 5_001, vec![1, 2], 500, ESCROW);
    assert_eq!(r.unwrap_err(), ErrorCode::ClaimExceedsCap);
    let r = initiate_claim(&cov, COVERAGE_ID, CLAIM_ID, WALLET, u64::MAX, Vec::new(), 500, ESCROW);
    assert_eq!(r.unwrap_err(), ErrorCode::ClaimExceedsCap);
}

#[test]
fn oversized_evidence_rejected() {
    let cov = coverage();
    let r = initiate_claim(
        &cov,
        COVERAGE_ID,
        CLAIM_ID,
        WALLET,
        100,
        vec![0u8; MAX_PROOF_LEN + 1],
        500,
        ESCROW,
    );
    assert_eq!(r.unwrap_err(), ErrorCode::ProofTooLarge);
    // The bound itself is still accepted.
    let r = initiate_claim(
        &cov,
        COVERAGE_ID,
        CLAIM_ID,
        WALLET,
        100,
        vec![0u8; MAX_PROOF_LEN],
        500,
        ESCROW,
    );
    assert!(r.is_ok());
}

#[test]
fn opening_a_claim_escrows_the_coverage_token() {
    let cov = coverage();
    let (claim, event, escrow_transfer) =
        initiate_claim(&cov, COVERAGE_ID, CLAIM_ID, WALLET, 4_000, vec![9, 9], 500, ESCROW)
            .unwrap();
    assert_eq!(claim.claimant, WALLET);
    assert_eq!(claim.amount, 4_000);
    assert_eq!(claim.timestamp, 500);
    assert_eq!(claim.status, ClaimStatus::Pending);
    assert_eq!(claim.evidence, vec![9, 9]);
    assert_eq!(claim.insurance_nft, COVERAGE_ID);
    assert_eq!(claim.approval_votes, 0);
    assert_eq!(claim.rejection_votes, 0);
    assert_eq!(event.wallet, WALLET);
    assert_eq!(event.claim_id, CLAIM_ID);
    assert_eq!(event.amount, 4_000);
    assert_eq!(event.timestamp, 500);
    assert_eq!(escrow_transfer.from, cov.owner);
    assert_eq!(escrow_transfer.to, ESCROW);
    assert_eq!(escrow_transfer.amount, 1);
}

#[test]
fn unauthorized_voter_rejected_without_mutation() {
    let cov = coverage();
    let (mut claim, _, _) =
        initiate_claim(&cov, COVERAGE_ID, CLAIM_ID, WALLET, 4_000, vec![], 500, ESCROW).unwrap();
    let g = governance(3);
    let r = vote_on_claim(&mut claim, &g, Pubkey { id: 666 }, true, CLAIM_ID, 600);
    assert_eq!(r.unwrap_err(), ErrorCode::UnauthorizedGovernance);
    assert_eq!(claim.approval_votes, 0);
    assert_eq!(claim.rejection_votes, 0);
    assert_eq!(claim.status, ClaimStatus::Pending);
}

#[test]
fn three_approving_votes_approve_and_pay_exactly_once() {
    let cov = coverage();
    let (mut claim, _, _) =
        initiate_claim(&cov, COVERAGE_ID, CLAIM_ID, WALLET, 4_000, vec![], 500, ESCROW).unwrap();
    let g = governance(3);

    let (ev1, res1) = vote_on_claim(&mut claim, &g, AUTHORITY, true, CLAIM_ID, 601).unwrap();
    assert_eq!(claim.status, ClaimStatus::Pending);
    assert_eq!(claim.approval_votes, 1);
    assert!(res1.is_none());
    assert_eq!(ev1.claim_id, CLAIM_ID);
    assert_eq!(ev1.voter, AUTHORITY);
    assert!(ev1.approve);
    assert_eq!(ev1.timestamp, 601);

    let (_, res2) = vote_on_claim(&mut claim, &g, AUTHORITY, true, CLAIM_ID, 602).unwrap();
    assert_eq!(claim.status, ClaimStatus::Pending);
    assert_eq!(claim.approval_votes, 2);
    assert!(res2.is_none());

    let (ev3, res3) = vote_on_claim(&mut claim, &g, AUTHORITY, true, CLAIM_ID, 603).unwrap();
    assert_eq!(claim.status, ClaimStatus::Approved);
    assert_eq!(claim.approval_votes, 3);
    assert_eq!(res3, Some(ClaimResolution::Payout));
    assert_eq!(ev3.timestamp, 603);

    // The payout the approved claim asks for: pool -> claimant, full amount.
    let payout = process_payout(&claim, POOL);
    assert_eq!(payout.from, POOL);
    assert_eq!(payout.to, WALLET);
    assert_eq!(payout.amount, 4_000);

    // A terminal claim admits no further vote: nothing moves, no second payout.
    let r = vote_on_claim(&mut claim, &g, AUTHORITY, true, CLAIM_ID, 604);
    assert_eq!(r.unwrap_err(), ErrorCode::ClaimAlreadyResolved);
    assert_eq!(claim.status, ClaimStatus::Approved);
    assert_eq!(claim.approval_votes, 3);
    assert_eq!(claim.rejection_votes, 0);
    let r = vote_on_claim(&mut claim, &g, AUTHORITY, false, CLAIM_ID, 605);
    assert_eq!(r.unwrap_err(), ErrorCode::ClaimAlreadyResolved);
    assert_eq!(claim.rejection_votes, 0);
}

#[test]
fn mixed_votes_resolve_on_the_side_reaching_quorum() {
    let cov = coverage();
    let (mut claim, _, _) =
        initiate_claim(&cov, COVERAGE_ID, CLAIM_ID, WALLET, 4_000, vec![], 500, ESCROW).unwrap();
    let g = governance(2);
    let (_, r1) = vote_on_claim(&mut claim, &g, AUTHORITY, true, CLAIM_ID, 601).unwrap();
    assert!(r1.is_none());
    let (_, r2) = vote_on_claim(&mut claim, &g, AUTHORITY, false, CLAIM_ID, 602).unwrap();
    assert!(r2.is_none());
    assert_eq!(claim.approval_votes, 1);
    assert_eq!(claim.rejection_votes, 1);
    let (_, r3) = vote_on_claim(&mut claim, &g, AUTHORITY, false, CLAIM_ID, 603).unwrap();
    assert_eq!(r3, Some(ClaimResolution::ReturnToOwner));
    assert_eq!(claim.status, ClaimStatus::Rejected);
}

#[test]
fn rejected_claim_returns_coverage_to_original_owner() {
    let cov = coverage();
    let original = cov;
    let (mut claim, _, escrow_transfer) =
        initiate_claim(&cov, COVERAGE_ID, CLAIM_ID, WALLET, 4_000, vec![3], 500, ESCROW).unwrap();
    let g = governance(3);
    for now in [601, 602, 603] {
        vote_on_claim(&mut claim, &g, AUTHORITY, false, CLAIM_ID, now).unwrap();
    }
    assert_eq!(claim.status, ClaimStatus::Rejected);
    assert_eq!(claim.rejection_votes, 3);

    let ret = return_nft_to_owner(&claim, &cov, ESCROW);
    // The return is the escrow transfer's exact inverse.
    assert_eq!(ret.from, escrow_transfer.to);
    assert_eq!(ret.to, escrow_transfer.from);
    assert_eq!(ret.to, cov.owner);
    assert_eq!(ret.amount, 1);
    assert_eq!(escrow_transfer.amount, 1);
    // The coverage record is untouched by the whole round trip.
    assert_eq!(cov, original);
}

#[test]
fn quorum_one_resolves_on_first_vote() {
    let cov = coverage();
    let (mut claim, _, _) =
        initiate_claim(&cov, COVERAGE_ID, CLAIM_ID, WALLET, 1, vec![], 500, ESCROW).unwrap();
    let g = governance(1);
    let (_, res) = vote_on_claim(&mut claim, &g, AUTHORITY, true, CLAIM_ID, 601).unwrap();
    assert_eq!(res, Some(ClaimResolution::Payout));
    assert_eq!(claim.status, ClaimStatus::Approved);
}

#[test]
fn authorization_policy_is_authority_equality() {
    let g = governance(3);
    assert!(g.is_authorized(&AUTHORITY));
    assert!(!g.is_authorized(&Pubkey { id: 2 }));
}
