use vstd::prelude::*;

use crate::errors::ErrorCode;
use crate::events::InsuranceNftMinted;
use crate::model::{InsuranceNFT, MintRequest, Pubkey, UserAccount};

verus! {

/// Mint a coverage record ("insurance NFT") for a subscribed user.
///
/// Fails with `NoActiveSubscription` when the user is not subscribed and
/// with `SubscriptionExpired` when the subscription has lapsed, regardless
/// of the other inputs. On success the coverage is owned by the user, capped
/// at `payout_cap`, and expires at `now + duration`; the caller is handed
/// the mint request for the asset-transfer service — one token of
/// `token_mint` to the user — together with the coverage-minted event.
/// Coverage record and mint commit atomically.
pub fn mint_insurance_nft(
    user_account: &UserAccount,
    tier: u8,
    payout_cap: u64,
    duration: u64,
    now: i64,
    token_mint: Pubkey,
) -> (r: Result<(InsuranceNFT, InsuranceNftMinted, MintRequest), ErrorCode>)
    requires
        duration <= i64::MAX as u64,
        now as int + duration as int <= i64::MAX as int,
    ensures
        !user_account.active_sub ==> r == Err::<(
            InsuranceNFT,
            InsuranceNftMinted,
            MintRequest,
        ), ErrorCode>(ErrorCode::NoActiveSubscription),
        user_account.active_sub && now >= user_account.subscription_expiry ==> r == Err::<(
            InsuranceNFT,
            InsuranceNftMinted,
            MintRequest,
        ), ErrorCode>(ErrorCode::SubscriptionExpired),
        user_account.active_sub && now < user_account.subscription_expiry ==> r == Ok::<(
            InsuranceNFT,
            InsuranceNftMinted,
            MintRequest,
        ), ErrorCode>(
            (
                InsuranceNFT {
                    tier,
                    expiry: (now + duration) as i64,
                    payout_cap,
                    token_mint,
                    owner: user_account.wallet,
                },
                InsuranceNftMinted {
                    wallet: user_account.wallet,
                    mint: token_mint,
                    tier,
                    expiry: (now + duration) as i64,
                    payout_cap,
                },
                MintRequest { to: user_account.wallet, quantity: 1 },
            ),
        ),
{
    if !user_account.active_sub {
        return Err(ErrorCode::NoActiveSubscription);
    }
    if now >= user_account.subscription_expiry {
        return Err(ErrorCode::SubscriptionExpired);
    }
    let expiry: i64 = now + duration as i64;
    let nft = InsuranceNFT { tier, expiry, payout_cap, token_mint, owner: user_account.wallet };
    let event = InsuranceNftMinted {
        wallet: user_account.wallet,
        mint: token_mint,
        tier,
        expiry,
        payout_cap,
    };
    let mint = MintRequest { to: user_account.wallet, quantity: 1 };
    Ok((nft, event, mint))
}

} // verus!
