use vstd::prelude::*;

use crate::errors::ErrorCode;
use crate::events::SubscriptionEvent;
use crate::model::{spec_get_plan, Pubkey, RiskParams, SubscriptionPlan, TransferRequest, UserAccount};

verus! {

/// Create a fresh profile for `wallet`: the given preferences, no active
/// subscription, and an empty score history.
pub fn initialize_user(wallet: Pubkey, preferences: RiskParams) -> (ua: UserAccount)
    requires
        preferences.wf(),
    ensures
        ua.wallet == wallet,
        ua.preferences == preferences,
        !ua.active_sub,
        ua.subscription_expiry == 0,
        ua.score_history@.len() == 0,
        ua.wf(),
{
    UserAccount {
        wallet,
        preferences,
        active_sub: false,
        subscription_expiry: 0,
        score_history: Vec::new(),
    }
}

/// Subscribe the profile to a plan.
///
/// The plan table fixes the price floor: an unknown `plan_id` fails with
/// `InvalidPlan`, and `payment_amount` below the plan's price fails with
/// `InsufficientPayment`, in that order, leaving the profile untouched.
/// On success the subscription becomes active until `now + duration`
/// (`duration` is caller-supplied and deliberately not held to the plan's
/// nominal duration; only the price floor is enforced), and the caller is
/// handed the payment transfer for the asset-transfer service — wallet to
/// treasury, for the full `payment_amount` — together with the subscription
/// event. The caller commits profile and transfer atomically: if the
/// transfer fails, the updated profile must be discarded.
pub fn subscribe(
    user_account: &mut UserAccount,
    plan_id: u8,
    duration: u64,
    payment_amount: u64,
    now: i64,
    treasury: Pubkey,
) -> (r: Result<(SubscriptionEvent, TransferRequest), ErrorCode>)
    requires
        duration <= i64::MAX as u64,
        now as int + duration as int <= i64::MAX as int,
    ensures
        spec_get_plan(plan_id) is Err ==> r == Err::<(SubscriptionEvent, TransferRequest), ErrorCode>(
            ErrorCode::InvalidPlan,
        ) && *final(user_account) == *old(user_account),
        spec_get_plan(plan_id) matches Ok(plan) && payment_amount < plan.price ==> r == Err::<(
            SubscriptionEvent,
            TransferRequest,
        ), ErrorCode>(ErrorCode::InsufficientPayment) && *final(user_account) == *old(
            user_account,
        ),
        spec_get_plan(plan_id) matches Ok(plan) && payment_amount >= plan.price ==> {
            &&& final(user_account).active_sub
            &&& final(user_account).subscription_expiry == now + duration
            &&& final(user_account).wallet == old(user_account).wallet
            &&& final(user_account).preferences == old(user_account).preferences
            &&& final(user_account).score_history == old(user_account).score_history
            &&& r == Ok::<(SubscriptionEvent, TransferRequest), ErrorCode>(
                (
                    SubscriptionEvent {
                        wallet: old(user_account).wallet,
                        plan_id,
                        expiry: (now + duration) as i64,
                        timestamp: now,
                    },
                    TransferRequest {
                        from: old(user_account).wallet,
                        to: treasury,
                        amount: payment_amount,
                    },
                ),
            )
        },
        old(user_account).wf() ==> final(user_account).wf(),
{
    let plan = match SubscriptionPlan::get_plan(plan_id) {
        Ok(p) => p,
        Err(e) => {
            return Err(e);
        },
    };
    if payment_amount < plan.price {
        return Err(ErrorCode::InsufficientPayment);
    }
    user_account.active_sub = true;
    user_account.subscription_expiry = now + duration as i64;
    let event = SubscriptionEvent {
        wallet: user_account.wallet,
        plan_id,
        expiry: user_account.subscription_expiry,
        timestamp: now,
    };
    let transfer = TransferRequest {
        from: user_account.wallet,
        to: treasury,
        amount: payment_amount,
    };
    Ok((event, transfer))
}

} // verus!
