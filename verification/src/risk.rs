use vstd::prelude::*;
use vstd::string::StringExecFns;

use crate::errors::ErrorCode;
use crate::events::{ProtectionTriggered, RiskThresholdBreached};
use crate::model::{
    ActionLog, ProtectionAction, Pubkey, Score, ScoreMessage, UserAccount, SCORE_HISTORY_CAP,
};

verus! {

/// The bounded-history append: push `s`, evicting the oldest entry first
/// when the history is already at capacity.
pub open spec fn push_bounded(h: Seq<Score>, s: Score) -> Seq<Score> {
    if h.len() < SCORE_HISTORY_CAP {
        h.push(s)
    } else {
        h.subrange(1, h.len() as int).push(s)
    }
}

/// Law: the score history never exceeds its capacity, the appended score is
/// always the newest entry, and appending at capacity evicts exactly the
/// oldest entry — the result is always the suffix of most recent entries of
/// the unbounded append.
pub proof fn lemma_score_history_fifo(h: Seq<Score>, s: Score)
    requires
        h.len() <= SCORE_HISTORY_CAP,
    ensures
        push_bounded(h, s).len() <= SCORE_HISTORY_CAP,
        push_bounded(h, s).last() == s,
        h.len() < SCORE_HISTORY_CAP ==> push_bounded(h, s) == h.push(s),
        h.len() == SCORE_HISTORY_CAP ==> forall|i: int|
            0 <= i < SCORE_HISTORY_CAP - 1 ==> push_bounded(h, s)[i] == h[i + 1],
        ({
            let full = h.push(s);
            push_bounded(h, s) =~= full.subrange(
                full.len() - push_bounded(h, s).len(),
                full.len() as int,
            )
        }),
{
}

/// The canonical message the oracle must have signed for this profile,
/// score and timestamp; the external signature verifier is asked to check a
/// signature against exactly this message.
pub fn expected_score_message(user_account: &UserAccount, score: u8, timestamp: i64) -> (m:
    ScoreMessage)
    ensures
        m == (ScoreMessage { wallet: user_account.wallet, score, timestamp }),
{
    ScoreMessage { wallet: user_account.wallet, score, timestamp }
}

/// Pure trigger evaluation: compare the most recently appended score against
/// the profile's threshold and report a breach event exactly when the score
/// reaches it.
pub fn check_protection_triggers(user_account: &UserAccount, now: i64) -> (ev: Option<
    RiskThresholdBreached,
>)
    requires
        user_account.score_history@.len() > 0,
    ensures
        ({
            let latest = user_account.score_history@.last();
            if latest.value >= user_account.preferences.risk_threshold {
                ev == Some(
                    RiskThresholdBreached {
                        wallet: user_account.wallet,
                        score: latest.value,
                        threshold: user_account.preferences.risk_threshold,
                        timestamp: now,
                    },
                )
            } else {
                ev is None
            }
        }),
{
    let latest: u8 = user_account.score_history[user_account.score_history.len() - 1].value;
    if latest >= user_account.preferences.risk_threshold {
        Some(
            RiskThresholdBreached {
                wallet: user_account.wallet,
                score: latest,
                threshold: user_account.preferences.risk_threshold,
                timestamp: now,
            },
        )
    } else {
        None
    }
}

/// The single ingress point for oracle scores.
///
/// `signature_valid` is the external signature verifier's verdict on the
/// canonical message (see [`expected_score_message`]) with the submitted
/// signature; a failed verification rejects the update with
/// `InvalidSignature` and leaves the profile untouched. Otherwise the score
/// is appended to the bounded history (evicting the oldest entry at
/// capacity) and the trigger engine evaluates it: the breach event is
/// returned exactly when `score` reaches the profile's threshold.
pub fn update_risk_score(
    user_account: &mut UserAccount,
    score: u8,
    timestamp: i64,
    signature_valid: bool,
    now: i64,
) -> (r: Result<Option<RiskThresholdBreached>, ErrorCode>)
    requires
        old(user_account).wf(),
    ensures
        final(user_account).wf(),
        !signature_valid ==> r == Err::<Option<RiskThresholdBreached>, ErrorCode>(
            ErrorCode::InvalidSignature,
        ) && *final(user_account) == *old(user_account),
        signature_valid ==> {
            &&& final(user_account).score_history@ == push_bounded(
                old(user_account).score_history@,
                Score { value: score, timestamp },
            )
            &&& final(user_account).wallet == old(user_account).wallet
            &&& final(user_account).preferences == old(user_account).preferences
            &&& final(user_account).active_sub == old(user_account).active_sub
            &&& final(user_account).subscription_expiry == old(user_account).subscription_expiry
            &&& score >= old(user_account).preferences.risk_threshold ==> r == Ok::<Option<
                RiskThresholdBreached,
            >, ErrorCode>(
                Some(
                    RiskThresholdBreached {
                        wallet: old(user_account).wallet,
                        score,
                        threshold: old(user_account).preferences.risk_threshold,
                        timestamp: now,
                    },
                ),
            )
            &&& score < old(user_account).preferences.risk_threshold ==> r == Ok::<Option<
                RiskThresholdBreached,
            >, ErrorCode>(None)
        },
{
    if !signature_valid {
        return Err(ErrorCode::InvalidSignature);
    }
    if user_account.score_history.len() == SCORE_HISTORY_CAP {
        user_account.score_history.remove(0);
        proof {
            assert(user_account.score_history@ =~= old(
                user_account,
            ).score_history@.subrange(1, old(user_account).score_history@.len() as int));
        }
    }
    user_account.score_history.push(Score { value: score, timestamp });
    let ev = check_protection_triggers(user_account, now);
    Ok(ev)
}

/// Dispatch an explicitly requested protection action for a subscribed user.
///
/// Requires an active, unexpired subscription and a dispatchable action kind
/// (`Swap` or `Freeze`; `Alert` and `Claim` are rejected), and at least one
/// previously ingested score. On success, returns the protection event named
/// `"SWAP"` or `"FREEZE"` and the audit record capturing the latest known
/// score; the actual exchange or freeze is delegated to an external venue by
/// the caller.
pub fn trigger_protection(
    user_account: &UserAccount,
    action_type: ProtectionAction,
    token: Pubkey,
    amount: u64,
    now: i64,
) -> (r: Result<(ProtectionTriggered, ActionLog), ErrorCode>)
    ensures
        !user_account.active_sub ==> r == Err::<(ProtectionTriggered, ActionLog), ErrorCode>(
            ErrorCode::NoActiveSubscription,
        ),
        user_account.active_sub && now >= user_account.subscription_expiry ==> r == Err::<(
            ProtectionTriggered,
            ActionLog,
        ), ErrorCode>(ErrorCode::SubscriptionExpired),
        user_account.active_sub && now < user_account.subscription_expiry && !(action_type
            == ProtectionAction::Swap || action_type == ProtectionAction::Freeze) ==> r == Err::<(
            ProtectionTriggered,
            ActionLog,
        ), ErrorCode>(ErrorCode::InvalidAction),
        user_account.active_sub && now < user_account.subscription_expiry && (action_type
            == ProtectionAction::Swap || action_type == ProtectionAction::Freeze)
            && user_account.score_history@.len() == 0 ==> r == Err::<(
            ProtectionTriggered,
            ActionLog,
        ), ErrorCode>(ErrorCode::NoScoreHistory),
        user_account.active_sub && now < user_account.subscription_expiry && (action_type
            == ProtectionAction::Swap || action_type == ProtectionAction::Freeze)
            && user_account.score_history@.len() > 0 ==> (r matches Ok(pair) && {
            &&& pair.0.wallet == user_account.wallet
            &&& pair.0.token == token
            &&& pair.0.amount == amount
            &&& pair.0.timestamp == now
            &&& action_type == ProtectionAction::Swap ==> pair.0.action@ == "SWAP"@
            &&& action_type == ProtectionAction::Freeze ==> pair.0.action@ == "FREEZE"@
            &&& pair.1 == (ActionLog {
                timestamp: now,
                trigger_type: action_type,
                token,
                score: user_account.score_history@.last().value,
            })
        }),
{
    if !user_account.active_sub {
        return Err(ErrorCode::NoActiveSubscription);
    }
    if now >= user_account.subscription_expiry {
        return Err(ErrorCode::SubscriptionExpired);
    }
    let name: &str = match action_type {
        ProtectionAction::Swap => "SWAP",
        ProtectionAction::Freeze => "FREEZE",
        _ => {
            return Err(ErrorCode::InvalidAction);
        },
    };
    if user_account.score_history.len() == 0 {
        return Err(ErrorCode::NoScoreHistory);
    }
    let latest: u8 = user_account.score_history[user_account.score_history.len() - 1].value;
    let event = ProtectionTriggered {
        wallet: user_account.wallet,
        action: String::from_str(name),
        token,
        amount,
        timestamp: now,
    };
    let log = ActionLog { timestamp: now, trigger_type: action_type, token, score: latest };
    Ok((event, log))
}

} // verus!
