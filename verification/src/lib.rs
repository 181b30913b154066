//! A risk-triggered insurance and claims engine.
//!
//! Users subscribe to a protection plan, an external oracle reports risk
//! scores for their position, a score at or above the configured threshold
//! can trigger a protective action, subscribed users are issued time-bounded
//! capped coverage, and coverage holders file claims that are escrowed and
//! resolved by quorum voting.
//!
//! The engine is pure decision logic over plain values. Everything it cannot
//! decide is an external collaborator of the host: the clock enters as a
//! `now` argument, the oracle signature verifier's verdict enters as a flag
//! checked against the canonical message the engine constructs, and value
//! movement leaves as [`model::TransferRequest`] / [`model::MintRequest`]
//! values handed back for the host's asset-transfer service to execute —
//! committed together with the updated records, or not at all.
//!
//! - [`subscription`] — the subscription ledger gating everything else.
//! - [`risk`] — score ingestion, bounded history, and the trigger engine.
//! - [`coverage`] — issuing coverage records to subscribed users.
//! - [`claims`] — the claim and voting state machine, with its laws.

pub mod claims;
pub mod coverage;
pub mod errors;
pub mod events;
pub mod model;
pub mod risk;
pub mod subscription;
