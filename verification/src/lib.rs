//! Proprietary-trading-firm rule evaluation engine: account model, challenge
//! plans, decision arbitration, state transitions, payouts and audit helpers.
use vstd::prelude::*;

pub mod account;
pub mod api;
pub mod auth;
pub mod copy_trading;
pub mod decision;
pub mod engine;
pub mod digest;
pub mod equity_input;
pub mod error;
pub mod evaluator;
pub mod events;
pub mod fixed;
pub mod idempotency;
pub mod ids;
pub mod instrument;
pub mod liquidation;
pub mod news_calendar;
pub mod market;
pub mod order;
pub mod override_engine;
pub mod payout;
pub mod pipeline;
pub mod presets;
pub mod risk;
pub mod pure;
pub mod report;
pub mod plan;
pub mod row;
pub mod rule_config;
pub mod rulepack;
pub mod rulepack_store;
pub mod snapshot;
pub mod state;
pub mod store;
pub mod text;
pub mod types;
pub mod violation;

verus! {
} // verus!
