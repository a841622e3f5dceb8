//! Preset challenge plans in the style of popular prop firms. Every
//! preset states its max-loss reference explicitly.
use crate::fixed::{Fixed, SCALE};
use crate::plan::{plan_is_valid, ChallengePhase, ChallengePlan, LossReference, PlanMeta};
use crate::text::append_str;
use crate::types::{Money, Pct};
use vstd::prelude::*;

verus! {

/// The fields every preset keeps from the default plan.
pub open spec fn preset_defaults(p: ChallengePlan) -> bool {
    &&& !p.drawdown_on_balance
    &&& p.max_position_lots == Some(Fixed(500_000_000))
    &&& p.max_total_lots == Some(Fixed(3_000_000_000))
    &&& p.max_open_positions == Some(20u32)
    &&& p.max_daily_trades == Some(50u32)
    &&& !p.require_take_profit
    &&& p.cooldown_seconds == 0
    &&& !p.copy_trading_allowed
    &&& p.refundable
    &&& p.trading_hours is None
    &&& p.timezone is None
    &&& p.day_reset_time == 0
    &&& p.per_trade_max_loss_pct is None
    &&& p.per_trade_max_loss_money is None
    &&& !p.hft_ban_enabled
    &&& p.hft_min_round_trip_seconds == 60
    &&& p.inactivity_days is None
    &&& p.payout_config is None
    &&& p.refund_fee_amount.0 == 0
}

/// The metadata of a preset: firm, program, version 1.0.0, USD, and the
/// description `"<firm> <program> evaluation program"`.
pub open spec fn preset_meta(m: PlanMeta, firm: Seq<char>, program: Seq<char>) -> bool {
    &&& m.firm_name@ == firm
    &&& m.program_name@ == program
    &&& m.version@ == "1.0.0"@
    &&& m.currency@ == "USD"@
    &&& m.description@ == firm + " "@ + program + " evaluation program"@
}

/// The default plan with a preset's metadata and balance (fresh id,
/// effective now).
fn base_plan(firm: &str, program: &str, balance: Money) -> (r: ChallengePlan)
    ensures
        preset_meta(r.meta, firm@, program@),
        r.initial_balance_money == balance,
        preset_defaults(r),
        r.phase == ChallengePhase::Phase1,
        r.profit_target_pct.0 == 8_000_000,
        r.max_daily_drawdown_pct.0 == 5_000_000,
        r.max_total_drawdown_pct.0 == 10_000_000,
        r.max_loss_reference == LossReference::Trailing,
        !r.trailing_drawdown_enabled,
        r.trailing_drawdown_pct.0 == 0,
        r.min_trading_days == 3,
        r.time_limit_days == Some(30u32),
        !r.news_trading_allowed,
        r.overnight_holding_allowed,
        !r.weekend_holding_allowed,
        r.hedging_allowed,
        r.grid_trading_allowed,
        !r.require_stop_loss,
        r.consistency_pct == Some(Pct(50_000_000)),
        r.leverage == 100,
{
    let mut p = ChallengePlan::default_plan();
    let mut description = firm.to_string();
    append_str(&mut description, " ");
    append_str(&mut description, program);
    append_str(&mut description, " evaluation program");
    p.meta = PlanMeta {
        firm_name: firm.to_string(),
        program_name: program.to_string(),
        version: "1.0.0".to_string(),
        currency: "USD".to_string(),
        description,
    };
    p.initial_balance_money = balance;
    p
}

/// FTMO-style phase 1: $10,000, 10% target, 5% daily and 10% static max
/// loss, 3 trading days within 30, weekend holding forbidden, stop loss
/// required, 40% consistency, leverage 100.
pub fn ftmo_phase1() -> (r: ChallengePlan)
    ensures
        preset_meta(r.meta, "FTMO"@, "Challenge"@),
        preset_defaults(r),
        r.phase == ChallengePhase::Phase1,
        r.initial_balance_money.0 == 10_000 * SCALE,
        r.profit_target_pct.0 == 10_000_000,
        r.max_daily_drawdown_pct.0 == 5_000_000,
        r.max_total_drawdown_pct.0 == 10_000_000,
        r.max_loss_reference == LossReference::Static,
        !r.trailing_drawdown_enabled,
        r.trailing_drawdown_pct.0 == 0,
        r.min_trading_days == 3,
        r.time_limit_days == Some(30u32),
        r.news_trading_allowed,
        r.overnight_holding_allowed,
        !r.weekend_holding_allowed,
        r.hedging_allowed,
        r.grid_trading_allowed,
        r.require_stop_loss,
        r.consistency_pct == Some(Pct(40_000_000)),
        r.leverage == 100,
        plan_is_valid(r),
{
    let mut p = base_plan("FTMO", "Challenge", Money(10_000 * SCALE));
    p.phase = ChallengePhase::Phase1;
    p.profit_target_pct = Pct(10_000_000);
    p.max_daily_drawdown_pct = Pct(5_000_000);
    p.max_total_drawdown_pct = Pct(10_000_000);
    p.max_loss_reference = LossReference::Static;
    p.drawdown_on_balance = false;
    p.min_trading_days = 3;
    p.time_limit_days = Some(30);
    p.news_trading_allowed = true;
    p.overnight_holding_allowed = true;
    p.weekend_holding_allowed = false;
    p.hedging_allowed = true;
    p.grid_trading_allowed = true;
    p.require_stop_loss = true;
    p.consistency_pct = Some(Pct(40_000_000));
    p.leverage = 100;
    p
}

/// FTMO-style phase 2: phase 1 as verification, 5% target, 60 days.
pub fn ftmo_phase2() -> (r: ChallengePlan)
    ensures
        r.meta.program_name@ == "Verification"@,
        r.meta.firm_name@ == "FTMO"@,
        preset_defaults(r),
        r.phase == ChallengePhase::Phase2,
        r.initial_balance_money.0 == 10_000 * SCALE,
        r.profit_target_pct.0 == 5_000_000,
        r.max_daily_drawdown_pct.0 == 5_000_000,
        r.max_total_drawdown_pct.0 == 10_000_000,
        r.max_loss_reference == LossReference::Static,
        !r.trailing_drawdown_enabled,
        r.min_trading_days == 3,
        r.time_limit_days == Some(60u32),
        r.require_stop_loss,
        !r.weekend_holding_allowed,
        r.consistency_pct == Some(Pct(40_000_000)),
        r.leverage == 100,
        plan_is_valid(r),
{
    let mut p = ftmo_phase1();
    p.phase = ChallengePhase::Phase2;
    p.meta.program_name = "Verification".to_string();
    p.profit_target_pct = Pct(5_000_000);
    p.time_limit_days = Some(60);
    p
}

/// FTMO-style funded: no profit target, no time limit, trailing 10% max
/// loss.
pub fn ftmo_funded() -> (r: ChallengePlan)
    ensures
        r.meta.program_name@ == "Funded"@,
        r.meta.firm_name@ == "FTMO"@,
        preset_defaults(r),
        r.phase == ChallengePhase::Funded,
        r.initial_balance_money.0 == 10_000 * SCALE,
        r.profit_target_pct.0 == 0,
        r.max_daily_drawdown_pct.0 == 5_000_000,
        r.max_total_drawdown_pct.0 == 10_000_000,
        r.max_loss_reference == LossReference::Trailing,
        r.trailing_drawdown_enabled,
        r.trailing_drawdown_pct.0 == 10_000_000,
        r.min_trading_days == 3,
        r.time_limit_days is None,
        r.consistency_pct == Some(Pct(40_000_000)),
        plan_is_valid(r),
{
    let mut p = ftmo_phase2();
    p.phase = ChallengePhase::Funded;
    p.meta.program_name = "Funded".to_string();
    p.profit_target_pct = Pct(0);
    p.time_limit_days = None;
    p.max_loss_reference = LossReference::Trailing;
    p.trailing_drawdown_enabled = true;
    p.trailing_drawdown_pct = Pct(10_000_000);
    p.consistency_pct = Some(Pct(40_000_000));
    p
}

/// MyForexFunds-style phase 1: $50,000, 8% target, 5% daily and 10%
/// static max loss, no minimum days or time limit, everything allowed,
/// no consistency rule, leverage 500.
pub fn myforexfunds_phase1() -> (r: ChallengePlan)
    ensures
        preset_meta(r.meta, "MyForexFunds"@, "Challenge"@),
        preset_defaults(r),
        r.phase == ChallengePhase::Phase1,
        r.initial_balance_money.0 == 50_000 * SCALE,
        r.profit_target_pct.0 == 8_000_000,
        r.max_daily_drawdown_pct.0 == 5_000_000,
        r.max_total_drawdown_pct.0 == 10_000_000,
        r.max_loss_reference == LossReference::Static,
        !r.trailing_drawdown_enabled,
        r.min_trading_days == 0,
        r.time_limit_days is None,
        r.news_trading_allowed,
        r.overnight_holding_allowed,
        r.weekend_holding_allowed,
        r.hedging_allowed,
        r.grid_trading_allowed,
        !r.require_stop_loss,
        r.consistency_pct is None,
        r.leverage == 500,
        plan_is_valid(r),
{
    let mut p = base_plan("MyForexFunds", "Challenge", Money(50_000 * SCALE));
    p.phase = ChallengePhase::Phase1;
    p.profit_target_pct = Pct(8_000_000);
    p.max_daily_drawdown_pct = Pct(5_000_000);
    p.max_total_drawdown_pct = Pct(10_000_000);
    p.max_loss_reference = LossReference::Static;
    p.min_trading_days = 0;
    p.time_limit_days = None;
    p.news_trading_allowed = true;
    p.overnight_holding_allowed = true;
    p.weekend_holding_allowed = true;
    p.hedging_allowed = true;
    p.require_stop_loss = false;
    p.consistency_pct = None;
    p.leverage = 500;
    p
}

/// The Funded Trader-style phase 1: $100,000, 10% target, 5% daily and
/// 10% static max loss, news, overnight, weekend holding and hedging
/// forbidden, stop loss required, leverage 100.
pub fn thefundedtrader_phase1() -> (r: ChallengePlan)
    ensures
        preset_meta(r.meta, "The Funded Trader"@, "Challenge"@),
        preset_defaults(r),
        r.phase == ChallengePhase::Phase1,
        r.initial_balance_money.0 == 100_000 * SCALE,
        r.profit_target_pct.0 == 10_000_000,
        r.max_daily_drawdown_pct.0 == 5_000_000,
        r.max_total_drawdown_pct.0 == 10_000_000,
        r.max_loss_reference == LossReference::Static,
        !r.trailing_drawdown_enabled,
        r.min_trading_days == 0,
        r.time_limit_days is None,
        !r.news_trading_allowed,
        !r.overnight_holding_allowed,
        !r.weekend_holding_allowed,
        !r.hedging_allowed,
        r.grid_trading_allowed,
        r.require_stop_loss,
        r.consistency_pct is None,
        r.leverage == 100,
        plan_is_valid(r),
{
    let mut p = base_plan("The Funded Trader", "Challenge", Money(100_000 * SCALE));
    p.phase = ChallengePhase::Phase1;
    p.profit_target_pct = Pct(10_000_000);
    p.max_daily_drawdown_pct = Pct(5_000_000);
    p.max_total_drawdown_pct = Pct(10_000_000);
    p.max_loss_reference = LossReference::Static;
    p.min_trading_days = 0;
    p.time_limit_days = None;
    p.news_trading_allowed = false;
    p.overnight_holding_allowed = false;
    p.weekend_holding_allowed = false;
    p.hedging_allowed = false;
    p.require_stop_loss = true;
    p.consistency_pct = None;
    p.leverage = 100;
    p
}

/// SurgeTrader-style one-step plan: $25,000, 10% target, 3% daily and 5%
/// static max loss, everything allowed, leverage 30.
pub fn surgetrader_plan() -> (r: ChallengePlan)
    ensures
        preset_meta(r.meta, "SurgeTrader"@, "One-Step"@),
        preset_defaults(r),
        r.phase == ChallengePhase::Phase1,
        r.initial_balance_money.0 == 25_000 * SCALE,
        r.profit_target_pct.0 == 10_000_000,
        r.max_daily_drawdown_pct.0 == 3_000_000,
        r.max_total_drawdown_pct.0 == 5_000_000,
        r.max_loss_reference == LossReference::Static,
        !r.trailing_drawdown_enabled,
        r.min_trading_days == 0,
        r.time_limit_days is None,
        r.news_trading_allowed,
        r.overnight_holding_allowed,
        r.weekend_holding_allowed,
        r.hedging_allowed,
        r.grid_trading_allowed,
        !r.require_stop_loss,
        r.consistency_pct is None,
        r.leverage == 30,
        plan_is_valid(r),
{
    let mut p = base_plan("SurgeTrader", "One-Step", Money(25_000 * SCALE));
    p.phase = ChallengePhase::Phase1;
    p.profit_target_pct = Pct(10_000_000);
    p.max_daily_drawdown_pct = Pct(3_000_000);
    p.max_total_drawdown_pct = Pct(5_000_000);
    p.max_loss_reference = LossReference::Static;
    p.min_trading_days = 0;
    p.time_limit_days = None;
    p.news_trading_allowed = true;
    p.overnight_holding_allowed = true;
    p.weekend_holding_allowed = true;
    p.hedging_allowed = true;
    p.require_stop_loss = false;
    p.consistency_pct = None;
    p.leverage = 30;
    p
}

/// A custom plan: the default plan under firm "Custom" with the given
/// program name and balance.
pub fn custom(name: &str, balance: Money) -> (r: ChallengePlan)
    ensures
        preset_meta(r.meta, "Custom"@, name@),
        r.initial_balance_money == balance,
        preset_defaults(r),
        r.phase == ChallengePhase::Phase1,
        r.profit_target_pct.0 == 8_000_000,
        r.max_loss_reference == LossReference::Trailing,
        r.min_trading_days == 3,
        r.time_limit_days == Some(30u32),
{
    base_plan("Custom", name, balance)
}

} // verus!
