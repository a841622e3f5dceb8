//! Challenge plan definitions.
//!
//! A [`ChallengePlan`] is the immutable specification of an evaluation
//! program: profit target, drawdown limits, time limits and rule toggles.
use crate::error::Error;
use crate::fixed::Fixed;
use crate::ids::{ChallengeId, RuleId};
use crate::payout::PayoutConfig;
use crate::text::{lowercase_equals, lowers_to};
use crate::types::{now_millis, Money, Pct, Timestamp, MS_PER_DAY};
use chrono::{Offset, TimeZone};
use vstd::prelude::*;

verus! {

/// Phase of the challenge lifecycle.
#[derive(Debug, Clone, Copy, PartialEq, Eq, Structural)]
pub enum ChallengePhase {
    Phase1,
    Phase2,
    Funded,
}

impl ChallengePhase {
    /// Lower-case label (`phase1`, `phase2`, `funded`).
    pub fn label(self) -> (r: &'static str)
        ensures
            self == ChallengePhase::Phase1 ==> r@ == "phase1"@,
            self == ChallengePhase::Phase2 ==> r@ == "phase2"@,
            self == ChallengePhase::Funded ==> r@ == "funded"@,
    {
        match self {
            ChallengePhase::Phase1 => "phase1",
            ChallengePhase::Phase2 => "phase2",
            ChallengePhase::Funded => "funded",
        }
    }
}

/// Reference point of the maximum total drawdown.
///
/// `Static` measures from the initial balance (the floor never moves),
/// `Trailing` from the peak balance (the floor floats up), `EodTrailing`
/// from the prior day's closing balance (the floor moves once per day).
#[derive(Debug, Clone, Copy, PartialEq, Eq, Structural)]
pub enum LossReference {
    Static,
    Trailing,
    EodTrailing,
}

impl LossReference {
    /// Lower-case label (`static`, `trailing`, `eod_trailing`).
    pub fn label(self) -> (r: &'static str)
        ensures
            self == LossReference::Static ==> r@ == "static"@,
            self == LossReference::Trailing ==> r@ == "trailing"@,
            self == LossReference::EodTrailing ==> r@ == "eod_trailing"@,
    {
        match self {
            LossReference::Static => "static",
            LossReference::Trailing => "trailing",
            LossReference::EodTrailing => "eod_trailing",
        }
    }

    /// The default reference (`Trailing`).
    pub fn default_reference() -> (r: LossReference)
        ensures
            r == LossReference::Trailing,
    {
        LossReference::Trailing
    }

    /// Parses `static`, `trailing` or `eod_trailing` (also `eodtrailing`,
    /// `eod-trailing`), ignoring ASCII case.
    pub fn parse(s: &str) -> (r: Result<LossReference, Error>)
        ensures
            lowers_to(s@, "static"@) ==> r == Ok::<LossReference, Error>(LossReference::Static),
            !lowers_to(s@, "static"@) && lowers_to(s@, "trailing"@) ==> r == Ok::<
                LossReference,
                Error,
            >(LossReference::Trailing),
            !lowers_to(s@, "static"@) && !lowers_to(s@, "trailing"@) && (lowers_to(
                s@,
                "eod_trailing"@,
            ) || lowers_to(s@, "eodtrailing"@) || lowers_to(s@, "eod-trailing"@)) ==> r == Ok::<
                LossReference,
                Error,
            >(LossReference::EodTrailing),
            !lowers_to(s@, "static"@) && !lowers_to(s@, "trailing"@) && !lowers_to(
                s@,
                "eod_trailing"@,
            ) && !lowers_to(s@, "eodtrailing"@) && !lowers_to(s@, "eod-trailing"@) ==> r is Err
                && r->Err_0 is InvalidConfig && r->Err_0->InvalidConfig_0@
                == "unknown loss reference (expected 'static', 'trailing', or 'eod_trailing')"@,
    {
        if lowercase_equals(s, "static") {
            Ok(LossReference::Static)
        } else if lowercase_equals(s, "trailing") {
            Ok(LossReference::Trailing)
        } else if lowercase_equals(s, "eod_trailing") || lowercase_equals(s, "eodtrailing")
            || lowercase_equals(s, "eod-trailing") {
            Ok(LossReference::EodTrailing)
        } else {
            Err(Error::invalid_config(
                "unknown loss reference (expected 'static', 'trailing', or 'eod_trailing')",
            ))
        }
    }
}

/// Metadata about the plan (firm name, version, currency).
#[derive(Debug)]
pub struct PlanMeta {
    pub firm_name: String,
    pub program_name: String,
    pub version: String,
    pub currency: String,
    pub description: String,
}

impl PlanMeta {
    /// Generic metadata: "Generic Prop Firm", "Standard Evaluation", 1.0.0, USD.
    pub fn default_meta() -> (r: PlanMeta)
        ensures
            r.firm_name@ == "Generic Prop Firm"@,
            r.program_name@ == "Standard Evaluation"@,
            r.version@ == "1.0.0"@,
            r.currency@ == "USD"@,
            r.description@ == Seq::<char>::empty(),
    {
        PlanMeta {
            firm_name: "Generic Prop Firm".to_string(),
            program_name: "Standard Evaluation".to_string(),
            version: "1.0.0".to_string(),
            currency: "USD".to_string(),
            description: String::new(),
        }
    }
}

/// The full challenge plan.
#[derive(Debug)]
pub struct ChallengePlan {
    pub id: ChallengeId,
    pub phase: ChallengePhase,
    pub meta: PlanMeta,
    /// Initial (deposit) balance.
    pub initial_balance_money: Money,
    /// Profit target as a fraction of the initial balance.
    pub profit_target_pct: Pct,
    /// Maximum daily drawdown as a fraction.
    pub max_daily_drawdown_pct: Pct,
    /// Maximum total drawdown as a fraction.
    pub max_total_drawdown_pct: Pct,
    /// Reference point of the maximum total drawdown.
    pub max_loss_reference: LossReference,
    /// Whether drawdown is computed on balance (true) or equity (false).
    pub drawdown_on_balance: bool,
    /// Whether trailing drawdown is enabled.
    pub trailing_drawdown_enabled: bool,
    /// Trailing drawdown as a fraction of peak equity.
    pub trailing_drawdown_pct: Pct,
    /// Minimum number of distinct trading days.
    pub min_trading_days: u32,
    /// Optional time limit (days) to complete the phase.
    pub time_limit_days: Option<u32>,
    /// Max position size per order (lots).
    pub max_position_lots: Option<Fixed>,
    /// Max total open lots.
    pub max_total_lots: Option<Fixed>,
    /// Max simultaneously open positions.
    pub max_open_positions: Option<u32>,
    /// Max trades per day.
    pub max_daily_trades: Option<u32>,
    pub news_trading_allowed: bool,
    pub overnight_holding_allowed: bool,
    pub weekend_holding_allowed: bool,
    pub hedging_allowed: bool,
    pub grid_trading_allowed: bool,
    pub require_stop_loss: bool,
    pub require_take_profit: bool,
    /// Largest single-day profit may not exceed this share of total profit.
    pub consistency_pct: Option<Pct>,
    /// Cooldown between trades in seconds (0 = none).
    pub cooldown_seconds: u64,
    pub copy_trading_allowed: bool,
    pub refundable: bool,
    /// Maximum account leverage.
    pub leverage: u32,
    /// Allowed trading hours (start, end), 24h format.
    pub trading_hours: Option<(u8, u8)>,
    /// IANA name of the server-day timezone (`None` = UTC).
    pub timezone: Option<String>,
    /// Hour of day when the server day resets.
    pub day_reset_time: u8,
    /// Effective timestamp of the plan.
    pub effective_at: Timestamp,
    /// Per-trade maximum loss as a fraction of balance (`None` = off).
    pub per_trade_max_loss_pct: Option<Pct>,
    /// Per-trade maximum loss in money (`None` = off).
    pub per_trade_max_loss_money: Option<Money>,
    /// Whether the HFT / scalping ban is enabled.
    pub hft_ban_enabled: bool,
    /// Minimum round-trip time in seconds for the HFT ban.
    pub hft_min_round_trip_seconds: u64,
    /// Terminate after this many consecutive days without a trade.
    pub inactivity_days: Option<u32>,
    /// Payout policy of funded accounts (`None` = no payouts).
    pub payout_config: Option<PayoutConfig>,
    /// Enrolment fee refunded with the first payout of a refundable plan.
    pub refund_fee_amount: Money,
}

impl Clone for PlanMeta {
    fn clone(&self) -> (r: PlanMeta)
        ensures
            r == *self,
    {
        PlanMeta {
            firm_name: self.firm_name.clone(),
            program_name: self.program_name.clone(),
            version: self.version.clone(),
            currency: self.currency.clone(),
            description: self.description.clone(),
        }
    }
}

/// Two payout options agree.
pub open spec fn same_payout(a: Option<PayoutConfig>, b: Option<PayoutConfig>) -> bool {
    match (a, b) {
        (Some(x), Some(y)) => crate::payout::same_payout_config(x, y),
        (None, None) => true,
        _ => false,
    }
}

/// Two plans agree (the payout ladder by its rungs).
pub open spec fn same_plan(a: ChallengePlan, b: ChallengePlan) -> bool {
    ChallengePlan { payout_config: b.payout_config, ..a } == b && same_payout(a.payout_config, b.payout_config)
}

fn clone_text_option(t: &Option<String>) -> (r: Option<String>)
    ensures
        r == *t,
{
    match t {
        Some(s) => Some(s.clone()),
        None => None,
    }
}

fn clone_payout_option(c: &Option<PayoutConfig>) -> (r: Option<PayoutConfig>)
    ensures
        same_payout(r, *c),
{
    match c {
        Some(x) => Some(x.clone()),
        None => None,
    }
}

impl Clone for ChallengePlan {
    fn clone(&self) -> (r: ChallengePlan)
        ensures
            same_plan(r, *self),
    {
        ChallengePlan {
            id: self.id,
            phase: self.phase,
            meta: self.meta.clone(),
            initial_balance_money: self.initial_balance_money,
            profit_target_pct: self.profit_target_pct,
            max_daily_drawdown_pct: self.max_daily_drawdown_pct,
            max_total_drawdown_pct: self.max_total_drawdown_pct,
            max_loss_reference: self.max_loss_reference,
            drawdown_on_balance: self.drawdown_on_balance,
            trailing_drawdown_enabled: self.trailing_drawdown_enabled,
            trailing_drawdown_pct: self.trailing_drawdown_pct,
            min_trading_days: self.min_trading_days,
            time_limit_days: self.time_limit_days,
            max_position_lots: self.max_position_lots,
            max_total_lots: self.max_total_lots,
            max_open_positions: self.max_open_positions,
            max_daily_trades: self.max_daily_trades,
            news_trading_allowed: self.news_trading_allowed,
            overnight_holding_allowed: self.overnight_holding_allowed,
            weekend_holding_allowed: self.weekend_holding_allowed,
            hedging_allowed: self.hedging_allowed,
            grid_trading_allowed: self.grid_trading_allowed,
            require_stop_loss: self.require_stop_loss,
            require_take_profit: self.require_take_profit,
            consistency_pct: self.consistency_pct,
            cooldown_seconds: self.cooldown_seconds,
            copy_trading_allowed: self.copy_trading_allowed,
            refundable: self.refundable,
            leverage: self.leverage,
            trading_hours: self.trading_hours,
            timezone: clone_text_option(&self.timezone),
            day_reset_time: self.day_reset_time,
            effective_at: self.effective_at,
            per_trade_max_loss_pct: self.per_trade_max_loss_pct,
            per_trade_max_loss_money: self.per_trade_max_loss_money,
            hft_ban_enabled: self.hft_ban_enabled,
            hft_min_round_trip_seconds: self.hft_min_round_trip_seconds,
            inactivity_days: self.inactivity_days,
            payout_config: clone_payout_option(&self.payout_config),
            refund_fee_amount: self.refund_fee_amount,
        }
    }
}

/// The consistency conditions [`ChallengePlan::validate`] checks.
pub open spec fn plan_is_valid(p: ChallengePlan) -> bool {
    &&& p.initial_balance_money.0 > 0
    &&& p.profit_target_pct.0 >= 0
    &&& 0 <= p.max_daily_drawdown_pct.0 <= crate::fixed::SCALE
    &&& 0 <= p.max_total_drawdown_pct.0 <= crate::fixed::SCALE
    &&& (p.consistency_pct matches Some(c) ==> 0 <= c.0 <= crate::fixed::SCALE)
    &&& (p.trading_hours matches Some((s, e)) ==> s <= 24 && e <= 24)
}

/// UTC offset in seconds of the named IANA timezone at the given
/// instant (`local_minus_utc`), as `chrono_tz` computes it; `None` when
/// the name is unknown or the instant is out of `chrono`'s range.
pub uninterp spec fn tz_offset_at(name: Seq<char>, at: i64) -> Option<i32>;

/// Looks up the UTC offset, in seconds, of a timezone at an instant with
/// `chrono_tz`; the result is named by [`tz_offset_at`].
#[verifier::external_body]
fn timezone_offset_secs(name: &str, at: i64) -> (r: Option<i32>)
    ensures
        r == tz_offset_at(name@, at),
{
    let tz: chrono_tz::Tz = name.parse().ok()?;
    let dt = chrono::DateTime::from_timestamp_millis(at)?;
    Some(tz.offset_from_utc_datetime(&dt.naive_utc()).fix().local_minus_utc())
}

/// Euclidean remainder of `a` by the positive `d`.
pub open spec fn emod(a: int, d: int) -> int {
    a % d
}

/// The offset in force for a plan's timezone (UTC when unset or unknown).
pub open spec fn plan_offset(tz: Option<String>, at: i64) -> int {
    match tz {
        None => 0,
        Some(name) => match tz_offset_at(name@, at) {
            Some(o) => o * 1000,
            None => 0,
        },
    }
}

/// Start of the server day containing `at`: the latest instant not after
/// `at` whose local time (at `offset`) is `reset_hour`:00.
pub open spec fn day_start_at(at: int, offset: int, reset_hour: int) -> int {
    at - emod(at + offset - reset_hour * 3_600_000, MS_PER_DAY as int)
}

/// Message of the first check the plan fails, in the order the checks
/// run: balance, target, daily and total drawdown, consistency, hours.
pub open spec fn plan_error_text(p: ChallengePlan) -> Seq<char> {
    if p.initial_balance_money.0 <= 0 {
        "initial_balance must be positive"@
    } else if p.profit_target_pct.0 < 0 {
        "profit_target_pct must be non-negative"@
    } else if p.max_daily_drawdown_pct.0 < 0 || p.max_daily_drawdown_pct.0 > crate::fixed::SCALE {
        "max_daily_drawdown_pct must be in [0, 1]"@
    } else if p.max_total_drawdown_pct.0 < 0 || p.max_total_drawdown_pct.0 > crate::fixed::SCALE {
        "max_total_drawdown_pct must be in [0, 1]"@
    } else if p.consistency_pct matches Some(c) && (c.0 < 0 || c.0 > crate::fixed::SCALE) {
        "consistency_pct must be in [0, 1]"@
    } else {
        "trading_hours must be in [0, 24]"@
    }
}

/// The generic plan's terms (see [`ChallengePlan::default_plan`]).
pub open spec fn is_default_plan(r: ChallengePlan) -> bool {
    &&& r.phase == ChallengePhase::Phase1
    &&& r.initial_balance_money.0 == 10_000 * crate::fixed::SCALE
    &&& r.profit_target_pct.0 == 8_000_000
    &&& r.max_daily_drawdown_pct.0 == 5_000_000
    &&& r.max_total_drawdown_pct.0 == 10_000_000
    &&& r.max_loss_reference == LossReference::Trailing
    &&& !r.drawdown_on_balance
    &&& !r.trailing_drawdown_enabled
    &&& r.trailing_drawdown_pct.0 == 0
    &&& r.min_trading_days == 3
    &&& r.time_limit_days == Some(30u32)
    &&& r.max_position_lots == Some(Fixed(500_000_000))
    &&& r.max_total_lots == Some(Fixed(3_000_000_000))
    &&& r.max_open_positions == Some(20u32)
    &&& r.max_daily_trades == Some(50u32)
    &&& !r.news_trading_allowed
    &&& r.overnight_holding_allowed
    &&& !r.weekend_holding_allowed
    &&& r.hedging_allowed
    &&& r.grid_trading_allowed
    &&& !r.require_stop_loss
    &&& !r.require_take_profit
    &&& r.consistency_pct == Some(Pct(50_000_000))
    &&& r.cooldown_seconds == 0
    &&& !r.copy_trading_allowed
    &&& r.refundable
    &&& r.leverage == 100
    &&& r.trading_hours is None
    &&& r.timezone is None
    &&& r.day_reset_time == 0
    &&& r.per_trade_max_loss_pct is None
    &&& r.per_trade_max_loss_money is None
    &&& !r.hft_ban_enabled
    &&& r.hft_min_round_trip_seconds == 60
    &&& r.inactivity_days is None
    &&& r.payout_config is None
    &&& r.refund_fee_amount.0 == 0
    &&& plan_is_valid(r)
}

impl ChallengePlan {
    /// Start of the plan's server day containing `at`, in the plan's
    /// timezone with the day resetting at `day_reset_time`.
    pub fn trading_day_start(&self, at: Timestamp) -> (r: Timestamp)
        requires
            at >= i64::MIN + MS_PER_DAY,
        ensures
            r as int == day_start_at(
                at as int,
                plan_offset(self.timezone, at),
                self.day_reset_time as int,
            ),
            at - MS_PER_DAY < r <= at,
    {
        let off: i64 = match &self.timezone {
            None => 0,
            Some(name) => match timezone_offset_secs(name.as_str(), at) {
                Some(o) => (o as i64) * 1000,
                None => 0,
            },
        };
        let x: i128 = (at as i128) + (off as i128) - (self.day_reset_time as i128) * 3_600_000;
        let m: i128 = x % (MS_PER_DAY as i128);
        let m2: i128 = if m < 0 {
            m + (MS_PER_DAY as i128)
        } else {
            m
        };
        assert(m2 == emod(x as int, MS_PER_DAY as int));
        (at as i128 - m2) as i64
    }

    /// Start of the server day after the one starting at `start`.
    pub fn next_trading_day_start(&self, start: Timestamp) -> (r: Timestamp)
        requires
            i64::MIN + MS_PER_DAY <= start <= i64::MAX - MS_PER_DAY,
        ensures
            r as int == day_start_at(
                start + MS_PER_DAY,
                plan_offset(self.timezone, (start + MS_PER_DAY) as i64),
                self.day_reset_time as int,
            ),
            start < r <= start + MS_PER_DAY,
    {
        self.trading_day_start(start + MS_PER_DAY)
    }

    /// The initial balance.
    pub fn initial_balance(&self) -> (r: Money)
        ensures
            r == self.initial_balance_money,
    {
        self.initial_balance_money
    }

    /// The profit target fraction.
    pub fn profit_target(&self) -> (r: Pct)
        ensures
            r == self.profit_target_pct,
    {
        self.profit_target_pct
    }

    /// Checks internal consistency: positive initial balance, non-negative
    /// profit target, drawdown and consistency fractions within `[0, 1]`,
    /// trading hours within `[0, 24]`.
    pub fn validate(&self) -> (r: Result<(), Error>)
        ensures
            r is Ok <==> plan_is_valid(*self),
            r is Err ==> r->Err_0 is InvalidConfig && r->Err_0->InvalidConfig_0@ == plan_error_text(*self),
    {
        if self.initial_balance_money.0 <= 0 {
            return Err(Error::InvalidConfig("initial_balance must be positive".to_string()));
        }
        if self.profit_target_pct.0 < 0 {
            return Err(Error::InvalidConfig("profit_target_pct must be non-negative".to_string()));
        }
        if self.max_daily_drawdown_pct.0 < 0 || self.max_daily_drawdown_pct.0
            > crate::fixed::SCALE {
            return Err(Error::InvalidConfig("max_daily_drawdown_pct must be in [0, 1]".to_string()));
        }
        if self.max_total_drawdown_pct.0 < 0 || self.max_total_drawdown_pct.0
            > crate::fixed::SCALE {
            return Err(Error::InvalidConfig("max_total_drawdown_pct must be in [0, 1]".to_string()));
        }
        if let Some(c) = self.consistency_pct {
            if c.0 < 0 || c.0 > crate::fixed::SCALE {
                return Err(Error::InvalidConfig("consistency_pct must be in [0, 1]".to_string()));
            }
        }
        if let Some((s, e)) = self.trading_hours {
            if s > 24 || e > 24 {
                return Err(Error::InvalidConfig("trading_hours must be in [0, 24]".to_string()));
            }
        }
        Ok(())
    }

    /// Sets the initial balance.
    pub fn with_balance(self, balance: Money) -> (r: ChallengePlan)
        ensures
            r == (ChallengePlan { initial_balance_money: balance, ..self }),
    {
        ChallengePlan { initial_balance_money: balance, ..self }
    }

    /// Sets the phase.
    pub fn with_phase(self, phase: ChallengePhase) -> (r: ChallengePlan)
        ensures
            r == (ChallengePlan { phase: phase, ..self }),
    {
        ChallengePlan { phase, ..self }
    }

    /// Sets the profit target.
    pub fn with_profit_target(self, pct: Pct) -> (r: ChallengePlan)
        ensures
            r == (ChallengePlan { profit_target_pct: pct, ..self }),
    {
        ChallengePlan { profit_target_pct: pct, ..self }
    }

    /// Sets the maximum daily drawdown.
    pub fn with_daily_dd(self, pct: Pct) -> (r: ChallengePlan)
        ensures
            r == (ChallengePlan { max_daily_drawdown_pct: pct, ..self }),
    {
        ChallengePlan { max_daily_drawdown_pct: pct, ..self }
    }

    /// Sets the maximum total drawdown.
    pub fn with_total_dd(self, pct: Pct) -> (r: ChallengePlan)
        ensures
            r == (ChallengePlan { max_total_drawdown_pct: pct, ..self }),
    {
        ChallengePlan { max_total_drawdown_pct: pct, ..self }
    }

    /// Sets the maximum-loss reference mode.
    pub fn with_loss_reference(self, mode: LossReference) -> (r: ChallengePlan)
        ensures
            r == (ChallengePlan { max_loss_reference: mode, ..self }),
    {
        ChallengePlan { max_loss_reference: mode, ..self }
    }

    /// Sets the minimum trading days.
    pub fn with_min_days(self, days: u32) -> (r: ChallengePlan)
        ensures
            r == (ChallengePlan { min_trading_days: days, ..self }),
    {
        ChallengePlan { min_trading_days: days, ..self }
    }

    /// Sets the time limit.
    pub fn with_time_limit_days(self, days: u32) -> (r: ChallengePlan)
        ensures
            r == (ChallengePlan { time_limit_days: Some(days), ..self }),
    {
        ChallengePlan { time_limit_days: Some(days), ..self }
    }

    /// Enables trailing drawdown with the given fraction.
    pub fn with_trailing_dd(self, pct: Pct) -> (r: ChallengePlan)
        ensures
            r == (ChallengePlan {
                trailing_drawdown_enabled: true,
                trailing_drawdown_pct: pct,
                ..self
            }),
    {
        ChallengePlan { trailing_drawdown_enabled: true, trailing_drawdown_pct: pct, ..self }
    }

    /// Sets the consistency share.
    pub fn with_consistency(self, pct: Pct) -> (r: ChallengePlan)
        ensures
            r == (ChallengePlan { consistency_pct: Some(pct), ..self }),
    {
        ChallengePlan { consistency_pct: Some(pct), ..self }
    }

    /// Enables the per-trade maximum loss rule.
    pub fn with_per_trade_max_loss_pct(self, pct: Pct) -> (r: ChallengePlan)
        ensures
            r == (ChallengePlan { per_trade_max_loss_pct: Some(pct), ..self }),
    {
        ChallengePlan { per_trade_max_loss_pct: Some(pct), ..self }
    }

    /// Enables the HFT / scalping ban.
    pub fn with_hft_ban(self, min_round_trip_seconds: u64) -> (r: ChallengePlan)
        ensures
            r == (ChallengePlan {
                hft_ban_enabled: true,
                hft_min_round_trip_seconds: min_round_trip_seconds,
                ..self
            }),
    {
        ChallengePlan {
            hft_ban_enabled: true,
            hft_min_round_trip_seconds: min_round_trip_seconds,
            ..self
        }
    }

    /// Enables inactivity termination.
    pub fn with_inactivity_days(self, days: u32) -> (r: ChallengePlan)
        ensures
            r == (ChallengePlan { inactivity_days: Some(days), ..self }),
    {
        ChallengePlan { inactivity_days: Some(days), ..self }
    }

    /// The stable rule id of a named rule.
    pub fn rule_id(name: &str) -> (r: RuleId)
        ensures
            r.0 == crate::ids::uuid_from_hash(crate::ids::default_str_hash(name@)),
    {
        RuleId::named(name)
    }

    /// The generic plan: 10,000 balance, 8% target, 5% daily / 10% total
    /// trailing drawdown, 3 minimum days, 30-day limit, 5 lots per order,
    /// 30 total lots, 20 open positions, 50 daily trades, no news trading,
    /// overnight allowed, weekend not allowed, hedging and grid allowed,
    /// 50% consistency, leverage 100, refundable, opt-in rules off.
    pub fn default_plan() -> (r: ChallengePlan)
        ensures
            is_default_plan(r),
    {
        ChallengePlan {
            id: ChallengeId::new(),
            phase: ChallengePhase::Phase1,
            meta: PlanMeta::default_meta(),
            initial_balance_money: Money(10_000 * crate::fixed::SCALE),
            profit_target_pct: Pct(8_000_000),
            max_daily_drawdown_pct: Pct(5_000_000),
            max_total_drawdown_pct: Pct(10_000_000),
            max_loss_reference: LossReference::Trailing,
            drawdown_on_balance: false,
            trailing_drawdown_enabled: false,
            trailing_drawdown_pct: Pct(0),
            min_trading_days: 3,
            time_limit_days: Some(30),
            max_position_lots: Some(Fixed(500_000_000)),
            max_total_lots: Some(Fixed(3_000_000_000)),
            max_open_positions: Some(20),
            max_daily_trades: Some(50),
            news_trading_allowed: false,
            overnight_holding_allowed: true,
            weekend_holding_allowed: false,
            hedging_allowed: true,
            grid_trading_allowed: true,
            require_stop_loss: false,
            require_take_profit: false,
            consistency_pct: Some(Pct(50_000_000)),
            cooldown_seconds: 0,
            copy_trading_allowed: false,
            refundable: true,
            leverage: 100,
            trading_hours: None,
            timezone: None,
            day_reset_time: 0,
            effective_at: now_millis(),
            per_trade_max_loss_pct: None,
            per_trade_max_loss_money: None,
            hft_ban_enabled: false,
            hft_min_round_trip_seconds: 60,
            inactivity_days: None,
            payout_config: None,
            refund_fee_amount: Money(0),
        }
    }
}

impl Default for ChallengePlan {
    /// The generic plan: [`ChallengePlan::default_plan`].
    fn default() -> (r: ChallengePlan)
        ensures
            is_default_plan(r),
    {
        ChallengePlan::default_plan()
    }
}

impl Default for PlanMeta {
    /// Generic metadata: [`PlanMeta::default_meta`].
    fn default() -> (r: PlanMeta)
        ensures
            r.firm_name@ == "Generic Prop Firm"@,
            r.program_name@ == "Standard Evaluation"@,
            r.version@ == "1.0.0"@,
            r.currency@ == "USD"@,
            r.description@ == Seq::<char>::empty(),
    {
        PlanMeta::default_meta()
    }
}

} // verus!
