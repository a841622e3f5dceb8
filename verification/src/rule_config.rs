//! Per-rule configuration derived from a challenge plan.
use crate::fixed::Fixed;
use crate::plan::ChallengePlan;
use crate::types::Pct;
use vstd::prelude::*;

verus! {

#[derive(Debug, Clone, Copy, PartialEq, Eq, Structural)]
pub struct DailyDrawdownConfig {
    pub pct: Pct,
    pub on_balance: bool,
}

#[derive(Debug, Clone, Copy, PartialEq, Eq, Structural)]
pub struct MaxDrawdownConfig {
    pub pct: Pct,
    pub on_balance: bool,
}

#[derive(Debug, Clone, Copy, PartialEq, Eq, Structural)]
pub struct TrailingDrawdownConfig {
    pub pct: Pct,
    /// The trail starts once profit reaches this share of the balance.
    pub start_at_pct: Pct,
}

#[derive(Debug, Clone, Copy, PartialEq, Eq, Structural)]
pub struct ProfitTargetConfig {
    pub pct: Pct,
}

#[derive(Debug, Clone, Copy, PartialEq, Eq, Structural)]
pub struct MinTradingDaysConfig {
    pub days: u32,
}

#[derive(Debug, Clone, Copy, PartialEq, Eq, Structural)]
pub struct ConsistencyConfig {
    /// The largest day's profit may not exceed this share of total profit.
    pub max_day_profit_share: Pct,
}

#[derive(Debug, Clone, Copy, PartialEq, Eq, Structural)]
pub struct NewsTradingConfig {
    /// Minutes around a news event during which trading is restricted.
    pub window_minutes: u32,
    /// Closing existing positions stays allowed during news.
    pub allow_closes: bool,
}

#[derive(Debug, Clone, Copy, PartialEq, Eq, Structural)]
pub struct OvernightConfig {
    pub forbidden_from_hour: u8,
    pub forbidden_to_hour: u8,
}

#[derive(Debug, Clone, Copy, PartialEq, Eq, Structural)]
pub struct WeekendConfig {
    pub forbidden_from_hour: u8,
    pub weekend_starts_hour: u8,
}

#[derive(Debug, Clone, Copy, PartialEq, Eq, Structural)]
pub struct MaxPositionSizeConfig {
    pub max_lots_per_order: Fixed,
}

#[derive(Debug, Clone, Copy, PartialEq, Eq, Structural)]
pub struct MaxOpenPositionsConfig {
    pub max_count: u32,
}

#[derive(Debug, Clone, Copy, PartialEq, Eq, Structural)]
pub struct MaxDailyTradesConfig {
    pub max_count: u32,
}

#[derive(Debug, Clone, Copy, PartialEq, Eq, Structural)]
pub struct TimeLimitConfig {
    pub days: u32,
}

#[derive(Debug, Clone, Copy, PartialEq, Eq, Structural)]
pub struct CooldownConfig {
    pub seconds_between_trades: u64,
}

#[derive(Debug, Clone, Copy, PartialEq, Eq, Structural)]
pub struct HedgingConfig {
    pub allowed: bool,
}

#[derive(Debug, Clone, Copy, PartialEq, Eq, Structural)]
pub struct GridTradingConfig {
    pub allowed: bool,
    pub min_grid_spacing_pips: u32,
}

#[derive(Debug, Clone, Copy, PartialEq, Eq, Structural)]
pub struct CopyTradingConfig {
    pub allowed: bool,
}

#[derive(Debug, Clone, Copy, PartialEq, Eq, Structural)]
pub struct StopLossRequiredConfig {
    pub required: bool,
    pub min_distance_pips: Option<u32>,
}

#[derive(Debug, Clone, Copy, PartialEq, Eq, Structural)]
pub struct TakeProfitRequiredConfig {
    pub required: bool,
}

/// The configuration of every rule (`None` = the rule is not configured).
#[derive(Debug, Clone, Copy, PartialEq, Eq, Structural)]
pub struct RuleConfig {
    pub daily_drawdown: Option<DailyDrawdownConfig>,
    pub max_drawdown: Option<MaxDrawdownConfig>,
    pub trailing_drawdown: Option<TrailingDrawdownConfig>,
    pub profit_target: Option<ProfitTargetConfig>,
    pub min_trading_days: Option<MinTradingDaysConfig>,
    pub consistency: Option<ConsistencyConfig>,
    pub news_trading: Option<NewsTradingConfig>,
    pub overnight_holding: Option<OvernightConfig>,
    pub weekend_holding: Option<WeekendConfig>,
    pub max_position_size: Option<MaxPositionSizeConfig>,
    pub max_open_positions: Option<MaxOpenPositionsConfig>,
    pub max_daily_trades: Option<MaxDailyTradesConfig>,
    pub time_limit: Option<TimeLimitConfig>,
    pub cooldown: Option<CooldownConfig>,
    pub hedging: Option<HedgingConfig>,
    pub grid_trading: Option<GridTradingConfig>,
    pub copy_trading: Option<CopyTradingConfig>,
    pub sl_required: Option<StopLossRequiredConfig>,
    pub tp_required: Option<TakeProfitRequiredConfig>,
}

/// No rule configured.
pub open spec fn empty_config() -> RuleConfig {
    RuleConfig {
        daily_drawdown: None,
        max_drawdown: None,
        trailing_drawdown: None,
        profit_target: None,
        min_trading_days: None,
        consistency: None,
        news_trading: None,
        overnight_holding: None,
        weekend_holding: None,
        max_position_size: None,
        max_open_positions: None,
        max_daily_trades: None,
        time_limit: None,
        cooldown: None,
        hedging: None,
        grid_trading: None,
        copy_trading: None,
        sl_required: None,
        tp_required: None,
    }
}

impl RuleConfig {
    /// No rule configured.
    pub fn empty() -> (r: RuleConfig)
        ensures
            r == empty_config(),
    {
        RuleConfig {
            daily_drawdown: None,
            max_drawdown: None,
            trailing_drawdown: None,
            profit_target: None,
            min_trading_days: None,
            consistency: None,
            news_trading: None,
            overnight_holding: None,
            weekend_holding: None,
            max_position_size: None,
            max_open_positions: None,
            max_daily_trades: None,
            time_limit: None,
            cooldown: None,
            hedging: None,
            grid_trading: None,
            copy_trading: None,
            sl_required: None,
            tp_required: None,
        }
    }

    /// The rule configuration a plan implies: drawdown limits (on
    /// balance or equity as the plan says), the trailing drawdown when
    /// enabled (trailing from the start), profit target, minimum trading
    /// days, consistency when set, a 2-minute news window allowing
    /// closes, overnight 22:00-07:00 and weekend from 21:00, the position
    /// and trade limits the plan sets, cooldown when positive, hedging,
    /// grid (50-pip spacing) and copy-trading permissions, and the
    /// stop-loss / take-profit requirements.
    pub fn from_plan(plan: &ChallengePlan) -> (r: RuleConfig)
        ensures
            r.daily_drawdown == Some(
                DailyDrawdownConfig { pct: plan.max_daily_drawdown_pct, on_balance: plan.drawdown_on_balance },
            ),
            r.max_drawdown == Some(
                MaxDrawdownConfig { pct: plan.max_total_drawdown_pct, on_balance: plan.drawdown_on_balance },
            ),
            r.trailing_drawdown == (if plan.trailing_drawdown_enabled {
                Some(TrailingDrawdownConfig { pct: plan.trailing_drawdown_pct, start_at_pct: Pct(0) })
            } else {
                None
            }),
            r.profit_target == Some(ProfitTargetConfig { pct: plan.profit_target_pct }),
            r.min_trading_days == Some(MinTradingDaysConfig { days: plan.min_trading_days }),
            r.consistency == (match plan.consistency_pct {
                Some(c) => Some(ConsistencyConfig { max_day_profit_share: c }),
                None => None,
            }),
            r.news_trading == Some(NewsTradingConfig { window_minutes: 2, allow_closes: true }),
            r.overnight_holding == Some(OvernightConfig { forbidden_from_hour: 22, forbidden_to_hour: 7 }),
            r.weekend_holding == Some(WeekendConfig { forbidden_from_hour: 21, weekend_starts_hour: 21 }),
            r.max_position_size == (match plan.max_position_lots {
                Some(l) => Some(MaxPositionSizeConfig { max_lots_per_order: l }),
                None => None,
            }),
            r.max_open_positions == (match plan.max_open_positions {
                Some(c) => Some(MaxOpenPositionsConfig { max_count: c }),
                None => None,
            }),
            r.max_daily_trades == (match plan.max_daily_trades {
                Some(c) => Some(MaxDailyTradesConfig { max_count: c }),
                None => None,
            }),
            r.time_limit == (match plan.time_limit_days {
                Some(d) => Some(TimeLimitConfig { days: d }),
                None => None,
            }),
            r.cooldown == (if plan.cooldown_seconds > 0 {
                Some(CooldownConfig { seconds_between_trades: plan.cooldown_seconds })
            } else {
                None
            }),
            r.hedging == Some(HedgingConfig { allowed: plan.hedging_allowed }),
            r.grid_trading == Some(
                GridTradingConfig { allowed: plan.grid_trading_allowed, min_grid_spacing_pips: 50 },
            ),
            r.copy_trading == Some(CopyTradingConfig { allowed: plan.copy_trading_allowed }),
            r.sl_required == Some(
                StopLossRequiredConfig { required: plan.require_stop_loss, min_distance_pips: None },
            ),
            r.tp_required == Some(TakeProfitRequiredConfig { required: plan.require_take_profit }),
    {
        let mut cfg = RuleConfig::empty();
        cfg.daily_drawdown = Some(
            DailyDrawdownConfig { pct: plan.max_daily_drawdown_pct, on_balance: plan.drawdown_on_balance },
        );
        cfg.max_drawdown = Some(
            MaxDrawdownConfig { pct: plan.max_total_drawdown_pct, on_balance: plan.drawdown_on_balance },
        );
        if plan.trailing_drawdown_enabled {
            cfg.trailing_drawdown = Some(
                TrailingDrawdownConfig { pct: plan.trailing_drawdown_pct, start_at_pct: Pct(0) },
            );
        }
        cfg.profit_target = Some(ProfitTargetConfig { pct: plan.profit_target_pct });
        cfg.min_trading_days = Some(MinTradingDaysConfig { days: plan.min_trading_days });
        if let Some(c) = plan.consistency_pct {
            cfg.consistency = Some(ConsistencyConfig { max_day_profit_share: c });
        }
        cfg.news_trading = Some(NewsTradingConfig { window_minutes: 2, allow_closes: true });
        cfg.overnight_holding = Some(OvernightConfig { forbidden_from_hour: 22, forbidden_to_hour: 7 });
        cfg.weekend_holding = Some(WeekendConfig { forbidden_from_hour: 21, weekend_starts_hour: 21 });
        if let Some(l) = plan.max_position_lots {
            cfg.max_position_size = Some(MaxPositionSizeConfig { max_lots_per_order: l });
        }
        if let Some(c) = plan.max_open_positions {
            cfg.max_open_positions = Some(MaxOpenPositionsConfig { max_count: c });
        }
        if let Some(c) = plan.max_daily_trades {
            cfg.max_daily_trades = Some(MaxDailyTradesConfig { max_count: c });
        }
        if let Some(d) = plan.time_limit_days {
            cfg.time_limit = Some(TimeLimitConfig { days: d });
        }
        if plan.cooldown_seconds > 0 {
            cfg.cooldown = Some(CooldownConfig { seconds_between_trades: plan.cooldown_seconds });
        }
        cfg.hedging = Some(HedgingConfig { allowed: plan.hedging_allowed });
        cfg.grid_trading = Some(
            GridTradingConfig { allowed: plan.grid_trading_allowed, min_grid_spacing_pips: 50 },
        );
        cfg.copy_trading = Some(CopyTradingConfig { allowed: plan.copy_trading_allowed });
        cfg.sl_required = Some(
            StopLossRequiredConfig { required: plan.require_stop_loss, min_distance_pips: None },
        );
        cfg.tp_required = Some(TakeProfitRequiredConfig { required: plan.require_take_profit });
        cfg
    }
}

} // verus!
