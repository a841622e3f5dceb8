//! Rule violation records.
use crate::error::Error;
use crate::fixed::{div_raw, fits, fx_div, Fixed};
use crate::ids::{AccountId, RuleId, TenantId, ViolationId};
use crate::types::{Money, Timestamp};
use vstd::prelude::*;

verus! {

/// Severity of a violation, ordered `Info < Warning < Hard < Liquidate`.
#[derive(Debug, Clone, Copy, PartialEq, Eq, Structural)]
pub enum ViolationSeverity {
    /// Informational only.
    Info,
    /// The trader is notified; the account continues.
    Warning,
    /// The account is terminated.
    Hard,
    /// All open positions are liquidated.
    Liquidate,
}

/// Rank of a severity in its order.
pub open spec fn severity_rank(s: ViolationSeverity) -> u8 {
    match s {
        ViolationSeverity::Info => 0,
        ViolationSeverity::Warning => 1,
        ViolationSeverity::Hard => 2,
        ViolationSeverity::Liquidate => 3,
    }
}

impl ViolationSeverity {
    /// Rank in the order `Info < Warning < Hard < Liquidate`.
    pub fn rank(self) -> (r: u8)
        ensures
            r == severity_rank(self),
    {
        match self {
            ViolationSeverity::Info => 0,
            ViolationSeverity::Warning => 1,
            ViolationSeverity::Hard => 2,
            ViolationSeverity::Liquidate => 3,
        }
    }

    /// Lower-case label.
    pub fn label(self) -> (r: &'static str)
        ensures
            self == ViolationSeverity::Info ==> r@ == "info"@,
            self == ViolationSeverity::Warning ==> r@ == "warning"@,
            self == ViolationSeverity::Hard ==> r@ == "hard"@,
            self == ViolationSeverity::Liquidate ==> r@ == "liquidate"@,
    {
        match self {
            ViolationSeverity::Info => "info",
            ViolationSeverity::Warning => "warning",
            ViolationSeverity::Hard => "hard",
            ViolationSeverity::Liquidate => "liquidate",
        }
    }
}

/// Category of violation.
#[derive(Debug, Clone, Copy, PartialEq, Eq, Structural)]
pub enum ViolationKind {
    DailyDrawdown,
    MaxDrawdown,
    TrailingDrawdown,
    ProfitTargetMissed,
    MinTradingDays,
    Consistency,
    NewsTrading,
    OvernightHolding,
    WeekendHolding,
    MaxPositionSize,
    MaxLotSize,
    MaxOpenPositions,
    MaxDailyTrades,
    TimeLimit,
    Cooldown,
    Hedging,
    GridTrading,
    CopyTrading,
    MissingStopLoss,
    MissingTakeProfit,
    Custom,
}

/// Snake-case label of a violation kind.
pub open spec fn kind_label(k: ViolationKind) -> Seq<char> {
    match k {
        ViolationKind::DailyDrawdown => "daily_drawdown"@,
        ViolationKind::MaxDrawdown => "max_drawdown"@,
        ViolationKind::TrailingDrawdown => "trailing_drawdown"@,
        ViolationKind::ProfitTargetMissed => "profit_target_missed"@,
        ViolationKind::MinTradingDays => "min_trading_days"@,
        ViolationKind::Consistency => "consistency"@,
        ViolationKind::NewsTrading => "news_trading"@,
        ViolationKind::OvernightHolding => "overnight_holding"@,
        ViolationKind::WeekendHolding => "weekend_holding"@,
        ViolationKind::MaxPositionSize => "max_position_size"@,
        ViolationKind::MaxLotSize => "max_lot_size"@,
        ViolationKind::MaxOpenPositions => "max_open_positions"@,
        ViolationKind::MaxDailyTrades => "max_daily_trades"@,
        ViolationKind::TimeLimit => "time_limit"@,
        ViolationKind::Cooldown => "cooldown"@,
        ViolationKind::Hedging => "hedging"@,
        ViolationKind::GridTrading => "grid_trading"@,
        ViolationKind::CopyTrading => "copy_trading"@,
        ViolationKind::MissingStopLoss => "missing_stop_loss"@,
        ViolationKind::MissingTakeProfit => "missing_take_profit"@,
        ViolationKind::Custom => "custom"@,
    }
}

impl ViolationKind {
    /// Snake-case label (e.g. `daily_drawdown`).
    pub fn label(self) -> (r: &'static str)
        ensures
            r@ == kind_label(self),
    {
        match self {
            ViolationKind::DailyDrawdown => "daily_drawdown",
            ViolationKind::MaxDrawdown => "max_drawdown",
            ViolationKind::TrailingDrawdown => "trailing_drawdown",
            ViolationKind::ProfitTargetMissed => "profit_target_missed",
            ViolationKind::MinTradingDays => "min_trading_days",
            ViolationKind::Consistency => "consistency",
            ViolationKind::NewsTrading => "news_trading",
            ViolationKind::OvernightHolding => "overnight_holding",
            ViolationKind::WeekendHolding => "weekend_holding",
            ViolationKind::MaxPositionSize => "max_position_size",
            ViolationKind::MaxLotSize => "max_lot_size",
            ViolationKind::MaxOpenPositions => "max_open_positions",
            ViolationKind::MaxDailyTrades => "max_daily_trades",
            ViolationKind::TimeLimit => "time_limit",
            ViolationKind::Cooldown => "cooldown",
            ViolationKind::Hedging => "hedging",
            ViolationKind::GridTrading => "grid_trading",
            ViolationKind::CopyTrading => "copy_trading",
            ViolationKind::MissingStopLoss => "missing_stop_loss",
            ViolationKind::MissingTakeProfit => "missing_take_profit",
            ViolationKind::Custom => "custom",
        }
    }
}

/// A rule violation record.
#[derive(Debug)]
pub struct Violation {
    pub id: ViolationId,
    pub account_id: AccountId,
    pub tenant_id: TenantId,
    pub rule_id: RuleId,
    pub rule_name: String,
    pub kind: ViolationKind,
    pub severity: ViolationSeverity,
    pub message: String,
    pub occurred_at: Timestamp,
    /// Breach value (e.g. the drawdown amount).
    pub breach_value: Option<Money>,
    /// Threshold value (e.g. the allowed drawdown).
    pub threshold_value: Option<Money>,
    /// Breach over threshold.
    pub utilization: Option<Fixed>,
}

/// Hard or liquidate.
pub open spec fn violation_terminating(v: Violation) -> bool {
    v.severity == ViolationSeverity::Hard || v.severity == ViolationSeverity::Liquidate
}

impl Violation {
    /// A violation record without breach values.
    pub fn new(
        account_id: AccountId,
        rule_id: RuleId,
        rule_name: String,
        kind: ViolationKind,
        severity: ViolationSeverity,
        message: String,
        occurred_at: Timestamp,
    ) -> (r: Violation)
        ensures
            r.account_id == account_id,
            r.rule_id == rule_id,
            r.rule_name == rule_name,
            r.kind == kind,
            r.severity == severity,
            r.message == message,
            r.occurred_at == occurred_at,
            r.breach_value is None,
            r.threshold_value is None,
            r.utilization is None,
    {
        Violation {
            id: ViolationId::new(),
            account_id,
            tenant_id: TenantId::new(),
            rule_id,
            rule_name,
            kind,
            severity,
            message,
            occurred_at,
            breach_value: None,
            threshold_value: None,
            utilization: None,
        }
    }

    /// Sets the tenant.
    pub fn with_tenant(self, tenant_id: TenantId) -> (r: Violation)
        ensures
            r == (Violation { tenant_id: tenant_id, ..self }),
    {
        Violation { tenant_id, ..self }
    }

    /// Records breach and threshold; utilization is their ratio unless the
    /// threshold is zero (then it is left as it was).
    pub fn with_breach(self, breach: Money, threshold: Money) -> (r: Violation)
        requires
            threshold.0 != 0 ==> fits(fx_div(breach.0 as int, threshold.0 as int)),
        ensures
            r == (Violation {
                breach_value: Some(breach),
                threshold_value: Some(threshold),
                utilization: if threshold.0 != 0 {
                    Some(Fixed(fx_div(breach.0 as int, threshold.0 as int) as i64))
                } else {
                    self.utilization
                },
                ..self
            }),
    {
        let utilization = if threshold.0 != 0 {
            Some(Fixed(div_raw(breach.0, threshold.0)))
        } else {
            self.utilization
        };
        Violation {
            breach_value: Some(breach),
            threshold_value: Some(threshold),
            utilization,
            ..self
        }
    }

    /// Hard or liquidate severity.
    pub fn is_terminating(&self) -> (r: bool)
        ensures
            r == violation_terminating(*self),
    {
        match self.severity {
            ViolationSeverity::Hard | ViolationSeverity::Liquidate => true,
            _ => false,
        }
    }

    /// A rule name is required and a utilization may not be negative.
    pub fn validate(&self) -> (r: Result<(), Error>)
        ensures
            r is Ok <==> (self.rule_name@.len() > 0 && (self.utilization matches Some(u) ==> u.0
                >= 0)),
            r is Err ==> r->Err_0 is InvalidState && r->Err_0->InvalidState_0@ == (if self.rule_name@.len() == 0 {
                "violation rule_name cannot be empty"@
            } else {
                "violation utilization cannot be negative"@
            }),
    {
        if self.rule_name.as_str().unicode_len() == 0 {
            return Err(Error::InvalidState("violation rule_name cannot be empty".to_string()));
        }
        if let Some(util) = self.utilization {
            if util.0 < 0 {
                return Err(
                    Error::InvalidState("violation utilization cannot be negative".to_string()),
                );
            }
        }
        Ok(())
    }
}

} // verus!

verus! {

impl Clone for Violation {
    fn clone(&self) -> (r: Violation)
        ensures
            r == *self,
    {
        Violation {
            id: self.id,
            account_id: self.account_id,
            tenant_id: self.tenant_id,
            rule_id: self.rule_id,
            rule_name: self.rule_name.clone(),
            kind: self.kind,
            severity: self.severity,
            message: self.message.clone(),
            occurred_at: self.occurred_at,
            breach_value: self.breach_value,
            threshold_value: self.threshold_value,
            utilization: self.utilization,
        }
    }
}

} // verus!
