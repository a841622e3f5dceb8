//! Account aggregate and snapshot.
//!
//! An [`Account`] tracks balance, equity, peaks, day-start values, the
//! bound [`ChallengePlan`] and the lifecycle status of a trader's program.
use crate::error::Error;
use crate::fixed::{div_raw, fits, fx_div, fx_mul, mul_raw, SCALE};
use crate::ids::{AccountId, ChallengeId, TenantId};
use crate::plan::{ChallengePhase, ChallengePlan, LossReference};
use crate::types::{Money, Pct, Timestamp, MS_PER_DAY};
use vstd::prelude::*;

verus! {

/// Type of the account.
#[derive(Debug, Clone, Copy, PartialEq, Eq, Structural)]
pub enum AccountType {
    Phase1,
    Phase2,
    Funded,
    Demo,
}

impl AccountType {
    /// Lower-case label (`phase1`, `phase2`, `funded`, `demo`).
    pub fn label(self) -> (r: &'static str)
        ensures
            self == AccountType::Phase1 ==> r@ == "phase1"@,
            self == AccountType::Phase2 ==> r@ == "phase2"@,
            self == AccountType::Funded ==> r@ == "funded"@,
            self == AccountType::Demo ==> r@ == "demo"@,
    {
        match self {
            AccountType::Phase1 => "phase1",
            AccountType::Phase2 => "phase2",
            AccountType::Funded => "funded",
            AccountType::Demo => "demo",
        }
    }
}

/// Lifecycle status of the account.
#[derive(Debug, Clone, Copy, PartialEq, Eq, Structural)]
pub enum AccountStatus {
    /// Evaluation not started.
    Pending,
    /// Evaluation in progress.
    Active,
    /// Profit target reached, minimum trading days not yet met (sticky).
    TargetHitPending,
    /// Evaluation passed.
    Passed,
    /// Evaluation failed.
    Failed,
    /// Funded and live.
    Funded,
    /// Payout pending.
    PayoutPending,
    /// Closed by the firm.
    Closed,
    /// Terminated by an emergency stop.
    EmergencyStopped,
}

/// Statuses in which the account trades.
pub open spec fn status_active(s: AccountStatus) -> bool {
    s == AccountStatus::Active || s == AccountStatus::Funded || s
        == AccountStatus::TargetHitPending
}

/// Statuses that end the program.
pub open spec fn status_terminal(s: AccountStatus) -> bool {
    s == AccountStatus::Passed || s == AccountStatus::Failed || s == AccountStatus::Closed || s
        == AccountStatus::EmergencyStopped
}

/// Statuses reached through a breach.
pub open spec fn status_breach_terminal(s: AccountStatus) -> bool {
    s == AccountStatus::Failed || s == AccountStatus::EmergencyStopped
}

impl AccountStatus {
    /// Active, funded or target-hit-pending.
    pub fn is_active(self) -> (r: bool)
        ensures
            r == status_active(self),
    {
        match self {
            AccountStatus::Active | AccountStatus::Funded | AccountStatus::TargetHitPending => true,
            _ => false,
        }
    }

    /// Passed, failed, closed or emergency-stopped.
    pub fn is_terminal(self) -> (r: bool)
        ensures
            r == status_terminal(self),
    {
        match self {
            AccountStatus::Passed
            | AccountStatus::Failed
            | AccountStatus::Closed
            | AccountStatus::EmergencyStopped => true,
            _ => false,
        }
    }

    /// Failed or emergency-stopped.
    pub fn is_breach_terminal(self) -> (r: bool)
        ensures
            r == status_breach_terminal(self),
    {
        match self {
            AccountStatus::Failed | AccountStatus::EmergencyStopped => true,
            _ => false,
        }
    }
}

/// The account type matching a plan phase.
pub open spec fn type_for_phase(p: ChallengePhase) -> AccountType {
    match p {
        ChallengePhase::Phase1 => AccountType::Phase1,
        ChallengePhase::Phase2 => AccountType::Phase2,
        ChallengePhase::Funded => AccountType::Funded,
    }
}

/// The account type matching a plan phase.
pub fn account_type_for(p: ChallengePhase) -> (r: AccountType)
    ensures
        r == type_for_phase(p),
{
    match p {
        ChallengePhase::Phase1 => AccountType::Phase1,
        ChallengePhase::Phase2 => AccountType::Phase2,
        ChallengePhase::Funded => AccountType::Funded,
    }
}

/// The account aggregate.
#[derive(Debug)]
pub struct Account {
    pub id: AccountId,
    pub account_type: AccountType,
    pub status: AccountStatus,
    pub challenge_id: ChallengeId,
    pub plan: ChallengePlan,
    /// Tenant the account belongs to.
    pub tenant_id: TenantId,
    /// Initial deposit.
    pub initial_balance: Money,
    /// Cash balance.
    pub balance: Money,
    /// Balance plus unrealized P&L (broker-reported).
    pub equity: Money,
    /// Engine-estimated equity (display only).
    pub estimated_equity: Money,
    /// Engine-estimated balance (display only).
    pub estimated_balance: Money,
    /// Highest equity seen.
    pub peak_equity: Money,
    /// Highest balance seen.
    pub peak_balance: Money,
    /// Start of the evaluation window.
    pub started_at: Option<Timestamp>,
    /// Deadline of the evaluation window.
    pub deadline: Option<Timestamp>,
    /// Balance at the start of the server day.
    pub day_start_balance: Money,
    /// Day index since the start.
    pub trading_day_index: u32,
    /// Number of distinct days with at least one trade.
    pub active_trading_days: u32,
    /// Whether the current day was already counted as a trading day.
    pub day_counted_today: bool,
    /// Realized P&L of the current day.
    pub today_realized_pnl: Money,
    /// Realized P&L of all time.
    pub total_realized_pnl: Money,
    pub total_commissions: Money,
    pub total_swaps: Money,
    /// Largest single-day profit.
    pub largest_day_profit: Money,
    /// Largest single-day loss (most negative day).
    pub largest_day_loss: Money,
    /// Sum of the profits of the positive days.
    pub sum_positive_days_profit: Money,
    /// Equity at the start of the server day.
    pub day_start_equity: Money,
    /// Start of the account's current server day.
    pub current_trading_day_start: Option<Timestamp>,
    /// When the profit target was first reached (never cleared).
    pub target_reached_at: Option<Timestamp>,
    /// Day index on which the profit target was first reached.
    pub target_reached_on_day: Option<u32>,
    /// Optimistic-concurrency version.
    pub version: u64,
    /// Timestamp of the last evaluated tick.
    pub last_tick_ts: Option<Timestamp>,
    /// Execution time of the latest fill.
    pub last_trade_at: Option<Timestamp>,
    /// Number of payouts executed.
    pub payout_count: u32,
    /// Balance stamped at the last payout.
    pub balance_at_last_payout: Money,
    /// When the last payout was approved.
    pub last_payout_at: Option<Timestamp>,
    /// Whether the enrolment-fee refund was already paid.
    pub refund_used: bool,
}

/// Day-start value the daily drawdown is measured from.
pub open spec fn dd_day_start(a: Account) -> i64 {
    if a.plan.drawdown_on_balance {
        a.day_start_balance.0
    } else {
        a.day_start_equity.0
    }
}

/// Current value drawdowns are measured on (balance or equity).
pub open spec fn dd_current(a: Account) -> i64 {
    if a.plan.drawdown_on_balance {
        a.balance.0
    } else {
        a.equity.0
    }
}

/// Reference of the maximum total drawdown for the plan's loss reference.
pub open spec fn loss_reference_value(a: Account) -> i64 {
    match a.plan.max_loss_reference {
        LossReference::Static => a.initial_balance.0,
        LossReference::Trailing => a.peak_balance.0,
        LossReference::EodTrailing => a.day_start_balance.0,
    }
}

/// `max(x, 0)`.
pub open spec fn pos(x: int) -> int {
    if x > 0 {
        x
    } else {
        0
    }
}

/// Daily drawdown limit (raw).
pub open spec fn daily_dd_limit_of(a: Account) -> int {
    fx_mul(a.plan.max_daily_drawdown_pct.0 as int, dd_day_start(a) as int)
}

/// Maximum total drawdown limit (raw) for the plan's loss reference.
pub open spec fn max_dd_limit_of(a: Account) -> int {
    fx_mul(a.plan.max_total_drawdown_pct.0 as int, loss_reference_value(a) as int)
}

/// Total drawdown (raw) measured from the plan's loss reference.
pub open spec fn total_drawdown_of(a: Account) -> int {
    pos(loss_reference_value(a) - dd_current(a))
}

/// Daily drawdown (raw) measured from the day start.
pub open spec fn daily_drawdown_of(a: Account) -> int {
    pos(dd_day_start(a) - dd_current(a))
}

/// Profit target (raw).
pub open spec fn profit_target_of(a: Account) -> int {
    fx_mul(a.plan.profit_target_pct.0 as int, a.initial_balance.0 as int)
}

/// Net profit (raw).
pub open spec fn net_profit_of(a: Account) -> int {
    a.balance.0 - a.initial_balance.0
}

/// Two accounts agree (their plans by [`crate::plan::same_plan`]).
pub open spec fn same_account(a: Account, b: Account) -> bool {
    Account { plan: b.plan, ..a } == b && crate::plan::same_plan(a.plan, b.plan)
}

impl Clone for Account {
    fn clone(&self) -> (r: Account)
        ensures
            same_account(r, *self),
    {
        Account {
            id: self.id,
            account_type: self.account_type,
            status: self.status,
            challenge_id: self.challenge_id,
            plan: self.plan.clone(),
            tenant_id: self.tenant_id,
            initial_balance: self.initial_balance,
            balance: self.balance,
            equity: self.equity,
            estimated_equity: self.estimated_equity,
            estimated_balance: self.estimated_balance,
            peak_equity: self.peak_equity,
            peak_balance: self.peak_balance,
            started_at: self.started_at,
            deadline: self.deadline,
            day_start_balance: self.day_start_balance,
            trading_day_index: self.trading_day_index,
            active_trading_days: self.active_trading_days,
            day_counted_today: self.day_counted_today,
            today_realized_pnl: self.today_realized_pnl,
            total_realized_pnl: self.total_realized_pnl,
            total_commissions: self.total_commissions,
            total_swaps: self.total_swaps,
            largest_day_profit: self.largest_day_profit,
            largest_day_loss: self.largest_day_loss,
            sum_positive_days_profit: self.sum_positive_days_profit,
            day_start_equity: self.day_start_equity,
            current_trading_day_start: self.current_trading_day_start,
            target_reached_at: self.target_reached_at,
            target_reached_on_day: self.target_reached_on_day,
            version: self.version,
            last_tick_ts: self.last_tick_ts,
            last_trade_at: self.last_trade_at,
            payout_count: self.payout_count,
            balance_at_last_payout: self.balance_at_last_payout,
            last_payout_at: self.last_payout_at,
            refund_used: self.refund_used,
        }
    }
}

/// Every derived amount of the account fits the raw range.
pub open spec fn derived_fit(a: Account) -> bool {
    &&& fits(daily_dd_limit_of(a))
    &&& fits(max_dd_limit_of(a))
    &&& fits(total_drawdown_of(a))
    &&& fits(daily_drawdown_of(a))
    &&& fits(profit_target_of(a))
    &&& fits(net_profit_of(a))
    &&& (daily_dd_limit_of(a) != 0 ==> fits(
        fx_div(daily_drawdown_of(a), daily_dd_limit_of(a)),
    ))
    &&& (max_dd_limit_of(a) != 0 ==> fits(fx_div(total_drawdown_of(a), max_dd_limit_of(a))))
    &&& (profit_target_of(a) != 0 ==> fits(fx_div(pos(net_profit_of(a)), profit_target_of(a))))
}

/// Daily drawdown utilization (raw fraction), zero when the limit is zero.
pub open spec fn daily_dd_utilization_of(a: Account) -> int {
    if daily_dd_limit_of(a) == 0 {
        0
    } else {
        unit_clamp(fx_div(daily_drawdown_of(a), daily_dd_limit_of(a)))
    }
}

/// A raw fraction held to `[0, 1]`.
pub open spec fn unit_clamp(x: int) -> int {
    if x < 0 {
        0
    } else if x > SCALE {
        SCALE as int
    } else {
        x
    }
}

/// Holds a raw fraction to `[0, 1]`.
fn clamp_unit(x: i64) -> (r: i64)
    ensures
        r == unit_clamp(x as int),
{
    if x < 0 {
        0
    } else if x > SCALE {
        SCALE
    } else {
        x
    }
}

/// Total drawdown utilization (raw fraction), zero when the limit is zero.
pub open spec fn max_dd_utilization_of(a: Account) -> int {
    if max_dd_limit_of(a) == 0 {
        0
    } else {
        unit_clamp(fx_div(total_drawdown_of(a), max_dd_limit_of(a)))
    }
}

/// Profit-target utilization (raw fraction), zero when the target is zero.
pub open spec fn profit_target_utilization_of(a: Account) -> int {
    if profit_target_of(a) == 0 {
        0
    } else {
        fx_div(pos(net_profit_of(a)), profit_target_of(a))
    }
}

impl Account {
    /// A new pending account funded with the plan's initial balance.
    pub fn new(id: AccountId, plan: ChallengePlan) -> (r: Account)
        ensures
            r.id == id,
            r.account_type == type_for_phase(plan.phase),
            r.status == AccountStatus::Pending,
            r.challenge_id == plan.id,
            r.plan == plan,
            r.initial_balance == plan.initial_balance_money,
            r.balance == plan.initial_balance_money,
            r.equity == plan.initial_balance_money,
            r.estimated_equity == plan.initial_balance_money,
            r.estimated_balance == plan.initial_balance_money,
            r.peak_equity == plan.initial_balance_money,
            r.peak_balance == plan.initial_balance_money,
            r.started_at is None,
            r.deadline is None,
            r.day_start_balance == plan.initial_balance_money,
            r.trading_day_index == 0,
            r.active_trading_days == 0,
            !r.day_counted_today,
            r.today_realized_pnl.0 == 0,
            r.total_realized_pnl.0 == 0,
            r.total_commissions.0 == 0,
            r.total_swaps.0 == 0,
            r.largest_day_profit.0 == 0,
            r.largest_day_loss.0 == 0,
            r.sum_positive_days_profit.0 == 0,
            r.day_start_equity == plan.initial_balance_money,
            r.current_trading_day_start is None,
            r.target_reached_at is None,
            r.target_reached_on_day is None,
            r.version == 0,
            r.last_tick_ts is None,
            r.last_trade_at is None,
            r.payout_count == 0,
            r.balance_at_last_payout == plan.initial_balance_money,
            r.last_payout_at is None,
            !r.refund_used,
    {
        let initial = plan.initial_balance();
        let account_type = account_type_for(plan.phase);
        let challenge_id = plan.id;
        Account {
            id,
            account_type,
            status: AccountStatus::Pending,
            challenge_id,
            plan,
            tenant_id: TenantId::new(),
            initial_balance: initial,
            balance: initial,
            equity: initial,
            estimated_equity: initial,
            estimated_balance: initial,
            peak_equity: initial,
            peak_balance: initial,
            started_at: None,
            deadline: None,
            day_start_balance: initial,
            trading_day_index: 0,
            active_trading_days: 0,
            day_counted_today: false,
            today_realized_pnl: Money(0),
            total_realized_pnl: Money(0),
            total_commissions: Money(0),
            total_swaps: Money(0),
            largest_day_profit: Money(0),
            largest_day_loss: Money(0),
            sum_positive_days_profit: Money(0),
            day_start_equity: initial,
            current_trading_day_start: None,
            target_reached_at: None,
            target_reached_on_day: None,
            version: 0,
            last_tick_ts: None,
            last_trade_at: None,
            payout_count: 0,
            balance_at_last_payout: initial,
            last_payout_at: None,
            refund_used: false,
        }
    }

    /// Sets the tenant.
    pub fn with_tenant(self, tenant_id: TenantId) -> (r: Account)
        ensures
            r == (Account { tenant_id: tenant_id, ..self }),
    {
        Account { tenant_id, ..self }
    }

    /// Starts a pending account at `at`: status `Active`, start stamped,
    /// current server day set, deadline `at + time_limit_days` when the
    /// plan has a time limit. Any other status is an error.
    pub fn start(self, at: Timestamp) -> (r: Result<Account, Error>)
        requires
            at >= i64::MIN + MS_PER_DAY,
            self.plan.time_limit_days matches Some(d) ==> fits(at + d * MS_PER_DAY),
        ensures
            self.status != AccountStatus::Pending ==> r is Err && r->Err_0 is InvalidState
                && r->Err_0->InvalidState_0@ == "account is not pending"@,
            self.status == AccountStatus::Pending ==> r is Ok && r->Ok_0 == (Account {
                status: AccountStatus::Active,
                started_at: Some(at),
                current_trading_day_start: Some(
                    crate::plan::day_start_at(
                        at as int,
                        crate::plan::plan_offset(self.plan.timezone, at),
                        self.plan.day_reset_time as int,
                    ) as i64,
                ),
                deadline: match self.plan.time_limit_days {
                    Some(d) => Some((at + d * MS_PER_DAY) as i64),
                    None => self.deadline,
                },
                ..self
            }),
    {
        if self.status != AccountStatus::Pending {
            return Err(Error::invalid_state("account is not pending"));
        }
        let day_start = self.plan.trading_day_start(at);
        let deadline = match self.plan.time_limit_days {
            Some(d) => Some(at + (d as i64) * MS_PER_DAY),
            None => self.deadline,
        };
        Ok(
            Account {
                status: AccountStatus::Active,
                started_at: Some(at),
                current_trading_day_start: Some(day_start),
                deadline,
                ..self
            },
        )
    }

    /// Daily drawdown limit: daily fraction of the day-start equity (or
    /// balance when the plan measures on balance).
    pub fn daily_dd_limit(&self) -> (r: Money)
        requires
            fits(daily_dd_limit_of(*self)),
        ensures
            r.0 == daily_dd_limit_of(*self),
    {
        let day_start = if self.plan.drawdown_on_balance {
            self.day_start_balance
        } else {
            self.day_start_equity
        };
        Money(mul_raw(self.plan.max_daily_drawdown_pct.0, day_start.0))
    }

    /// Static maximum loss: total fraction of the initial balance.
    pub fn max_dd_limit_static(&self) -> (r: Money)
        requires
            fits(fx_mul(self.plan.max_total_drawdown_pct.0 as int, self.initial_balance.0 as int)),
        ensures
            r.0 == fx_mul(self.plan.max_total_drawdown_pct.0 as int, self.initial_balance.0 as int),
    {
        Money(mul_raw(self.plan.max_total_drawdown_pct.0, self.initial_balance.0))
    }

    /// Trailing maximum loss: total fraction of the peak balance.
    pub fn max_dd_limit_trailing(&self) -> (r: Money)
        requires
            fits(fx_mul(self.plan.max_total_drawdown_pct.0 as int, self.peak_balance.0 as int)),
        ensures
            r.0 == fx_mul(self.plan.max_total_drawdown_pct.0 as int, self.peak_balance.0 as int),
    {
        Money(mul_raw(self.plan.max_total_drawdown_pct.0, self.peak_balance.0))
    }

    /// End-of-day trailing maximum loss: total fraction of the day-start
    /// balance.
    pub fn max_dd_limit_eod_trailing(&self) -> (r: Money)
        requires
            fits(
                fx_mul(self.plan.max_total_drawdown_pct.0 as int, self.day_start_balance.0 as int),
            ),
        ensures
            r.0 == fx_mul(
                self.plan.max_total_drawdown_pct.0 as int,
                self.day_start_balance.0 as int,
            ),
    {
        Money(mul_raw(self.plan.max_total_drawdown_pct.0, self.day_start_balance.0))
    }

    /// Maximum loss for the plan's loss reference.
    pub fn max_dd_limit(&self) -> (r: Money)
        requires
            fits(max_dd_limit_of(*self)),
        ensures
            r.0 == max_dd_limit_of(*self),
    {
        match self.plan.max_loss_reference {
            LossReference::Static => self.max_dd_limit_static(),
            LossReference::Trailing => self.max_dd_limit_trailing(),
            LossReference::EodTrailing => self.max_dd_limit_eod_trailing(),
        }
    }

    /// Total drawdown measured from the same reference as the limit,
    /// never negative.
    pub fn total_drawdown(&self) -> (r: Money)
        requires
            fits(total_drawdown_of(*self)),
        ensures
            r.0 == total_drawdown_of(*self),
            r.0 >= 0,
    {
        let reference = match self.plan.max_loss_reference {
            LossReference::Static => self.initial_balance,
            LossReference::Trailing => self.peak_balance,
            LossReference::EodTrailing => self.day_start_balance,
        };
        let current = if self.plan.drawdown_on_balance {
            self.balance
        } else {
            self.equity
        };
        let d: i128 = reference.0 as i128 - current.0 as i128;
        if d > 0 {
            Money(d as i64)
        } else {
            Money(0)
        }
    }

    /// Drawdown of the balance from its peak, never negative.
    pub fn balance_drawdown(&self) -> (r: Money)
        requires
            fits(self.peak_balance.0 - self.balance.0),
        ensures
            r.0 == pos(self.peak_balance.0 - self.balance.0),
    {
        let d = self.peak_balance.0 - self.balance.0;
        if d > 0 {
            Money(d)
        } else {
            Money(0)
        }
    }

    /// Profit target amount: target fraction of the initial balance.
    pub fn profit_target(&self) -> (r: Money)
        requires
            fits(profit_target_of(*self)),
        ensures
            r.0 == profit_target_of(*self),
    {
        Money(mul_raw(self.plan.profit_target_pct.0, self.initial_balance.0))
    }

    /// Drawdown of the equity from its peak, never negative.
    pub fn equity_drawdown(&self) -> (r: Money)
        requires
            fits(self.peak_equity.0 - self.equity.0),
        ensures
            r.0 == pos(self.peak_equity.0 - self.equity.0),
    {
        let d = self.peak_equity.0 - self.equity.0;
        if d > 0 {
            Money(d)
        } else {
            Money(0)
        }
    }

    /// Daily drawdown from the day start, never negative.
    pub fn daily_drawdown(&self) -> (r: Money)
        requires
            fits(daily_drawdown_of(*self)),
        ensures
            r.0 == daily_drawdown_of(*self),
            r.0 >= 0,
    {
        let (day_start, current) = if self.plan.drawdown_on_balance {
            (self.day_start_balance, self.balance)
        } else {
            (self.day_start_equity, self.equity)
        };
        let d: i128 = day_start.0 as i128 - current.0 as i128;
        if d > 0 {
            Money(d as i64)
        } else {
            Money(0)
        }
    }

    /// Balance minus initial balance.
    pub fn net_profit(&self) -> (r: Money)
        requires
            fits(net_profit_of(*self)),
        ensures
            r.0 == net_profit_of(*self),
    {
        Money(self.balance.0 - self.initial_balance.0)
    }

    /// Net profit at or above the profit target.
    pub fn reached_profit_target(&self) -> (r: bool)
        requires
            fits(net_profit_of(*self)),
            fits(profit_target_of(*self)),
        ensures
            r == (net_profit_of(*self) >= profit_target_of(*self)),
    {
        self.net_profit().0 >= self.profit_target().0
    }

    /// Daily drawdown over its limit, held to `[0, 1]` (zero when the
    /// limit is zero).
    pub fn daily_dd_utilization(&self) -> (r: Pct)
        requires
            derived_fit(*self),
        ensures
            r.0 == daily_dd_utilization_of(*self),
            0 <= r.0 <= SCALE,
    {
        let limit = self.daily_dd_limit();
        if limit.0 == 0 {
            return Pct(0);
        }
        Pct(clamp_unit(div_raw(self.daily_drawdown().0, limit.0)))
    }

    /// Total drawdown over its limit, held to `[0, 1]` (zero when the
    /// limit is zero).
    pub fn max_dd_utilization(&self) -> (r: Pct)
        requires
            derived_fit(*self),
        ensures
            r.0 == max_dd_utilization_of(*self),
            0 <= r.0 <= SCALE,
    {
        let limit = self.max_dd_limit();
        if limit.0 == 0 {
            return Pct(0);
        }
        Pct(clamp_unit(div_raw(self.total_drawdown().0, limit.0)))
    }

    /// The profit target was reached at some point (sticky).
    pub fn target_pending(&self) -> (r: bool)
        ensures
            r == self.target_reached_at is Some,
    {
        self.target_reached_at.is_some()
    }

    /// Target reached and minimum trading days met.
    pub fn target_fully_satisfied(&self) -> (r: bool)
        ensures
            r == (self.target_reached_at is Some && self.active_trading_days
                >= self.plan.min_trading_days),
    {
        self.target_reached_at.is_some() && self.active_trading_days >= self.plan.min_trading_days
    }
}

/// Point-in-time view of an account for the trader UI.
#[derive(Debug, Clone, Copy)]
pub struct AccountSnapshot {
    pub id: AccountId,
    pub account_type: AccountType,
    pub status: AccountStatus,
    pub initial_balance: Money,
    pub balance: Money,
    pub equity: Money,
    pub estimated_equity: Money,
    pub estimated_balance: Money,
    pub peak_equity: Money,
    pub peak_balance: Money,
    pub day_start_balance: Money,
    pub net_profit: Money,
    pub daily_drawdown: Money,
    pub total_drawdown: Money,
    pub daily_dd_utilization: Pct,
    pub max_dd_utilization: Pct,
    pub profit_target: Money,
    pub profit_target_utilization: Pct,
    pub active_trading_days: u32,
    pub trading_day_index: u32,
    pub started_at: Option<Timestamp>,
    pub deadline: Option<Timestamp>,
    pub challenge_id: ChallengeId,
    pub target_reached_at: Option<Timestamp>,
    pub max_loss_reference: LossReference,
    pub version: u64,
    pub tenant_id: TenantId,
}

/// `r` is the snapshot of `a`: its identity, status and balances, and
/// the derived drawdowns, utilizations and profit target.
pub open spec fn snapshot_of(r: AccountSnapshot, a: Account) -> bool {
    &&& r.id == a.id
    &&& r.account_type == a.account_type
    &&& r.status == a.status
    &&& r.initial_balance == a.initial_balance
    &&& r.balance == a.balance
    &&& r.equity == a.equity
    &&& r.estimated_equity == a.estimated_equity
    &&& r.estimated_balance == a.estimated_balance
    &&& r.peak_equity == a.peak_equity
    &&& r.peak_balance == a.peak_balance
    &&& r.day_start_balance == a.day_start_balance
    &&& r.net_profit.0 == net_profit_of(a)
    &&& r.daily_drawdown.0 == daily_drawdown_of(a)
    &&& r.total_drawdown.0 == total_drawdown_of(a)
    &&& r.daily_dd_utilization.0 == daily_dd_utilization_of(a)
    &&& r.max_dd_utilization.0 == max_dd_utilization_of(a)
    &&& r.profit_target.0 == profit_target_of(a)
    &&& r.profit_target_utilization.0 == profit_target_utilization_of(a)
    &&& r.active_trading_days == a.active_trading_days
    &&& r.trading_day_index == a.trading_day_index
    &&& r.started_at == a.started_at
    &&& r.deadline == a.deadline
    &&& r.challenge_id == a.challenge_id
    &&& r.target_reached_at == a.target_reached_at
    &&& r.max_loss_reference == a.plan.max_loss_reference
    &&& r.version == a.version
    &&& r.tenant_id == a.tenant_id
}

impl AccountSnapshot {
    /// Snapshot of an account with its derived amounts.
    pub fn from_account(a: &Account) -> (r: AccountSnapshot)
        requires
            derived_fit(*a),
        ensures
            snapshot_of(r, *a),
    {
        let t = a.profit_target();
        let net = a.net_profit();
        let ptu = if t.0 == 0 {
            Pct(0)
        } else {
            let np = if net.0 > 0 {
                net.0
            } else {
                0
            };
            Pct(div_raw(np, t.0))
        };
        AccountSnapshot {
            id: a.id,
            account_type: a.account_type,
            status: a.status,
            initial_balance: a.initial_balance,
            balance: a.balance,
            equity: a.equity,
            estimated_equity: a.estimated_equity,
            estimated_balance: a.estimated_balance,
            peak_equity: a.peak_equity,
            peak_balance: a.peak_balance,
            day_start_balance: a.day_start_balance,
            net_profit: net,
            daily_drawdown: a.daily_drawdown(),
            total_drawdown: a.total_drawdown(),
            daily_dd_utilization: a.daily_dd_utilization(),
            max_dd_utilization: a.max_dd_utilization(),
            profit_target: t,
            profit_target_utilization: ptu,
            active_trading_days: a.active_trading_days,
            trading_day_index: a.trading_day_index,
            started_at: a.started_at,
            deadline: a.deadline,
            challenge_id: a.challenge_id,
            target_reached_at: a.target_reached_at,
            max_loss_reference: a.plan.max_loss_reference,
            version: a.version,
            tenant_id: a.tenant_id,
        }
    }
}

} // verus!
