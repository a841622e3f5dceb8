//! Account state transitions.
//!
//! [`AccountState`] wraps an [`Account`] and applies the transitions the
//! pipeline performs: realized P&L, broker equity/balance updates, day
//! rollover, trading-day counting, phase upgrades, target stamping,
//! emergency stop, breach override, payout bookkeeping. Each transition is
//! stated as a spec function over the account.
use crate::account::{type_for_phase, Account, AccountStatus, AccountType};
use crate::error::Error;
use crate::fixed::fits;
use crate::market::{position_open, position_pnl, position_pnl_fits, Position, Quote};
use crate::override_engine::Override;
use crate::plan::{day_start_at, plan_offset, ChallengePhase};
use crate::types::{Money, Timestamp, MS_PER_DAY};
use vstd::prelude::*;

verus! {

/// A working copy of an account.
#[derive(Debug)]
pub struct AccountState {
    pub account: Account,
}

/// Net of a realized fill: P&L minus commission and swap.
pub open spec fn net_of(pnl: Money, commission: Money, swap: Money) -> int {
    pnl.0 - commission.0 - swap.0
}

/// `max(peak, v)`.
pub open spec fn raise(peak: Money, v: Money) -> Money {
    if v.0 > peak.0 {
        v
    } else {
        peak
    }
}

/// The sums [`apply_pnl`] computes fit the raw range.
pub open spec fn apply_pnl_fits(a: Account, pnl: Money, commission: Money, swap: Money) -> bool {
    let net = net_of(pnl, commission, swap);
    &&& fits(net)
    &&& fits(a.balance.0 + net)
    &&& fits(a.today_realized_pnl.0 + net)
    &&& fits(a.total_realized_pnl.0 + net)
    &&& fits(a.total_commissions.0 + commission.0)
    &&& fits(a.total_swaps.0 + swap.0)
}

/// Realized P&L applied: balance and equity move by the net, the balance
/// peak rises if exceeded, day and lifetime tallies grow, the fill time
/// is stamped.
pub open spec fn apply_pnl(
    a: Account,
    pnl: Money,
    commission: Money,
    swap: Money,
    at: Timestamp,
) -> Account {
    let net = net_of(pnl, commission, swap);
    let balance = Money((a.balance.0 + net) as i64);
    Account {
        balance: balance,
        equity: balance,
        peak_balance: raise(a.peak_balance, balance),
        today_realized_pnl: Money((a.today_realized_pnl.0 + net) as i64),
        total_realized_pnl: Money((a.total_realized_pnl.0 + net) as i64),
        total_commissions: Money((a.total_commissions.0 + commission.0) as i64),
        total_swaps: Money((a.total_swaps.0 + swap.0) as i64),
        last_trade_at: Some(at),
        ..a
    }
}

/// Broker equity applied; the equity peak rises if exceeded.
pub open spec fn with_equity(a: Account, equity: Money) -> Account {
    Account { equity: equity, peak_equity: raise(a.peak_equity, equity), ..a }
}

/// Broker balance applied; the balance peak rises if exceeded.
pub open spec fn with_balance(a: Account, balance: Money) -> Account {
    Account { balance: balance, peak_balance: raise(a.peak_balance, balance), ..a }
}

/// Engine estimate applied to the estimated track only.
pub open spec fn with_estimate(a: Account, equity: Money, balance: Money) -> Account {
    Account { estimated_equity: equity, estimated_balance: balance, ..a }
}

/// The first trade of the day counts the day once.
pub open spec fn mark_active(a: Account) -> Account {
    if !a.day_counted_today {
        Account {
            active_trading_days: (a.active_trading_days + 1) as u32,
            day_counted_today: true,
            ..a
        }
    } else {
        a
    }
}

/// The counters [`rollover`] increments stay in range.
pub open spec fn rollover_fits(a: Account, had_trades_today: bool) -> bool {
    &&& a.trading_day_index < u32::MAX
    &&& a.active_trading_days < u32::MAX
    &&& (had_trades_today && a.today_realized_pnl.0 > 0 ==> fits(
        a.sum_positive_days_profit.0 + a.today_realized_pnl.0,
    ))
}

/// Day rollover: the day's realized P&L is frozen into the largest day
/// profit / loss and the positive-day sum, the day is counted (unless the
/// first trade already counted it), the day index advances, day-start
/// balance and equity are reset to the current values, the day tally and
/// counting flag are cleared, and the server day moves to the day of `at`.
pub open spec fn rollover(a: Account, had_trades_today: bool, at: Option<Timestamp>) -> Account {
    let today = a.today_realized_pnl;
    Account {
        largest_day_profit: if had_trades_today && today.0 > a.largest_day_profit.0 {
            today
        } else {
            a.largest_day_profit
        },
        largest_day_loss: if had_trades_today && today.0 < a.largest_day_loss.0 {
            today
        } else {
            a.largest_day_loss
        },
        sum_positive_days_profit: if had_trades_today && today.0 > 0 {
            Money((a.sum_positive_days_profit.0 + today.0) as i64)
        } else {
            a.sum_positive_days_profit
        },
        active_trading_days: if had_trades_today && !a.day_counted_today {
            (a.active_trading_days + 1) as u32
        } else {
            a.active_trading_days
        },
        trading_day_index: (a.trading_day_index + 1) as u32,
        day_start_balance: a.balance,
        day_start_equity: a.equity,
        today_realized_pnl: Money(0),
        day_counted_today: false,
        current_trading_day_start: match at {
            Some(t) => Some(
                day_start_at(t as int, plan_offset(a.plan.timezone, t), a.plan.day_reset_time as int)
                    as i64,
            ),
            None => a.current_trading_day_start,
        },
        ..a
    }
}

/// The first target hit is stamped (time and day) and an active account
/// becomes target-hit-pending; later hits change nothing.
pub open spec fn mark_target(a: Account, at: Timestamp) -> Account {
    if a.target_reached_at is None {
        Account {
            target_reached_at: Some(at),
            target_reached_on_day: Some(a.trading_day_index),
            status: if a.status == AccountStatus::Active {
                AccountStatus::TargetHitPending
            } else {
                a.status
            },
            ..a
        }
    } else {
        a
    }
}

/// Legal phase upgrades: phase 1 to phase 2, phase 2 to funded.
pub open spec fn upgrade_allowed(from: ChallengePhase, to: ChallengePhase) -> bool {
    (from == ChallengePhase::Phase1 && to == ChallengePhase::Phase2) || (from
        == ChallengePhase::Phase2 && to == ChallengePhase::Funded)
}

/// Sum of the unrealized P&L of the open positions at a quote.
pub open spec fn open_pnl_sum(ps: Seq<Position>, q: Quote) -> int
    decreases ps.len(),
{
    if ps.len() == 0 {
        0
    } else {
        open_pnl_sum(ps.drop_last(), q) + position_pnl(ps.last(), q)
    }
}

/// Every partial sum of the open P&L (and its sum with the balance) fits.
pub open spec fn open_pnl_fits(balance: Money, ps: Seq<Position>, q: Quote) -> bool {
    &&& forall|i: int| 0 <= i < ps.len() ==> position_pnl_fits(#[trigger] ps[i], q)
    &&& forall|k: int| 0 <= k <= ps.len() ==> fits(#[trigger] open_pnl_sum(ps.take(k), q))
    &&& fits(balance.0 + open_pnl_sum(ps, q))
}

impl AccountState {
    /// Wraps an account.
    pub fn new(account: Account) -> (r: AccountState)
        ensures
            r.account == account,
    {
        AccountState { account }
    }

    /// Applies realized P&L net of commission and swap.
    pub fn apply_realized_pnl(self, pnl: Money, commission: Money, swap: Money, at: Timestamp) -> (r:
        AccountState)
        requires
            apply_pnl_fits(self.account, pnl, commission, swap),
        ensures
            r.account == apply_pnl(self.account, pnl, commission, swap, at),
    {
        let mut s = self;
        let net: i64 = (pnl.0 as i128 - commission.0 as i128 - swap.0 as i128) as i64;
        s.account.balance = Money(s.account.balance.0 + net);
        s.account.equity = s.account.balance;
        if s.account.balance.0 > s.account.peak_balance.0 {
            s.account.peak_balance = s.account.balance;
        }
        s.account.today_realized_pnl = Money(s.account.today_realized_pnl.0 + net);
        s.account.total_realized_pnl = Money(s.account.total_realized_pnl.0 + net);
        s.account.total_commissions = Money(s.account.total_commissions.0 + commission.0);
        s.account.total_swaps = Money(s.account.total_swaps.0 + swap.0);
        s.account.last_trade_at = Some(at);
        s
    }

    /// Applies a broker-reported equity.
    pub fn update_equity(self, equity: Money) -> (r: AccountState)
        ensures
            r.account == with_equity(self.account, equity),
    {
        let mut s = self;
        s.account.equity = equity;
        if equity.0 > s.account.peak_equity.0 {
            s.account.peak_equity = equity;
        }
        s
    }

    /// Applies a broker-reported balance.
    pub fn update_balance(self, balance: Money) -> (r: AccountState)
        ensures
            r.account == with_balance(self.account, balance),
    {
        let mut s = self;
        s.account.balance = balance;
        if balance.0 > s.account.peak_balance.0 {
            s.account.peak_balance = balance;
        }
        s
    }

    /// Records an engine estimate on the estimated track only; the
    /// authoritative equity, balance and peaks are untouched.
    pub fn set_estimated_equity(self, equity: Money, balance: Money) -> (r: AccountState)
        ensures
            r.account == with_estimate(self.account, equity, balance),
    {
        let mut s = self;
        s.account.estimated_equity = equity;
        s.account.estimated_balance = balance;
        s
    }

    /// Rolls the account over to a new server day.
    pub fn rollover_day(self, had_trades_today: bool, at: Option<Timestamp>) -> (r: AccountState)
        requires
            rollover_fits(self.account, had_trades_today),
            at matches Some(t) ==> t >= i64::MIN + MS_PER_DAY,
        ensures
            r.account == rollover(self.account, had_trades_today, at),
    {
        let mut s = self;
        if had_trades_today {
            let today_net = s.account.today_realized_pnl;
            if today_net.0 > s.account.largest_day_profit.0 {
                s.account.largest_day_profit = today_net;
            }
            if today_net.0 < s.account.largest_day_loss.0 {
                s.account.largest_day_loss = today_net;
            }
            if today_net.0 > 0 {
                s.account.sum_positive_days_profit = Money(
                    s.account.sum_positive_days_profit.0 + today_net.0,
                );
            }
            if !s.account.day_counted_today {
                s.account.active_trading_days = s.account.active_trading_days + 1;
            }
        }
        s.account.trading_day_index = s.account.trading_day_index + 1;
        s.account.day_start_balance = s.account.balance;
        s.account.day_start_equity = s.account.equity;
        s.account.today_realized_pnl = Money(0);
        s.account.day_counted_today = false;
        if let Some(t) = at {
            let start = s.account.plan.trading_day_start(t);
            s.account.current_trading_day_start = Some(start);
        }
        s
    }

    /// Counts the current day as a trading day (once per day).
    pub fn mark_active_trading_day(self) -> (r: AccountState)
        requires
            !self.account.day_counted_today ==> self.account.active_trading_days < u32::MAX,
        ensures
            r.account == mark_active(self.account),
    {
        let mut s = self;
        if !s.account.day_counted_today {
            s.account.active_trading_days = s.account.active_trading_days + 1;
            s.account.day_counted_today = true;
        }
        s
    }

    /// Upgrades the phase (phase 1 to phase 2, phase 2 to funded) and the
    /// account type with it; any other transition is an error.
    pub fn upgrade_phase(self, to: ChallengePhase) -> (r: Result<AccountState, Error>)
        ensures
            upgrade_allowed(self.account.plan.phase, to) ==> r is Ok && r->Ok_0.account == (
            Account {
                plan: crate::plan::ChallengePlan { phase: to, ..self.account.plan },
                account_type: type_for_phase(to),
                ..self.account
            }),
            !upgrade_allowed(self.account.plan.phase, to) ==> r is Err && r->Err_0 is InvalidState
                && r->Err_0->InvalidState_0@ == "invalid phase transition"@,
    {
        let from = self.account.plan.phase;
        let ok = match (from, to) {
            (ChallengePhase::Phase1, ChallengePhase::Phase2) => true,
            (ChallengePhase::Phase2, ChallengePhase::Funded) => true,
            _ => false,
        };
        if ok {
            let mut s = self;
            s.account.plan.phase = to;
            s.account.account_type = crate::account::account_type_for(to);
            Ok(s)
        } else {
            Err(Error::InvalidState("invalid phase transition".to_string()))
        }
    }

    /// Stamps the first time the profit target is reached (sticky).
    pub fn mark_target_reached(self, at: Timestamp) -> (r: AccountState)
        ensures
            r.account == mark_target(self.account, at),
    {
        let mut s = self;
        if s.account.target_reached_at.is_none() {
            s.account.target_reached_at = Some(at);
            s.account.target_reached_on_day = Some(s.account.trading_day_index);
            if s.account.status == AccountStatus::Active {
                s.account.status = AccountStatus::TargetHitPending;
            }
        }
        s
    }

    /// Marks the account emergency-stopped (reason and actor are audited
    /// by the caller's event).
    pub fn emergency_stop(self, reason: &str, actor_id: &str, at: Timestamp) -> (r: AccountState)
        ensures
            r.account == (Account { status: AccountStatus::EmergencyStopped, ..self.account }),
    {
        let mut s = self;
        s.account.status = AccountStatus::EmergencyStopped;
        s
    }

    /// Clears a breach through an override: `Failed` or
    /// `EmergencyStopped` becomes `Active`; any other status is an error.
    pub fn clear_breach(self, record: &Override) -> (r: Result<AccountState, Error>)
        ensures
            crate::account::status_breach_terminal(self.account.status) ==> r is Ok
                && r->Ok_0.account == (Account { status: AccountStatus::Active, ..self.account }),
            !crate::account::status_breach_terminal(self.account.status) ==> r is Err
                && r->Err_0 is InvalidState && r->Err_0->InvalidState_0@
                == "cannot clear breach: only Failed/EmergencyStopped are clearable"@,
    {
        match self.account.status {
            AccountStatus::Failed | AccountStatus::EmergencyStopped => {
                let mut s = self;
                s.account.status = AccountStatus::Active;
                Ok(s)
            },
            _ => Err(
                Error::invalid_state(
                    "cannot clear breach: only Failed/EmergencyStopped are clearable",
                ),
            ),
        }
    }

    /// Sets the status.
    pub fn terminate(self, status: AccountStatus) -> (r: AccountState)
        ensures
            r.account == (Account { status: status, ..self.account }),
    {
        let mut s = self;
        s.account.status = status;
        s
    }

    /// Moves a funded account to payout-pending (a pending one stays);
    /// any other status is an error.
    pub fn mark_payout_pending(self) -> (r: Result<AccountState, Error>)
        ensures
            self.account.status == AccountStatus::Funded ==> r is Ok && r->Ok_0.account == (
            Account { status: AccountStatus::PayoutPending, ..self.account }),
            self.account.status == AccountStatus::PayoutPending ==> r is Ok && r->Ok_0.account
                == self.account,
            self.account.status != AccountStatus::Funded && self.account.status
                != AccountStatus::PayoutPending ==> r is Err && r->Err_0 is InvalidState
                && r->Err_0->InvalidState_0@ == "payouts are only available to funded accounts"@,
    {
        match self.account.status {
            AccountStatus::Funded => {
                let mut s = self;
                s.account.status = AccountStatus::PayoutPending;
                Ok(s)
            },
            AccountStatus::PayoutPending => Ok(self),
            _ => Err(Error::invalid_state("payouts are only available to funded accounts")),
        }
    }

    /// The values the pipeline reports after a transition.
    pub fn delta(&self) -> (r: StateDelta)
        ensures
            r == (StateDelta {
                balance: self.account.balance,
                equity: self.account.equity,
                peak_balance: self.account.peak_balance,
                peak_equity: self.account.peak_equity,
                total_realized: self.account.total_realized_pnl,
            }),
    {
        StateDelta {
            balance: self.account.balance,
            equity: self.account.equity,
            peak_balance: self.account.peak_balance,
            peak_equity: self.account.peak_equity,
            total_realized: self.account.total_realized_pnl,
        }
    }
}

/// Values changed by a transition.
#[derive(Debug, Clone, Copy, PartialEq, Eq, Structural)]
pub struct StateDelta {
    pub balance: Money,
    pub equity: Money,
    pub peak_balance: Money,
    pub peak_equity: Money,
    pub total_realized: Money,
}

impl StateDelta {
    /// All zero.
    pub fn empty() -> (r: StateDelta)
        ensures
            r == (StateDelta {
                balance: Money(0),
                equity: Money(0),
                peak_balance: Money(0),
                peak_equity: Money(0),
                total_realized: Money(0),
            }),
    {
        StateDelta {
            balance: Money(0),
            equity: Money(0),
            peak_balance: Money(0),
            peak_equity: Money(0),
            total_realized: Money(0),
        }
    }
}

/// Balance plus the unrealized P&L of the open positions at one quote.
pub fn equity_after_tick(balance: Money, positions: &Vec<Position>, quote: &Quote) -> (r: Money)
    requires
        open_pnl_fits(balance, positions@, *quote),
    ensures
        r.0 == balance.0 + open_pnl_sum(positions@, *quote),
{
    let mut acc: i64 = 0;
    let mut i: usize = 0;
    while i < positions.len()
        invariant
            i <= positions@.len(),
            open_pnl_fits(balance, positions@, *quote),
            acc == open_pnl_sum(positions@.take(i as int), *quote),
        decreases positions@.len() - i,
    {
        let p = &positions[i];
        proof {
            let t = positions@.take(i + 1);
            assert(t.drop_last() == positions@.take(i as int));
            assert(t.last() == positions@[i as int]);
            assert(fits(open_pnl_sum(positions@.take(i + 1), *quote)));
            assert(position_pnl_fits(positions@[i as int], *quote));
        }
        let u = if p.is_open() {
            p.unrealized_pnl(quote)
        } else {
            Money(0)
        };
        acc = acc + u.0;
        i = i + 1;
    }
    assert(positions@.take(positions@.len() as int) == positions@);
    Money(balance.0 + acc)
}

// ---------------------------------------------------------------------
// Laws of the state transitions.
// ---------------------------------------------------------------------

/// Peaks never fall: realized P&L, broker equity and broker balance
/// updates, estimates, day rollover, day counting and target stamping all
/// keep or raise the balance and equity peaks.
pub proof fn law_peaks_never_fall(
    a: Account,
    pnl: Money,
    commission: Money,
    swap: Money,
    at: Timestamp,
    equity: Money,
    balance: Money,
    had: bool,
    day: Option<Timestamp>,
)
    ensures
        apply_pnl(a, pnl, commission, swap, at).peak_balance.0 >= a.peak_balance.0,
        apply_pnl(a, pnl, commission, swap, at).peak_equity == a.peak_equity,
        with_equity(a, equity).peak_equity.0 >= a.peak_equity.0,
        with_equity(a, equity).peak_equity.0 >= equity.0,
        with_balance(a, balance).peak_balance.0 >= a.peak_balance.0,
        with_balance(a, balance).peak_balance.0 >= balance.0,
        with_estimate(a, equity, balance).peak_balance == a.peak_balance,
        with_estimate(a, equity, balance).peak_equity == a.peak_equity,
        rollover(a, had, day).peak_balance == a.peak_balance,
        rollover(a, had, day).peak_equity == a.peak_equity,
        mark_active(a).peak_balance == a.peak_balance,
        mark_target(a, at).peak_balance == a.peak_balance,
{
}

/// The static loss floor never moves: no transition changes the initial
/// balance or the plan's loss reference and drawdown fractions.
pub proof fn law_static_floor_fixed(
    a: Account,
    pnl: Money,
    commission: Money,
    swap: Money,
    at: Timestamp,
    equity: Money,
    balance: Money,
    had: bool,
    day: Option<Timestamp>,
)
    ensures
        apply_pnl(a, pnl, commission, swap, at).initial_balance == a.initial_balance,
        with_equity(a, equity).initial_balance == a.initial_balance,
        with_balance(a, balance).initial_balance == a.initial_balance,
        with_estimate(a, equity, balance).initial_balance == a.initial_balance,
        rollover(a, had, day).initial_balance == a.initial_balance,
        mark_active(a).initial_balance == a.initial_balance,
        mark_target(a, at).initial_balance == a.initial_balance,
        apply_pnl(a, pnl, commission, swap, at).plan == a.plan,
        with_equity(a, equity).plan == a.plan,
        with_balance(a, balance).plan == a.plan,
        rollover(a, had, day).plan == a.plan,
{
}

/// An estimated equity never touches the authoritative equity, balance
/// or peaks, so it can never drive a breach.
pub proof fn law_estimate_isolated(a: Account, equity: Money, balance: Money)
    ensures
        with_estimate(a, equity, balance).equity == a.equity,
        with_estimate(a, equity, balance).balance == a.balance,
        with_estimate(a, equity, balance).day_start_equity == a.day_start_equity,
        with_estimate(a, equity, balance).day_start_balance == a.day_start_balance,
        with_estimate(a, equity, balance).estimated_equity == equity,
        with_estimate(a, equity, balance).estimated_balance == balance,
{
}

/// Once reached, the profit target stays reached: stamping again, realized
/// P&L, equity and balance moves (even below target) and day rollovers
/// keep the first timestamp.
pub proof fn law_target_sticky(
    a: Account,
    at: Timestamp,
    later: Timestamp,
    pnl: Money,
    commission: Money,
    swap: Money,
    equity: Money,
    balance: Money,
    had: bool,
    day: Option<Timestamp>,
)
    requires
        a.target_reached_at is Some,
    ensures
        mark_target(a, later) == a,
        apply_pnl(a, pnl, commission, swap, at).target_reached_at == a.target_reached_at,
        with_equity(a, equity).target_reached_at == a.target_reached_at,
        with_balance(a, balance).target_reached_at == a.target_reached_at,
        rollover(a, had, day).target_reached_at == a.target_reached_at,
        mark_active(a).target_reached_at == a.target_reached_at,
{
}

/// Counting the trading day is idempotent: marking twice is marking once.
pub proof fn law_mark_active_idempotent(a: Account)
    ensures
        mark_active(mark_active(a)) == mark_active(a),
{
}

/// A day with trades is counted exactly once, whether the first trade
/// counted it or the rollover did.
pub proof fn law_day_counted_once(a: Account, day: Option<Timestamp>)
    requires
        !a.day_counted_today,
    ensures
        rollover(mark_active(a), true, day).active_trading_days == (a.active_trading_days + 1) as u32,
        rollover(a, true, day).active_trading_days == (a.active_trading_days + 1) as u32,
        !rollover(mark_active(a), true, day).day_counted_today,
{
}

/// A rollover resets the day: the day tally is zero, the day-start values
/// are the current balance and equity, and the day index advances by one.
pub proof fn law_rollover_resets_day(a: Account, had: bool, day: Option<Timestamp>)
    ensures
        rollover(a, had, day).today_realized_pnl.0 == 0,
        rollover(a, had, day).day_start_balance == a.balance,
        rollover(a, had, day).day_start_equity == a.equity,
        rollover(a, had, day).trading_day_index == (a.trading_day_index + 1) as u32,
        rollover(a, had, day).balance == a.balance,
        rollover(a, had, day).equity == a.equity,
{
}

} // verus!
