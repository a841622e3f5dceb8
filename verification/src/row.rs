//! Storage rows: the flat shapes accounts, positions and trades take in
//! a relational store (amounts as raw fixed-point, enums as names,
//! unsigned counters as signed columns), and the conversions both ways.
use crate::account::{same_account, Account, AccountStatus, AccountType};
use crate::ids::{AccountId, ChallengeId, OrderId, PositionId, TenantId, TradeId};
use crate::market::{Position, PositionSide, PositionStatus, Trade, TradeExit, TradeSide};
use crate::order::OrderSide;
use crate::plan::{same_plan, ChallengePlan};
use crate::rulepack::{PackLifecycle, RuleEntry, RulePack};
use crate::text::{lowercase_equals, lowers_to};
use crate::types::{now_millis, Money, Pct, Price, Quantity, Symbol, Timestamp};
use vstd::prelude::*;

verus! {

/// An account as stored.
#[derive(Debug)]
pub struct AccountRow {
    pub id: u128,
    pub tenant_id: u128,
    pub account_type: String,
    pub status: String,
    pub challenge_id: u128,
    pub plan: ChallengePlan,
    pub initial_balance: i64,
    pub balance: i64,
    pub equity: i64,
    pub estimated_equity: i64,
    pub estimated_balance: i64,
    pub peak_equity: i64,
    pub peak_balance: i64,
    pub started_at: Option<Timestamp>,
    pub deadline: Option<Timestamp>,
    pub day_start_balance: i64,
    pub trading_day_index: i32,
    pub active_trading_days: i32,
    pub day_counted_today: bool,
    pub today_realized_pnl: i64,
    pub total_realized_pnl: i64,
    pub total_commissions: i64,
    pub total_swaps: i64,
    pub largest_day_profit: i64,
    pub largest_day_loss: i64,
    pub sum_positive_days_profit: i64,
    pub day_start_equity: i64,
    pub current_trading_day_start: Option<Timestamp>,
    pub target_reached_at: Option<Timestamp>,
    pub target_reached_on_day: Option<i32>,
    pub version: i64,
    pub last_tick_ts: Option<Timestamp>,
    pub last_trade_at: Option<Timestamp>,
    pub payout_count: i32,
    pub balance_at_last_payout: i64,
    pub last_payout_at: Option<Timestamp>,
    pub refund_used: bool,
    pub created_at: Timestamp,
    pub updated_at: Timestamp,
}

/// Stored name of an account type.
pub open spec fn account_type_name(t: AccountType) -> Seq<char> {
    match t {
        AccountType::Phase1 => "Phase1"@,
        AccountType::Phase2 => "Phase2"@,
        AccountType::Funded => "Funded"@,
        AccountType::Demo => "Demo"@,
    }
}

/// Account type of a stored name (phase 1 for an unknown one).
pub open spec fn type_of_name(s: Seq<char>) -> AccountType {
    if s == "Phase2"@ {
        AccountType::Phase2
    } else if s == "Funded"@ {
        AccountType::Funded
    } else if s == "Demo"@ {
        AccountType::Demo
    } else {
        AccountType::Phase1
    }
}

/// Stored name of an account status.
pub open spec fn status_name(s: AccountStatus) -> Seq<char> {
    match s {
        AccountStatus::Pending => "Pending"@,
        AccountStatus::Active => "Active"@,
        AccountStatus::TargetHitPending => "TargetHitPending"@,
        AccountStatus::Passed => "Passed"@,
        AccountStatus::Failed => "Failed"@,
        AccountStatus::Funded => "Funded"@,
        AccountStatus::PayoutPending => "PayoutPending"@,
        AccountStatus::Closed => "Closed"@,
        AccountStatus::EmergencyStopped => "EmergencyStopped"@,
    }
}

/// Account status of a stored name (pending for an unknown one).
pub open spec fn status_of_name(s: Seq<char>) -> AccountStatus {
    if s == "Active"@ {
        AccountStatus::Active
    } else if s == "TargetHitPending"@ {
        AccountStatus::TargetHitPending
    } else if s == "Passed"@ {
        AccountStatus::Passed
    } else if s == "Failed"@ {
        AccountStatus::Failed
    } else if s == "Funded"@ {
        AccountStatus::Funded
    } else if s == "PayoutPending"@ {
        AccountStatus::PayoutPending
    } else if s == "Closed"@ {
        AccountStatus::Closed
    } else if s == "EmergencyStopped"@ {
        AccountStatus::EmergencyStopped
    } else {
        AccountStatus::Pending
    }
}

pub open spec fn day_to_column(o: Option<u32>) -> Option<i32> {
    match o {
        Some(v) => Some(v as i32),
        None => None,
    }
}

pub open spec fn day_of_column(o: Option<i32>) -> Option<u32> {
    match o {
        Some(v) => Some(v as u32),
        None => None,
    }
}

/// `r` stores `a`.
pub open spec fn row_of(a: Account, r: AccountRow) -> bool {
    &&& r.id == a.id.0 && r.tenant_id == a.tenant_id.0 && r.challenge_id == a.challenge_id.0
    &&& r.account_type@ == account_type_name(a.account_type) && r.status@ == status_name(a.status)
    &&& same_plan(r.plan, a.plan)
    &&& r.initial_balance == a.initial_balance.0 && r.balance == a.balance.0 && r.equity == a.equity.0
    &&& r.estimated_equity == a.estimated_equity.0 && r.estimated_balance == a.estimated_balance.0
    &&& r.peak_equity == a.peak_equity.0 && r.peak_balance == a.peak_balance.0
    &&& r.started_at == a.started_at && r.deadline == a.deadline
    &&& r.day_start_balance == a.day_start_balance.0
    &&& r.trading_day_index == a.trading_day_index as i32
    &&& r.active_trading_days == a.active_trading_days as i32
    &&& r.day_counted_today == a.day_counted_today
    &&& r.today_realized_pnl == a.today_realized_pnl.0 && r.total_realized_pnl == a.total_realized_pnl.0
    &&& r.total_commissions == a.total_commissions.0 && r.total_swaps == a.total_swaps.0
    &&& r.largest_day_profit == a.largest_day_profit.0 && r.largest_day_loss == a.largest_day_loss.0
    &&& r.sum_positive_days_profit == a.sum_positive_days_profit.0
    &&& r.day_start_equity == a.day_start_equity.0
    &&& r.current_trading_day_start == a.current_trading_day_start
    &&& r.target_reached_at == a.target_reached_at
    &&& r.target_reached_on_day == day_to_column(a.target_reached_on_day)
    &&& r.version == a.version as i64
    &&& r.last_tick_ts == a.last_tick_ts && r.last_trade_at == a.last_trade_at
    &&& r.payout_count == a.payout_count as i32
    &&& r.balance_at_last_payout == a.balance_at_last_payout.0
    &&& r.last_payout_at == a.last_payout_at && r.refund_used == a.refund_used
}

/// `a` is the account `r` stores.
pub open spec fn account_of(r: AccountRow, a: Account) -> bool {
    &&& a.id == AccountId(r.id) && a.tenant_id == TenantId(r.tenant_id) && a.challenge_id == ChallengeId(r.challenge_id)
    &&& a.account_type == type_of_name(r.account_type@) && a.status == status_of_name(r.status@)
    &&& a.plan == r.plan
    &&& a.initial_balance == Money(r.initial_balance) && a.balance == Money(r.balance) && a.equity == Money(r.equity)
    &&& a.estimated_equity == Money(r.estimated_equity) && a.estimated_balance == Money(r.estimated_balance)
    &&& a.peak_equity == Money(r.peak_equity) && a.peak_balance == Money(r.peak_balance)
    &&& a.started_at == r.started_at && a.deadline == r.deadline
    &&& a.day_start_balance == Money(r.day_start_balance)
    &&& a.trading_day_index == r.trading_day_index as u32
    &&& a.active_trading_days == r.active_trading_days as u32
    &&& a.day_counted_today == r.day_counted_today
    &&& a.today_realized_pnl == Money(r.today_realized_pnl) && a.total_realized_pnl == Money(r.total_realized_pnl)
    &&& a.total_commissions == Money(r.total_commissions) && a.total_swaps == Money(r.total_swaps)
    &&& a.largest_day_profit == Money(r.largest_day_profit) && a.largest_day_loss == Money(r.largest_day_loss)
    &&& a.sum_positive_days_profit == Money(r.sum_positive_days_profit)
    &&& a.day_start_equity == Money(r.day_start_equity)
    &&& a.current_trading_day_start == r.current_trading_day_start
    &&& a.target_reached_at == r.target_reached_at
    &&& a.target_reached_on_day == day_of_column(r.target_reached_on_day)
    &&& a.version == r.version as u64
    &&& a.last_tick_ts == r.last_tick_ts && a.last_trade_at == r.last_trade_at
    &&& a.payout_count == r.payout_count as u32
    &&& a.balance_at_last_payout == Money(r.balance_at_last_payout)
    &&& a.last_payout_at == r.last_payout_at && a.refund_used == r.refund_used
}

fn type_text(t: AccountType) -> (r: &'static str)
    ensures
        r@ == account_type_name(t),
{
    match t {
        AccountType::Phase1 => "Phase1",
        AccountType::Phase2 => "Phase2",
        AccountType::Funded => "Funded",
        AccountType::Demo => "Demo",
    }
}

fn status_text(s: AccountStatus) -> (r: &'static str)
    ensures
        r@ == status_name(s),
{
    match s {
        AccountStatus::Pending => "Pending",
        AccountStatus::Active => "Active",
        AccountStatus::TargetHitPending => "TargetHitPending",
        AccountStatus::Passed => "Passed",
        AccountStatus::Failed => "Failed",
        AccountStatus::Funded => "Funded",
        AccountStatus::PayoutPending => "PayoutPending",
        AccountStatus::Closed => "Closed",
        AccountStatus::EmergencyStopped => "EmergencyStopped",
    }
}

fn text_is(s: &String, lit: &str) -> (r: bool)
    ensures
        r == (s@ == lit@),
{
    crate::text::text_eq(s.as_str(), lit)
}

impl AccountRow {
    /// The account the row stores; an unknown type reads as phase 1 and
    /// an unknown status as pending.
    pub fn into_account(self) -> (r: Account)
        ensures
            account_of(self, r),
    {
        let account_type = if text_is(&self.account_type, "Phase2") {
            AccountType::Phase2
        } else if text_is(&self.account_type, "Funded") {
            AccountType::Funded
        } else if text_is(&self.account_type, "Demo") {
            AccountType::Demo
        } else {
            AccountType::Phase1
        };
        let status = if text_is(&self.status, "Active") {
            AccountStatus::Active
        } else if text_is(&self.status, "TargetHitPending") {
            AccountStatus::TargetHitPending
        } else if text_is(&self.status, "Passed") {
            AccountStatus::Passed
        } else if text_is(&self.status, "Failed") {
            AccountStatus::Failed
        } else if text_is(&self.status, "Funded") {
            AccountStatus::Funded
        } else if text_is(&self.status, "PayoutPending") {
            AccountStatus::PayoutPending
        } else if text_is(&self.status, "Closed") {
            AccountStatus::Closed
        } else if text_is(&self.status, "EmergencyStopped") {
            AccountStatus::EmergencyStopped
        } else {
            AccountStatus::Pending
        };
        let target_day = match self.target_reached_on_day {
            Some(v) => Some(v as u32),
            None => None,
        };
        Account {
            id: AccountId(self.id),
            account_type,
            status,
            challenge_id: ChallengeId(self.challenge_id),
            plan: self.plan,
            tenant_id: TenantId(self.tenant_id),
            initial_balance: Money(self.initial_balance),
            balance: Money(self.balance),
            equity: Money(self.equity),
            estimated_equity: Money(self.estimated_equity),
            estimated_balance: Money(self.estimated_balance),
            peak_equity: Money(self.peak_equity),
            peak_balance: Money(self.peak_balance),
            started_at: self.started_at,
            deadline: self.deadline,
            day_start_balance: Money(self.day_start_balance),
            trading_day_index: self.trading_day_index as u32,
            active_trading_days: self.active_trading_days as u32,
            day_counted_today: self.day_counted_today,
            today_realized_pnl: Money(self.today_realized_pnl),
            total_realized_pnl: Money(self.total_realized_pnl),
            total_commissions: Money(self.total_commissions),
            total_swaps: Money(self.total_swaps),
            largest_day_profit: Money(self.largest_day_profit),
            largest_day_loss: Money(self.largest_day_loss),
            sum_positive_days_profit: Money(self.sum_positive_days_profit),
            day_start_equity: Money(self.day_start_equity),
            current_trading_day_start: self.current_trading_day_start,
            target_reached_at: self.target_reached_at,
            target_reached_on_day: target_day,
            version: self.version as u64,
            last_tick_ts: self.last_tick_ts,
            last_trade_at: self.last_trade_at,
            payout_count: self.payout_count as u32,
            balance_at_last_payout: Money(self.balance_at_last_payout),
            last_payout_at: self.last_payout_at,
            refund_used: self.refund_used,
        }
    }

    /// The row storing an account, stamped with the clock.
    pub fn from_account(account: &Account) -> (r: AccountRow)
        ensures
            row_of(*account, r),
    {
        let now = now_millis();
        let target_day = match account.target_reached_on_day {
            Some(v) => Some(v as i32),
            None => None,
        };
        AccountRow {
            id: account.id.0,
            tenant_id: account.tenant_id.0,
            account_type: type_text(account.account_type).to_string(),
            status: status_text(account.status).to_string(),
            challenge_id: account.challenge_id.0,
            plan: account.plan.clone(),
            initial_balance: account.initial_balance.0,
            balance: account.balance.0,
            equity: account.equity.0,
            estimated_equity: account.estimated_equity.0,
            estimated_balance: account.estimated_balance.0,
            peak_equity: account.peak_equity.0,
            peak_balance: account.peak_balance.0,
            started_at: account.started_at,
            deadline: account.deadline,
            day_start_balance: account.day_start_balance.0,
            trading_day_index: account.trading_day_index as i32,
            active_trading_days: account.active_trading_days as i32,
            day_counted_today: account.day_counted_today,
            today_realized_pnl: account.today_realized_pnl.0,
            total_realized_pnl: account.total_realized_pnl.0,
            total_commissions: account.total_commissions.0,
            total_swaps: account.total_swaps.0,
            largest_day_profit: account.largest_day_profit.0,
            largest_day_loss: account.largest_day_loss.0,
            sum_positive_days_profit: account.sum_positive_days_profit.0,
            day_start_equity: account.day_start_equity.0,
            current_trading_day_start: account.current_trading_day_start,
            target_reached_at: account.target_reached_at,
            target_reached_on_day: target_day,
            version: account.version as i64,
            last_tick_ts: account.last_tick_ts,
            last_trade_at: account.last_trade_at,
            payout_count: account.payout_count as i32,
            balance_at_last_payout: account.balance_at_last_payout.0,
            last_payout_at: account.last_payout_at,
            refund_used: account.refund_used,
            created_at: now,
            updated_at: now,
        }
    }
}

proof fn lemma_u32_column(x: u32)
    ensures
        (x as i32) as u32 == x,
{
    assert((x as i32) as u32 == x) by (bit_vector);
}

proof fn lemma_u64_column(x: u64)
    ensures
        (x as i64) as u64 == x,
{
    assert((x as i64) as u64 == x) by (bit_vector);
}

/// Stored names read back as what they name.
proof fn lemma_account_names(t: AccountType, st: AccountStatus)
    ensures
        type_of_name(account_type_name(t)) == t,
        status_of_name(status_name(st)) == st,
{
    reveal_strlit("Active");
    reveal_strlit("Closed");
    reveal_strlit("Demo");
    reveal_strlit("EmergencyStopped");
    reveal_strlit("Failed");
    reveal_strlit("Funded");
    reveal_strlit("Passed");
    reveal_strlit("PayoutPending");
    reveal_strlit("Pending");
    reveal_strlit("Phase1");
    reveal_strlit("Phase2");
    reveal_strlit("TargetHitPending");
    assert("Phase1"@[5] != "Phase2"@[5]);
    assert("Phase1"@[0] != "Funded"@[0]);
    assert("Phase1"@[0] != "Demo"@[0]);
    assert("Phase2"@[0] != "Funded"@[0]);
    assert("Phase2"@[0] != "Demo"@[0]);
    assert("Funded"@[0] != "Demo"@[0]);
    assert("Pending"@[0] != "Active"@[0]);
    assert("Pending"@[0] != "TargetHitPending"@[0]);
    assert("Pending"@[1] != "Passed"@[1]);
    assert("Pending"@[0] != "Failed"@[0]);
    assert("Pending"@[0] != "Funded"@[0]);
    assert("Pending"@[1] != "PayoutPending"@[1]);
    assert("Pending"@[0] != "Closed"@[0]);
    assert("Pending"@[0] != "EmergencyStopped"@[0]);
    assert("Active"@[0] != "TargetHitPending"@[0]);
    assert("Active"@[0] != "Passed"@[0]);
    assert("Active"@[0] != "Failed"@[0]);
    assert("Active"@[0] != "Funded"@[0]);
    assert("Active"@[0] != "PayoutPending"@[0]);
    assert("Active"@[0] != "Closed"@[0]);
    assert("Active"@[0] != "EmergencyStopped"@[0]);
    assert("TargetHitPending"@[0] != "Passed"@[0]);
    assert("TargetHitPending"@[0] != "Failed"@[0]);
    assert("TargetHitPending"@[0] != "Funded"@[0]);
    assert("TargetHitPending"@[0] != "PayoutPending"@[0]);
    assert("TargetHitPending"@[0] != "Closed"@[0]);
    assert("TargetHitPending"@[0] != "EmergencyStopped"@[0]);
    assert("Passed"@[0] != "Failed"@[0]);
    assert("Passed"@[0] != "Funded"@[0]);
    assert("Passed"@[2] != "PayoutPending"@[2]);
    assert("Passed"@[0] != "Closed"@[0]);
    assert("Passed"@[0] != "EmergencyStopped"@[0]);
    assert("Failed"@[1] != "Funded"@[1]);
    assert("Failed"@[0] != "PayoutPending"@[0]);
    assert("Failed"@[0] != "Closed"@[0]);
    assert("Failed"@[0] != "EmergencyStopped"@[0]);
    assert("Funded"@[0] != "PayoutPending"@[0]);
    assert("Funded"@[0] != "Closed"@[0]);
    assert("Funded"@[0] != "EmergencyStopped"@[0]);
    assert("PayoutPending"@[0] != "Closed"@[0]);
    assert("PayoutPending"@[0] != "EmergencyStopped"@[0]);
    assert("Closed"@[0] != "EmergencyStopped"@[0]);
}

proof fn lemma_position_names()
    ensures
        "Short"@ != "Long"@,
        "Closed"@ != "Open"@,
        "Closed"@ != "Liquidated"@,
{
    reveal_strlit("Long");
    reveal_strlit("Short");
    reveal_strlit("Open");
    reveal_strlit("Closed");
    reveal_strlit("Liquidated");
    assert("Short"@.len() != "Long"@.len());
    assert("Closed"@.len() != "Open"@.len());
    assert("Closed"@.len() != "Liquidated"@.len());
}

proof fn lemma_trade_names()
    ensures
        "Sell"@ != "Buy"@,
        "Exit"@ != "Entry"@,
        "Exit"@ != "Reverse"@,
{
    reveal_strlit("Buy");
    reveal_strlit("Sell");
    reveal_strlit("Entry");
    reveal_strlit("Exit");
    reveal_strlit("Reverse");
    assert("Sell"@.len() != "Buy"@.len());
    assert("Exit"@.len() != "Entry"@.len());
    assert("Exit"@.len() != "Reverse"@.len());
}

/// Storing an account and reading the row back gives the same account.
pub proof fn law_account_row_roundtrip(a: Account, r: AccountRow, b: Account)
    requires
        row_of(a, r),
        account_of(r, b),
    ensures
        same_account(b, a),
{
    lemma_u32_column(a.trading_day_index);
    lemma_u32_column(a.active_trading_days);
    lemma_u32_column(a.payout_count);
    lemma_u64_column(a.version);
    if a.target_reached_on_day is Some {
        lemma_u32_column(a.target_reached_on_day->0);
    }
    lemma_account_names(a.account_type, a.status);
    assert(b.account_type == a.account_type);
    assert(b.status == a.status);
    assert(b.target_reached_on_day == a.target_reached_on_day);
}

/// A position as stored.
#[derive(Debug)]
pub struct PositionRow {
    pub id: u128,
    pub account_id: u128,
    pub symbol: String,
    pub side: String,
    pub opened_quantity: i64,
    pub open_quantity: i64,
    pub avg_entry_price: i64,
    pub status: String,
    pub opened_at: Timestamp,
    pub closed_at: Option<Timestamp>,
    pub realized_pnl: i64,
    pub commission: i64,
    pub swap: i64,
    pub stop_loss: Option<i64>,
    pub take_profit: Option<i64>,
    pub magic: Option<i64>,
    pub comment: Option<String>,
    pub created_at: Timestamp,
    pub updated_at: Timestamp,
}

pub open spec fn price_column(p: Option<Price>) -> Option<i64> {
    match p {
        Some(x) => Some(x.0),
        None => None,
    }
}

pub open spec fn price_of_column(p: Option<i64>) -> Option<Price> {
    match p {
        Some(x) => Some(Price(x)),
        None => None,
    }
}

pub open spec fn magic_column(m: Option<u64>) -> Option<i64> {
    match m {
        Some(x) => Some(x as i64),
        None => None,
    }
}

pub open spec fn magic_of_column(m: Option<i64>) -> Option<u64> {
    match m {
        Some(x) => Some(x as u64),
        None => None,
    }
}

pub open spec fn position_status_name(s: PositionStatus) -> Seq<char> {
    match s {
        PositionStatus::Open => "Open"@,
        PositionStatus::Closed => "Closed"@,
        PositionStatus::Liquidated => "Liquidated"@,
    }
}

/// `r` stores `p`.
pub open spec fn position_row_of(p: Position, r: PositionRow) -> bool {
    &&& r.id == p.id.0 && r.account_id == p.account_id.0 && r.symbol == p.symbol.0
    &&& r.side@ == (if p.side == PositionSide::Long {
        "Long"@
    } else {
        "Short"@
    })
    &&& r.opened_quantity == p.opened_quantity.0 && r.open_quantity == p.open_quantity.0
    &&& r.avg_entry_price == p.avg_entry_price.0
    &&& r.status@ == position_status_name(p.status)
    &&& r.opened_at == p.opened_at && r.closed_at == p.closed_at
    &&& r.realized_pnl == p.realized_pnl.0 && r.commission == p.commission.0 && r.swap == p.swap.0
    &&& r.stop_loss == price_column(p.stop_loss) && r.take_profit == price_column(p.take_profit)
    &&& r.magic == magic_column(p.magic)
    &&& r.comment == p.comment
}

/// `p` is the position `r` stores: `Short` reads as short and anything
/// else as long; `Closed` reads as closed and anything else as open.
pub open spec fn position_of_row(r: PositionRow, p: Position) -> bool {
    &&& p.id == PositionId(r.id) && p.account_id == AccountId(r.account_id) && p.symbol == Symbol(r.symbol)
    &&& p.side == (if r.side@ == "Short"@ {
        PositionSide::Short
    } else {
        PositionSide::Long
    })
    &&& p.opened_quantity == Quantity(r.opened_quantity) && p.open_quantity == Quantity(r.open_quantity)
    &&& p.avg_entry_price == Price(r.avg_entry_price)
    &&& p.status == (if r.status@ == "Closed"@ {
        PositionStatus::Closed
    } else {
        PositionStatus::Open
    })
    &&& p.opened_at == r.opened_at && p.closed_at == r.closed_at
    &&& p.realized_pnl == Money(r.realized_pnl) && p.commission == Money(r.commission) && p.swap == Money(r.swap)
    &&& p.stop_loss == price_of_column(r.stop_loss) && p.take_profit == price_of_column(r.take_profit)
    &&& p.magic == magic_of_column(r.magic)
    &&& p.comment == r.comment
}

fn clone_comment(c: &Option<String>) -> (r: Option<String>)
    ensures
        r == *c,
{
    match c {
        Some(s) => Some(s.clone()),
        None => None,
    }
}

impl PositionRow {
    /// The row storing a position, stamped with the clock.
    pub fn from_position(position: &Position) -> (r: PositionRow)
        ensures
            position_row_of(*position, r),
    {
        let now = now_millis();
        let side = if position.side == PositionSide::Long {
            "Long"
        } else {
            "Short"
        };
        let status = match position.status {
            PositionStatus::Open => "Open",
            PositionStatus::Closed => "Closed",
            PositionStatus::Liquidated => "Liquidated",
        };
        PositionRow {
            id: position.id.0,
            account_id: position.account_id.0,
            symbol: position.symbol.0.clone(),
            side: side.to_string(),
            opened_quantity: position.opened_quantity.0,
            open_quantity: position.open_quantity.0,
            avg_entry_price: position.avg_entry_price.0,
            status: status.to_string(),
            opened_at: position.opened_at,
            closed_at: position.closed_at,
            realized_pnl: position.realized_pnl.0,
            commission: position.commission.0,
            swap: position.swap.0,
            stop_loss: match position.stop_loss {
                Some(p) => Some(p.0),
                None => None,
            },
            take_profit: match position.take_profit {
                Some(p) => Some(p.0),
                None => None,
            },
            magic: match position.magic {
                Some(m) => Some(m as i64),
                None => None,
            },
            comment: clone_comment(&position.comment),
            created_at: now,
            updated_at: now,
        }
    }

    /// The position the row stores.
    pub fn into_position(self) -> (r: Position)
        ensures
            position_of_row(self, r),
    {
        let side = if text_is(&self.side, "Short") {
            PositionSide::Short
        } else {
            PositionSide::Long
        };
        let status = if text_is(&self.status, "Closed") {
            PositionStatus::Closed
        } else {
            PositionStatus::Open
        };
        Position {
            id: PositionId(self.id),
            account_id: AccountId(self.account_id),
            symbol: Symbol(self.symbol),
            side,
            opened_at: self.opened_at,
            closed_at: self.closed_at,
            status,
            avg_entry_price: Price(self.avg_entry_price),
            opened_quantity: Quantity(self.opened_quantity),
            open_quantity: Quantity(self.open_quantity),
            realized_pnl: Money(self.realized_pnl),
            commission: Money(self.commission),
            swap: Money(self.swap),
            stop_loss: match self.stop_loss {
                Some(p) => Some(Price(p)),
                None => None,
            },
            take_profit: match self.take_profit {
                Some(p) => Some(Price(p)),
                None => None,
            },
            magic: match self.magic {
                Some(m) => Some(m as u64),
                None => None,
            },
            comment: self.comment,
        }
    }
}

/// Storing a position and reading it back gives the same position,
/// except that a liquidated position reads back as open.
pub proof fn law_position_row_roundtrip(p: Position, r: PositionRow, q: Position)
    requires
        position_row_of(p, r),
        position_of_row(r, q),
    ensures
        p.status != PositionStatus::Liquidated ==> q == p,
        p.status == PositionStatus::Liquidated ==> q == (Position { status: PositionStatus::Open, ..p }),
{
    if p.magic is Some {
        lemma_u64_column(p.magic->0);
    }
    lemma_position_names();
    assert(q.magic == p.magic);
    assert(q.symbol == p.symbol);
    assert(q.side == p.side);
    assert(q.stop_loss == p.stop_loss);
    assert(q.take_profit == p.take_profit);
}

/// A trade as stored.
#[derive(Debug)]
pub struct TradeRow {
    pub id: u128,
    pub account_id: u128,
    pub symbol: String,
    pub side: String,
    pub trade_side: String,
    pub price: i64,
    pub quantity: i64,
    pub commission: i64,
    pub swap: i64,
    pub executed_at: Timestamp,
    pub position_id: Option<u128>,
    pub realized_pnl: Option<i64>,
    pub exit_price: Option<i64>,
    pub closed_quantity: Option<i64>,
    pub entry_price: Option<i64>,
    pub comment: Option<String>,
    pub created_at: Timestamp,
}

pub open spec fn trade_side_name(s: TradeSide) -> Seq<char> {
    match s {
        TradeSide::Entry => "Entry"@,
        TradeSide::Exit => "Exit"@,
        TradeSide::Reverse => "Reverse"@,
    }
}

/// `r` stores `t` (the order id is not stored).
pub open spec fn trade_row_of(t: Trade, r: TradeRow) -> bool {
    &&& r.id == t.id.0 && r.account_id == t.account_id.0 && r.symbol == t.symbol.0
    &&& r.side@ == (if t.side == OrderSide::Buy {
        "Buy"@
    } else {
        "Sell"@
    })
    &&& r.trade_side@ == trade_side_name(t.trade_side)
    &&& r.price == t.price.0 && r.quantity == t.quantity.0 && r.commission == t.commission.0 && r.swap == t.swap.0
    &&& r.executed_at == t.executed_at
    &&& match t.exit_info {
        Some(e) => r.position_id == Some(e.position_id.0) && r.realized_pnl == Some(e.realized_pnl.0)
            && r.exit_price == Some(e.exit_price.0) && r.closed_quantity == Some(e.closed_quantity.0)
            && r.entry_price == Some(e.entry_price.0),
        None => r.position_id is None && r.realized_pnl is None && r.exit_price is None && r.closed_quantity is None
            && r.entry_price is None,
    }
    &&& r.comment == t.comment
}

/// `t` is the trade `r` stores (with a fresh order id): `Sell` reads as
/// a sell and anything else as a buy; `Exit` reads as an exit and
/// anything else as an entry; the exit details only when all five
/// columns are present.
pub open spec fn trade_of_row(r: TradeRow, t: Trade) -> bool {
    &&& t.id == TradeId(r.id) && t.account_id == AccountId(r.account_id) && t.symbol == Symbol(r.symbol)
    &&& t.side == (if r.side@ == "Sell"@ {
        OrderSide::Sell
    } else {
        OrderSide::Buy
    })
    &&& t.trade_side == (if r.trade_side@ == "Exit"@ {
        TradeSide::Exit
    } else {
        TradeSide::Entry
    })
    &&& t.price == Price(r.price) && t.quantity == Quantity(r.quantity)
    &&& t.commission == Money(r.commission) && t.swap == Money(r.swap)
    &&& t.executed_at == r.executed_at
    &&& t.exit_info == (if r.position_id is Some && r.realized_pnl is Some && r.exit_price is Some
        && r.closed_quantity is Some && r.entry_price is Some {
        Some(
            TradeExit {
                position_id: PositionId(r.position_id->0),
                realized_pnl: Money(r.realized_pnl->0),
                closed_quantity: Quantity(r.closed_quantity->0),
                entry_price: Price(r.entry_price->0),
                exit_price: Price(r.exit_price->0),
            },
        )
    } else {
        None
    })
    &&& t.comment == r.comment
}

impl TradeRow {
    /// The row storing a trade, stamped with the clock.
    pub fn from_trade(trade: &Trade) -> (r: TradeRow)
        ensures
            trade_row_of(*trade, r),
    {
        let now = now_millis();
        let (position_id, realized_pnl, exit_price, closed_quantity, entry_price) = match trade.exit_info {
            Some(e) => (
                Some(e.position_id.0),
                Some(e.realized_pnl.0),
                Some(e.exit_price.0),
                Some(e.closed_quantity.0),
                Some(e.entry_price.0),
            ),
            None => (None, None, None, None, None),
        };
        let side = if trade.side == OrderSide::Buy {
            "Buy"
        } else {
            "Sell"
        };
        let trade_side = match trade.trade_side {
            TradeSide::Entry => "Entry",
            TradeSide::Exit => "Exit",
            TradeSide::Reverse => "Reverse",
        };
        TradeRow {
            id: trade.id.0,
            account_id: trade.account_id.0,
            symbol: trade.symbol.0.clone(),
            side: side.to_string(),
            trade_side: trade_side.to_string(),
            price: trade.price.0,
            quantity: trade.quantity.0,
            commission: trade.commission.0,
            swap: trade.swap.0,
            executed_at: trade.executed_at,
            position_id,
            realized_pnl,
            exit_price,
            closed_quantity,
            entry_price,
            comment: clone_comment(&trade.comment),
            created_at: now,
        }
    }

    /// The trade the row stores, with a fresh order id.
    pub fn into_trade(self) -> (r: Trade)
        ensures
            trade_of_row(self, r),
    {
        let exit_info = match (self.position_id, self.realized_pnl, self.exit_price, self.closed_quantity, self.entry_price) {
            (Some(p), Some(pnl), Some(x), Some(q), Some(e)) => Some(
                TradeExit {
                    position_id: PositionId(p),
                    realized_pnl: Money(pnl),
                    closed_quantity: Quantity(q),
                    entry_price: Price(e),
                    exit_price: Price(x),
                },
            ),
            _ => None,
        };
        let side = if text_is(&self.side, "Sell") {
            OrderSide::Sell
        } else {
            OrderSide::Buy
        };
        let trade_side = if text_is(&self.trade_side, "Exit") {
            TradeSide::Exit
        } else {
            TradeSide::Entry
        };
        Trade {
            id: TradeId(self.id),
            order_id: OrderId::new(),
            account_id: AccountId(self.account_id),
            symbol: Symbol(self.symbol),
            side,
            trade_side,
            price: Price(self.price),
            quantity: Quantity(self.quantity),
            commission: Money(self.commission),
            swap: Money(self.swap),
            executed_at: self.executed_at,
            exit_info,
            comment: self.comment,
        }
    }
}

/// Storing a trade and reading it back gives the same trade but for the
/// order id (not stored); a reversing trade reads back as an entry.
pub proof fn law_trade_row_roundtrip(t: Trade, r: TradeRow, u: Trade)
    requires
        trade_row_of(t, r),
        trade_of_row(r, u),
    ensures
        t.trade_side != TradeSide::Reverse ==> u == (Trade { order_id: u.order_id, ..t }),
        t.trade_side == TradeSide::Reverse ==> u == (Trade { order_id: u.order_id, trade_side: TradeSide::Entry, ..t }),
{
    lemma_trade_names();
    assert(u.symbol == t.symbol);
    assert(u.side == t.side);
    assert(u.exit_info == t.exit_info);
}


/// A rule pack as stored (its rules already decoded).
#[derive(Debug)]
pub struct RulePackRow {
    pub id: String,
    pub tenant_id: u128,
    pub version: i32,
    pub lifecycle: String,
    pub effective_from: Timestamp,
    pub rules: Vec<RuleEntry>,
    pub content_hash: String,
    pub created_at: Timestamp,
    pub updated_at: Timestamp,
}

/// Lifecycle of a stored name (ASCII case ignored): `draft`,
/// `superseded`, and active for anything else.
pub open spec fn lifecycle_of_name(s: Seq<char>) -> PackLifecycle {
    if lowers_to(s, "draft"@) {
        PackLifecycle::Draft
    } else if lowers_to(s, "superseded"@) {
        PackLifecycle::Superseded
    } else {
        PackLifecycle::Active
    }
}

impl RulePackRow {
    /// The pack the row stores; what the row does not hold (successor,
    /// description, balance, leverage, target) takes its neutral value.
    pub fn into_pack(self) -> (r: RulePack)
        ensures
            r.id == self.id,
            r.version == self.version as u32,
            r.tenant_id == TenantId(self.tenant_id),
            r.lifecycle == lifecycle_of_name(self.lifecycle@),
            r.effective_from == self.effective_from,
            r.superseded_by is None,
            r.description@.len() == 0,
            r.rules == self.rules,
            r.initial_balance.0 == 0,
            r.leverage == 1,
            r.profit_target_pct.0 == 0,
    {
        let lifecycle = if lowercase_equals(self.lifecycle.as_str(), "draft") {
            PackLifecycle::Draft
        } else if lowercase_equals(self.lifecycle.as_str(), "superseded") {
            PackLifecycle::Superseded
        } else {
            PackLifecycle::Active
        };
        RulePack {
            id: self.id,
            version: self.version as u32,
            tenant_id: TenantId(self.tenant_id),
            lifecycle,
            effective_from: self.effective_from,
            superseded_by: None,
            description: String::new(),
            rules: self.rules,
            initial_balance: Money(0),
            leverage: 1,
            profit_target_pct: Pct(0),
        }
    }
}

} // verus!
