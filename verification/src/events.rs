//! Domain events (the audit log of every state change) and the
//! append-only in-memory event store with replay.
use crate::account::{Account, AccountSnapshot, AccountStatus};
use crate::error::Error;
use crate::fixed::fits;
use crate::ids::{AccountId, EventId, OrderId, PositionId, ViolationId};
use crate::liquidation::{same_instruction, LiquidationInstruction};
use crate::market::{trade_net_pnl, PositionSide, Trade};
use crate::order::OrderStatus;
use crate::plan::{day_start_at, plan_offset, ChallengePhase};
use crate::types::{Money, Quantity, Symbol, Timestamp, MS_PER_DAY};
use crate::violation::Violation;
use vstd::prelude::*;

verus! {

/// What happened.
#[derive(Debug)]
pub enum DomainEventKind {
    AccountStarted,
    AccountStatusChanged { from: AccountStatus, to: AccountStatus },
    AccountSnapshotted { snapshot: AccountSnapshot },
    OrderEvent { order_id: OrderId, new_status: OrderStatus },
    TradeFilled { trade: Trade },
    PositionOpened { position_id: PositionId, symbol: Symbol, side: PositionSide, qty: Quantity },
    PositionClosed { position_id: PositionId, realized_pnl: Money },
    /// Equity after a tick.
    TickEvaluated { equity: Money },
    /// A new trading day began.
    DayRollover { new_day_index: u32, day_start: Money },
    RuleViolated { violation: Violation },
    PlanUpgraded { from_phase: ChallengePhase, to_phase: ChallengePhase },
    /// The broker bridge must close the listed positions.
    LiquidationRequested { instruction: LiquidationInstruction },
    /// A manual override cleared a breach.
    OverrideCleared {
        clears_violation_id: ViolationId,
        reason: String,
        actor_id: String,
        at: Timestamp,
    },
    /// A payout was requested and permitted.
    PayoutRequested { profit_basis: Money, amount: Money },
    /// A pending payout was executed.
    PayoutApproved { amount: Money, fee_refund: Money },
}

/// Two kinds agree (a liquidation instruction by its fields).
pub open spec fn same_kind(a: DomainEventKind, b: DomainEventKind) -> bool {
    match (a, b) {
        (
            DomainEventKind::LiquidationRequested { instruction: x },
            DomainEventKind::LiquidationRequested { instruction: y },
        ) => same_instruction(x, y),
        _ => a == b,
    }
}

impl Clone for DomainEventKind {
    fn clone(&self) -> (r: DomainEventKind)
        ensures
            same_kind(r, *self),
    {
        match self {
            DomainEventKind::AccountStarted => DomainEventKind::AccountStarted,
            DomainEventKind::AccountStatusChanged { from, to } => DomainEventKind::AccountStatusChanged {
                from: *from,
                to: *to,
            },
            DomainEventKind::AccountSnapshotted { snapshot } => DomainEventKind::AccountSnapshotted {
                snapshot: *snapshot,
            },
            DomainEventKind::OrderEvent { order_id, new_status } => DomainEventKind::OrderEvent {
                order_id: *order_id,
                new_status: *new_status,
            },
            DomainEventKind::TradeFilled { trade } => DomainEventKind::TradeFilled {
                trade: trade.clone(),
            },
            DomainEventKind::PositionOpened { position_id, symbol, side, qty } => {
                DomainEventKind::PositionOpened {
                    position_id: *position_id,
                    symbol: symbol.clone(),
                    side: *side,
                    qty: *qty,
                }
            },
            DomainEventKind::PositionClosed { position_id, realized_pnl } => {
                DomainEventKind::PositionClosed {
                    position_id: *position_id,
                    realized_pnl: *realized_pnl,
                }
            },
            DomainEventKind::TickEvaluated { equity } => DomainEventKind::TickEvaluated {
                equity: *equity,
            },
            DomainEventKind::DayRollover { new_day_index, day_start } => DomainEventKind::DayRollover {
                new_day_index: *new_day_index,
                day_start: *day_start,
            },
            DomainEventKind::RuleViolated { violation } => DomainEventKind::RuleViolated {
                violation: violation.clone(),
            },
            DomainEventKind::PlanUpgraded { from_phase, to_phase } => DomainEventKind::PlanUpgraded {
                from_phase: *from_phase,
                to_phase: *to_phase,
            },
            DomainEventKind::LiquidationRequested { instruction } => {
                DomainEventKind::LiquidationRequested { instruction: instruction.clone() }
            },
            DomainEventKind::OverrideCleared { clears_violation_id, reason, actor_id, at } => {
                DomainEventKind::OverrideCleared {
                    clears_violation_id: *clears_violation_id,
                    reason: reason.clone(),
                    actor_id: actor_id.clone(),
                    at: *at,
                }
            },
            DomainEventKind::PayoutRequested { profit_basis, amount } => {
                DomainEventKind::PayoutRequested { profit_basis: *profit_basis, amount: *amount }
            },
            DomainEventKind::PayoutApproved { amount, fee_refund } => {
                DomainEventKind::PayoutApproved { amount: *amount, fee_refund: *fee_refund }
            },
        }
    }
}

/// A timestamped domain event.
#[derive(Debug)]
pub struct DomainEvent {
    pub id: EventId,
    pub account_id: AccountId,
    pub kind: DomainEventKind,
    pub occurred_at: Timestamp,
    /// The event that caused this one, if any.
    pub causation_id: Option<EventId>,
}

/// Two events agree field by field.
pub open spec fn same_event(a: DomainEvent, b: DomainEvent) -> bool {
    &&& a.id == b.id
    &&& a.account_id == b.account_id
    &&& same_kind(a.kind, b.kind)
    &&& a.occurred_at == b.occurred_at
    &&& a.causation_id == b.causation_id
}

impl Clone for DomainEvent {
    fn clone(&self) -> (r: DomainEvent)
        ensures
            same_event(r, *self),
    {
        DomainEvent {
            id: self.id,
            account_id: self.account_id,
            kind: self.kind.clone(),
            occurred_at: self.occurred_at,
            causation_id: self.causation_id,
        }
    }
}

impl DomainEvent {
    /// A new event with a fresh identifier and no causation.
    pub fn new(account_id: AccountId, kind: DomainEventKind, occurred_at: Timestamp) -> (r:
        DomainEvent)
        ensures
            r.account_id == account_id,
            r.kind == kind,
            r.occurred_at == occurred_at,
            r.causation_id is None,
    {
        DomainEvent { id: EventId::new(), account_id, kind, occurred_at, causation_id: None }
    }

    /// The same event caused by `parent`.
    pub fn with_causation(self, parent: EventId) -> (r: DomainEvent)
        ensures
            r == (DomainEvent { causation_id: Some(parent), ..self }),
    {
        DomainEvent { causation_id: Some(parent), ..self }
    }
}

/// The account started at `at` (what [`Account::start`] yields).
pub open spec fn started_account(a: Account, at: Timestamp) -> Account {
    Account {
        status: AccountStatus::Active,
        started_at: Some(at),
        current_trading_day_start: Some(
            day_start_at(at as int, plan_offset(a.plan.timezone, at), a.plan.day_reset_time as int)
                as i64,
        ),
        deadline: match a.plan.time_limit_days {
            Some(d) => Some((at + d * MS_PER_DAY) as i64),
            None => a.deadline,
        },
        ..a
    }
}

/// The account after one replayed event; `None` when the event cannot
/// apply (starting an account that is not pending).
pub open spec fn replay_step(a: Account, ev: DomainEvent) -> Option<Account> {
    match ev.kind {
        DomainEventKind::AccountStarted => if a.status == AccountStatus::Pending {
            Some(started_account(a, ev.occurred_at))
        } else {
            None
        },
        DomainEventKind::AccountStatusChanged { to, .. } => Some(Account { status: to, ..a }),
        DomainEventKind::TradeFilled { trade } => {
            let bal = a.balance.0 + trade_net_pnl(trade);
            Some(
                Account {
                    balance: Money(bal as i64),
                    total_realized_pnl: Money((a.total_realized_pnl.0 + trade_net_pnl(trade)) as i64),
                    peak_balance: if bal > a.peak_balance.0 {
                        Money(bal as i64)
                    } else {
                        a.peak_balance
                    },
                    ..a
                },
            )
        },
        DomainEventKind::DayRollover { new_day_index, day_start } => Some(
            Account {
                active_trading_days: if a.today_realized_pnl.0 != 0 {
                    (a.active_trading_days + 1) as u32
                } else {
                    a.active_trading_days
                },
                trading_day_index: new_day_index,
                day_start_balance: day_start,
                today_realized_pnl: Money(0),
                ..a
            },
        ),
        DomainEventKind::TickEvaluated { equity } => Some(
            Account {
                equity: equity,
                peak_equity: if equity.0 > a.peak_equity.0 {
                    equity
                } else {
                    a.peak_equity
                },
                ..a
            },
        ),
        _ => Some(a),
    }
}

/// The arithmetic of one replayed event stays in range.
pub open spec fn step_fits(a: Account, ev: DomainEvent) -> bool {
    match ev.kind {
        DomainEventKind::AccountStarted => {
            &&& ev.occurred_at >= i64::MIN + MS_PER_DAY
            &&& a.plan.time_limit_days matches Some(d) ==> fits(ev.occurred_at + d * MS_PER_DAY)
        },
        DomainEventKind::TradeFilled { trade } => {
            &&& fits(trade_net_pnl(trade))
            &&& fits(a.balance.0 + trade_net_pnl(trade))
            &&& fits(a.total_realized_pnl.0 + trade_net_pnl(trade))
        },
        DomainEventKind::DayRollover { .. } => a.today_realized_pnl.0 != 0 ==> a.active_trading_days
            < u32::MAX,
        _ => true,
    }
}

/// The account rebuilt by replaying `evs` over `a`, in order.
pub open spec fn replay_events(a: Account, evs: Seq<DomainEvent>) -> Option<Account>
    decreases evs.len(),
{
    if evs.len() == 0 {
        Some(a)
    } else {
        match replay_events(a, evs.drop_last()) {
            Some(b) => replay_step(b, evs.last()),
            None => None,
        }
    }
}

/// Every replayed step stays in range.
pub open spec fn replay_fits(a: Account, evs: Seq<DomainEvent>) -> bool
    decreases evs.len(),
{
    if evs.len() == 0 {
        true
    } else {
        &&& replay_fits(a, evs.drop_last())
        &&& replay_events(a, evs.drop_last()) matches Some(b) ==> step_fits(b, evs.last())
    }
}

/// The events of one account, in log order.
pub open spec fn events_of(log: Seq<DomainEvent>, id: AccountId) -> Seq<DomainEvent>
    decreases log.len(),
{
    if log.len() == 0 {
        Seq::empty()
    } else if log.last().account_id == id {
        events_of(log.drop_last(), id).push(log.last())
    } else {
        events_of(log.drop_last(), id)
    }
}

/// Append-only in-memory event log.
#[derive(Debug)]
pub struct InMemoryEventStore {
    events: Vec<DomainEvent>,
}

impl InMemoryEventStore {
    /// Every event appended, in order.
    pub closed spec fn log(&self) -> Seq<DomainEvent> {
        self.events@
    }

    /// An empty log.
    pub fn new() -> (r: InMemoryEventStore)
        ensures
            r.log() == Seq::<DomainEvent>::empty(),
    {
        InMemoryEventStore { events: Vec::new() }
    }

    /// An empty log.
    pub fn in_memory() -> (r: InMemoryEventStore)
        ensures
            r.log() == Seq::<DomainEvent>::empty(),
    {
        InMemoryEventStore::new()
    }

    /// Appends an event.
    pub fn append(&mut self, ev: DomainEvent) -> (r: Result<(), Error>)
        ensures
            r is Ok,
            final(self).log() == old(self).log().push(ev),
    {
        self.events.push(ev);
        Ok(())
    }

    /// Copies of the events of an account, in order.
    pub fn all(&self, id: AccountId) -> (r: Result<Vec<DomainEvent>, Error>)
        ensures
            r is Ok,
            r->Ok_0@.len() == events_of(self.log(), id).len(),
            forall|i: int|
                0 <= i < r->Ok_0@.len() ==> same_event(
                    #[trigger] r->Ok_0@[i],
                    events_of(self.log(), id)[i],
                ),
    {
        let mut out: Vec<DomainEvent> = Vec::new();
        let mut i: usize = 0;
        while i < self.events.len()
            invariant
                i <= self.events@.len(),
                out@.len() == events_of(self.events@.take(i as int), id).len(),
                forall|j: int|
                    0 <= j < out@.len() ==> same_event(
                        #[trigger] out@[j],
                        events_of(self.events@.take(i as int), id)[j],
                    ),
            decreases self.events@.len() - i,
        {
            let ghost next = self.events@.take(i + 1);
            assert(next.drop_last() == self.events@.take(i as int));
            if self.events[i].account_id == id {
                out.push(self.events[i].clone());
            }
            i = i + 1;
        }
        proof {
            assert(self.events@.take(self.events@.len() as int) == self.events@);
        }
        Ok(out)
    }

    /// Copies of the last `n` events of an account (all of them when it
    /// has at most `n`), in order.
    pub fn recent(&self, id: AccountId, n: usize) -> (r: Result<Vec<DomainEvent>, Error>)
        ensures
            r is Ok,
            ({
                let all = events_of(self.log(), id);
                let k = if all.len() > n { n as int } else { all.len() as int };
                &&& r->Ok_0@.len() == k
                &&& forall|i: int|
                    0 <= i < k ==> same_event(#[trigger] r->Ok_0@[i], all[all.len() - k + i])
            }),
    {
        let all = match self.all(id) {
            Ok(v) => v,
            Err(e) => return Err(e),
        };
        let len = all.len();
        if len <= n {
            return Ok(all);
        }
        let mut out: Vec<DomainEvent> = Vec::new();
        let mut i: usize = len - n;
        while i < len
            invariant
                len == all@.len(),
                n < len,
                len - n <= i <= len,
                out@.len() == i - (len - n),
                forall|j: int|
                    0 <= j < out@.len() ==> same_event(#[trigger] out@[j], all@[len - n + j]),
            decreases len - i,
        {
            out.push(all[i].clone());
            i = i + 1;
        }
        proof {
            let ghost m = events_of(self.log(), id);
            assert forall|j: int| 0 <= j < n implies same_event(
                #[trigger] out@[j],
                m[m.len() - n + j],
            ) by {
                assert(same_event(out@[j], all@[len - n + j]));
                assert(same_event(all@[len - n + j], m[len - n + j]));
            }
        }
        Ok(out)
    }

    /// Rebuilds an account by replaying its events over `initial`:
    /// starts, status changes, fills (balance, realized P&L, peak
    /// balance), day rollovers (trading-day count, day index, day-start
    /// balance) and ticks (equity, peak equity); other events change
    /// nothing. Fails when a start event meets an account that is not
    /// pending.
    pub fn replay(&self, id: AccountId, initial: Account) -> (r: Result<Account, Error>)
        requires
            replay_fits(initial, events_of(self.log(), id)),
        ensures
            r is Ok <==> replay_events(initial, events_of(self.log(), id)) is Some,
            r is Ok ==> r->Ok_0 == replay_events(initial, events_of(self.log(), id))->0,
            r is Err ==> r->Err_0 is InvalidState,
    {
        let mut acc = initial;
        let mut i: usize = 0;
        while i < self.events.len()
            invariant
                i <= self.events@.len(),
                replay_fits(initial, events_of(self.events@, id)),
                replay_events(initial, events_of(self.events@.take(i as int), id)) == Some(acc),
            decreases self.events@.len() - i,
        {
            let ghost pre = self.events@.take(i as int);
            let ghost next = self.events@.take(i + 1);
            assert(next.drop_last() == pre);
            assert(next.last() == self.events@[i as int]);
            proof {
                lemma_fits_prefix(initial, self.events@, id, i + 1);
            }
            let ev = &self.events[i];
            if ev.account_id == id {
                assert(events_of(next, id) == events_of(pre, id).push(*ev));
                assert(events_of(next, id).drop_last() == events_of(pre, id));
                match &ev.kind {
                    DomainEventKind::AccountStarted => {
                        match acc.start(ev.occurred_at) {
                            Ok(a) => {
                                acc = a;
                            },
                            Err(e) => {
                                proof {
                                    lemma_none_stays(initial, self.events@, id, i + 1);
                                }
                                return Err(e);
                            },
                        }
                    },
                    DomainEventKind::AccountStatusChanged { to, .. } => {
                        acc.status = *to;
                    },
                    DomainEventKind::TradeFilled { trade } => {
                        let net = trade.net_pnl();
                        acc.balance = Money(acc.balance.0 + net.0);
                        acc.total_realized_pnl = Money(acc.total_realized_pnl.0 + net.0);
                        if acc.balance.0 > acc.peak_balance.0 {
                            acc.peak_balance = acc.balance;
                        }
                    },
                    DomainEventKind::DayRollover { new_day_index, day_start } => {
                        if acc.today_realized_pnl.0 != 0 {
                            acc.active_trading_days = acc.active_trading_days + 1;
                        }
                        acc.trading_day_index = *new_day_index;
                        acc.day_start_balance = *day_start;
                        acc.today_realized_pnl = Money(0);
                    },
                    DomainEventKind::TickEvaluated { equity } => {
                        acc.equity = *equity;
                        if equity.0 > acc.peak_equity.0 {
                            acc.peak_equity = *equity;
                        }
                    },
                    _ => {},
                }
            }
            i = i + 1;
        }
        proof {
            assert(self.events@.take(self.events@.len() as int) == self.events@);
        }
        Ok(acc)
    }
}

proof fn lemma_events_of_prefix(log: Seq<DomainEvent>, id: AccountId, k: int)
    requires
        0 <= k <= log.len(),
    ensures
        events_of(log.take(k), id).len() <= events_of(log, id).len(),
        events_of(log.take(k), id) == events_of(log, id).take(
            events_of(log.take(k), id).len() as int,
        ),
    decreases log.len(),
{
    if k == log.len() {
        assert(log.take(k) == log);
    } else {
        lemma_events_of_prefix(log.drop_last(), id, k);
        assert(log.drop_last().take(k) == log.take(k));
    }
}

proof fn lemma_fits_take(a: Account, evs: Seq<DomainEvent>, k: int)
    requires
        0 <= k <= evs.len(),
        replay_fits(a, evs),
    ensures
        replay_fits(a, evs.take(k)),
    decreases evs.len(),
{
    if k < evs.len() {
        lemma_fits_take(a, evs.drop_last(), k);
        assert(evs.drop_last().take(k) == evs.take(k));
    } else {
        assert(evs.take(k) == evs);
    }
}

proof fn lemma_fits_prefix(a: Account, log: Seq<DomainEvent>, id: AccountId, k: int)
    requires
        0 <= k <= log.len(),
        replay_fits(a, events_of(log, id)),
    ensures
        replay_fits(a, events_of(log.take(k), id)),
{
    lemma_events_of_prefix(log, id, k);
    lemma_fits_take(a, events_of(log, id), events_of(log.take(k), id).len() as int);
}

proof fn lemma_none_stays_seq(a: Account, evs: Seq<DomainEvent>, k: int)
    requires
        0 <= k <= evs.len(),
        replay_events(a, evs.take(k)) is None,
    ensures
        replay_events(a, evs) is None,
    decreases evs.len(),
{
    if k < evs.len() {
        assert(evs.drop_last().take(k) == evs.take(k));
        lemma_none_stays_seq(a, evs.drop_last(), k);
    } else {
        assert(evs.take(k) == evs);
    }
}

proof fn lemma_none_stays(a: Account, log: Seq<DomainEvent>, id: AccountId, k: int)
    requires
        0 <= k <= log.len(),
        replay_events(a, events_of(log.take(k), id)) is None,
    ensures
        replay_events(a, events_of(log, id)) is None,
{
    lemma_events_of_prefix(log, id, k);
    lemma_none_stays_seq(a, events_of(log, id), events_of(log.take(k), id).len() as int);
}

/// Appending an event extends exactly its own account's history.
pub proof fn law_append_extends_history(
    store: InMemoryEventStore,
    after: InMemoryEventStore,
    ev: DomainEvent,
    id: AccountId,
)
    requires
        after.log() == store.log().push(ev),
    ensures
        id == ev.account_id ==> events_of(after.log(), id) == events_of(store.log(), id).push(ev),
        id != ev.account_id ==> events_of(after.log(), id) == events_of(store.log(), id),
{
    assert(after.log().drop_last() == store.log());
}

/// Replay is incremental: replaying after an append is replaying before
/// it, then applying the new event.
pub proof fn law_replay_incremental(
    store: InMemoryEventStore,
    after: InMemoryEventStore,
    ev: DomainEvent,
    initial: Account,
)
    requires
        after.log() == store.log().push(ev),
    ensures
        replay_events(initial, events_of(after.log(), ev.account_id)) == match replay_events(
            initial,
            events_of(store.log(), ev.account_id),
        ) {
            Some(b) => replay_step(b, ev),
            None => None,
        },
{
    law_append_extends_history(store, after, ev, ev.account_id);
    assert(events_of(after.log(), ev.account_id).drop_last() == events_of(store.log(), ev.account_id));
}

} // verus!
