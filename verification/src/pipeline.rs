//! The processing pipeline: the state transition each event applies, the
//! catch-up of missed server days, and the account changes and audit
//! events that follow a decision.
//!
//! The pipeline is split at the rule evaluation: [`apply_event`] (with
//! [`auto_rollover`] before it) turns an event into the evaluated state,
//! the rules report on that state, and [`complete`] turns the decision
//! into the final state and its events. [`Pipeline`] runs both halves
//! against the in-memory stores.
use crate::account::{status_breach_terminal, Account, AccountStatus};
use crate::events::started_account;
use crate::evaluator::RuleContextKind;
use crate::fixed::tdiv;
use crate::ids::{PositionId, ViolationId};
use crate::market::{side_from_order, PositionStatus, TradeSide};
use crate::payout::{
    after_payout, amount_of, basis_of, quote_fits, quote_payout, record_payout, refund_of,
    rejection_of, PayoutConfig,
};
use crate::state::{
    apply_pnl, apply_pnl_fits, mark_active, open_pnl_fits, open_pnl_sum, with_balance,
    with_equity, with_estimate, equity_after_tick,
};
use crate::text::blank;
use crate::account::type_for_phase;
use crate::decision::kind_of_category;
use crate::evaluator::{EvaluationResult, Evaluator};
use crate::decision::{decision_of, top_category, RuleReport};
use crate::decision::all_violations_of;
use crate::liquidation::{
    liquidation_entry, notional_fits, notional_total, open_positions as open_positions_of,
    LiquidationInstruction, LiquidationReason,
};
use crate::state::upgrade_allowed;
use crate::violation::{ViolationKind, ViolationSeverity};
use crate::types::Quantity;
use crate::violation::{violation_terminating, Violation};
use crate::decision::{kind_terminating, status_target_of, Decision, DecisionKind};
use crate::error::{error_detail, Error};
use crate::events::{DomainEvent, DomainEventKind};
use crate::fixed::fits;
use crate::ids::AccountId;
use crate::market::{Position, Tick, Trade};
use crate::order::Order;
use crate::override_engine::Override;
use crate::plan::{day_start_at, plan_offset, ChallengePhase};
use crate::state::{rollover, rollover_fits, AccountState};
use crate::types::{now_millis, Money, Timestamp, MS_PER_DAY, MS_PER_MINUTE};
use vstd::prelude::*;

verus! {

/// A tick older than this many whole minutes is refused.
pub const STALE_TICK_THRESHOLD_MINUTES: i64 = 10;

/// Largest timestamp magnitude handled (about 273,790 years from the
/// epoch, beyond the range of calendar dates).
pub const TS_LIMIT: i64 = 8_640_000_000_000_000;

/// The timestamp lies in the handled range.
pub open spec fn ts_in_range(t: int) -> bool {
    -TS_LIMIT <= t <= TS_LIMIT
}

/// An input of the pipeline.
#[derive(Debug)]
pub enum PipelineEvent {
    /// The account opens.
    AccountStarted { at: Timestamp },
    /// A new order (pre-trade check).
    OrderSubmitted { order: Order },
    /// A fill (post-trade update).
    TradeFilled { trade: Trade },
    /// A tick carrying the broker-reported equity and balance.
    Tick { tick: Tick, broker_equity: Money, broker_balance: Money },
    /// A tick without broker numbers: equity is estimated.
    TickEstimated { tick: Tick },
    /// Explicit day rollover.
    DayRollover { had_trades_today: bool },
    /// End-of-day evaluation.
    EndOfDay,
    /// On-demand evaluation.
    OnDemand,
    /// Emergency stop by an ops actor.
    EmergencyStop { reason: String, actor_id: String, at: Timestamp },
    /// Manual override of a false-positive breach.
    OverrideBreach { override_record: Override },
    /// A payout request.
    PayoutRequest,
    /// Approval of a pending payout.
    PayoutApprove,
}

/// The time an event carries; wall-clock events take `now`.
pub open spec fn event_time(ev: PipelineEvent, now: Timestamp) -> Timestamp {
    match ev {
        PipelineEvent::AccountStarted { at } => at,
        PipelineEvent::OrderSubmitted { order } => order.submitted_at,
        PipelineEvent::TradeFilled { trade } => trade.executed_at,
        PipelineEvent::Tick { tick, .. } => tick.quote.ts,
        PipelineEvent::TickEstimated { tick } => tick.quote.ts,
        PipelineEvent::EmergencyStop { at, .. } => at,
        PipelineEvent::OverrideBreach { override_record } => override_record.at,
        _ => now,
    }
}

/// The event is stamped by the wall clock (rollover, end of day, on
/// demand, payouts).
pub open spec fn wall_clock_event(ev: PipelineEvent) -> bool {
    ev is DayRollover || ev is EndOfDay || ev is OnDemand || ev is PayoutRequest
        || ev is PayoutApprove
}

impl PipelineEvent {
    /// The time of the event, taking `now` for wall-clock events.
    pub fn event_timestamp_at(&self, now: Timestamp) -> (r: Timestamp)
        ensures
            r == event_time(*self, now),
    {
        match self {
            PipelineEvent::AccountStarted { at } => *at,
            PipelineEvent::OrderSubmitted { order } => order.submitted_at,
            PipelineEvent::TradeFilled { trade } => trade.executed_at,
            PipelineEvent::Tick { tick, .. } => tick.quote.ts,
            PipelineEvent::TickEstimated { tick } => tick.quote.ts,
            PipelineEvent::EmergencyStop { at, .. } => *at,
            PipelineEvent::OverrideBreach { override_record } => override_record.at,
            _ => now,
        }
    }

    /// The time of the event; wall-clock events read the clock.
    pub fn event_timestamp(&self) -> (r: Timestamp)
        ensures
            !wall_clock_event(*self) ==> r == event_time(*self, 0),
    {
        if self.is_wall_clock() {
            now_millis()
        } else {
            self.event_timestamp_at(0)
        }
    }

    /// Whether the event is stamped by the wall clock.
    pub fn is_wall_clock(&self) -> (r: bool)
        ensures
            r == wall_clock_event(*self),
    {
        match self {
            PipelineEvent::DayRollover { .. } => true,
            PipelineEvent::EndOfDay => true,
            PipelineEvent::OnDemand => true,
            PipelineEvent::PayoutRequest => true,
            PipelineEvent::PayoutApprove => true,
            _ => false,
        }
    }
}

/// The phase after a completed phase.
pub open spec fn next_phase(p: ChallengePhase) -> ChallengePhase {
    match p {
        ChallengePhase::Phase1 => ChallengePhase::Phase2,
        ChallengePhase::Phase2 => ChallengePhase::Funded,
        ChallengePhase::Funded => ChallengePhase::Phase1,
    }
}

/// The phase after a completed phase (phase 1, phase 2, funded; a funded
/// account maps back to phase 1, which no upgrade accepts).
pub fn next_phase_for(phase: &ChallengePhase) -> (r: ChallengePhase)
    ensures
        r == next_phase(*phase),
{
    match phase {
        ChallengePhase::Phase1 => ChallengePhase::Phase2,
        ChallengePhase::Phase2 => ChallengePhase::Funded,
        ChallengePhase::Funded => ChallengePhase::Phase1,
    }
}

/// Start of the plan's server day containing `t`.
pub open spec fn plan_day_start(a: Account, t: i64) -> int {
    day_start_at(t as int, plan_offset(a.plan.timezone, t), a.plan.day_reset_time as int)
}

/// Distance from the account's server day to `eds` (zero once reached).
pub open spec fn catch_up_measure(a: Account, eds: int) -> int {
    match a.current_trading_day_start {
        Some(c) => if c < eds {
            eds - c
        } else {
            0
        },
        None => 0,
    }
}

/// Days caught up until the account's server day reaches `eds` (the day
/// of the event at `event_ts`). Each step rolls one day over (counting the
/// current day's trades on the first step only) and moves to the next
/// server day, or to the event's day on the last step. Catching up stops
/// when a step would make no progress, and fails (`None`) when a day
/// counter would overflow.
pub open spec fn catch_up(a: Account, eds: int, event_ts: i64, first: bool) -> Option<Account>
    decreases catch_up_measure(a, eds),
{
    match a.current_trading_day_start {
        Some(c) => if c < eds {
            let had = first && a.today_realized_pnl.0 != 0;
            if !rollover_fits(a, had) {
                None
            } else {
                let next = plan_day_start(a, (c + MS_PER_DAY) as i64);
                let target: i64 = if next >= eds {
                    event_ts
                } else {
                    next as i64
                };
                let b = rollover(a, had, Some(target));
                match b.current_trading_day_start {
                    Some(nc) => if c < nc && nc < eds {
                        catch_up(b, eds, event_ts, false)
                    } else {
                        Some(b)
                    },
                    None => Some(b),
                }
            }
        } else {
            Some(a)
        },
        None => Some(a),
    }
}

/// Server days are caught up before an event at `event_ts` whose server
/// day lies after the account's current one.
pub open spec fn needs_catch_up(a: Account, event_ts: i64) -> bool {
    a.current_trading_day_start matches Some(c) && plan_day_start(a, event_ts) > c
}

fn rollover_fits_exec(a: &Account, had: bool) -> (r: bool)
    ensures
        r == rollover_fits(*a, had),
{
    let today = a.today_realized_pnl.0;
    a.trading_day_index < u32::MAX && a.active_trading_days < u32::MAX && (!(had && today > 0)
        || (a.sum_positive_days_profit.0 as i128 + today as i128) <= i64::MAX as i128)
}

/// Rolls `state` over, day by day, until its server day is the event's
/// day `eds`.
fn catch_up_days(state: AccountState, eds: Timestamp, event_ts: Timestamp) -> (r: Result<
    AccountState,
    Error,
>)
    requires
        ts_in_range(event_ts as int),
        eds <= event_ts,
        eds > event_ts - MS_PER_DAY,
        state.account.current_trading_day_start matches Some(c) ==> ts_in_range(c as int),
    ensures
        catch_up(state.account, eds as int, event_ts, true) is Some <==> r is Ok,
        r is Ok ==> catch_up(state.account, eds as int, event_ts, true) == Some(r->Ok_0.account),
        r is Err ==> r->Err_0 is InvalidState && error_detail(r->Err_0) == "trading day counter overflow"@,
{
    let ghost init = state.account;
    let ghost goal = catch_up(init, eds as int, event_ts, true);
    let ghost lo: int = match state.account.current_trading_day_start {
        Some(c) => c as int,
        None => 0,
    };
    let mut st = state;
    let mut first = true;
    loop
        invariant_except_break
            catch_up(st.account, eds as int, event_ts, first) == goal,
            st.account.current_trading_day_start matches Some(c) ==> lo <= c,
        invariant
            goal == catch_up(init, eds as int, event_ts, true),
            init == state.account,
            ts_in_range(event_ts as int),
            eds <= event_ts,
            -TS_LIMIT <= lo,
        ensures
            goal == Some(st.account),
        decreases catch_up_measure(st.account, eds as int),
    {
        let c = match st.account.current_trading_day_start {
            Some(c) => c,
            None => {
                break;
            },
        };
        if c >= eds {
            break;
        }
        let had = first && st.account.today_realized_pnl.0 != 0;
        if !rollover_fits_exec(&st.account, had) {
            assert(catch_up(st.account, eds as int, event_ts, first) is None);
            return Err(Error::invalid_state("trading day counter overflow"));
        }
        let next = st.account.plan.next_trading_day_start(c);
        let target = if next >= eds {
            event_ts
        } else {
            next
        };
        let ghost prev = st.account;
        st = st.rollover_day(had, Some(target));
        first = false;
        assert(st.account == rollover(prev, had, Some(target)));
        match st.account.current_trading_day_start {
            Some(nc) => {
                if !(c < nc && nc < eds) {
                    break;
                }
            },
            None => {
                break;
            },
        }
    }
    Ok(st)
}

/// The account after catching up missed server days for an event at
/// `event_ts` (unchanged when none was missed).
pub open spec fn auto_rollover_of(a: Account, event_ts: i64) -> Option<Account> {
    if needs_catch_up(a, event_ts) {
        catch_up(a, plan_day_start(a, event_ts), event_ts, true)
    } else {
        Some(a)
    }
}

/// The audit events are the old ones followed by events of account `id`
/// with the given kinds and times, without causation.
pub open spec fn appended(
    old: Seq<DomainEvent>,
    new: Seq<DomainEvent>,
    id: AccountId,
    shapes: Seq<(DomainEventKind, Timestamp)>,
) -> bool {
    &&& new.len() == old.len() + shapes.len()
    &&& new.take(old.len() as int) == old
    &&& forall|i: int|
        0 <= i < shapes.len() ==> {
            &&& (#[trigger] new[old.len() + i]).account_id == id
            &&& new[old.len() + i].kind == shapes[i].0
            &&& new[old.len() + i].occurred_at == shapes[i].1
            &&& new[old.len() + i].causation_id is None
        }
}

proof fn lemma_appended_push(
    old: Seq<DomainEvent>,
    mid: Seq<DomainEvent>,
    shapes: Seq<(DomainEventKind, Timestamp)>,
    id: AccountId,
    e: DomainEvent,
)
    requires
        appended(old, mid, id, shapes),
        e.causation_id is None,
        e.account_id == id,
    ensures
        appended(old, mid.push(e), id, shapes.push((e.kind, e.occurred_at))),
{
    let new = mid.push(e);
    let sh = shapes.push((e.kind, e.occurred_at));
    assert(new.take(old.len() as int) == mid.take(old.len() as int));
    assert forall|i: int| 0 <= i < sh.len() implies {
        &&& (#[trigger] new[old.len() + i]).account_id == id
        &&& new[old.len() + i].kind == sh[i].0
        &&& new[old.len() + i].occurred_at == sh[i].1
        &&& new[old.len() + i].causation_id is None
    } by {
        if i < shapes.len() {
            assert(new[old.len() + i] == mid[old.len() + i]);
        }
    }
}

/// Catches up the server days an event skipped: when the event's server
/// day lies after the account's current one, the account rolls over day
/// by day to the event's day and one `DayRollover` event, stamped with
/// the event's time, records the new day index and day-start balance.
/// An explicit day-rollover event is left to [`apply_event`].
pub fn auto_rollover(
    state: AccountState,
    ev: &PipelineEvent,
    event_ts: Timestamp,
    events: &mut Vec<DomainEvent>,
) -> (r: Result<AccountState, Error>)
    requires
        ts_in_range(event_ts as int),
        state.account.current_trading_day_start matches Some(c) ==> ts_in_range(c as int),
    ensures
        ev is DayRollover ==> r is Ok && r->Ok_0.account == state.account
            && final(events)@ == old(events)@,
        !(ev is DayRollover) ==> (r is Ok <==> auto_rollover_of(state.account, event_ts) is Some),
        !(ev is DayRollover) && r is Ok ==> r->Ok_0.account == auto_rollover_of(
            state.account,
            event_ts,
        )->0,
        !(ev is DayRollover) && r is Ok && needs_catch_up(state.account, event_ts) ==> appended(
            old(events)@,
            final(events)@,
            state.account.id,
            seq![
                (
                    DomainEventKind::DayRollover {
                        new_day_index: r->Ok_0.account.trading_day_index,
                        day_start: r->Ok_0.account.day_start_balance,
                    },
                    event_ts,
                ),
            ],
        ),
        !(ev is DayRollover) && r is Ok && !needs_catch_up(state.account, event_ts)
            ==> final(events)@ == old(events)@,
        r is Err ==> r->Err_0 is InvalidState && error_detail(r->Err_0) == "trading day counter overflow"@,
{
    if ev.is_day_rollover() {
        return Ok(state);
    }
    let event_day_start = state.account.plan.trading_day_start(event_ts);
    let behind = match state.account.current_trading_day_start {
        Some(c) => event_day_start > c,
        None => false,
    };
    if !behind {
        return Ok(state);
    }
    let id = state.account.id;
    let st = match catch_up_days(state, event_day_start, event_ts) {
        Ok(s) => s,
        Err(e) => {
            return Err(e);
        },
    };
    let ghost before = events@;
    events.push(
        DomainEvent::new(
            id,
            DomainEventKind::DayRollover {
                new_day_index: st.account.trading_day_index,
                day_start: st.account.day_start_balance,
            },
            event_ts,
        ),
    );
    proof {
        assert(before.take(before.len() as int) == before);
        lemma_appended_push(before, before, Seq::empty(), id, events@.last());
        assert(Seq::<(DomainEventKind, Timestamp)>::empty().push((events@.last().kind, event_ts))
            == seq![
            (
                DomainEventKind::DayRollover {
                    new_day_index: st.account.trading_day_index,
                    day_start: st.account.day_start_balance,
                },
                event_ts,
            ),
        ]);
    }
    Ok(st)
}

impl PipelineEvent {
    /// Whether this is an explicit day rollover.
    pub fn is_day_rollover(&self) -> (r: bool)
        ensures
            r == (*self is DayRollover),
    {
        match self {
            PipelineEvent::DayRollover { .. } => true,
            _ => false,
        }
    }
}


/// The kind of error an event fails with.
#[derive(Debug, Clone, Copy, PartialEq, Eq, Structural)]
pub enum ApplyError {
    InvalidState,
    Persistence,
    TickRejected,
}

/// The error is of the given kind.
pub open spec fn error_is(e: Error, k: ApplyError) -> bool {
    match k {
        ApplyError::InvalidState => e is InvalidState,
        ApplyError::Persistence => e is Persistence,
        ApplyError::TickRejected => e is TickRejected,
    }
}

/// The first violation with id `vid` recorded in `h`.
pub open spec fn find_violation(h: Seq<DomainEvent>, vid: ViolationId) -> Option<Violation>
    decreases h.len(),
{
    if h.len() == 0 {
        None
    } else {
        match h[0].kind {
            DomainEventKind::RuleViolated { violation } => if violation.id == vid {
                Some(violation)
            } else {
                find_violation(h.drop_first(), vid)
            },
            _ => find_violation(h.drop_first(), vid),
        }
    }
}

/// The first position with id `id` in `s`.
pub open spec fn find_position(s: Seq<Position>, id: PositionId) -> Option<Position>
    decreases s.len(),
{
    if s.len() == 0 {
        None
    } else if s[0].id == id {
        Some(s[0])
    } else {
        find_position(s.drop_first(), id)
    }
}

/// Whole minutes from `ts` to `now`, truncated toward zero.
pub open spec fn minutes_between(ts: Timestamp, now: Timestamp) -> int {
    let d = now - ts;
    if d >= 0 {
        tdiv(d, MS_PER_MINUTE as int)
    } else {
        -tdiv(-d, MS_PER_MINUTE as int)
    }
}

/// A broker tick is refused when it is more than the threshold minutes
/// old, or not newer than the last evaluated tick.
pub open spec fn tick_refused(a: Account, ts: Timestamp, now: Timestamp) -> bool {
    minutes_between(ts, now) > STALE_TICK_THRESHOLD_MINUTES || (a.last_tick_ts matches Some(
        l,
    ) && ts <= l)
}

/// Realized P&L of a fill: the exit's, zero for an entry.
pub open spec fn fill_pnl(t: Trade) -> Money {
    match t.exit_info {
        Some(e) => e.realized_pnl,
        None => Money(0),
    }
}

/// The position a fill creates or closes: a new position (with id `id`)
/// for an entry or reversal; for an exit, the tracked open position
/// closed, or a closed record built from the exit details when the
/// position is not tracked.
pub open spec fn fill_position(t: Trade, open: Seq<Position>, id: PositionId) -> Position {
    match (t.trade_side, t.exit_info) {
        (TradeSide::Exit, Some(e)) => match find_position(open, e.position_id) {
            Some(p) => Position {
                status: PositionStatus::Closed,
                closed_at: Some(t.executed_at),
                realized_pnl: e.realized_pnl,
                open_quantity: Quantity(0),
                ..p
            },
            None => Position {
                id: e.position_id,
                account_id: t.account_id,
                symbol: t.symbol,
                side: side_from_order(t.side),
                opened_at: t.executed_at,
                closed_at: Some(t.executed_at),
                status: PositionStatus::Closed,
                avg_entry_price: e.entry_price,
                opened_quantity: e.closed_quantity,
                open_quantity: Quantity(0),
                realized_pnl: e.realized_pnl,
                commission: t.commission,
                swap: t.swap,
                stop_loss: None,
                take_profit: None,
                magic: None,
                comment: t.comment,
            },
        },
        _ => Position {
            id: id,
            account_id: t.account_id,
            symbol: t.symbol,
            side: side_from_order(t.side),
            opened_at: t.executed_at,
            closed_at: None,
            status: PositionStatus::Open,
            avg_entry_price: t.price,
            opened_quantity: t.quantity,
            open_quantity: t.quantity,
            realized_pnl: Money(0),
            commission: t.commission,
            swap: Money(0),
            stop_loss: None,
            take_profit: None,
            magic: None,
            comment: t.comment,
        },
    }
}

/// The payout quote of an account's own watermark, refund flag and time.
pub open spec fn payout_rejection(a: Account, c: PayoutConfig, now: Timestamp) -> bool {
    rejection_of(a, c, a.last_payout_at, Some(a.balance_at_last_payout), a.refund_used, now) is Some
}

/// The account an event leaves for evaluation, or the error it fails with.
pub open spec fn apply_outcome(
    a: Account,
    ev: PipelineEvent,
    open: Seq<Position>,
    history: Seq<DomainEvent>,
    now: Timestamp,
) -> Result<Account, ApplyError> {
    match ev {
        PipelineEvent::AccountStarted { at } => if a.status == AccountStatus::Pending {
            Ok(started_account(a, at))
        } else {
            Err(ApplyError::InvalidState)
        },
        PipelineEvent::TradeFilled { trade } => if trade.trade_side == TradeSide::Exit
            && trade.exit_info is None {
            Err(ApplyError::Persistence)
        } else {
            Ok(
                mark_active(
                    apply_pnl(a, fill_pnl(trade), trade.commission, trade.swap, trade.executed_at),
                ),
            )
        },
        PipelineEvent::Tick { tick, broker_equity, broker_balance } => if tick_refused(
            a,
            tick.quote.ts,
            now,
        ) {
            Err(ApplyError::TickRejected)
        } else {
            Ok(with_balance(with_equity(a, broker_equity), broker_balance))
        },
        PipelineEvent::TickEstimated { tick } => Ok(
            with_estimate(a, Money((a.balance.0 + open_pnl_sum(open, tick.quote)) as i64), a.balance),
        ),
        PipelineEvent::DayRollover { had_trades_today } => Ok(rollover(a, had_trades_today, None)),
        PipelineEvent::EmergencyStop { .. } => Ok(
            Account { status: AccountStatus::EmergencyStopped, ..a },
        ),
        PipelineEvent::OverrideBreach { override_record: o } => if blank(o.reason@) || blank(
            o.actor_id@,
        ) || o.account_id != a.id {
            Err(ApplyError::InvalidState)
        } else {
            match find_violation(history, o.clears_violation_id) {
                Some(v) => if violation_terminating(v) && status_breach_terminal(a.status) {
                    Ok(Account { status: AccountStatus::Active, ..a })
                } else {
                    Err(ApplyError::InvalidState)
                },
                None => Err(ApplyError::InvalidState),
            }
        },
        PipelineEvent::PayoutRequest => match a.plan.payout_config {
            Some(c) => if payout_rejection(a, c, now) {
                Err(ApplyError::InvalidState)
            } else if a.status == AccountStatus::Funded {
                Ok(Account { status: AccountStatus::PayoutPending, ..a })
            } else if a.status == AccountStatus::PayoutPending {
                Ok(a)
            } else {
                Err(ApplyError::InvalidState)
            },
            None => Err(ApplyError::InvalidState),
        },
        PipelineEvent::PayoutApprove => match a.plan.payout_config {
            Some(c) => if payout_rejection(a, c, now) || !(a.status == AccountStatus::Funded
                || a.status == AccountStatus::PayoutPending) {
                Err(ApplyError::InvalidState)
            } else {
                let fee = refund_of(a, a.refund_used);
                let b = after_payout(
                    a,
                    Money(amount_of(a, c, Some(a.balance_at_last_payout), a.refund_used) as i64),
                    fee,
                    now,
                );
                Ok(Account { refund_used: a.refund_used || fee.0 > 0, ..b })
            },
            None => Err(ApplyError::InvalidState),
        },
        _ => Ok(a),
    }
}

/// The audit events an applied event emits (`b` is the resulting account).
pub open spec fn apply_shapes(a: Account, ev: PipelineEvent, b: Account, now: Timestamp) -> Seq<
    (DomainEventKind, Timestamp),
> {
    match ev {
        PipelineEvent::AccountStarted { at } => seq![(DomainEventKind::AccountStarted, at)],
        PipelineEvent::TradeFilled { trade } => seq![
            (DomainEventKind::TradeFilled { trade: trade }, trade.executed_at),
        ],
        PipelineEvent::Tick { tick, broker_equity, .. } => seq![
            (DomainEventKind::TickEvaluated { equity: broker_equity }, tick.quote.ts),
        ],
        PipelineEvent::TickEstimated { tick } => seq![
            (DomainEventKind::TickEvaluated { equity: b.estimated_equity }, tick.quote.ts),
        ],
        PipelineEvent::DayRollover { .. } => seq![
            (
                DomainEventKind::DayRollover {
                    new_day_index: b.trading_day_index,
                    day_start: b.day_start_balance,
                },
                now,
            ),
        ],
        PipelineEvent::EmergencyStop { at, .. } => seq![
            (
                DomainEventKind::AccountStatusChanged {
                    from: AccountStatus::Active,
                    to: AccountStatus::EmergencyStopped,
                },
                at,
            ),
        ],
        PipelineEvent::OverrideBreach { override_record: o } => seq![
            (
                DomainEventKind::AccountStatusChanged {
                    from: AccountStatus::Failed,
                    to: AccountStatus::Active,
                },
                o.at,
            ),
            (
                DomainEventKind::OverrideCleared {
                    clears_violation_id: o.clears_violation_id,
                    reason: o.reason,
                    actor_id: o.actor_id,
                    at: o.at,
                },
                o.at,
            ),
        ],
        PipelineEvent::PayoutRequest => {
            let c = a.plan.payout_config->0;
            let requested = (
                DomainEventKind::PayoutRequested {
                    profit_basis: Money(basis_of(a, Some(a.balance_at_last_payout)) as i64),
                    amount: Money(amount_of(a, c, Some(a.balance_at_last_payout), a.refund_used) as i64),
                },
                now,
            );
            if a.status != b.status {
                seq![
                    requested,
                    (DomainEventKind::AccountStatusChanged { from: a.status, to: b.status }, now),
                ]
            } else {
                seq![requested]
            }
        },
        PipelineEvent::PayoutApprove => {
            let c = a.plan.payout_config->0;
            seq![
                (
                    DomainEventKind::PayoutApproved {
                        amount: Money(amount_of(a, c, Some(a.balance_at_last_payout), a.refund_used) as i64),
                        fee_refund: refund_of(a, a.refund_used),
                    },
                    now,
                ),
            ]
        },
        _ => Seq::empty(),
    }
}

/// The rule-context kind an event is evaluated under.
pub open spec fn context_kind_of(ev: PipelineEvent) -> RuleContextKind {
    match ev {
        PipelineEvent::OrderSubmitted { .. } => RuleContextKind::OnOrderSubmit,
        PipelineEvent::TradeFilled { .. } => RuleContextKind::OnTradeFill,
        PipelineEvent::Tick { .. } => RuleContextKind::OnTick,
        PipelineEvent::TickEstimated { .. } => RuleContextKind::OnTick,
        PipelineEvent::DayRollover { .. } => RuleContextKind::OnDayRollover,
        PipelineEvent::EndOfDay => RuleContextKind::OnEndOfDay,
        _ => RuleContextKind::OnDemand,
    }
}

/// The arithmetic of applying the event stays in range.
pub open spec fn apply_fits(a: Account, ev: PipelineEvent, open: Seq<Position>, now: Timestamp) -> bool {
    match ev {
        PipelineEvent::AccountStarted { at } => {
            &&& at >= i64::MIN + MS_PER_DAY
            &&& a.plan.time_limit_days matches Some(d) ==> fits(at + d * MS_PER_DAY)
        },
        PipelineEvent::TradeFilled { trade } => {
            &&& apply_pnl_fits(a, fill_pnl(trade), trade.commission, trade.swap)
            &&& !a.day_counted_today ==> a.active_trading_days < u32::MAX
        },
        PipelineEvent::Tick { tick, .. } => ts_in_range(tick.quote.ts as int) && ts_in_range(
            now as int,
        ),
        PipelineEvent::TickEstimated { tick } => open_pnl_fits(a.balance, open, tick.quote),
        PipelineEvent::DayRollover { had_trades_today } => rollover_fits(a, had_trades_today),
        PipelineEvent::PayoutRequest => a.plan.payout_config matches Some(c) ==> quote_fits(
            a,
            c,
            a.last_payout_at,
            Some(a.balance_at_last_payout),
            a.refund_used,
        ),
        PipelineEvent::PayoutApprove => a.plan.payout_config matches Some(c) ==> {
            &&& quote_fits(a, c, a.last_payout_at, Some(a.balance_at_last_payout), a.refund_used)
            &&& fits(a.balance.0 - amount_of(a, c, Some(a.balance_at_last_payout), a.refund_used))
            &&& fits(
                a.balance.0 - amount_of(a, c, Some(a.balance_at_last_payout), a.refund_used)
                    + refund_of(a, a.refund_used).0,
            )
        },
        _ => true,
    }
}

/// The state an event leaves, with the store reads the rules evaluate
/// against and, for a fill, the trade and the position to persist.
#[derive(Debug)]
pub struct AppliedEvent {
    pub state: AccountState,
    pub ctx_kind: RuleContextKind,
    pub open_positions: Vec<Position>,
    pub today_trades: Vec<Trade>,
    pub recent_events: Vec<DomainEvent>,
    pub trade_fill: Option<(Trade, Position)>,
}

/// Appends one event of account `id`.
fn emit(events: &mut Vec<DomainEvent>, id: AccountId, kind: DomainEventKind, at: Timestamp)
    ensures
        final(events)@.len() == old(events)@.len() + 1,
        final(events)@.drop_last() == old(events)@,
        final(events)@.last().account_id == id,
        final(events)@.last().kind == kind,
        final(events)@.last().occurred_at == at,
        final(events)@.last().causation_id is None,
{
    events.push(DomainEvent::new(id, kind, at));
}

proof fn lemma_appended_none(old: Seq<DomainEvent>, id: AccountId)
    ensures
        appended(old, old, id, Seq::empty()),
{
    assert(old.take(old.len() as int) == old);
}

proof fn lemma_appended_step(
    old: Seq<DomainEvent>,
    mid: Seq<DomainEvent>,
    new: Seq<DomainEvent>,
    shapes: Seq<(DomainEventKind, Timestamp)>,
    id: AccountId,
)
    requires
        appended(old, mid, id, shapes),
        new.len() == mid.len() + 1,
        new.drop_last() == mid,
        new.last().account_id == id,
        new.last().causation_id is None,
    ensures
        appended(old, new, id, shapes.push((new.last().kind, new.last().occurred_at))),
{
    assert(new == mid.push(new.last()));
    lemma_appended_push(old, mid, shapes, id, new.last());
}

/// Finds the first position with the given id.
fn find_open_position(open: &Vec<Position>, id: PositionId) -> (r: Option<Position>)
    ensures
        r == find_position(open@, id),
{
    let mut i: usize = 0;
    assert(open@.skip(0) == open@);
    while i < open.len()
        invariant
            i <= open@.len(),
            find_position(open@, id) == find_position(open@.skip(i as int), id),
        decreases open@.len() - i,
    {
        assert(open@.skip(i as int)[0] == open@[i as int]);
        assert(open@.skip(i as int).drop_first() == open@.skip(i + 1));
        if open[i].id == id {
            return Some(open[i].clone());
        }
        i = i + 1;
    }
    None
}

/// Finds the first recorded violation with the given id.
fn find_recorded_violation(history: &Vec<DomainEvent>, vid: ViolationId) -> (r: Option<Violation>)
    ensures
        r == find_violation(history@, vid),
{
    let mut i: usize = 0;
    assert(history@.skip(0) == history@);
    while i < history.len()
        invariant
            i <= history@.len(),
            find_violation(history@, vid) == find_violation(history@.skip(i as int), vid),
        decreases history@.len() - i,
    {
        assert(history@.skip(i as int)[0] == history@[i as int]);
        assert(history@.skip(i as int).drop_first() == history@.skip(i + 1));
        match &history[i].kind {
            DomainEventKind::RuleViolated { violation } => {
                if violation.id == vid {
                    return Some(violation.clone());
                }
            },
            _ => {},
        }
        i = i + 1;
    }
    None
}

/// Whole minutes from `ts` to `now`, truncated toward zero.
fn minutes_since(ts: Timestamp, now: Timestamp) -> (r: i64)
    requires
        ts_in_range(ts as int),
        ts_in_range(now as int),
    ensures
        r == minutes_between(ts, now),
{
    let d: i64 = now - ts;
    if d >= 0 {
        d / MS_PER_MINUTE
    } else {
        -((-d) / MS_PER_MINUTE)
    }
}

fn clone_comment(c: &Option<String>) -> (r: Option<String>)
    ensures
        r == *c,
{
    match c {
        Some(s) => Some(s.clone()),
        None => None,
    }
}

/// The fill record an applied event yields: the trade and its position
/// for a fill, nothing otherwise.
pub open spec fn fill_ok(ev: PipelineEvent, open: Seq<Position>, tf: Option<(Trade, Position)>) -> bool {
    match ev {
        PipelineEvent::TradeFilled { trade } => tf matches Some(f) && f.0 == trade && f.1
            == fill_position(trade, open, f.1.id),
        _ => tf is None,
    }
}

/// The message of the error an event fails with, when [`apply_outcome`]
/// is an error: the first check the event fails, in the order the checks
/// run.
pub open spec fn apply_error_text(a: Account, ev: PipelineEvent, history: Seq<DomainEvent>, now: Timestamp) -> Seq<char> {
    match ev {
        PipelineEvent::AccountStarted { .. } => "account is not pending"@,
        PipelineEvent::TradeFilled { .. } => "exit trade missing exit_info"@,
        PipelineEvent::Tick { tick, .. } => if minutes_between(tick.quote.ts, now) > STALE_TICK_THRESHOLD_MINUTES {
            "tick is older than the staleness threshold"@
        } else {
            "tick is not newer than the last evaluated tick"@
        },
        PipelineEvent::OverrideBreach { override_record: o } => if blank(o.reason@) {
            "override reason cannot be empty — must explain why the breach is a false positive"@
        } else if blank(o.actor_id@) {
            "override actor_id cannot be empty — must identify the responsible human"@
        } else if o.account_id != a.id {
            "override account does not match the evaluated account"@
        } else {
            match find_violation(history, o.clears_violation_id) {
                None => "override references an unknown violation"@,
                Some(v) => if !violation_terminating(v) {
                    "override references a violation that is not breach-terminal"@
                } else {
                    "cannot clear breach: only Failed/EmergencyStopped are clearable"@
                },
            }
        },
        PipelineEvent::PayoutRequest => match a.plan.payout_config {
            None => "plan has no payout configuration"@,
            Some(c) => if payout_rejection(a, c, now) {
                "payout request rejected"@
            } else {
                "payouts are only available to funded accounts"@
            },
        },
        PipelineEvent::PayoutApprove => match a.plan.payout_config {
            None => "plan has no payout configuration"@,
            Some(c) => if payout_rejection(a, c, now) {
                "payout approval rejected"@
            } else {
                "payouts are only available to funded accounts"@
            },
        },
        _ => Seq::empty(),
    }
}

/// What applying `ev` to `a` guarantees of a step's result and of the
/// audit events (`old_ev` before, `new_ev` after).
pub open spec fn step_post(
    a: Account,
    ev: PipelineEvent,
    open: Seq<Position>,
    history: Seq<DomainEvent>,
    now: Timestamp,
    old_ev: Seq<DomainEvent>,
    new_ev: Seq<DomainEvent>,
    r: Result<(AccountState, Option<(Trade, Position)>), Error>,
) -> bool {
    &&& r is Ok <==> apply_outcome(a, ev, open, history, now) is Ok
    &&& r is Ok ==> r->Ok_0.0.account == apply_outcome(a, ev, open, history, now)->Ok_0
    &&& r is Ok ==> appended(old_ev, new_ev, a.id, apply_shapes(a, ev, r->Ok_0.0.account, now))
    &&& r is Ok ==> fill_ok(ev, open, r->Ok_0.1)
    &&& r is Err ==> new_ev == old_ev
    &&& r is Err ==> error_is(r->Err_0, apply_outcome(a, ev, open, history, now)->Err_0)
    &&& r is Err ==> error_detail(r->Err_0) == apply_error_text(a, ev, history, now)
}

fn apply_started(state: AccountState, ev: &PipelineEvent, events: &mut Vec<DomainEvent>) -> (r: Result<
    (AccountState, Option<(Trade, Position)>),
    Error,
>)
    requires
        *ev is AccountStarted,
        apply_fits(state.account, *ev, Seq::empty(), 0),
    ensures
        forall|open: Seq<Position>, history: Seq<DomainEvent>, now: Timestamp|
            step_post(state.account, *ev, open, history, now, old(events)@, final(events)@, r),
{
    let at = match ev {
        PipelineEvent::AccountStarted { at } => *at,
        _ => {
            return Err(Error::invalid_state("not a start event"));
        },
    };
    let id = state.account.id;
    let ghost before = events@;
    let new_acc = match state.account.start(at) {
        Ok(x) => x,
        Err(e) => {
            return Err(e);
        },
    };
    emit(events, id, DomainEventKind::AccountStarted, at);
    proof {
        lemma_appended_none(before, id);
        lemma_appended_step(before, before, events@, Seq::empty(), id);
    }
    Ok((AccountState::new(new_acc), None))
}

fn apply_fill(
    state: AccountState,
    ev: &PipelineEvent,
    open_positions: &Vec<Position>,
    events: &mut Vec<DomainEvent>,
) -> (r: Result<(AccountState, Option<(Trade, Position)>), Error>)
    requires
        *ev is TradeFilled,
        apply_fits(state.account, *ev, open_positions@, 0),
    ensures
        forall|history: Seq<DomainEvent>, now: Timestamp|
            step_post(
                state.account,
                *ev,
                open_positions@,
                history,
                now,
                old(events)@,
                final(events)@,
                r,
            ),
{
    let trade = match ev {
        PipelineEvent::TradeFilled { trade } => trade,
        _ => {
            return Err(Error::invalid_state("not a fill event"));
        },
    };
    let id = state.account.id;
    let ghost before = events@;
    let missing = match trade.trade_side {
        TradeSide::Exit => trade.exit_info.is_none(),
        _ => false,
    };
    if missing {
        return Err(Error::Persistence("exit trade missing exit_info".to_string()));
    }
    let pnl = match trade.exit_info {
        Some(info) => info.realized_pnl,
        None => Money(0),
    };
    let new_state = state.apply_realized_pnl(
        pnl,
        trade.commission,
        trade.swap,
        trade.executed_at,
    ).mark_active_trading_day();
    let position = match (trade.trade_side, trade.exit_info) {
        (TradeSide::Exit, Some(info)) => match find_open_position(open_positions, info.position_id) {
            Some(p) => Position {
                status: PositionStatus::Closed,
                closed_at: Some(trade.executed_at),
                realized_pnl: info.realized_pnl,
                open_quantity: Quantity(0),
                ..p
            },
            None => Position {
                id: info.position_id,
                account_id: trade.account_id,
                symbol: trade.symbol.clone(),
                side: crate::market::PositionSide::from_order(trade.side),
                opened_at: trade.executed_at,
                closed_at: Some(trade.executed_at),
                status: PositionStatus::Closed,
                avg_entry_price: info.entry_price,
                opened_quantity: info.closed_quantity,
                open_quantity: Quantity(0),
                realized_pnl: info.realized_pnl,
                commission: trade.commission,
                swap: trade.swap,
                stop_loss: None,
                take_profit: None,
                magic: None,
                comment: clone_comment(&trade.comment),
            },
        },
        _ => Position::open(
            trade.account_id,
            trade.symbol.clone(),
            crate::market::PositionSide::from_order(trade.side),
            trade.price,
            trade.quantity,
            trade.executed_at,
            trade.commission,
            None,
            None,
            None,
            clone_comment(&trade.comment),
        ),
    };
    emit(events, id, DomainEventKind::TradeFilled { trade: trade.clone() }, trade.executed_at);
    proof {
        lemma_appended_none(before, id);
        lemma_appended_step(before, before, events@, Seq::empty(), id);
    }
    Ok((new_state, Some((trade.clone(), position))))
}

fn apply_tick(state: AccountState, ev: &PipelineEvent, now: Timestamp, events: &mut Vec<DomainEvent>) -> (r:
    Result<(AccountState, Option<(Trade, Position)>), Error>)
    requires
        *ev is Tick,
        apply_fits(state.account, *ev, Seq::empty(), now),
    ensures
        forall|open: Seq<Position>, history: Seq<DomainEvent>|
            step_post(state.account, *ev, open, history, now, old(events)@, final(events)@, r),
{
    let (ts, broker_equity, broker_balance) = match ev {
        PipelineEvent::Tick { tick, broker_equity, broker_balance } => (
            tick.quote.ts,
            *broker_equity,
            *broker_balance,
        ),
        _ => {
            return Err(Error::invalid_state("not a tick event"));
        },
    };
    let id = state.account.id;
    let ghost before = events@;
    let age = minutes_since(ts, now);
    if age > STALE_TICK_THRESHOLD_MINUTES {
        return Err(Error::TickRejected("tick is older than the staleness threshold".to_string()));
    }
    match state.account.last_tick_ts {
        Some(last) => {
            if ts <= last {
                return Err(
                    Error::TickRejected("tick is not newer than the last evaluated tick".to_string()),
                );
            }
        },
        None => {},
    }
    let new_state = state.update_equity(broker_equity).update_balance(broker_balance);
    emit(events, id, DomainEventKind::TickEvaluated { equity: broker_equity }, ts);
    proof {
        lemma_appended_none(before, id);
        lemma_appended_step(before, before, events@, Seq::empty(), id);
    }
    Ok((new_state, None))
}

fn apply_estimated(
    state: AccountState,
    ev: &PipelineEvent,
    open_positions: &Vec<Position>,
    events: &mut Vec<DomainEvent>,
) -> (r: Result<(AccountState, Option<(Trade, Position)>), Error>)
    requires
        *ev is TickEstimated,
        apply_fits(state.account, *ev, open_positions@, 0),
    ensures
        forall|history: Seq<DomainEvent>, now: Timestamp|
            step_post(
                state.account,
                *ev,
                open_positions@,
                history,
                now,
                old(events)@,
                final(events)@,
                r,
            ),
{
    let tick = match ev {
        PipelineEvent::TickEstimated { tick } => tick,
        _ => {
            return Err(Error::invalid_state("not an estimated tick event"));
        },
    };
    let id = state.account.id;
    let ghost before = events@;
    let equity = equity_after_tick(state.account.balance, open_positions, &tick.quote);
    let balance = state.account.balance;
    let new_state = state.set_estimated_equity(equity, balance);
    emit(events, id, DomainEventKind::TickEvaluated { equity }, tick.quote.ts);
    proof {
        lemma_appended_none(before, id);
        lemma_appended_step(before, before, events@, Seq::empty(), id);
    }
    Ok((new_state, None))
}

fn apply_day_rollover(
    state: AccountState,
    ev: &PipelineEvent,
    now: Timestamp,
    events: &mut Vec<DomainEvent>,
) -> (r: Result<(AccountState, Option<(Trade, Position)>), Error>)
    requires
        *ev is DayRollover,
        apply_fits(state.account, *ev, Seq::empty(), now),
    ensures
        forall|open: Seq<Position>, history: Seq<DomainEvent>|
            step_post(state.account, *ev, open, history, now, old(events)@, final(events)@, r),
{
    let had = match ev {
        PipelineEvent::DayRollover { had_trades_today } => *had_trades_today,
        _ => {
            return Err(Error::invalid_state("not a rollover event"));
        },
    };
    let id = state.account.id;
    let ghost before = events@;
    let new_state = state.rollover_day(had, None);
    emit(
        events,
        id,
        DomainEventKind::DayRollover {
            new_day_index: new_state.account.trading_day_index,
            day_start: new_state.account.day_start_balance,
        },
        now,
    );
    proof {
        lemma_appended_none(before, id);
        lemma_appended_step(before, before, events@, Seq::empty(), id);
    }
    Ok((new_state, None))
}

fn apply_emergency(state: AccountState, ev: &PipelineEvent, events: &mut Vec<DomainEvent>) -> (r:
    Result<(AccountState, Option<(Trade, Position)>), Error>)
    requires
        *ev is EmergencyStop,
    ensures
        forall|open: Seq<Position>, history: Seq<DomainEvent>, now: Timestamp|
            step_post(state.account, *ev, open, history, now, old(events)@, final(events)@, r),
{
    let at = match ev {
        PipelineEvent::EmergencyStop { at, .. } => *at,
        _ => {
            return Err(Error::invalid_state("not an emergency stop"));
        },
    };
    let id = state.account.id;
    let ghost before = events@;
    let new_state = match ev {
        PipelineEvent::EmergencyStop { reason, actor_id, .. } => state.emergency_stop(
            reason.as_str(),
            actor_id.as_str(),
            at,
        ),
        _ => state,
    };
    emit(
        events,
        id,
        DomainEventKind::AccountStatusChanged {
            from: AccountStatus::Active,
            to: AccountStatus::EmergencyStopped,
        },
        at,
    );
    proof {
        lemma_appended_none(before, id);
        lemma_appended_step(before, before, events@, Seq::empty(), id);
    }
    Ok((new_state, None))
}

fn apply_override(
    state: AccountState,
    ev: &PipelineEvent,
    history: &Vec<DomainEvent>,
    events: &mut Vec<DomainEvent>,
) -> (r: Result<(AccountState, Option<(Trade, Position)>), Error>)
    requires
        *ev is OverrideBreach,
    ensures
        forall|open: Seq<Position>, now: Timestamp|
            step_post(state.account, *ev, open, history@, now, old(events)@, final(events)@, r),
{
    let override_record = match ev {
        PipelineEvent::OverrideBreach { override_record } => override_record,
        _ => {
            return Err(Error::invalid_state("not an override"));
        },
    };
    let id = state.account.id;
    let ghost before = events@;
    match override_record.validate() {
        Ok(()) => {},
        Err(e) => {
            return Err(e);
        },
    }
    if override_record.account_id != id {
        return Err(Error::invalid_state("override account does not match the evaluated account"));
    }
    let v = match find_recorded_violation(history, override_record.clears_violation_id) {
        Some(v) => v,
        None => {
            return Err(Error::invalid_state("override references an unknown violation"));
        },
    };
    if !v.is_terminating() {
        return Err(
            Error::invalid_state("override references a violation that is not breach-terminal"),
        );
    }
    let new_state = match state.clear_breach(override_record) {
        Ok(s) => s,
        Err(e) => {
            return Err(e);
        },
    };
    emit(
        events,
        id,
        DomainEventKind::AccountStatusChanged { from: AccountStatus::Failed, to: AccountStatus::Active },
        override_record.at,
    );
    let ghost mid = events@;
    proof {
        lemma_appended_none(before, id);
        lemma_appended_step(before, before, mid, Seq::empty(), id);
    }
    emit(
        events,
        id,
        DomainEventKind::OverrideCleared {
            clears_violation_id: override_record.clears_violation_id,
            reason: override_record.reason.clone(),
            actor_id: override_record.actor_id.clone(),
            at: override_record.at,
        },
        override_record.at,
    );
    proof {
        lemma_appended_step(before, mid, events@, seq![(mid.last().kind, mid.last().occurred_at)], id);
    }
    Ok((new_state, None))
}

fn apply_payout_request(
    state: AccountState,
    ev: &PipelineEvent,
    now: Timestamp,
    events: &mut Vec<DomainEvent>,
) -> (r: Result<(AccountState, Option<(Trade, Position)>), Error>)
    requires
        *ev is PayoutRequest,
        apply_fits(state.account, *ev, Seq::empty(), now),
    ensures
        forall|open: Seq<Position>, history: Seq<DomainEvent>|
            step_post(state.account, *ev, open, history, now, old(events)@, final(events)@, r),
{
    let id = state.account.id;
    let ghost before = events@;
    let quote = match &state.account.plan.payout_config {
        Some(config) => quote_payout(
            &state.account,
            config,
            state.account.last_payout_at,
            Some(state.account.balance_at_last_payout),
            state.account.refund_used,
            now,
        ),
        None => {
            return Err(Error::invalid_state("plan has no payout configuration"));
        },
    };
    if quote.rejected.is_some() {
        return Err(Error::invalid_state("payout request rejected"));
    }
    let from = state.account.status;
    let new_state = match state.mark_payout_pending() {
        Ok(s) => s,
        Err(e) => {
            return Err(e);
        },
    };
    emit(
        events,
        id,
        DomainEventKind::PayoutRequested { profit_basis: quote.profit_basis, amount: quote.amount },
        now,
    );
    let ghost mid = events@;
    proof {
        lemma_appended_none(before, id);
        lemma_appended_step(before, before, mid, Seq::empty(), id);
    }
    if from != new_state.account.status {
        emit(
            events,
            id,
            DomainEventKind::AccountStatusChanged { from, to: new_state.account.status },
            now,
        );
        proof {
            lemma_appended_step(before, mid, events@, seq![(mid.last().kind, mid.last().occurred_at)], id);
        }
    }
    Ok((new_state, None))
}

fn apply_payout_approve(
    state: AccountState,
    ev: &PipelineEvent,
    now: Timestamp,
    events: &mut Vec<DomainEvent>,
) -> (r: Result<(AccountState, Option<(Trade, Position)>), Error>)
    requires
        *ev is PayoutApprove,
        apply_fits(state.account, *ev, Seq::empty(), now),
    ensures
        forall|open: Seq<Position>, history: Seq<DomainEvent>|
            step_post(state.account, *ev, open, history, now, old(events)@, final(events)@, r),
{
    let id = state.account.id;
    let ghost before = events@;
    let quote = match &state.account.plan.payout_config {
        Some(config) => quote_payout(
            &state.account,
            config,
            state.account.last_payout_at,
            Some(state.account.balance_at_last_payout),
            state.account.refund_used,
            now,
        ),
        None => {
            return Err(Error::invalid_state("plan has no payout configuration"));
        },
    };
    if quote.rejected.is_some() {
        return Err(Error::invalid_state("payout approval rejected"));
    }
    let mut new_state = state;
    let amount = quote.amount;
    let fee_refund = quote.fee_refund;
    match record_payout(&mut new_state.account, amount, fee_refund, now) {
        Ok(()) => {},
        Err(e) => {
            return Err(e);
        },
    }
    new_state.account.refund_used = new_state.account.refund_used || fee_refund.0 > 0;
    emit(events, id, DomainEventKind::PayoutApproved { amount, fee_refund }, now);
    proof {
        lemma_appended_none(before, id);
        lemma_appended_step(before, before, events@, Seq::empty(), id);
    }
    Ok((new_state, None))
}

/// Applies an event's state transition. `open_positions`,
/// `today_trades` and `recent_events` are the store reads the rules
/// evaluate against; `history` is the account's full audit log (an
/// override must name a terminating violation recorded there); `now` is
/// the wall-clock time. The emitted audit events are appended to
/// `events`; on error nothing is appended.
pub fn apply_event(
    state: AccountState,
    ev: &PipelineEvent,
    open_positions: Vec<Position>,
    today_trades: Vec<Trade>,
    recent_events: Vec<DomainEvent>,
    history: &Vec<DomainEvent>,
    now: Timestamp,
    events: &mut Vec<DomainEvent>,
) -> (r: Result<AppliedEvent, Error>)
    requires
        apply_fits(state.account, *ev, open_positions@, now),
    ensures
        r is Ok <==> apply_outcome(state.account, *ev, open_positions@, history@, now) is Ok,
        r is Ok ==> r->Ok_0.state.account == apply_outcome(
            state.account,
            *ev,
            open_positions@,
            history@,
            now,
        )->Ok_0,
        r is Ok ==> r->Ok_0.ctx_kind == context_kind_of(*ev),
        r is Ok ==> r->Ok_0.open_positions == open_positions && r->Ok_0.today_trades
            == today_trades && r->Ok_0.recent_events == recent_events,
        r is Ok ==> appended(
            old(events)@,
            final(events)@,
            state.account.id,
            apply_shapes(state.account, *ev, r->Ok_0.state.account, now),
        ),
        r is Ok ==> fill_ok(*ev, open_positions@, r->Ok_0.trade_fill),
        r is Err ==> final(events)@ == old(events)@,
        r is Err ==> error_is(
            r->Err_0,
            apply_outcome(state.account, *ev, open_positions@, history@, now)->Err_0,
        ),
        r is Err ==> error_detail(r->Err_0) == apply_error_text(state.account, *ev, history@, now),
{
    let ghost a = state.account;
    let ghost before = events@;
    let step = match ev {
        PipelineEvent::AccountStarted { .. } => apply_started(state, ev, events),
        PipelineEvent::TradeFilled { .. } => apply_fill(state, ev, &open_positions, events),
        PipelineEvent::Tick { .. } => apply_tick(state, ev, now, events),
        PipelineEvent::TickEstimated { .. } => apply_estimated(state, ev, &open_positions, events),
        PipelineEvent::DayRollover { .. } => apply_day_rollover(state, ev, now, events),
        PipelineEvent::EmergencyStop { .. } => apply_emergency(state, ev, events),
        PipelineEvent::OverrideBreach { .. } => apply_override(state, ev, history, events),
        PipelineEvent::PayoutRequest => apply_payout_request(state, ev, now, events),
        PipelineEvent::PayoutApprove => apply_payout_approve(state, ev, now, events),
        _ => {
            proof {
                lemma_appended_none(before, a.id);
            }
            Ok((state, None))
        },
    };
    assert(step_post(a, *ev, open_positions@, history@, now, before, events@, step));
    let ctx_kind = match ev {
        PipelineEvent::OrderSubmitted { .. } => RuleContextKind::OnOrderSubmit,
        PipelineEvent::TradeFilled { .. } => RuleContextKind::OnTradeFill,
        PipelineEvent::Tick { .. } => RuleContextKind::OnTick,
        PipelineEvent::TickEstimated { .. } => RuleContextKind::OnTick,
        PipelineEvent::DayRollover { .. } => RuleContextKind::OnDayRollover,
        PipelineEvent::EndOfDay => RuleContextKind::OnEndOfDay,
        _ => RuleContextKind::OnDemand,
    };
    match step {
        Ok((st, trade_fill)) => Ok(
            AppliedEvent {
                state: st,
                ctx_kind,
                open_positions,
                today_trades,
                recent_events,
                trade_fill,
            },
        ),
        Err(e) => Err(e),
    }
}


/// The account after a target-hit decision stamps the target.
pub open spec fn target_step(a: Account, kind: DecisionKind, ts: Timestamp) -> Account {
    if kind == DecisionKind::TargetHit {
        crate::state::mark_target(a, ts)
    } else {
        a
    }
}

/// A target-hit-pending account with the target stamped and enough
/// trading days passes the phase.
pub open spec fn passes(a: Account) -> bool {
    a.target_reached_at is Some && a.status == AccountStatus::TargetHitPending
        && a.active_trading_days >= a.plan.min_trading_days
}

/// The account after passing: status `Passed`, then upgraded to the next
/// phase when that upgrade is legal.
pub open spec fn pass_step(a: Account) -> Account {
    if passes(a) {
        let b = Account { status: AccountStatus::Passed, ..a };
        let to = next_phase(a.plan.phase);
        if upgrade_allowed(a.plan.phase, to) {
            Account {
                plan: crate::plan::ChallengePlan { phase: to, ..b.plan },
                account_type: type_for_phase(to),
                ..b
            }
        } else {
            b
        }
    } else {
        a
    }
}

/// The account after the decision imposes its status.
pub open spec fn status_step(a: Account, kind: DecisionKind) -> Account {
    match status_target_of(kind) {
        Some(t) => Account { status: t, ..a },
        None => a,
    }
}

/// The account after a tick records the tick's time.
pub open spec fn tick_step(a: Account, ev: PipelineEvent) -> Account {
    match ev {
        PipelineEvent::Tick { tick, .. } => Account { last_tick_ts: Some(tick.quote.ts), ..a },
        PipelineEvent::TickEstimated { tick } => Account { last_tick_ts: Some(tick.quote.ts), ..a },
        _ => a,
    }
}

/// The final account after a decision of kind `kind` at `ts`.
pub open spec fn completed_account(a: Account, ev: PipelineEvent, kind: DecisionKind, ts: Timestamp) -> Account {
    tick_step(status_step(pass_step(target_step(a, kind, ts)), kind), ev)
}

proof fn lemma_completed_keeps_id(a: Account, ev: PipelineEvent, kind: DecisionKind, ts: Timestamp)
    ensures
        completed_account(a, ev, kind, ts).id == a.id,
{
}

/// The decision liquidates positions (liquidate or emergency).
pub open spec fn liquidating(kind: DecisionKind) -> bool {
    kind == DecisionKind::Liquidate || kind == DecisionKind::Emergency
}

/// The first violation at liquidate severity, if any.
pub open spec fn first_liquidating(vs: Seq<Violation>) -> Option<Violation>
    decreases vs.len(),
{
    if vs.len() == 0 {
        None
    } else if vs[0].severity == ViolationSeverity::Liquidate {
        Some(vs[0])
    } else {
        first_liquidating(vs.drop_first())
    }
}

/// Why positions are liquidated: the kind of the first liquidate-severity
/// violation (else the first violation, else `Custom`) for a liquidate
/// decision; an emergency stop for an emergency.
pub open spec fn liquidation_reason(kind: DecisionKind, vs: Seq<Violation>) -> LiquidationReason {
    if kind == DecisionKind::Emergency {
        LiquidationReason::EmergencyStop
    } else {
        let k = match first_liquidating(vs) {
            Some(v) => v.kind,
            None => if vs.len() > 0 {
                vs[0].kind
            } else {
                ViolationKind::Custom
            },
        };
        LiquidationReason::RuleBreach(k)
    }
}

/// The actor of a liquidation: the emergency stop's actor, else the
/// rule engine.
pub open spec fn liquidation_actor(ev: PipelineEvent) -> Seq<char> {
    match ev {
        PipelineEvent::EmergencyStop { actor_id, .. } => actor_id@,
        _ => "rule_engine"@,
    }
}

/// The liquidation instruction closes the open positions of the account.
pub open spec fn instruction_ok(
    x: LiquidationInstruction,
    a: Account,
    ev: PipelineEvent,
    kind: DecisionKind,
    vs: Seq<Violation>,
    open: Seq<Position>,
    ts: Timestamp,
) -> bool {
    &&& x.account_id == a.id
    &&& x.tenant_id == a.tenant_id
    &&& x.positions@ == open_positions_of(open).map_values(|p: Position| liquidation_entry(p))
    &&& x.reason == liquidation_reason(kind, vs)
    &&& x.triggered_by_violation_id == (if vs.len() > 0 {
        Some(vs[0].id)
    } else {
        None
    })
    &&& x.estimated_notional.0 == notional_total(open)
    &&& x.issued_at == ts
    &&& x.actor_id@ == liquidation_actor(ev)
}

/// Event of a target hit.
pub open spec fn target_shapes(kind: DecisionKind, ts: Timestamp) -> Seq<(DomainEventKind, Timestamp)> {
    if kind == DecisionKind::TargetHit {
        seq![
            (
                DomainEventKind::AccountStatusChanged {
                    from: AccountStatus::Active,
                    to: AccountStatus::TargetHitPending,
                },
                ts,
            ),
        ]
    } else {
        Seq::empty()
    }
}

/// Events of the pass and the upgrade of `a1`.
pub open spec fn passed_shapes(a1: Account, ts: Timestamp) -> Seq<(DomainEventKind, Timestamp)> {
    if passes(a1) {
        let from = a1.plan.phase;
        let to = next_phase(from);
        let p = seq![
            (
                DomainEventKind::AccountStatusChanged {
                    from: AccountStatus::TargetHitPending,
                    to: AccountStatus::Passed,
                },
                ts,
            ),
        ];
        if upgrade_allowed(from, to) {
            p.push((DomainEventKind::PlanUpgraded { from_phase: from, to_phase: to }, ts))
        } else {
            p
        }
    } else {
        Seq::empty()
    }
}

/// Events of the target hit, the pass and the upgrade.
pub open spec fn pass_shapes(a: Account, kind: DecisionKind, ts: Timestamp) -> Seq<
    (DomainEventKind, Timestamp),
> {
    target_shapes(kind, ts) + passed_shapes(target_step(a, kind, ts), ts)
}

/// Events of the imposed status and the liquidation request (`liq`).
pub open spec fn status_shapes(a2: Account, kind: DecisionKind, ts: Timestamp, liq: DomainEventKind) -> Seq<
    (DomainEventKind, Timestamp),
> {
    match status_target_of(kind) {
        Some(t) => {
            let c = seq![(DomainEventKind::AccountStatusChanged { from: a2.status, to: t }, ts)];
            if liquidating(kind) {
                c.push((liq, ts))
            } else {
                c
            }
        },
        None => Seq::empty(),
    }
}

/// Events of the failure and of each violation.
pub open spec fn tail_shapes(kind: DecisionKind, vs: Seq<Violation>, ts: Timestamp, now: Timestamp) -> Seq<
    (DomainEventKind, Timestamp),
> {
    let s4: Seq<(DomainEventKind, Timestamp)> = if kind == DecisionKind::Fail || kind
        == DecisionKind::Liquidate {
        seq![
            (
                DomainEventKind::AccountStatusChanged {
                    from: AccountStatus::Active,
                    to: AccountStatus::Failed,
                },
                now,
            ),
        ]
    } else {
        Seq::empty()
    };
    s4 + vs.map_values(|v: Violation| (DomainEventKind::RuleViolated { violation: v }, ts))
}

/// The audit events that follow a decision, in order: the target hit,
/// the pass and upgrade, the imposed status and the liquidation request
/// (`liq` stands for the latter), the failure, and one event per
/// violation.
pub open spec fn complete_shapes(
    a: Account,
    kind: DecisionKind,
    vs: Seq<Violation>,
    ts: Timestamp,
    now: Timestamp,
    liq: DomainEventKind,
) -> Seq<(DomainEventKind, Timestamp)> {
    pass_shapes(a, kind, ts) + status_shapes(pass_step(target_step(a, kind, ts)), kind, ts, liq)
        + tail_shapes(kind, vs, ts, now)
}

/// Position of the liquidation request among the events that follow a
/// decision.
pub open spec fn liquidation_index(a: Account, kind: DecisionKind, ts: Timestamp) -> int {
    pass_shapes(a, kind, ts).len() + 1int
}

proof fn lemma_appended_concat(
    o: Seq<DomainEvent>,
    m: Seq<DomainEvent>,
    n: Seq<DomainEvent>,
    id: AccountId,
    s: Seq<(DomainEventKind, Timestamp)>,
    t: Seq<(DomainEventKind, Timestamp)>,
)
    requires
        appended(o, m, id, s),
        appended(m, n, id, t),
    ensures
        appended(o, n, id, s + t),
{
    assert(n.take(m.len() as int) == m);
    assert(n.take(o.len() as int) == m.take(o.len() as int));
    assert forall|i: int| 0 <= i < (s + t).len() implies {
        &&& (#[trigger] n[o.len() + i]).account_id == id
        &&& n[o.len() + i].kind == (s + t)[i].0
        &&& n[o.len() + i].occurred_at == (s + t)[i].1
        &&& n[o.len() + i].causation_id is None
    } by {
        if i < s.len() {
            assert(n[o.len() + i] == m[o.len() + i]);
        } else {
            assert(n[o.len() + i] == n[m.len() + (i - s.len())]);
        }
    }
}

fn first_liquidating_kind(vs: &Vec<Violation>) -> (r: Option<ViolationKind>)
    ensures
        r == (match first_liquidating(vs@) {
            Some(v) => Some(v.kind),
            None => None::<ViolationKind>,
        }),
{
    let mut i: usize = 0;
    assert(vs@.skip(0) == vs@);
    while i < vs.len()
        invariant
            i <= vs@.len(),
            first_liquidating(vs@) == first_liquidating(vs@.skip(i as int)),
        decreases vs@.len() - i,
    {
        assert(vs@.skip(i as int)[0] == vs@[i as int]);
        assert(vs@.skip(i as int).drop_first() == vs@.skip(i + 1));
        if vs[i].severity == ViolationSeverity::Liquidate {
            return Some(vs[i].kind);
        }
        i = i + 1;
    }
    None
}

fn complete_target(state: AccountState, kind: DecisionKind, ts: Timestamp, events: &mut Vec<DomainEvent>) -> (r:
    AccountState)
    ensures
        r.account == target_step(state.account, kind, ts),
        appended(old(events)@, final(events)@, state.account.id, target_shapes(kind, ts)),
{
    let ghost before = events@;
    let id = state.account.id;
    proof {
        lemma_appended_none(before, id);
    }
    if kind == DecisionKind::TargetHit {
        let st = state.mark_target_reached(ts);
        emit(
            events,
            id,
            DomainEventKind::AccountStatusChanged {
                from: AccountStatus::Active,
                to: AccountStatus::TargetHitPending,
            },
            ts,
        );
        proof {
            lemma_appended_step(before, before, events@, Seq::empty(), id);
        }
        st
    } else {
        state
    }
}

#[verifier::rlimit(80)]
fn complete_passed(state: AccountState, ts: Timestamp, events: &mut Vec<DomainEvent>) -> (r: AccountState)
    ensures
        r.account == pass_step(state.account),
        appended(old(events)@, final(events)@, state.account.id, passed_shapes(state.account, ts)),
{
    let ghost before = events@;
    let id = state.account.id;
    let mut st = state;
    proof {
        lemma_appended_none(before, id);
    }
    if st.account.target_reached_at.is_some() && st.account.status == AccountStatus::TargetHitPending
        && st.account.active_trading_days >= st.account.plan.min_trading_days {
        st.account.status = AccountStatus::Passed;
        emit(
            events,
            id,
            DomainEventKind::AccountStatusChanged {
                from: AccountStatus::TargetHitPending,
                to: AccountStatus::Passed,
            },
            ts,
        );
        let ghost mid = events@;
        proof {
            lemma_appended_step(before, before, mid, Seq::empty(), id);
        }
        let from_phase = st.account.plan.phase;
        let to_phase = next_phase_for(&from_phase);
        let allowed = match (from_phase, to_phase) {
            (ChallengePhase::Phase1, ChallengePhase::Phase2) => true,
            (ChallengePhase::Phase2, ChallengePhase::Funded) => true,
            _ => false,
        };
        if allowed {
            st.account.plan.phase = to_phase;
            st.account.account_type = crate::account::account_type_for(to_phase);
            emit(events, id, DomainEventKind::PlanUpgraded { from_phase, to_phase }, ts);
            proof {
                lemma_appended_step(before, mid, events@, seq![(mid.last().kind, mid.last().occurred_at)], id);
            }
        }
    }
    st
}

fn complete_pass(state: AccountState, kind: DecisionKind, ts: Timestamp, events: &mut Vec<DomainEvent>) -> (r:
    AccountState)
    ensures
        r.account == pass_step(target_step(state.account, kind, ts)),
        appended(old(events)@, final(events)@, state.account.id, pass_shapes(state.account, kind, ts)),
{
    let ghost before = events@;
    let id = state.account.id;
    let st = complete_target(state, kind, ts, events);
    let ghost m1 = events@;
    let ghost a1 = st.account;
    let st = complete_passed(st, ts, events);
    proof {
        lemma_appended_concat(before, m1, events@, id, target_shapes(kind, ts), passed_shapes(a1, ts));
    }
    st
}

fn complete_status(
    state: AccountState,
    ev: &PipelineEvent,
    decision: &Decision,
    open_positions: &Vec<Position>,
    ts: Timestamp,
    events: &mut Vec<DomainEvent>,
) -> (r: AccountState)
    requires
        liquidating(decision.kind) ==> notional_fits(open_positions@),
    ensures
        r.account == status_step(state.account, decision.kind),
        appended(
            old(events)@,
            final(events)@,
            state.account.id,
            status_shapes(state.account, decision.kind, ts, final(events)@[old(events)@.len() + 1int].kind),
        ),
        liquidating(decision.kind) ==> (final(events)@[old(events)@.len() + 1int].kind matches DomainEventKind::LiquidationRequested { instruction } && instruction_ok(instruction, state.account, *ev, decision.kind, decision.all_violations@, open_positions@, ts)),
{
    let ghost before = events@;
    let id = state.account.id;
    let mut st = state;
    let ghost mut sh: Seq<(DomainEventKind, Timestamp)> = Seq::empty();
    proof {
        lemma_appended_none(before, id);
    }
    let vs = &decision.all_violations;
    match decision.account_status_target() {
        Some(target) => {
            let from = st.account.status;
            st.account.status = target;
            emit(events, id, DomainEventKind::AccountStatusChanged { from, to: target }, ts);
            proof {
                lemma_appended_step(before, events@.drop_last(), events@, sh, id);
                sh = sh.push((events@.last().kind, events@.last().occurred_at));
            }
            if decision.kind == DecisionKind::Liquidate || decision.kind == DecisionKind::Emergency {
                let reason = if decision.kind == DecisionKind::Emergency {
                    LiquidationReason::EmergencyStop
                } else {
                    let k = match first_liquidating_kind(vs) {
                        Some(k) => k,
                        None => if vs.len() > 0 {
                            vs[0].kind
                        } else {
                            ViolationKind::Custom
                        },
                    };
                    LiquidationReason::RuleBreach(k)
                };
                let triggered_by = if vs.len() > 0 {
                    Some(vs[0].id)
                } else {
                    None
                };
                let actor_id = match ev {
                    PipelineEvent::EmergencyStop { actor_id, .. } => actor_id.clone(),
                    _ => "rule_engine".to_string(),
                };
                let instruction = LiquidationInstruction::new(
                    id,
                    st.account.tenant_id,
                    open_positions.as_slice(),
                    reason,
                    triggered_by,
                    actor_id,
                    ts,
                );
                emit(events, id, DomainEventKind::LiquidationRequested { instruction }, ts);
                proof {
                    lemma_appended_step(before, events@.drop_last(), events@, sh, id);
                    sh = sh.push((events@.last().kind, events@.last().occurred_at));
                }
            }
        },
        None => {},
    }
    proof {
        assert(sh =~= status_shapes(state.account, decision.kind, ts, events@[before.len() + 1int].kind));
    }
    st
}

fn complete_tail(
    kind: DecisionKind,
    result: &EvaluationResult,
    id: AccountId,
    ts: Timestamp,
    now: Timestamp,
    events: &mut Vec<DomainEvent>,
)
    requires
        kind == result.decision.kind,
    ensures
        appended(old(events)@, final(events)@, id, tail_shapes(kind, all_violations_of(result.reports@), ts, now)),
{
    let ghost before = events@;
    let ghost mut sh: Seq<(DomainEventKind, Timestamp)> = Seq::empty();
    proof {
        lemma_appended_none(before, id);
    }
    if kind == DecisionKind::Fail || kind == DecisionKind::Liquidate {
        emit(
            events,
            id,
            DomainEventKind::AccountStatusChanged { from: AccountStatus::Active, to: AccountStatus::Failed },
            now,
        );
        proof {
            lemma_appended_step(before, events@.drop_last(), events@, sh, id);
            sh = sh.push((events@.last().kind, events@.last().occurred_at));
        }
    }
    let ghost s4 = sh;
    let violations = result.violations();
    let mut i: usize = 0;
    while i < violations.len()
        invariant
            i <= violations@.len(),
            appended(before, events@, id, sh),
            sh == s4 + violations@.take(i as int).map_values(
                |v: Violation| (DomainEventKind::RuleViolated { violation: v }, ts),
            ),
        decreases violations@.len() - i,
    {
        emit(events, id, DomainEventKind::RuleViolated { violation: violations[i].clone() }, ts);
        proof {
            lemma_appended_step(before, events@.drop_last(), events@, sh, id);
            sh = sh.push((events@.last().kind, events@.last().occurred_at));
            assert(violations@.take(i + 1) == violations@.take(i as int).push(violations@[i as int]));
            assert(sh =~= s4 + violations@.take(i + 1).map_values(
                |v: Violation| (DomainEventKind::RuleViolated { violation: v }, ts),
            ));
        }
        i = i + 1;
    }
    proof {
        assert(violations@.take(violations@.len() as int) == violations@);
        assert(sh =~= tail_shapes(kind, all_violations_of(result.reports@), ts, now));
    }
}

/// Applies a decision to the evaluated state: a target hit stamps the
/// target (and reports `Active -> TargetHitPending`); a stamped,
/// target-hit-pending account with enough trading days passes and is
/// upgraded to the next phase; a terminating decision imposes its status
/// and, when it liquidates, requests the liquidation of the open
/// positions; a tick records its time; a fail or liquidation is reported
/// as `Active -> Failed` at `now`; every violation of the reports is
/// recorded at `server_ts`.
pub fn complete(
    state: AccountState,
    ev: &PipelineEvent,
    result: &EvaluationResult,
    open_positions: &Vec<Position>,
    server_ts: Timestamp,
    now: Timestamp,
    events: &mut Vec<DomainEvent>,
) -> (r: AccountState)
    requires
        liquidating(result.decision.kind) ==> notional_fits(open_positions@),
    ensures
        r.account == completed_account(state.account, *ev, result.decision.kind, server_ts),
        appended(
            old(events)@,
            final(events)@,
            state.account.id,
            complete_shapes(
                state.account,
                result.decision.kind,
                all_violations_of(result.reports@),
                server_ts,
                now,
                final(events)@[old(events)@.len() + liquidation_index(state.account, result.decision.kind, server_ts)].kind,
            ),
        ),
        liquidating(result.decision.kind) ==> (final(events)@[old(events)@.len() + liquidation_index(state.account, result.decision.kind, server_ts)].kind matches DomainEventKind::LiquidationRequested { instruction } && instruction_ok(instruction, pass_step(target_step(state.account, result.decision.kind, server_ts)), *ev, result.decision.kind, result.decision.all_violations@, open_positions@, server_ts)),
{
    let ghost before = events@;
    let ghost a = state.account;
    let id = state.account.id;
    let kind = result.decision.kind;
    let st = complete_pass(state, kind, server_ts, events);
    let ghost m1 = events@;
    let ghost a2 = st.account;
    let mut st = complete_status(st, ev, &result.decision, open_positions, server_ts, events);
    let ghost m2 = events@;
    match ev {
        PipelineEvent::Tick { tick, .. } => {
            st.account.last_tick_ts = Some(tick.quote.ts);
        },
        PipelineEvent::TickEstimated { tick } => {
            st.account.last_tick_ts = Some(tick.quote.ts);
        },
        _ => {},
    }
    complete_tail(kind, result, id, server_ts, now, events);
    proof {
        let liq = m2[m1.len() + 1int].kind;
        let liq2 = events@[before.len() + liquidation_index(a, kind, server_ts)].kind;
        assert(m1.len() == before.len() + pass_shapes(a, kind, server_ts).len());
        if liquidating(kind) {
            assert(m2.len() == m1.len() + 2);
            assert(events@.take(m2.len() as int) == m2);
            assert(events@.take(m2.len() as int)[m1.len() + 1int] == events@[m1.len() + 1int]);
            assert(liq == liq2);
        } else {
            assert(status_shapes(a2, kind, server_ts, liq) == status_shapes(a2, kind, server_ts, liq2));
        }
        lemma_appended_concat(before, m1, m2, id, pass_shapes(a, kind, server_ts), status_shapes(a2, kind, server_ts, liq2));
        lemma_appended_concat(before, m2, events@, id, pass_shapes(a, kind, server_ts) + status_shapes(a2, kind, server_ts, liq2), tail_shapes(kind, all_violations_of(result.reports@), server_ts, now));
    }
    st
}


proof fn lemma_catch_up_keeps_id(a: Account, eds: int, event_ts: i64, first: bool)
    ensures
        catch_up(a, eds, event_ts, first) matches Some(b) ==> b.id == a.id,
    decreases catch_up_measure(a, eds),
{
    match a.current_trading_day_start {
        Some(c) => if c < eds {
            let had = first && a.today_realized_pnl.0 != 0;
            if rollover_fits(a, had) {
                let next = plan_day_start(a, (c + MS_PER_DAY) as i64);
                let target: i64 = if next >= eds {
                    event_ts
                } else {
                    next as i64
                };
                let b = rollover(a, had, Some(target));
                match b.current_trading_day_start {
                    Some(nc) => if c < nc && nc < eds {
                        lemma_catch_up_keeps_id(b, eds, event_ts, false);
                    },
                    None => {},
                }
            }
        },
        None => {},
    }
}

/// The events catching up missed server days emit.
pub open spec fn rollover_shapes(a: Account, ev: PipelineEvent, event_ts: Timestamp, b: Account) -> Seq<
    (DomainEventKind, Timestamp),
> {
    if !(ev is DayRollover) && needs_catch_up(a, event_ts) {
        seq![
            (
                DomainEventKind::DayRollover {
                    new_day_index: b.trading_day_index,
                    day_start: b.day_start_balance,
                },
                event_ts,
            ),
        ]
    } else {
        Seq::empty()
    }
}

/// The account an event is applied to: the loaded one with missed server
/// days caught up (an explicit rollover event catches up nothing).
pub open spec fn rolled_account(a: Account, ev: PipelineEvent, now: Timestamp) -> Option<Account> {
    if ev is DayRollover {
        Some(a)
    } else {
        auto_rollover_of(a, event_time(ev, now))
    }
}

/// The arithmetic of processing stays in range.
pub open spec fn process_fits(
    a: Account,
    ev: PipelineEvent,
    open: Seq<Position>,
    reports: Seq<RuleReport>,
    now: Timestamp,
) -> bool {
    &&& ts_in_range(event_time(ev, now) as int)
    &&& ts_in_range(now as int)
    &&& a.current_trading_day_start matches Some(c) ==> ts_in_range(c as int)
    &&& rolled_account(a, ev, now) matches Some(b) ==> apply_fits(b, ev, open, now)
    &&& liquidating(kind_of_category(top_category(reports))) ==> notional_fits(open)
}

/// The outcome of processing an event on a loaded account.
#[derive(Debug)]
pub struct Processed {
    /// The final state, to be written back.
    pub state: AccountState,
    /// The audit events, in order.
    pub events: Vec<DomainEvent>,
    /// The rule reports and the decision.
    pub result: EvaluationResult,
    /// For a fill, the trade and the position to persist with the state.
    pub trade_fill: Option<(Trade, Position)>,
    /// The open positions the rules evaluated against.
    pub open_positions: Vec<Position>,
}

/// Processing `ev` on `account` succeeds: the missed server days roll
/// over and the event applies to the rolled account.
pub open spec fn processed_ok(
    account: Account,
    ev: PipelineEvent,
    open: Seq<Position>,
    history: Seq<DomainEvent>,
    now: Timestamp,
) -> bool {
    rolled_account(account, ev, now) matches Some(b) && apply_outcome(b, ev, open, history, now) is Ok
}

/// `p` is what processing `ev` on `account` yields when it succeeds: the
/// account after the rollover, the event and the decision on the rules'
/// `reports`; the reports and their decision; the fill to persist; the
/// open positions evaluated; and the audit events in order (rollover,
/// event, decision), the liquidation request carrying its instruction.
pub open spec fn processed_as(
    account: Account,
    ev: PipelineEvent,
    open: Seq<Position>,
    history: Seq<DomainEvent>,
    reports: Seq<RuleReport>,
    now: Timestamp,
    p: Processed,
) -> bool {
    let b = rolled_account(account, ev, now)->0;
    let c = apply_outcome(b, ev, open, history, now)->Ok_0;
    let kind = kind_of_category(top_category(reports));
    let head = rollover_shapes(account, ev, event_time(ev, now), b).len() + apply_shapes(b, ev, c, now).len();
    &&& p.state.account == completed_account(c, ev, kind, now)
    &&& p.state.account.id == account.id
    &&& p.result.reports@ == reports
    &&& decision_of(reports, p.result.decision)
    &&& fill_ok(ev, open, p.trade_fill)
    &&& p.open_positions@ == open
    &&& appended(
        Seq::empty(),
        p.events@,
        account.id,
        rollover_shapes(account, ev, event_time(ev, now), b) + apply_shapes(b, ev, c, now)
            + complete_shapes(
            c,
            kind,
            all_violations_of(reports),
            now,
            now,
            p.events@[head + liquidation_index(c, kind, now)].kind,
        ),
    )
    &&& liquidating(kind) ==> (p.events@[head + liquidation_index(c, kind, now)].kind matches DomainEventKind::LiquidationRequested { instruction }
        && instruction_ok(instruction, pass_step(target_step(c, kind, now)), ev, kind, p.result.decision.all_violations@, open, now))
}

/// Processes an event on a loaded account, at wall-clock time `now`
/// (also the evaluation's server time): missed server days are caught
/// up, the event's transition is applied, the rules' `reports` on the
/// applied state are aggregated into a decision, and the decision is
/// applied. The store reads are passed in (`history` is the account's
/// audit log). Fails as [`auto_rollover`] and [`apply_event`] fail.
pub fn process_with_loaded_account(
    evaluator: &Evaluator,
    account: Account,
    ev: &PipelineEvent,
    open_positions: Vec<Position>,
    today_trades: Vec<Trade>,
    recent_events: Vec<DomainEvent>,
    history: &Vec<DomainEvent>,
    reports: Vec<RuleReport>,
    now: Timestamp,
) -> (r: Result<Processed, Error>)
    requires
        process_fits(account, *ev, open_positions@, reports@, now),
    ensures
        r is Ok <==> processed_ok(account, *ev, open_positions@, history@, now),
        r is Ok ==> processed_as(account, *ev, open_positions@, history@, reports@, now, r->Ok_0),
        r is Err ==> (r->Err_0 is InvalidState || r->Err_0 is Persistence || r->Err_0 is TickRejected),
        r is Err ==> (match rolled_account(account, *ev, now) {
            Some(b) => error_detail(r->Err_0) == apply_error_text(b, *ev, history@, now),
            None => error_detail(r->Err_0) == "trading day counter overflow"@,
        }),
{
    let id = account.id;
    let event_ts = ev.event_timestamp_at(now);
    let mut events: Vec<DomainEvent> = Vec::new();
    let ghost e0 = events@;
    let state = match auto_rollover(AccountState::new(account), ev, event_ts, &mut events) {
        Ok(s) => s,
        Err(e) => {
            return Err(e);
        },
    };
    let ghost e1 = events@;
    let ghost b = state.account;
    let applied = match apply_event(
        state,
        ev,
        open_positions,
        today_trades,
        recent_events,
        history,
        now,
        &mut events,
    ) {
        Ok(x) => x,
        Err(e) => {
            return Err(e);
        },
    };
    let ghost e2 = events@;
    let ghost c = applied.state.account;
    let result = match evaluator.evaluate(reports) {
        Ok(x) => x,
        Err(e) => {
            return Err(e);
        },
    };
    let AppliedEvent { state, ctx_kind: _, open_positions, today_trades: _, recent_events: _, trade_fill } =
        applied;
    let final_state = complete(state, ev, &result, &open_positions, now, now, &mut events);
    proof {
        let kind = result.decision.kind;
        let rs = rollover_shapes(account, *ev, event_ts, b);
        if needs_catch_up(account, event_ts) {
            lemma_catch_up_keeps_id(account, plan_day_start(account, event_ts), event_ts, true);
        }
        assert(b.id == id);
        assert(c.id == id);
        lemma_completed_keeps_id(c, *ev, kind, now);
        let aps = apply_shapes(b, *ev, c, now);
        if !(*ev is DayRollover) && needs_catch_up(account, event_ts) {
            assert(appended(e0, e1, id, rs));
        } else {
            assert(e1 == e0);
            lemma_appended_none(e0, id);
        }
        lemma_appended_concat(e0, e1, e2, id, rs, aps);
        let liq = events@[e2.len() + liquidation_index(c, kind, now)].kind;
        lemma_appended_concat(
            e0,
            e2,
            events@,
            id,
            rs + aps,
            complete_shapes(c, kind, all_violations_of(result.reports@), now, now, liq),
        );
        assert(e2.len() == rs.len() + aps.len());
        assert((rs + aps) + complete_shapes(c, kind, all_violations_of(result.reports@), now, now, liq)
            == rs + aps + complete_shapes(c, kind, all_violations_of(result.reports@), now, now, liq));
    }
    Ok(Processed { state: final_state, events, result, trade_fill, open_positions })
}

/// An account only passes its phase (reaches `Passed`, or moves to another
/// phase) when it has traded on at least the plan's minimum number of
/// days. With fewer days, a target hit on an active account stamps the
/// target, leaves the account `TargetHitPending`, and keeps its phase.
pub proof fn law_pass_needs_trading_days(a: Account, ev: PipelineEvent, kind: DecisionKind, ts: Timestamp)
    ensures
        ((completed_account(a, ev, kind, ts).status == AccountStatus::Passed && a.status
            != AccountStatus::Passed) || completed_account(a, ev, kind, ts).plan.phase != a.plan.phase)
            ==> a.active_trading_days >= a.plan.min_trading_days,
        (completed_account(a, ev, kind, ts).status == AccountStatus::Passed && a.status != AccountStatus::Passed)
            ==> {
            &&& completed_account(a, ev, kind, ts).target_reached_at is Some
            &&& kind != DecisionKind::Fail
            &&& kind != DecisionKind::Liquidate
            &&& kind != DecisionKind::Emergency
        },
        (kind == DecisionKind::TargetHit && a.status == AccountStatus::Active && a.target_reached_at is None
            && a.active_trading_days < a.plan.min_trading_days) ==> {
            &&& completed_account(a, ev, kind, ts).status == AccountStatus::TargetHitPending
            &&& completed_account(a, ev, kind, ts).target_reached_at == Some(ts)
            &&& completed_account(a, ev, kind, ts).plan.phase == a.plan.phase
        },
{
}

/// With enough trading days a stamped target passes the phase: a target
/// hit on an active account, or a later decision that imposes no status on
/// an account already pending with its target stamped, leaves the account
/// `Passed`, moved from phase 1 to phase 2 or from phase 2 to funded.
pub proof fn law_target_with_days_passes(a: Account, ev: PipelineEvent, kind: DecisionKind, ts: Timestamp)
    requires
        a.active_trading_days >= a.plan.min_trading_days,
        kind != DecisionKind::Fail && kind != DecisionKind::Liquidate && kind != DecisionKind::Emergency,
        (kind == DecisionKind::TargetHit && a.status == AccountStatus::Active && a.target_reached_at is None)
            || (a.status == AccountStatus::TargetHitPending && a.target_reached_at is Some),
    ensures
        completed_account(a, ev, kind, ts).status == AccountStatus::Passed,
        a.plan.phase == ChallengePhase::Phase1 ==> completed_account(a, ev, kind, ts).plan.phase
            == ChallengePhase::Phase2,
        a.plan.phase == ChallengePhase::Phase2 ==> completed_account(a, ev, kind, ts).plan.phase
            == ChallengePhase::Funded,
        a.plan.phase == ChallengePhase::Funded ==> completed_account(a, ev, kind, ts).plan.phase
            == ChallengePhase::Funded,
{
}

} // verus!
