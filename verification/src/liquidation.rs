//! Liquidation instructions handed to the broker bridge when a rule
//! liquidates an account or an emergency stop is raised.
use crate::fixed::{fits, fx_div, fx_mul, SCALE};
use crate::ids::{AccountId, EventId, PositionId, TenantId, ViolationId};
use crate::instrument::{notional_of, InstrumentRegistry};
use crate::market::{position_open, Position, PositionSide, PositionStatus};
use crate::text::append_str;
use crate::types::{Money, Price, Quantity, Symbol, Timestamp};
use crate::violation::{kind_label, ViolationKind};
use vstd::prelude::*;

verus! {

/// One position to close: what the bridge needs for a market close.
#[derive(Debug)]
pub struct LiquidationPosition {
    pub position_id: PositionId,
    pub symbol: Symbol,
    pub side: PositionSide,
    pub open_quantity: Quantity,
    pub avg_entry_price: Price,
}

/// The liquidation entry of a position.
pub open spec fn liquidation_entry(p: Position) -> LiquidationPosition {
    LiquidationPosition {
        position_id: p.id,
        symbol: p.symbol,
        side: p.side,
        open_quantity: p.open_quantity,
        avg_entry_price: p.avg_entry_price,
    }
}

impl Clone for LiquidationPosition {
    fn clone(&self) -> (r: LiquidationPosition)
        ensures
            r == *self,
    {
        LiquidationPosition {
            position_id: self.position_id,
            symbol: self.symbol.clone(),
            side: self.side,
            open_quantity: self.open_quantity,
            avg_entry_price: self.avg_entry_price,
        }
    }
}

impl LiquidationPosition {
    /// The entry closing `p`.
    pub fn from_position(p: &Position) -> (r: LiquidationPosition)
        ensures
            r == liquidation_entry(*p),
    {
        LiquidationPosition {
            position_id: p.id,
            symbol: p.symbol.clone(),
            side: p.side,
            open_quantity: p.open_quantity,
            avg_entry_price: p.avg_entry_price,
        }
    }
}

/// Why a liquidation was requested.
#[derive(Debug, Clone, Copy, PartialEq, Eq, Structural)]
pub enum LiquidationReason {
    /// A rule liquidated the account.
    RuleBreach(ViolationKind),
    /// An emergency stop was raised.
    EmergencyStop,
    /// Manual liquidation by risk staff.
    Manual,
}

/// Label of a reason (`rule_breach:<kind>`, `emergency_stop`, `manual`).
pub open spec fn reason_label(r: LiquidationReason) -> Seq<char> {
    match r {
        LiquidationReason::RuleBreach(k) => "rule_breach:"@ + kind_label(k),
        LiquidationReason::EmergencyStop => "emergency_stop"@,
        LiquidationReason::Manual => "manual"@,
    }
}

impl LiquidationReason {
    /// The reason's label.
    pub fn label(&self) -> (r: String)
        ensures
            r@ == reason_label(*self),
    {
        match self {
            LiquidationReason::RuleBreach(k) => {
                let mut s = "rule_breach:".to_owned();
                append_str(&mut s, k.label());
                s
            },
            LiquidationReason::EmergencyStop => "emergency_stop".to_owned(),
            LiquidationReason::Manual => "manual".to_owned(),
        }
    }
}

/// Estimated notional (raw) of closing a position: with the fallback
/// spec of one unit per lot, `|units * price|`.
pub open spec fn close_notional(p: Position) -> int {
    let n = notional_of(SCALE as int, fx_div(p.open_quantity.0 as int, SCALE as int), p.avg_entry_price.0 as int);
    if n < 0 { -n } else { n }
}

/// The open positions among `ps`, in order.
pub open spec fn open_positions(ps: Seq<Position>) -> Seq<Position>
    decreases ps.len(),
{
    if ps.len() == 0 {
        Seq::empty()
    } else if position_open(ps.last()) {
        open_positions(ps.drop_last()).push(ps.last())
    } else {
        open_positions(ps.drop_last())
    }
}

/// Sum of the close notionals of the open positions among `ps`.
pub open spec fn notional_total(ps: Seq<Position>) -> int
    decreases ps.len(),
{
    if ps.len() == 0 {
        0
    } else if position_open(ps.last()) {
        notional_total(ps.drop_last()) + close_notional(ps.last())
    } else {
        notional_total(ps.drop_last())
    }
}

/// Every open position's notional, and their total, fit the raw range.
pub open spec fn notional_fits(ps: Seq<Position>) -> bool {
    &&& forall|i: int| 0 <= i < ps.len() && position_open(#[trigger] ps[i]) ==> fits(
        fx_mul(ps[i].open_quantity.0 as int, ps[i].avg_entry_price.0 as int),
    )
    &&& fits(notional_total(ps))
}

proof fn lemma_units_are_lots(q: i64)
    ensures
        fx_div(q as int, SCALE as int) == q,
        fx_mul(q as int, SCALE as int) == q,
{
    assert((q as int) * 100_000_000 / 100_000_000 == q) by (nonlinear_arith);
    assert((-(q as int) * 100_000_000) / 100_000_000 == -q) by (nonlinear_arith);
    assert((-(q as int * 100_000_000)) / 100_000_000 == -q) by (nonlinear_arith);
}

proof fn lemma_total_nonneg_monotone(ps: Seq<Position>, i: int)
    requires
        0 <= i <= ps.len(),
    ensures
        0 <= notional_total(ps.take(i)) <= notional_total(ps),
    decreases ps.len(),
{
    if ps.len() > 0 {
        if i == ps.len() {
            assert(ps.take(i) == ps);
            lemma_total_nonneg_monotone(ps.drop_last(), i - 1);
            assert(ps.drop_last().take(i - 1) == ps.drop_last());
        } else {
            lemma_total_nonneg_monotone(ps.drop_last(), i);
            assert(ps.drop_last().take(i) == ps.take(i));
        }
    }
}

/// An instruction to close every listed position immediately.
#[derive(Debug)]
pub struct LiquidationInstruction {
    /// Identifier the bridge deduplicates by.
    pub id: EventId,
    pub account_id: AccountId,
    pub tenant_id: TenantId,
    /// Positions to close, full quantity.
    pub positions: Vec<LiquidationPosition>,
    pub reason: LiquidationReason,
    /// The violation that triggered a rule-breach liquidation.
    pub triggered_by_violation_id: Option<ViolationId>,
    /// Estimated total notional being closed (display only).
    pub estimated_notional: Money,
    pub issued_at: Timestamp,
    /// Actor behind the liquidation (for audit).
    pub actor_id: String,
}

/// Two instructions agree field by field (positions by their contents).
pub open spec fn same_instruction(a: LiquidationInstruction, b: LiquidationInstruction) -> bool {
    &&& a.id == b.id
    &&& a.account_id == b.account_id
    &&& a.tenant_id == b.tenant_id
    &&& a.positions@ == b.positions@
    &&& a.reason == b.reason
    &&& a.triggered_by_violation_id == b.triggered_by_violation_id
    &&& a.estimated_notional == b.estimated_notional
    &&& a.issued_at == b.issued_at
    &&& a.actor_id == b.actor_id
}

impl Clone for LiquidationInstruction {
    fn clone(&self) -> (r: LiquidationInstruction)
        ensures
            same_instruction(r, *self),
    {
        let mut positions: Vec<LiquidationPosition> = Vec::new();
        let mut i: usize = 0;
        while i < self.positions.len()
            invariant
                i <= self.positions@.len(),
                positions@ == self.positions@.take(i as int),
            decreases self.positions@.len() - i,
        {
            positions.push(self.positions[i].clone());
            proof {
                assert(self.positions@.take(i + 1) == self.positions@.take(i as int).push(self.positions@[i as int]));
            }
            i = i + 1;
        }
        proof {
            assert(self.positions@.take(self.positions@.len() as int) == self.positions@);
        }
        LiquidationInstruction {
            id: self.id,
            account_id: self.account_id,
            tenant_id: self.tenant_id,
            positions,
            reason: self.reason,
            triggered_by_violation_id: self.triggered_by_violation_id,
            estimated_notional: self.estimated_notional,
            issued_at: self.issued_at,
            actor_id: self.actor_id.clone(),
        }
    }
}

impl LiquidationInstruction {
    /// An instruction closing the open positions among `positions`, in
    /// order, with their estimated notional summed.
    pub fn new(
        account_id: AccountId,
        tenant_id: TenantId,
        positions: &[Position],
        reason: LiquidationReason,
        triggered_by_violation_id: Option<ViolationId>,
        actor_id: String,
        issued_at: Timestamp,
    ) -> (r: LiquidationInstruction)
        requires
            notional_fits(positions@),
        ensures
            r.account_id == account_id,
            r.tenant_id == tenant_id,
            r.positions@ == open_positions(positions@).map_values(|p: Position| liquidation_entry(p)),
            r.reason == reason,
            r.triggered_by_violation_id == triggered_by_violation_id,
            r.estimated_notional.0 == notional_total(positions@),
            r.issued_at == issued_at,
            r.actor_id == actor_id,
    {
        let registry = InstrumentRegistry::new();
        let mut out: Vec<LiquidationPosition> = Vec::new();
        let mut total: i64 = 0;
        let mut i: usize = 0;
        while i < positions.len()
            invariant
                i <= positions@.len(),
                notional_fits(positions@),
                forall|k: Seq<char>| registry.spec_for(k) is None,
                out@ == open_positions(positions@.take(i as int)).map_values(
                    |p: Position| liquidation_entry(p),
                ),
                total == notional_total(positions@.take(i as int)),
            decreases positions@.len() - i,
        {
            let ghost pre = positions@.take(i as int);
            let ghost next = positions@.take(i + 1);
            assert(next.drop_last() == pre);
            assert(next.last() == positions@[i as int]);
            let p = &positions[i];
            if p.is_open() {
                let spec = registry.get(&p.symbol);
                proof {
                    lemma_units_are_lots(p.open_quantity.0);
                    lemma_total_nonneg_monotone(positions@, i + 1);
                    lemma_total_nonneg_monotone(positions@, i as int);
                }
                let lots = spec.units_to_lots(p.open_quantity);
                let n = spec.notional(lots, p.avg_entry_price);
                assert(notional_total(next) == notional_total(pre) + close_notional(*p));
                assert(close_notional(*p) == if n.0 < 0 { -n.0 } else { n.0 as int });
                let m = n.abs();
                total = total + m.0;
                out.push(LiquidationPosition::from_position(p));
                proof {
                    assert(open_positions(next) == open_positions(pre).push(*p));
                    assert(out@ == open_positions(next).map_values(|q: Position| liquidation_entry(q)));
                }
            } else {
                proof {
                    assert(open_positions(next) == open_positions(pre));
                }
            }
            i = i + 1;
        }
        proof {
            assert(positions@.take(positions@.len() as int) == positions@);
        }
        LiquidationInstruction {
            id: EventId::new(),
            account_id,
            tenant_id,
            positions: out,
            reason,
            triggered_by_violation_id,
            estimated_notional: Money(total),
            issued_at,
            actor_id,
        }
    }

    /// No position to close.
    pub fn is_empty(&self) -> (r: bool)
        ensures
            r == (self.positions@.len() == 0),
    {
        self.positions.len() == 0
    }

    /// Number of positions to close.
    pub fn len(&self) -> (r: usize)
        ensures
            r == self.positions@.len(),
    {
        self.positions.len()
    }
}

/// A liquidation instruction closes exactly the open positions, in their
/// order: the positions it lists are those of the account with status
/// `Open` and a positive open quantity, so every listed position is open
/// and every open position is listed.
pub proof fn law_instruction_lists_open_positions(ps: Seq<Position>)
    ensures
        open_positions(ps) == ps.filter(|p: Position| p.status == PositionStatus::Open && p.open_quantity.0 > 0),
        forall|i: int|
            0 <= i < open_positions(ps).len() ==> {
                &&& (#[trigger] open_positions(ps)[i]).status == PositionStatus::Open
                &&& open_positions(ps)[i].open_quantity.0 > 0
                &&& ps.contains(open_positions(ps)[i])
            },
        forall|j: int|
            0 <= j < ps.len() && ps[j].status == PositionStatus::Open && ps[j].open_quantity.0 > 0
                ==> open_positions(ps).contains(#[trigger] ps[j]),
{
    let pred = |p: Position| p.status == PositionStatus::Open && p.open_quantity.0 > 0;
    lemma_open_positions_filter(ps);
    assert forall|i: int| 0 <= i < open_positions(ps).len() implies {
        &&& (#[trigger] open_positions(ps)[i]).status == PositionStatus::Open
        &&& open_positions(ps)[i].open_quantity.0 > 0
        &&& ps.contains(open_positions(ps)[i])
    } by {
        ps.lemma_filter_pred(pred, i);
        assert(ps.filter(pred).contains(ps.filter(pred)[i]));
        ps.lemma_filter_contains_rev(pred, ps.filter(pred)[i]);
    }
    assert forall|j: int|
        0 <= j < ps.len() && ps[j].status == PositionStatus::Open && ps[j].open_quantity.0 > 0 implies open_positions(
        ps,
    ).contains(#[trigger] ps[j]) by {
        ps.lemma_filter_contains(pred, j);
    }
}

proof fn lemma_open_positions_filter(ps: Seq<Position>)
    ensures
        open_positions(ps) == ps.filter(|p: Position| p.status == PositionStatus::Open && p.open_quantity.0 > 0),
    decreases ps.len(),
{
    reveal(Seq::filter);
    if ps.len() > 0 {
        lemma_open_positions_filter(ps.drop_last());
    }
}

/// Sum of the close notionals of every position of `s`.
pub open spec fn close_notional_sum(s: Seq<Position>) -> int
    decreases s.len(),
{
    if s.len() == 0 {
        0
    } else {
        close_notional_sum(s.drop_last()) + close_notional(s.last())
    }
}

/// The estimated notional of a liquidation instruction is the notional of
/// the positions it closes: closed positions add nothing to it.
pub proof fn law_notional_of_listed_positions(ps: Seq<Position>)
    ensures
        notional_total(ps) == close_notional_sum(open_positions(ps)),
    decreases ps.len(),
{
    if ps.len() > 0 {
        law_notional_of_listed_positions(ps.drop_last());
        if position_open(ps.last()) {
            let o = open_positions(ps.drop_last()).push(ps.last());
            assert(o.drop_last() == open_positions(ps.drop_last()));
        }
    }
}

} // verus!
