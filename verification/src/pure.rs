//! Stateless evaluation: a verdict from its recorded inputs, paired with
//! the SHA-256 fingerprint of those inputs so that a past verdict can be
//! recomputed and checked on replay.
use crate::account::{Account, AccountStatus};
use crate::decision::{decision_of, Decision, RuleReport};
use crate::auth::is_lower_hex;
use crate::digest::{
    fingerprint, fingerprint_of, i64_bytes, opt_i64_bytes, put_i64, put_opt_i64, put_raw, put_tag,
    put_text, put_u128, put_u32, put_u64, text_bytes, u128_bytes, u32_bytes, u64_bytes,
};
use crate::equity_input::EquitySource;
use crate::error::Error;
use crate::evaluator::{context_label, context_label_of, EvaluationResult, RuleContextKind};
use crate::market::{PositionSide, Position, Tick, Trade};
use crate::order::{Order, OrderSide};
use crate::rulepack::{pack_content_bytes, RulePack};
use crate::types::ServerTime;
use vstd::prelude::*;

verus! {

/// The per-call inputs of [`evaluate`] beyond the account, the pack, the
/// context kind and the server time.
#[derive(Debug)]
pub struct EvaluateInputs<'a> {
    /// Open positions at evaluation time.
    pub open_positions: &'a [Position],
    /// Trades of the current trading day.
    pub today_trades: &'a [Trade],
    /// Fills of other accounts, for the copy-trading check.
    pub cross_reference_trades: Vec<Trade>,
    /// The order being evaluated, if any.
    pub pending_order: Option<&'a Order>,
    /// The fill being evaluated, if any.
    pub latest_trade: Option<&'a Trade>,
    /// The tick being evaluated, if any.
    pub latest_tick: Option<&'a Tick>,
    /// Who vouches for the account's equity; estimated by default.
    pub equity_source: EquitySource,
}

impl<'a> EvaluateInputs<'a> {
    /// Tick evaluation with only positions and today's trades; the
    /// equity is taken as an estimate.
    pub fn for_tick(open_positions: &'a [Position], today_trades: &'a [Trade], latest_tick: &'a Tick) -> (r:
        EvaluateInputs<'a>)
        ensures
            r.open_positions@ == open_positions@,
            r.today_trades@ == today_trades@,
            r.cross_reference_trades@.len() == 0,
            r.pending_order is None,
            r.latest_trade is None,
            r.latest_tick == Some(latest_tick),
            r.equity_source == EquitySource::Estimated,
    {
        EvaluateInputs {
            open_positions,
            today_trades,
            cross_reference_trades: Vec::new(),
            pending_order: None,
            latest_trade: None,
            latest_tick: Some(latest_tick),
            equity_source: EquitySource::Estimated,
        }
    }

    /// The same inputs with another equity provenance.
    pub fn with_equity_source(self, src: EquitySource) -> (r: EvaluateInputs<'a>)
        ensures
            r == (EvaluateInputs { equity_source: src, ..self }),
    {
        EvaluateInputs { equity_source: src, ..self }
    }

    /// The same inputs with the given cross-account reference fills.
    pub fn with_cross_reference_trades(self, trades: Vec<Trade>) -> (r: EvaluateInputs<'a>)
        ensures
            r == (EvaluateInputs { cross_reference_trades: trades, ..self }),
    {
        EvaluateInputs { cross_reference_trades: trades, ..self }
    }
}

/// A verdict with the fingerprint of the inputs that produced it.
#[derive(Debug)]
pub struct PureVerdict {
    pub decision: Decision,
    pub reports: Vec<RuleReport>,
    /// Hex SHA-256 of the evaluation inputs.
    pub input_hash: String,
    pub pack_version: u32,
    pub pack_id: String,
}

impl PureVerdict {
    /// Whether the verdict terminates the account.
    pub fn is_terminating(&self) -> (r: bool)
        ensures
            r == crate::decision::kind_terminating(self.decision.kind),
    {
        self.decision.is_terminating()
    }
}

impl From<PureVerdict> for EvaluationResult {
    fn from(v: PureVerdict) -> (r: EvaluationResult) {
        EvaluationResult { reports: v.reports, decision: v.decision }
    }
}

impl vstd::std_specs::convert::FromSpecImpl<PureVerdict> for EvaluationResult {
    open spec fn obeys_from_spec() -> bool {
        true
    }

    open spec fn from_spec(v: PureVerdict) -> EvaluationResult {
        EvaluationResult { reports: v.reports, decision: v.decision }
    }
}

/// Tag byte of an account status.
pub open spec fn status_tag(s: AccountStatus) -> u8 {
    match s {
        AccountStatus::Pending => 0,
        AccountStatus::Active => 1,
        AccountStatus::TargetHitPending => 2,
        AccountStatus::Passed => 3,
        AccountStatus::Failed => 4,
        AccountStatus::Funded => 5,
        AccountStatus::PayoutPending => 6,
        AccountStatus::Closed => 7,
        AccountStatus::EmergencyStopped => 8,
    }
}

pub open spec fn position_side_tag(s: PositionSide) -> u8 {
    match s {
        PositionSide::Long => 0,
        PositionSide::Short => 1,
    }
}

pub open spec fn order_side_tag(s: OrderSide) -> u8 {
    match s {
        OrderSide::Buy => 0,
        OrderSide::Sell => 1,
    }
}

pub open spec fn equity_source_tag(s: EquitySource) -> u8 {
    match s {
        EquitySource::BrokerReported => 0,
        EquitySource::Estimated => 1,
    }
}

/// Encoding of the account fields that affect evaluation.
pub open spec fn account_bytes(a: Account) -> Seq<u8> {
    u128_bytes(a.id.0) + i64_bytes(a.balance.0) + i64_bytes(a.equity.0) + i64_bytes(
        a.estimated_equity.0,
    ) + i64_bytes(a.estimated_balance.0) + i64_bytes(a.peak_balance.0) + i64_bytes(a.peak_equity.0)
        + i64_bytes(a.day_start_balance.0) + i64_bytes(a.total_realized_pnl.0) + u32_bytes(
        a.active_trading_days,
    ) + opt_i64_bytes(a.target_reached_at) + seq![status_tag(a.status)]
}

pub open spec fn position_bytes(p: Position) -> Seq<u8> {
    u128_bytes(p.id.0) + text_bytes(p.symbol.0@) + seq![position_side_tag(p.side)] + i64_bytes(
        p.open_quantity.0,
    ) + i64_bytes(p.avg_entry_price.0)
}

pub open spec fn positions_bytes(ps: Seq<Position>) -> Seq<u8>
    decreases ps.len(),
{
    if ps.len() == 0 {
        Seq::empty()
    } else {
        positions_bytes(ps.drop_last()) + position_bytes(ps.last())
    }
}

pub open spec fn trade_bytes(t: Trade) -> Seq<u8> {
    u128_bytes(t.id.0) + text_bytes(t.symbol.0@) + seq![order_side_tag(t.side)] + i64_bytes(t.price.0)
        + i64_bytes(t.quantity.0) + i64_bytes(t.executed_at)
}

pub open spec fn trades_bytes(ts: Seq<Trade>) -> Seq<u8>
    decreases ts.len(),
{
    if ts.len() == 0 {
        Seq::empty()
    } else {
        trades_bytes(ts.drop_last()) + trade_bytes(ts.last())
    }
}

/// Encoding of another account's fill.
pub open spec fn reference_trade_bytes(t: Trade) -> Seq<u8> {
    u128_bytes(t.id.0) + u128_bytes(t.account_id.0) + text_bytes(t.symbol.0@) + i64_bytes(t.price.0)
        + i64_bytes(t.quantity.0)
}

pub open spec fn reference_trades_bytes(ts: Seq<Trade>) -> Seq<u8>
    decreases ts.len(),
{
    if ts.len() == 0 {
        Seq::empty()
    } else {
        reference_trades_bytes(ts.drop_last()) + reference_trade_bytes(ts.last())
    }
}

/// The pending order's part; nothing when there is none.
pub open spec fn order_part(o: Option<Order>) -> Seq<u8> {
    match o {
        None => Seq::empty(),
        Some(o) => u128_bytes(o.id.0) + text_bytes(o.symbol.0@) + seq![order_side_tag(o.side)]
            + i64_bytes(o.quantity.0) + i64_bytes(o.submitted_at),
    }
}

/// The latest fill's part; nothing when there is none.
pub open spec fn latest_trade_part(t: Option<Trade>) -> Seq<u8> {
    match t {
        None => Seq::empty(),
        Some(t) => u128_bytes(t.id.0) + i64_bytes(t.executed_at),
    }
}

/// The tick's part; nothing when there is none.
pub open spec fn tick_part(t: Option<Tick>) -> Seq<u8> {
    match t {
        None => Seq::empty(),
        Some(t) => text_bytes(t.symbol.0@) + i64_bytes(t.quote.bid.0) + i64_bytes(t.quote.ask.0)
            + i64_bytes(t.quote.ts),
    }
}

pub open spec fn deref_opt<T>(o: Option<&T>) -> Option<T> {
    match o {
        Some(x) => Some(*x),
        None => None,
    }
}

/// The encoded evaluation inputs, in the order they are fingerprinted:
/// the account, the bound plan's serialized bytes (length first), the
/// pack's fingerprint, the server time, the context kind, the open
/// positions, today's trades, the reference fills, the equity source,
/// then the pending order, the latest fill and the tick when present.
pub open spec fn input_bytes(
    account: Account,
    plan_json: Seq<u8>,
    pack: RulePack,
    kind: RuleContextKind,
    server_time: ServerTime,
    positions: Seq<Position>,
    today: Seq<Trade>,
    pending: Option<Order>,
    latest_trade: Option<Trade>,
    latest_tick: Option<Tick>,
    reference: Seq<Trade>,
    source: EquitySource,
) -> Seq<u8> {
    account_bytes(account) + u64_bytes(plan_json.len() as u64) + plan_json + text_bytes(
        fingerprint_of(pack_content_bytes(pack)),
    ) + i64_bytes(server_time.0) + text_bytes(context_label_of(kind)) + positions_bytes(positions)
        + trades_bytes(today) + reference_trades_bytes(reference) + seq![equity_source_tag(source)]
        + order_part(pending) + latest_trade_part(latest_trade) + tick_part(latest_tick)
}

/// The server time enters the fingerprint: the same recorded inputs at
/// two different server times have different encodings, so a verdict
/// reproduced at another time is recognisably a different evaluation.
pub proof fn law_server_time_distinguishes(
    account: Account,
    plan_json: Seq<u8>,
    pack: RulePack,
    kind: RuleContextKind,
    t1: ServerTime,
    t2: ServerTime,
    positions: Seq<Position>,
    today: Seq<Trade>,
    pending: Option<Order>,
    latest_trade: Option<Trade>,
    latest_tick: Option<Tick>,
    reference: Seq<Trade>,
    source: EquitySource,
)
    requires
        t1 != t2,
    ensures
        input_bytes(account, plan_json, pack, kind, t1, positions, today, pending, latest_trade, latest_tick, reference, source)
            != input_bytes(account, plan_json, pack, kind, t2, positions, today, pending, latest_trade, latest_tick, reference, source),
{
    let head = account_bytes(account) + u64_bytes(plan_json.len() as u64) + plan_json + text_bytes(
        fingerprint_of(pack_content_bytes(pack)),
    );
    let e1 = i64_bytes(t1.0);
    let e2 = i64_bytes(t2.0);
    assert(e1.len() == 8 && e2.len() == 8) by {
        reveal_with_fuel(crate::digest::le_bytes, 9);
    }
    lemma_regroup(
        head,
        e1,
        text_bytes(context_label_of(kind)),
        positions_bytes(positions),
        trades_bytes(today),
        reference_trades_bytes(reference),
        seq![equity_source_tag(source)],
        order_part(pending),
        latest_trade_part(latest_trade),
        tick_part(latest_tick),
    );
    lemma_regroup(
        head,
        e2,
        text_bytes(context_label_of(kind)),
        positions_bytes(positions),
        trades_bytes(today),
        reference_trades_bytes(reference),
        seq![equity_source_tag(source)],
        order_part(pending),
        latest_trade_part(latest_trade),
        tick_part(latest_tick),
    );
    let tail = text_bytes(context_label_of(kind)) + positions_bytes(positions) + trades_bytes(today)
        + reference_trades_bytes(reference) + seq![equity_source_tag(source)] + order_part(pending)
        + latest_trade_part(latest_trade) + tick_part(latest_tick);
    if head + e1 + tail == head + e2 + tail {
        lemma_middle(head, e1, e2, tail);
        crate::digest::lemma_i64_bytes_injective(t1.0, t2.0);
    }
}

/// Regrouping a concatenation: `h + x + t1 + ... + t8` as `h + x + (t1 + ... + t8)`.
proof fn lemma_regroup(
    h: Seq<u8>,
    x: Seq<u8>,
    t1: Seq<u8>,
    t2: Seq<u8>,
    t3: Seq<u8>,
    t4: Seq<u8>,
    t5: Seq<u8>,
    t6: Seq<u8>,
    t7: Seq<u8>,
    t8: Seq<u8>,
)
    ensures
        h + x + t1 + t2 + t3 + t4 + t5 + t6 + t7 + t8 == h + x + (t1 + t2 + t3 + t4 + t5 + t6 + t7 + t8),
{
    assert(h + x + t1 + t2 + t3 + t4 + t5 + t6 + t7 + t8 =~= h + x + (t1 + t2 + t3 + t4 + t5 + t6 + t7 + t8));
}

/// Equal concatenations around parts of one length have equal parts.
proof fn lemma_middle(h: Seq<u8>, x: Seq<u8>, y: Seq<u8>, t: Seq<u8>)
    requires
        x.len() == y.len(),
        h + x + t == h + y + t,
    ensures
        x == y,
{
    assert((h + x + t).subrange(h.len() as int, (h.len() + x.len()) as int) =~= x);
    assert((h + y + t).subrange(h.len() as int, (h.len() + y.len()) as int) =~= y);
}

fn put_account(out: &mut Vec<u8>, a: &Account)
    ensures
        final(out)@ == old(out)@ + account_bytes(*a),
{
    let ghost s0 = out@;
    put_u128(out, a.id.0);
    put_i64(out, a.balance.0);
    put_i64(out, a.equity.0);
    put_i64(out, a.estimated_equity.0);
    let ghost p1 = u128_bytes(a.id.0) + i64_bytes(a.balance.0) + i64_bytes(a.equity.0) + i64_bytes(
        a.estimated_equity.0,
    );
    assert(out@ =~= s0 + p1);
    put_i64(out, a.estimated_balance.0);
    put_i64(out, a.peak_balance.0);
    put_i64(out, a.peak_equity.0);
    let ghost p2 = p1 + i64_bytes(a.estimated_balance.0) + i64_bytes(a.peak_balance.0) + i64_bytes(
        a.peak_equity.0,
    );
    assert(out@ =~= s0 + p2);
    put_i64(out, a.day_start_balance.0);
    put_i64(out, a.total_realized_pnl.0);
    put_u32(out, a.active_trading_days);
    let ghost p3 = p2 + i64_bytes(a.day_start_balance.0) + i64_bytes(a.total_realized_pnl.0)
        + u32_bytes(a.active_trading_days);
    assert(out@ =~= s0 + p3);
    put_opt_i64(out, a.target_reached_at);
    let t: u8 = match a.status {
        AccountStatus::Pending => 0,
        AccountStatus::Active => 1,
        AccountStatus::TargetHitPending => 2,
        AccountStatus::Passed => 3,
        AccountStatus::Failed => 4,
        AccountStatus::Funded => 5,
        AccountStatus::PayoutPending => 6,
        AccountStatus::Closed => 7,
        AccountStatus::EmergencyStopped => 8,
    };
    put_tag(out, t);
    let ghost p4 = p3 + opt_i64_bytes(a.target_reached_at) + seq![status_tag(a.status)];
    assert(out@ =~= s0 + p4);
    assert(p4 == account_bytes(*a));
}

fn put_position(out: &mut Vec<u8>, p: &Position)
    ensures
        final(out)@ == old(out)@ + position_bytes(*p),
{
    let ghost s0 = out@;
    put_u128(out, p.id.0);
    put_text(out, p.symbol.0.as_str());
    let t: u8 = match p.side {
        PositionSide::Long => 0,
        PositionSide::Short => 1,
    };
    put_tag(out, t);
    let ghost p1 = u128_bytes(p.id.0) + text_bytes(p.symbol.0@) + seq![position_side_tag(p.side)];
    assert(out@ =~= s0 + p1);
    put_i64(out, p.open_quantity.0);
    put_i64(out, p.avg_entry_price.0);
    let ghost p2 = p1 + i64_bytes(p.open_quantity.0) + i64_bytes(p.avg_entry_price.0);
    assert(out@ =~= s0 + p2);
}

fn order_side_byte(s: OrderSide) -> (r: u8)
    ensures
        r == order_side_tag(s),
{
    match s {
        OrderSide::Buy => 0,
        OrderSide::Sell => 1,
    }
}

fn put_trade(out: &mut Vec<u8>, t: &Trade)
    ensures
        final(out)@ == old(out)@ + trade_bytes(*t),
{
    let ghost s0 = out@;
    put_u128(out, t.id.0);
    put_text(out, t.symbol.0.as_str());
    put_tag(out, order_side_byte(t.side));
    let ghost p1 = u128_bytes(t.id.0) + text_bytes(t.symbol.0@) + seq![order_side_tag(t.side)];
    assert(out@ =~= s0 + p1);
    put_i64(out, t.price.0);
    put_i64(out, t.quantity.0);
    put_i64(out, t.executed_at);
    let ghost p2 = p1 + i64_bytes(t.price.0) + i64_bytes(t.quantity.0) + i64_bytes(t.executed_at);
    assert(out@ =~= s0 + p2);
}

fn put_reference_trade(out: &mut Vec<u8>, t: &Trade)
    ensures
        final(out)@ == old(out)@ + reference_trade_bytes(*t),
{
    let ghost s0 = out@;
    put_u128(out, t.id.0);
    put_u128(out, t.account_id.0);
    put_text(out, t.symbol.0.as_str());
    let ghost p1 = u128_bytes(t.id.0) + u128_bytes(t.account_id.0) + text_bytes(t.symbol.0@);
    assert(out@ =~= s0 + p1);
    put_i64(out, t.price.0);
    put_i64(out, t.quantity.0);
    let ghost p2 = p1 + i64_bytes(t.price.0) + i64_bytes(t.quantity.0);
    assert(out@ =~= s0 + p2);
}

fn put_positions(out: &mut Vec<u8>, ps: &[Position])
    ensures
        final(out)@ == old(out)@ + positions_bytes(ps@),
{
    let ghost head = out@;
    let mut i: usize = 0;
    assert(ps@.take(0) =~= Seq::<Position>::empty());
    assert(head =~= head + positions_bytes(ps@.take(0)));
    while i < ps.len()
        invariant
            i <= ps@.len(),
            out@ == head + positions_bytes(ps@.take(i as int)),
        decreases ps@.len() - i,
    {
        put_position(out, &ps[i]);
        proof {
            let t = ps@.take(i + 1);
            assert(t.drop_last() =~= ps@.take(i as int));
            assert(t.last() == ps@[i as int]);
            assert(out@ =~= head + positions_bytes(t));
        }
        i = i + 1;
    }
    assert(ps@.take(ps@.len() as int) =~= ps@);
}

fn put_trades(out: &mut Vec<u8>, ts: &[Trade])
    ensures
        final(out)@ == old(out)@ + trades_bytes(ts@),
{
    let ghost head = out@;
    let mut i: usize = 0;
    assert(ts@.take(0) =~= Seq::<Trade>::empty());
    assert(head =~= head + trades_bytes(ts@.take(0)));
    while i < ts.len()
        invariant
            i <= ts@.len(),
            out@ == head + trades_bytes(ts@.take(i as int)),
        decreases ts@.len() - i,
    {
        put_trade(out, &ts[i]);
        proof {
            let t = ts@.take(i + 1);
            assert(t.drop_last() =~= ts@.take(i as int));
            assert(t.last() == ts@[i as int]);
            assert(out@ =~= head + trades_bytes(t));
        }
        i = i + 1;
    }
    assert(ts@.take(ts@.len() as int) =~= ts@);
}

fn put_reference_trades(out: &mut Vec<u8>, ts: &[Trade])
    ensures
        final(out)@ == old(out)@ + reference_trades_bytes(ts@),
{
    let ghost head = out@;
    let mut i: usize = 0;
    assert(ts@.take(0) =~= Seq::<Trade>::empty());
    assert(head =~= head + reference_trades_bytes(ts@.take(0)));
    while i < ts.len()
        invariant
            i <= ts@.len(),
            out@ == head + reference_trades_bytes(ts@.take(i as int)),
        decreases ts@.len() - i,
    {
        put_reference_trade(out, &ts[i]);
        proof {
            let t = ts@.take(i + 1);
            assert(t.drop_last() =~= ts@.take(i as int));
            assert(t.last() == ts@[i as int]);
            assert(out@ =~= head + reference_trades_bytes(t));
        }
        i = i + 1;
    }
    assert(ts@.take(ts@.len() as int) =~= ts@);
}

fn put_optionals(out: &mut Vec<u8>, pending: Option<&Order>, latest_trade: Option<&Trade>, latest_tick: Option<&Tick>)
    ensures
        final(out)@ == old(out)@ + order_part(deref_opt(pending)) + latest_trade_part(deref_opt(latest_trade))
            + tick_part(deref_opt(latest_tick)),
{
    let ghost s0 = out@;
    if let Some(o) = pending {
        put_u128(out, o.id.0);
        put_text(out, o.symbol.0.as_str());
        put_tag(out, order_side_byte(o.side));
        put_i64(out, o.quantity.0);
        put_i64(out, o.submitted_at);
    }
    let ghost s1 = out@;
    assert(s1 =~= s0 + order_part(deref_opt(pending)));
    if let Some(t) = latest_trade {
        put_u128(out, t.id.0);
        put_i64(out, t.executed_at);
    }
    let ghost s2 = out@;
    assert(s2 =~= s1 + latest_trade_part(deref_opt(latest_trade)));
    if let Some(t) = latest_tick {
        put_text(out, t.symbol.0.as_str());
        put_i64(out, t.quote.bid.0);
        put_i64(out, t.quote.ask.0);
        put_i64(out, t.quote.ts);
    }
    assert(out@ =~= s2 + tick_part(deref_opt(latest_tick)));
}

/// The fingerprint of every input that affects the outcome, the hex
/// SHA-256 of [`input_bytes`]. `plan_json` is the serialized plan bound
/// to the account.
pub fn compute_input_hash(
    account: &Account,
    plan_json: &[u8],
    pack: &RulePack,
    ctx_kind: RuleContextKind,
    server_time: ServerTime,
    open_positions: &[Position],
    today_trades: &[Trade],
    pending_order: Option<&Order>,
    latest_trade: Option<&Trade>,
    latest_tick: Option<&Tick>,
    cross_reference_trades: &[Trade],
    equity_source: EquitySource,
) -> (r: String)
    ensures
        r@ == fingerprint_of(
            input_bytes(
                *account,
                plan_json@,
                *pack,
                ctx_kind,
                server_time,
                open_positions@,
                today_trades@,
                deref_opt(pending_order),
                deref_opt(latest_trade),
                deref_opt(latest_tick),
                cross_reference_trades@,
                equity_source,
            ),
        ),
        r@.len() == 64,
        forall|i: int| 0 <= i < r@.len() ==> is_lower_hex(#[trigger] r@[i]),
{
    let mut out: Vec<u8> = Vec::new();
    put_account(&mut out, account);
    assert(out@ =~= account_bytes(*account));
    put_u64(&mut out, plan_json.len() as u64);
    put_raw(&mut out, plan_json);
    let pack_hash = pack.content_hash();
    put_text(&mut out, pack_hash.as_str());
    put_i64(&mut out, server_time.0);
    put_text(&mut out, context_label(ctx_kind));
    put_positions(&mut out, open_positions);
    put_trades(&mut out, today_trades);
    put_reference_trades(&mut out, cross_reference_trades);
    let src: u8 = match equity_source {
        EquitySource::BrokerReported => 0,
        EquitySource::Estimated => 1,
    };
    put_tag(&mut out, src);
    put_optionals(&mut out, pending_order, latest_trade, latest_tick);
    fingerprint(out.as_slice())
}

/// `v` is the verdict of evaluating these inputs with the rules' `reports`:
/// the decision aggregated from the reports, the reports themselves, the
/// pack's id and version, and the fingerprint of the inputs' encoding.
pub open spec fn verdict_for(
    account: Account,
    plan_json: Seq<u8>,
    pack: RulePack,
    kind: RuleContextKind,
    server_time: ServerTime,
    positions: Seq<Position>,
    today: Seq<Trade>,
    pending: Option<Order>,
    latest_trade: Option<Trade>,
    latest_tick: Option<Tick>,
    reference: Seq<Trade>,
    source: EquitySource,
    reports: Seq<RuleReport>,
    v: PureVerdict,
) -> bool {
    &&& decision_of(reports, v.decision)
    &&& v.reports@ == reports
    &&& v.pack_version == pack.version
    &&& v.pack_id@ == pack.id@
    &&& v.input_hash@.len() == 64
    &&& forall|i: int| 0 <= i < v.input_hash@.len() ==> is_lower_hex(#[trigger] v.input_hash@[i])
    &&& v.input_hash@ == fingerprint_of(
        input_bytes(
            account,
            plan_json,
            pack,
            kind,
            server_time,
            positions,
            today,
            pending,
            latest_trade,
            latest_tick,
            reference,
            source,
        ),
    )
}

/// Evaluation is stateless: the same account, plan, pack, context, server
/// time, inputs and rule reports always give the same verdict, down to
/// the decision, the violations and the input fingerprint, which is a
/// full SHA-256 digest in 64 lower-case hex digits.
pub proof fn law_evaluate_deterministic(
    account: Account,
    plan_json: Seq<u8>,
    pack: RulePack,
    kind: RuleContextKind,
    server_time: ServerTime,
    positions: Seq<Position>,
    today: Seq<Trade>,
    pending: Option<Order>,
    latest_trade: Option<Trade>,
    latest_tick: Option<Tick>,
    reference: Seq<Trade>,
    source: EquitySource,
    reports: Seq<RuleReport>,
    v1: PureVerdict,
    v2: PureVerdict,
)
    requires
        verdict_for(account, plan_json, pack, kind, server_time, positions, today, pending, latest_trade, latest_tick, reference, source, reports, v1),
        verdict_for(account, plan_json, pack, kind, server_time, positions, today, pending, latest_trade, latest_tick, reference, source, reports, v2),
    ensures
        v1.decision.kind == v2.decision.kind,
        v1.decision.winning_priority == v2.decision.winning_priority,
        v1.decision.all_violations@ == v2.decision.all_violations@,
        v1.reports@ == v2.reports@,
        v1.input_hash@ == v2.input_hash@,
        v1.input_hash@.len() == 64,
        forall|i: int| 0 <= i < v1.input_hash@.len() ==> is_lower_hex(#[trigger] v1.input_hash@[i]),
        v1.pack_id@ == v2.pack_id@,
        v1.pack_version == v2.pack_version,
{
}

/// Evaluates from recorded inputs alone: the decision the rules'
/// `reports` produce, the reports themselves, the pack's identity and
/// the fingerprint of the inputs.
pub fn evaluate(
    account: &Account,
    plan_json: &[u8],
    pack: &RulePack,
    ctx_kind: RuleContextKind,
    server_time: ServerTime,
    inputs: EvaluateInputs<'_>,
    reports: Vec<RuleReport>,
) -> (r: Result<PureVerdict, Error>)
    ensures
        r is Ok,
        verdict_for(
            *account,
            plan_json@,
            *pack,
            ctx_kind,
            server_time,
            inputs.open_positions@,
            inputs.today_trades@,
            deref_opt(inputs.pending_order),
            deref_opt(inputs.latest_trade),
            deref_opt(inputs.latest_tick),
            inputs.cross_reference_trades@,
            inputs.equity_source,
            reports@,
            r->Ok_0,
        ),
{
    let input_hash = compute_input_hash(
        account,
        plan_json,
        pack,
        ctx_kind,
        server_time,
        inputs.open_positions,
        inputs.today_trades,
        inputs.pending_order,
        inputs.latest_trade,
        inputs.latest_tick,
        inputs.cross_reference_trades.as_slice(),
        inputs.equity_source,
    );
    let decision = Decision::from_reports(&reports);
    Ok(PureVerdict { decision, reports, input_hash, pack_version: pack.version, pack_id: pack.id.clone() })
}

} // verus!
