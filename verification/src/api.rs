//! The stateless evaluate endpoint's logic: wire shapes of positions and
//! trades turned into domain values, the equity provenance, and the
//! evaluation of an already loaded account into the response.
use crate::account::{Account, AccountSnapshot};
use crate::decision::{all_violations_of, kind_of_category, top_category, winning_priority_of, DecisionKind, RuleReport};
use crate::equity_input::EquitySource;
use crate::error::Error;
use crate::evaluator::RuleContextKind;
use crate::ids::{AccountId, OrderId, PositionId};
use crate::market::{Position, PositionSide, PositionStatus, Tick, Trade, TradeExit, TradeSide};
use crate::order::OrderSide;
use crate::pure::{evaluate, input_bytes, EvaluateInputs};
use crate::rulepack::{pack_content_bytes, RulePack};
use crate::digest::fingerprint_of;
use crate::text::{append_char, append_str, ascii_lower, ascii_lower_seq, lower_char, lowercase_equals, lowers_to};
use crate::types::{Money, Price, Quantity, ServerTime, Symbol, Timestamp};
use crate::events::{DomainEvent, DomainEventKind};
use crate::evaluator::EvaluationResult;
use crate::fixed::{fits, Fixed};
use crate::ids::{default_str_hash, uuid_from_hash, TenantId};
use crate::order::{Order, OrderKind, OrderStatus, OrderType, TimeInForce};
use crate::rulepack::{PackLifecycle, RuleBasis, RuleEntry, RuleUnit};
use crate::text::text_eq;
use crate::types::Pct;
use crate::violation::{kind_label, Violation, ViolationSeverity};
use vstd::prelude::*;

verus! {

/// An HTTP error: status code and message.
#[derive(Debug)]
pub struct ApiError {
    pub status: u16,
    pub message: String,
}

pub const BAD_REQUEST: u16 = 400;

pub const NOT_FOUND: u16 = 404;

pub const CONFLICT: u16 = 409;

pub const INTERNAL_SERVER_ERROR: u16 = 500;

/// The 128-bit value of a UUID text, as `uuid::Uuid::parse_str` reads it.
pub uninterp spec fn uuid_parsed(s: Seq<char>) -> Option<u128>;

/// Parses a UUID text with `uuid::Uuid::parse_str`; the value is named by
/// [`uuid_parsed`], and a failure carries the parser's message.
#[verifier::external_body]
pub(crate) fn parse_uuid(s: &str) -> (r: Result<u128, String>)
    ensures
        r is Ok <==> uuid_parsed(s@) is Some,
        r is Ok ==> r->Ok_0 == uuid_parsed(s@)->0,
{
    match uuid::Uuid::parse_str(s) {
        Ok(u) => Ok(u.as_u128()),
        Err(e) => Err(e.to_string()),
    }
}

/// Whether `chrono::DateTime::from_timestamp_millis` accepts the value:
/// the instant lies between the first millisecond of January 1 of year
/// -262143 and the last of December 31 of year 262142 (proleptic
/// Gregorian, astronomical years), chrono's date range.
pub open spec fn millis_representable(ms: i64) -> bool {
    -8_334_601_228_800_000 <= ms <= 8_210_266_876_799_999
}

/// Whether a millisecond timestamp lies in chrono's range; see
/// [`millis_representable`].
pub(crate) fn millis_ok(ms: i64) -> (r: bool)
    ensures
        r == millis_representable(ms),
{
    -8_334_601_228_800_000 <= ms && ms <= 8_210_266_876_799_999
}

/// ASCII lower-case copy of a text.
pub fn to_ascii_lower(s: &str) -> (r: String)
    ensures
        r@ == ascii_lower_seq(s@),
{
    let mut out = String::new();
    let n = s.unicode_len();
    let mut i: usize = 0;
    while i < n
        invariant
            n == s@.len(),
            i <= n,
            out@ == ascii_lower_seq(s@.take(i as int)),
        decreases n - i,
    {
        let c = lower_char(s.get_char(i));
        append_char(&mut out, c);
        assert(ascii_lower_seq(s@.take(i + 1)) =~= ascii_lower_seq(s@.take(i as int)).push(ascii_lower(s@[i as int])));
        i = i + 1;
    }
    assert(s@.take(n as int) =~= s@);
    out
}

/// Side of a position from its wire text (ASCII case ignored).
pub open spec fn position_side_of(s: Seq<char>) -> Option<PositionSide> {
    if lowers_to(s, "long"@) || lowers_to(s, "buy"@) {
        Some(PositionSide::Long)
    } else if lowers_to(s, "short"@) || lowers_to(s, "sell"@) {
        Some(PositionSide::Short)
    } else {
        None
    }
}

/// Side of a trade from its wire text (ASCII case ignored).
pub open spec fn order_side_of(s: Seq<char>) -> Option<OrderSide> {
    if lowers_to(s, "buy"@) || lowers_to(s, "long"@) {
        Some(OrderSide::Buy)
    } else if lowers_to(s, "sell"@) || lowers_to(s, "short"@) {
        Some(OrderSide::Sell)
    } else {
        None
    }
}

/// Entry or exit from its wire text (ASCII case ignored).
pub open spec fn trade_side_of(s: Seq<char>) -> Option<TradeSide> {
    if lowers_to(s, "entry"@) || lowers_to(s, "open"@) {
        Some(TradeSide::Entry)
    } else if lowers_to(s, "exit"@) || lowers_to(s, "close"@) {
        Some(TradeSide::Exit)
    } else {
        None
    }
}

/// Status of a bridge position from its optional wire text: closed,
/// liquidated, or open for anything else.
pub open spec fn bridge_status_of(s: Option<Seq<char>>) -> PositionStatus {
    match s {
        Some(t) => if lowers_to(t, "closed"@) {
            PositionStatus::Closed
        } else if lowers_to(t, "liquidated"@) {
            PositionStatus::Liquidated
        } else {
            PositionStatus::Open
        },
        None => PositionStatus::Open,
    }
}

fn parse_position_side(s: &str) -> (r: Option<PositionSide>)
    ensures
        r == position_side_of(s@),
{
    if lowercase_equals(s, "long") || lowercase_equals(s, "buy") {
        Some(PositionSide::Long)
    } else if lowercase_equals(s, "short") || lowercase_equals(s, "sell") {
        Some(PositionSide::Short)
    } else {
        None
    }
}

fn parse_order_side(s: &str) -> (r: Option<OrderSide>)
    ensures
        r == order_side_of(s@),
{
    if lowercase_equals(s, "buy") || lowercase_equals(s, "long") {
        Some(OrderSide::Buy)
    } else if lowercase_equals(s, "sell") || lowercase_equals(s, "short") {
        Some(OrderSide::Sell)
    } else {
        None
    }
}

fn parse_trade_side(s: &str) -> (r: Option<TradeSide>)
    ensures
        r == trade_side_of(s@),
{
    if lowercase_equals(s, "entry") || lowercase_equals(s, "open") {
        Some(TradeSide::Entry)
    } else if lowercase_equals(s, "exit") || lowercase_equals(s, "close") {
        Some(TradeSide::Exit)
    } else {
        None
    }
}

/// `prefix` + ASCII lower-cased `s` + `'`.
fn quoted_message(prefix: &str, s: &str) -> (r: String)
    ensures
        r@ == prefix@ + ascii_lower_seq(s@) + seq!['\''],
{
    let mut m = prefix.to_string();
    let l = to_ascii_lower(s);
    append_str(&mut m, l.as_str());
    append_char(&mut m, '\'');
    m
}

/// Wire shape of an open position on the evaluate path.
#[derive(Debug)]
pub struct PositionDto {
    pub position_id: String,
    pub symbol: String,
    pub side: String,
    pub open_quantity: Quantity,
    pub avg_entry_price: Price,
    pub opened_at: Timestamp,
}

/// The open position a wire position stands for.
pub open spec fn dto_position(
    p: Position,
    id: u128,
    account_id: AccountId,
    symbol: Seq<char>,
    side: PositionSide,
    opened_at: Timestamp,
    open_quantity: Quantity,
    avg_entry_price: Price,
) -> bool {
    &&& p.id == PositionId(id)
    &&& p.account_id == account_id
    &&& p.symbol.0@ == crate::types::upper_case(symbol)
    &&& p.side == side
    &&& p.opened_at == opened_at
    &&& p.closed_at is None
    &&& p.status == PositionStatus::Open
    &&& p.avg_entry_price == avg_entry_price
    &&& p.opened_quantity == open_quantity
    &&& p.open_quantity == open_quantity
    &&& p.realized_pnl.0 == 0 && p.commission.0 == 0 && p.swap.0 == 0
    &&& p.stop_loss is None && p.take_profit is None && p.magic is None && p.comment is None
}

impl PositionDto {
    /// The domain position; an unknown side or a malformed id is an
    /// error message.
    pub fn into_domain(self, account_id: AccountId) -> (r: Result<Position, String>)
        ensures
            position_side_of(self.side@) is None ==> r is Err && r->Err_0@ == "invalid position side '"@
                + ascii_lower_seq(self.side@) + seq!['\''],
            position_side_of(self.side@) is Some && uuid_parsed(self.position_id@) is None ==> r is Err,
            position_side_of(self.side@) is Some && uuid_parsed(self.position_id@) is Some ==> r is Ok
                && dto_position(
                r->Ok_0,
                uuid_parsed(self.position_id@)->0,
                account_id,
                self.symbol@,
                position_side_of(self.side@)->0,
                self.opened_at,
                self.open_quantity,
                self.avg_entry_price,
            ),
    {
        let side = match parse_position_side(self.side.as_str()) {
            Some(s) => s,
            None => {
                return Err(quoted_message("invalid position side '", self.side.as_str()));
            },
        };
        let id = match parse_uuid(self.position_id.as_str()) {
            Ok(u) => u,
            Err(e) => {
                let mut m = "invalid position_id: ".to_string();
                append_str(&mut m, e.as_str());
                return Err(m);
            },
        };
        Ok(
            Position {
                id: PositionId(id),
                account_id,
                symbol: Symbol::new(self.symbol.as_str()),
                side,
                opened_at: self.opened_at,
                closed_at: None,
                status: PositionStatus::Open,
                avg_entry_price: self.avg_entry_price,
                opened_quantity: self.open_quantity,
                open_quantity: self.open_quantity,
                realized_pnl: Money(0),
                commission: Money(0),
                swap: Money(0),
                stop_loss: None,
                take_profit: None,
                magic: None,
                comment: None,
            },
        )
    }
}

/// Wire shape of a trade on the evaluate path.
#[derive(Debug)]
pub struct TradeDto {
    pub symbol: String,
    pub side: String,
    pub trade_side: String,
    pub price: Price,
    pub quantity: Quantity,
    pub executed_at: Timestamp,
    pub realized_pnl: Option<Money>,
}

/// The fill a wire trade stands for (its ids are freshly generated).
pub open spec fn dto_trade(t: Trade, d: TradeDto, account_id: AccountId) -> bool {
    &&& t.account_id == account_id
    &&& t.symbol.0@ == crate::types::upper_case(d.symbol@)
    &&& order_side_of(d.side@) == Some(t.side)
    &&& trade_side_of(d.trade_side@) == Some(t.trade_side)
    &&& t.price == d.price
    &&& t.quantity == d.quantity
    &&& t.commission.0 == 0 && t.swap.0 == 0
    &&& t.executed_at == d.executed_at
    &&& t.comment is None
    &&& (t.trade_side == TradeSide::Exit) == (t.exit_info is Some)
    &&& (t.exit_info matches Some(e) ==> {
        &&& e.realized_pnl.0 == (match d.realized_pnl {
            Some(m) => m.0,
            None => 0,
        })
        &&& e.closed_quantity == d.quantity
        &&& e.entry_price == d.price
        &&& e.exit_price == d.price
    })
}

/// A wire trade converts: both its sides are known.
pub open spec fn trade_dto_ok(d: TradeDto) -> bool {
    order_side_of(d.side@) is Some && trade_side_of(d.trade_side@) is Some
}

impl TradeDto {
    /// The domain fill (fresh order id; an exit gets a fresh position id
    /// and exit details at the trade's price); an unknown side is an
    /// error message.
    pub fn into_domain(self, account_id: AccountId) -> (r: Result<Trade, String>)
        ensures
            order_side_of(self.side@) is None ==> r is Err && r->Err_0@ == "invalid trade side '"@
                + ascii_lower_seq(self.side@) + seq!['\''],
            order_side_of(self.side@) is Some && trade_side_of(self.trade_side@) is None ==> r is Err
                && r->Err_0@ == "invalid trade_side '"@ + ascii_lower_seq(self.trade_side@) + seq!['\''],
            r is Ok <==> trade_dto_ok(self),
            r is Ok ==> dto_trade(r->Ok_0, self, account_id),
    {
        let side = match parse_order_side(self.side.as_str()) {
            Some(s) => s,
            None => {
                return Err(quoted_message("invalid trade side '", self.side.as_str()));
            },
        };
        let trade_side = match parse_trade_side(self.trade_side.as_str()) {
            Some(s) => s,
            None => {
                return Err(quoted_message("invalid trade_side '", self.trade_side.as_str()));
            },
        };
        let mut t = Trade::new(
            OrderId::new(),
            account_id,
            Symbol::new(self.symbol.as_str()),
            side,
            trade_side,
            self.price,
            self.quantity,
            Money(0),
            self.executed_at,
        );
        if trade_side == TradeSide::Exit {
            let pnl = match self.realized_pnl {
                Some(m) => m,
                None => Money(0),
            };
            t.exit_info = Some(
                TradeExit {
                    position_id: PositionId::new(),
                    realized_pnl: pnl,
                    closed_quantity: self.quantity,
                    entry_price: self.price,
                    exit_price: self.price,
                },
            );
        }
        Ok(t)
    }
}

/// Wire shape of a position inside a broker bridge snapshot.
#[derive(Debug)]
pub struct BridgeTickPositionDto {
    pub position_id: String,
    pub symbol: String,
    pub side: String,
    pub open_quantity: Quantity,
    pub avg_entry_price: Price,
    pub opened_at: Timestamp,
    pub closed_at: Option<Timestamp>,
    pub status: Option<String>,
    pub realized_pnl: Option<Money>,
    pub commission: Option<Money>,
    pub swap: Option<Money>,
}

pub open spec fn or_zero(m: Option<Money>) -> int {
    match m {
        Some(x) => x.0 as int,
        None => 0,
    }
}

/// A bridge position converts: known side and a UUID id.
pub open spec fn bridge_position_ok(d: BridgeTickPositionDto) -> bool {
    position_side_of(d.side@) is Some && uuid_parsed(d.position_id@) is Some
}

/// The position a bridge position stands for.
pub open spec fn bridge_position(p: Position, d: BridgeTickPositionDto, account_id: AccountId) -> bool {
    &&& p.id == PositionId(uuid_parsed(d.position_id@)->0)
    &&& p.account_id == account_id
    &&& p.symbol.0@ == crate::types::upper_case(d.symbol@)
    &&& Some(p.side) == position_side_of(d.side@)
    &&& p.opened_at == d.opened_at
    &&& p.closed_at == d.closed_at
    &&& p.status == bridge_status_of(
        match d.status {
            Some(s) => Some(s@),
            None => None,
        },
    )
    &&& p.avg_entry_price == d.avg_entry_price
    &&& p.opened_quantity == d.open_quantity
    &&& p.open_quantity == d.open_quantity
    &&& p.realized_pnl.0 == or_zero(d.realized_pnl)
    &&& p.commission.0 == or_zero(d.commission)
    &&& p.swap.0 == or_zero(d.swap)
    &&& p.stop_loss is None && p.take_profit is None && p.magic is None && p.comment is None
}

impl BridgeTickPositionDto {
    /// The domain position; an unknown side or a malformed id is an
    /// error message.
    pub fn into_domain(self, account_id: AccountId) -> (r: Result<Position, String>)
        ensures
            position_side_of(self.side@) is None ==> r is Err && r->Err_0@ == "invalid position side '"@
                + ascii_lower_seq(self.side@) + seq!['\''],
            r is Ok <==> bridge_position_ok(self),
            r is Ok ==> bridge_position(r->Ok_0, self, account_id),
    {
        let side = match parse_position_side(self.side.as_str()) {
            Some(s) => s,
            None => {
                return Err(quoted_message("invalid position side '", self.side.as_str()));
            },
        };
        let status = match &self.status {
            Some(s) => if lowercase_equals(s.as_str(), "closed") {
                PositionStatus::Closed
            } else if lowercase_equals(s.as_str(), "liquidated") {
                PositionStatus::Liquidated
            } else {
                PositionStatus::Open
            },
            None => PositionStatus::Open,
        };
        let id = match parse_uuid(self.position_id.as_str()) {
            Ok(u) => u,
            Err(e) => {
                let mut m = "invalid position_id: ".to_string();
                append_str(&mut m, e.as_str());
                return Err(m);
            },
        };
        let realized = match self.realized_pnl {
            Some(m) => m,
            None => Money(0),
        };
        let commission = match self.commission {
            Some(m) => m,
            None => Money(0),
        };
        let swap = match self.swap {
            Some(m) => m,
            None => Money(0),
        };
        Ok(
            Position {
                id: PositionId(id),
                account_id,
                symbol: Symbol::new(self.symbol.as_str()),
                side,
                opened_at: self.opened_at,
                closed_at: self.closed_at,
                status,
                avg_entry_price: self.avg_entry_price,
                opened_quantity: self.open_quantity,
                open_quantity: self.open_quantity,
                realized_pnl: realized,
                commission,
                swap,
                stop_loss: None,
                take_profit: None,
                magic: None,
                comment: None,
            },
        )
    }
}

/// The broker bridge's account-level snapshot (amounts in cents).
#[derive(Debug)]
pub struct BridgeTickPayload {
    pub equity_cents: i64,
    pub balance_cents: i64,
    pub margin_cents: i64,
    pub free_margin_cents: i64,
    pub leverage: u32,
    pub positions: Vec<BridgeTickPositionDto>,
    pub deals_count: u32,
    pub last_deal_ticket: Option<String>,
    /// Broker-attested time (ms since the epoch).
    pub broker_time: i64,
    pub trigger: Option<String>,
    pub source: Option<String>,
    pub stream_seq: Option<u64>,
    pub equity_low_cents: Option<i64>,
    pub equity_high_cents: Option<i64>,
}

/// Money (raw) of an amount in cents.
pub open spec fn cents_raw(cents: i64) -> int {
    cents * 1_000_000
}

/// An amount in cents as money.
pub fn cents_to_money(cents: i64) -> (r: Money)
    requires
        fits(cents_raw(cents)),
    ensures
        r.0 == cents_raw(cents),
{
    Money(cents * 1_000_000)
}

/// The equity source a stated text names (ASCII case ignored).
pub open spec fn stated_source(s: Seq<char>) -> Option<EquitySource> {
    if lowers_to(s, "broker_reported"@) || lowers_to(s, "broker"@) {
        Some(EquitySource::BrokerReported)
    } else if lowers_to(s, "estimated"@) || lowers_to(s, "estimate"@) {
        Some(EquitySource::Estimated)
    } else {
        None
    }
}

/// Who vouches for the equity: the bridge snapshot is broker-attested;
/// otherwise the stated source, estimated when absent. An unknown source
/// is a bad request.
pub fn select_equity_source(bridge_present: bool, equity_source: Option<&str>) -> (r: Result<
    EquitySource,
    ApiError,
>)
    ensures
        bridge_present ==> r == Ok::<EquitySource, ApiError>(EquitySource::BrokerReported),
        !bridge_present && equity_source is None ==> r == Ok::<EquitySource, ApiError>(
            EquitySource::Estimated,
        ),
        !bridge_present && equity_source is Some ==> match stated_source(equity_source->0@) {
            Some(s) => r == Ok::<EquitySource, ApiError>(s),
            None => r is Err && r->Err_0.status == BAD_REQUEST && r->Err_0.message@
                == "invalid configuration: "@ + "unknown equity_source (expected broker_reported | estimated)"@,
        },
{
    if bridge_present {
        return Ok(EquitySource::BrokerReported);
    }
    match equity_source {
        None => Ok(EquitySource::Estimated),
        Some(s) => match EquitySource::parse(s) {
            Ok(src) => Ok(src),
            Err(e) => Err(ApiError { status: BAD_REQUEST, message: e.message() }),
        },
    }
}

/// Response of the stateless evaluate endpoint.
#[derive(Debug)]
pub struct InternalEvaluateResponse {
    pub decision_kind: String,
    pub winning_priority: u32,
    pub input_hash: String,
    pub pack_version: u32,
    pub pack_id: String,
    pub violations: Vec<String>,
}

/// Name of a decision kind as the response spells it.
pub open spec fn kind_name(k: DecisionKind) -> Seq<char> {
    match k {
        DecisionKind::Pass => "Pass"@,
        DecisionKind::Warn => "Warn"@,
        DecisionKind::EarlyWarning => "EarlyWarning"@,
        DecisionKind::TargetHit => "TargetHit"@,
        DecisionKind::Fail => "Fail"@,
        DecisionKind::GapFlagged => "GapFlagged"@,
        DecisionKind::Liquidate => "Liquidate"@,
        DecisionKind::Emergency => "Emergency"@,
    }
}

/// Name of a decision kind as the response spells it.
pub fn kind_name_of(k: DecisionKind) -> (r: &'static str)
    ensures
        r@ == kind_name(k),
{
    match k {
        DecisionKind::Pass => "Pass",
        DecisionKind::Warn => "Warn",
        DecisionKind::EarlyWarning => "EarlyWarning",
        DecisionKind::TargetHit => "TargetHit",
        DecisionKind::Fail => "Fail",
        DecisionKind::GapFlagged => "GapFlagged",
        DecisionKind::Liquidate => "Liquidate",
        DecisionKind::Emergency => "Emergency",
    }
}

/// Every wire trade converts.
pub open spec fn trades_ok(ds: Seq<TradeDto>) -> bool {
    forall|i: int| 0 <= i < ds.len() ==> trade_dto_ok(#[trigger] ds[i])
}

/// Every wire position converts.
pub open spec fn positions_ok(ds: Seq<PositionDto>) -> bool {
    forall|i: int|
        0 <= i < ds.len() ==> position_side_of(#[trigger] ds[i].side@) is Some && uuid_parsed(ds[i].position_id@) is Some
}

/// Every bridge position converts.
pub open spec fn bridge_positions_ok(ds: Seq<BridgeTickPositionDto>) -> bool {
    forall|i: int| 0 <= i < ds.len() ==> bridge_position_ok(#[trigger] ds[i])
}

/// The request can be evaluated: no caller-supplied pack, every wire
/// value converts, and either a bridge snapshot with a representable
/// broker time or a tick.
pub open spec fn request_ok(
    rule_pack_supplied: bool,
    bridge: Option<BridgeTickPayload>,
    tick: Option<Tick>,
    open_positions: Seq<PositionDto>,
    today_trades: Seq<TradeDto>,
    cross_reference_trades: Seq<TradeDto>,
) -> bool {
    &&& !rule_pack_supplied
    &&& trades_ok(cross_reference_trades)
    &&& trades_ok(today_trades)
    &&& match bridge {
        Some(b) => bridge_positions_ok(b.positions@) && millis_representable(b.broker_time),
        None => tick is Some && positions_ok(open_positions),
    }
}

fn convert_trades(ds: Vec<TradeDto>, account_id: AccountId) -> (r: Result<Vec<Trade>, String>)
    ensures
        r is Ok <==> trades_ok(ds@),
        r is Ok ==> r->Ok_0@.len() == ds@.len() && forall|i: int|
            0 <= i < ds@.len() ==> dto_trade(#[trigger] r->Ok_0@[i], ds@[i], account_id),
{
    let ghost orig = ds@;
    let mut out: Vec<Trade> = Vec::new();
    let mut rest = ds;
    let ghost n = orig.len();
    assert(rest@ == orig.skip(0));
    while rest.len() > 0
        invariant
            orig.len() == n,
            orig == ds@,
            out@.len() + rest@.len() == n,
            rest@ == orig.skip(out@.len() as int),
            forall|i: int| 0 <= i < out@.len() ==> trade_dto_ok(#[trigger] orig[i]),
            forall|i: int| 0 <= i < out@.len() ==> dto_trade(#[trigger] out@[i], orig[i], account_id),
        decreases rest@.len(),
    {
        let k = out.len();
        let d = rest.remove(0);
        assert(d == orig[k as int]);
        match d.into_domain(account_id) {
            Ok(t) => {
                out.push(t);
                assert(rest@ =~= orig.skip(out@.len() as int));
            },
            Err(e) => {
                assert(!trade_dto_ok(orig[k as int]));
                return Err(e);
            },
        }
    }
    Ok(out)
}

/// The account a request is evaluated on: with a bridge snapshot, its
/// equity and balance are the broker's.
pub open spec fn evaluated_account(a: Account, bridge: Option<BridgeTickPayload>) -> Account {
    match bridge {
        Some(b) => Account {
            equity: Money(cents_raw(b.equity_cents) as i64),
            balance: Money(cents_raw(b.balance_cents) as i64),
            ..a
        },
        None => a,
    }
}

/// The server time of a request's evaluation: the broker's time with a
/// bridge snapshot, else the tick's.
pub open spec fn evaluated_time(bridge: Option<BridgeTickPayload>, tick: Option<Tick>) -> ServerTime {
    match bridge {
        Some(b) => ServerTime(b.broker_time),
        None => ServerTime(tick->0.quote.ts),
    }
}

/// The tick a request's evaluation sees: none with a bridge snapshot.
pub open spec fn evaluated_tick(bridge: Option<BridgeTickPayload>, tick: Option<Tick>) -> Option<Tick> {
    match bridge {
        Some(_) => None,
        None => tick,
    }
}

/// `ps` are the request's positions converted: the bridge's, or else
/// the wire positions.
pub open spec fn converted_positions(
    ps: Seq<Position>,
    bridge: Option<BridgeTickPayload>,
    open: Seq<PositionDto>,
    account_id: AccountId,
) -> bool {
    match bridge {
        Some(b) => ps.len() == b.positions@.len() && forall|i: int|
            0 <= i < ps.len() ==> bridge_position(#[trigger] ps[i], b.positions@[i], account_id),
        None => ps.len() == open.len() && forall|i: int|
            0 <= i < ps.len() ==> dto_position(
                #[trigger] ps[i],
                uuid_parsed(open[i].position_id@)->0,
                account_id,
                open[i].symbol@,
                position_side_of(open[i].side@)->0,
                open[i].opened_at,
                open[i].open_quantity,
                open[i].avg_entry_price,
            ),
    }
}

/// `ts` are the wire trades `ds` converted for the account.
pub open spec fn converted_trades(ts: Seq<Trade>, ds: Seq<TradeDto>, account_id: AccountId) -> bool {
    ts.len() == ds.len() && forall|i: int| 0 <= i < ts.len() ==> dto_trade(#[trigger] ts[i], ds[i], account_id)
}

/// `xs` are the reference fills: the wire trades converted for one
/// fresh account id, kept unless that id is the evaluated account's.
pub open spec fn reference_fills(xs: Seq<Trade>, ds: Seq<TradeDto>, account_id: AccountId) -> bool {
    exists|rid: AccountId, all: Seq<Trade>|
        #[trigger] converted_trades(all, ds, rid) && xs == (if rid == account_id {
            Seq::<Trade>::empty()
        } else {
            all
        })
}

/// Evaluates an account already loaded for the tenant, from the request's
/// parts: a caller-supplied pack is refused; the reference fills of other
/// accounts, the positions and today's trades are converted (the first
/// conversion failure is a bad request); with a bridge snapshot the
/// account's equity and balance are the broker's and its broker time is
/// the server time, otherwise the tick's time is; the verdict of the
/// rules' `reports` is returned with the fingerprint of its inputs.
pub fn evaluate_loaded(
    account: Account,
    account_id: AccountId,
    plan_json: &[u8],
    pack: &RulePack,
    rule_pack_supplied: bool,
    bridge: Option<BridgeTickPayload>,
    tick: Option<Tick>,
    equity_source: EquitySource,
    open_positions: Vec<PositionDto>,
    today_trades: Vec<TradeDto>,
    cross_reference_trades: Vec<TradeDto>,
    reports: Vec<RuleReport>,
) -> (r: Result<InternalEvaluateResponse, ApiError>)
    requires
        bridge matches Some(b) ==> fits(cents_raw(b.equity_cents)) && fits(cents_raw(b.balance_cents)),
    ensures
        r is Ok <==> request_ok(
            rule_pack_supplied,
            bridge,
            tick,
            open_positions@,
            today_trades@,
            cross_reference_trades@,
        ),
        r is Err ==> r->Err_0.status == BAD_REQUEST,
        rule_pack_supplied ==> r is Err && r->Err_0.message@
            == "rule_pack is no longer accepted; evaluation uses the account's bound plan"@,
        r is Ok ==> {
            let resp = r->Ok_0;
            &&& resp.decision_kind@ == kind_name(kind_of_category(top_category(reports@)))
            &&& resp.winning_priority == winning_priority_of(reports@)
            &&& resp.pack_version == pack.version
            &&& resp.pack_id@ == pack.id@
            &&& resp.input_hash@.len() == 64
            &&& resp.violations@.map_values(|s: String| s@) == all_violations_of(reports@).map_values(
                |v: crate::violation::Violation| v.message@,
            )
        },
        r is Ok ==> exists|ps: Seq<Position>, ts: Seq<Trade>, xs: Seq<Trade>|
            #![trigger converted_positions(ps, bridge, open_positions@, account_id), converted_trades(ts, today_trades@, account_id), reference_fills(xs, cross_reference_trades@, account_id)]
            converted_positions(ps, bridge, open_positions@, account_id) && converted_trades(
                ts,
                today_trades@,
                account_id,
            ) && reference_fills(xs, cross_reference_trades@, account_id) && r->Ok_0.input_hash@
                == fingerprint_of(
                input_bytes(
                    evaluated_account(account, bridge),
                    plan_json@,
                    *pack,
                    RuleContextKind::OnTick,
                    evaluated_time(bridge, tick),
                    ps,
                    ts,
                    None,
                    None,
                    evaluated_tick(bridge, tick),
                    xs,
                    equity_source,
                ),
            ),
{
    let ghost bridge0 = bridge;
    let ghost tick0 = tick;
    let ghost account0 = account;
    let ghost today0 = today_trades@;
    let ghost cross0 = cross_reference_trades@;
    let ghost open0 = open_positions@;
    if rule_pack_supplied {
        return Err(
            ApiError {
                status: BAD_REQUEST,
                message: "rule_pack is no longer accepted; evaluation uses the account's bound plan".to_string(),
            },
        );
    }
    let mut acc = account;
    let rid = AccountId::new();
    let converted = convert_trades(cross_reference_trades, rid);
    let all_cross = match converted {
        Ok(v) => v,
        Err(e) => {
            return Err(ApiError { status: BAD_REQUEST, message: e });
        },
    };
    let mut cross: Vec<Trade> = Vec::new();
    let mut i: usize = 0;
    while i < all_cross.len()
        invariant
            !rule_pack_supplied,
            i <= all_cross@.len(),
            forall|k: int| 0 <= k < all_cross@.len() ==> (#[trigger] all_cross@[k]).account_id == rid,
            cross@ == (if rid == account_id {
                Seq::<Trade>::empty()
            } else {
                all_cross@.take(i as int)
            }),
        decreases all_cross@.len() - i,
    {
        assert(all_cross@.take(i + 1) == all_cross@.take(i as int).push(all_cross@[i as int]));
        if all_cross[i].account_id != account_id {
            cross.push(all_cross[i].clone());
        }
        i = i + 1;
    }
    proof {
        assert(all_cross@.take(all_cross@.len() as int) == all_cross@);
        assert(converted_trades(all_cross@, cross0, rid));
        assert(reference_fills(cross@, cross0, account_id));
    }
    let positions: Vec<Position>;
    let trades: Vec<Trade>;
    let server_time: ServerTime;
    let latest_tick: Option<Tick>;
    match bridge {
        Some(b) => {
            acc.equity = cents_to_money(b.equity_cents);
            acc.balance = cents_to_money(b.balance_cents);
            let mut ps: Vec<Position> = Vec::new();
            let mut k: usize = 0;
            while k < b.positions.len()
                invariant
                    !rule_pack_supplied,
                    k <= b.positions@.len(),
                    bridge is Some && bridge->0.positions@ == b.positions@,
                    forall|j: int| 0 <= j < k ==> bridge_position_ok(#[trigger] b.positions@[j]),
                    ps@.len() == k,
                    forall|j: int| 0 <= j < k ==> bridge_position(#[trigger] ps@[j], b.positions@[j], account_id),
                decreases b.positions@.len() - k,
            {
                let d = BridgeTickPositionDto {
                    position_id: b.positions[k].position_id.clone(),
                    symbol: b.positions[k].symbol.clone(),
                    side: b.positions[k].side.clone(),
                    open_quantity: b.positions[k].open_quantity,
                    avg_entry_price: b.positions[k].avg_entry_price,
                    opened_at: b.positions[k].opened_at,
                    closed_at: b.positions[k].closed_at,
                    status: clone_opt_string(&b.positions[k].status),
                    realized_pnl: b.positions[k].realized_pnl,
                    commission: b.positions[k].commission,
                    swap: b.positions[k].swap,
                };
                assert(d == b.positions@[k as int]);
                match d.into_domain(account_id) {
                    Ok(p) => ps.push(p),
                    Err(e) => {
                        assert(!bridge_position_ok(b.positions@[k as int]));
                        return Err(ApiError { status: BAD_REQUEST, message: e });
                    },
                }
                k = k + 1;
            }
            let ts = match convert_trades(today_trades, account_id) {
                Ok(v) => v,
                Err(e) => {
                    return Err(ApiError { status: BAD_REQUEST, message: e });
                },
            };
            if !millis_ok(b.broker_time) {
                return Err(ApiError { status: BAD_REQUEST, message: "invalid broker_time".to_string() });
            }
            positions = ps;
            trades = ts;
            server_time = ServerTime(b.broker_time);
            latest_tick = None;
        },
        None => {
            let t = match tick {
                Some(t) => t,
                None => {
                    return Err(
                        ApiError {
                            status: BAD_REQUEST,
                            message: "tick is required when bridge_tick is absent".to_string(),
                        },
                    );
                },
            };
            let mut ps: Vec<Position> = Vec::new();
            let ghost orig = open_positions@;
            let mut rest = open_positions;
            let ghost n = orig.len();
            assert(rest@ == orig.skip(0));
            while rest.len() > 0
                invariant
                    !rule_pack_supplied,
                    orig.len() == n,
                    orig == open_positions@,
                    bridge is None,
                    ps@.len() + rest@.len() == n,
                    rest@ == orig.skip(ps@.len() as int),
                    forall|j: int|
                        0 <= j < ps@.len() ==> position_side_of(#[trigger] orig[j].side@) is Some && uuid_parsed(
                            orig[j].position_id@,
                        ) is Some,
                    forall|j: int|
                        0 <= j < ps@.len() ==> dto_position(
                            #[trigger] ps@[j],
                            uuid_parsed(orig[j].position_id@)->0,
                            account_id,
                            orig[j].symbol@,
                            position_side_of(orig[j].side@)->0,
                            orig[j].opened_at,
                            orig[j].open_quantity,
                            orig[j].avg_entry_price,
                        ),
                decreases rest@.len(),
            {
                let k = ps.len();
                let d = rest.remove(0);
                assert(d == orig[k as int]);
                match d.into_domain(account_id) {
                    Ok(p) => {
                        ps.push(p);
                        assert(rest@ =~= orig.skip(ps@.len() as int));
                    },
                    Err(e) => {
                        assert(!(position_side_of(orig[k as int].side@) is Some && uuid_parsed(
                            orig[k as int].position_id@,
                        ) is Some));
                        return Err(ApiError { status: BAD_REQUEST, message: e });
                    },
                }
            }
            let ts = match convert_trades(today_trades, account_id) {
                Ok(v) => v,
                Err(e) => {
                    return Err(ApiError { status: BAD_REQUEST, message: e });
                },
            };
            positions = ps;
            trades = ts;
            server_time = ServerTime(t.quote.ts);
            latest_tick = Some(t);
        },
    }
    let inputs = match &latest_tick {
        Some(t) => EvaluateInputs::for_tick(positions.as_slice(), trades.as_slice(), t).with_cross_reference_trades(
            cross,
        ).with_equity_source(equity_source),
        None => EvaluateInputs {
            open_positions: positions.as_slice(),
            today_trades: trades.as_slice(),
            cross_reference_trades: cross,
            pending_order: None,
            latest_trade: None,
            latest_tick: None,
            equity_source,
        },
    };
    proof {
        assert(acc == evaluated_account(account0, bridge0));
        assert(server_time == evaluated_time(bridge0, tick0));
        assert(latest_tick == evaluated_tick(bridge0, tick0));
        assert(converted_positions(positions@, bridge0, open0, account_id));
        assert(converted_trades(trades@, today0, account_id));
    }
    let verdict = match evaluate(&acc, plan_json, pack, RuleContextKind::OnTick, server_time, inputs, reports) {
        Ok(v) => v,
        Err(e) => {
            return Err(ApiError { status: INTERNAL_SERVER_ERROR, message: e.message() });
        },
    };
    let mut violations: Vec<String> = Vec::new();
    let mut j: usize = 0;
    while j < verdict.decision.all_violations.len()
        invariant
            j <= verdict.decision.all_violations@.len(),
            violations@.map_values(|s: String| s@) == verdict.decision.all_violations@.take(j as int).map_values(
                |v: crate::violation::Violation| v.message@,
            ),
        decreases verdict.decision.all_violations@.len() - j,
    {
        let ghost before = violations@;
        violations.push(verdict.decision.all_violations[j].message.clone());
        assert(verdict.decision.all_violations@.take(j + 1) =~= verdict.decision.all_violations@.take(
            j as int,
        ).push(verdict.decision.all_violations@[j as int]));
        assert(violations@.map_values(|s: String| s@) =~= before.map_values(|s: String| s@).push(
            verdict.decision.all_violations@[j as int].message@,
        ));
        j = j + 1;
    }
    assert(verdict.decision.all_violations@.take(verdict.decision.all_violations@.len() as int)
        =~= verdict.decision.all_violations@);
    Ok(
        InternalEvaluateResponse {
            decision_kind: kind_name_of(verdict.decision.kind).to_string(),
            winning_priority: verdict.decision.winning_priority,
            input_hash: verdict.input_hash,
            pack_version: verdict.pack_version,
            pack_id: verdict.pack_id,
            violations,
        },
    )
}

/// Response of the order pre-check endpoint.
#[derive(Debug)]
pub struct EvaluateOrderResponse {
    pub decision: String,
    pub passed: bool,
    pub violations: Vec<String>,
}

/// Body of the order pre-check endpoint.
#[derive(Debug)]
pub struct EvaluateOrderRequest {
    pub account_id: String,
    pub symbol: String,
    pub side: String,
    pub quantity: Quantity,
    pub order_type: String,
    pub price: Option<Price>,
    pub stop_loss: Option<Price>,
    pub take_profit: Option<Price>,
}

#[derive(Debug)]
pub struct OverrideRequest {
    pub account_id: String,
    pub clears_violation_id: String,
    pub reason: String,
    pub actor_id: String,
}

#[derive(Debug)]
pub struct OverrideResponse {
    pub override_id: String,
    pub cleared_at: String,
}

#[derive(Debug)]
pub struct ManualRunRequest {
    pub account_id: String,
}

#[derive(Debug)]
pub struct ManualRunResponse {
    pub decision_kind: String,
    pub violations: Vec<String>,
}

#[derive(Debug)]
pub struct EmergencyStopRequest {
    pub account_id: String,
    pub reason: String,
    pub actor_id: String,
}

#[derive(Debug)]
pub struct EmergencyStopResponse {
    pub decision_kind: String,
    pub stopped_at: String,
}

#[derive(Debug)]
pub struct BreachReportResponse {
    pub account_id: String,
    pub account_status: String,
    pub violations: Vec<ViolationSummary>,
}

/// One violation of a breach report.
#[derive(Debug)]
pub struct ViolationSummary {
    pub rule_name: String,
    pub kind: String,
    pub severity: String,
    pub message: String,
    pub occurred_at: String,
}

/// Body of the rule-pack validation endpoint.
#[derive(Debug)]
pub struct CreateRulePackRequest {
    pub id: String,
    pub version: u32,
    pub tenant_id: String,
    pub description: String,
    pub rules: Vec<RuleEntryDto>,
    pub initial_balance: Money,
    pub leverage: u32,
    pub profit_target_pct: Pct,
}

/// Wire shape of a rule entry.
#[derive(Debug)]
pub struct RuleEntryDto {
    pub id: String,
    pub kind: String,
    pub basis: String,
    pub unit: String,
    pub value: Fixed,
    pub tolerance_cents: Option<i64>,
    pub early_warning_pct: Option<Fixed>,
    pub priority: u32,
    pub enabled: bool,
    pub params_json: Option<String>,
    pub severity: Option<String>,
    pub failure_policy: Option<String>,
}

#[derive(Debug)]
pub struct RulePackResponse {
    pub id: String,
    pub version: u32,
    pub lifecycle: String,
    pub content_hash: String,
}

/// Body of the supersede endpoint.
#[derive(Debug)]
pub struct SupersedeRequest {
    /// The pack that replaces this one.
    pub superseded_by: Option<String>,
}

#[derive(Debug)]
pub struct GetRulePackResponse {
    pub id: String,
    pub version: u32,
    pub lifecycle: String,
    pub content_hash: String,
    pub json: String,
}

/// The RFC 3339 text `chrono::DateTime::<Utc>::to_rfc3339` gives for a
/// millisecond timestamp.
pub uninterp spec fn rfc3339_text(ms: i64) -> Seq<char>;

/// Formats a millisecond timestamp as RFC 3339 with
/// `chrono::DateTime::from_timestamp_millis` and `to_rfc3339`; `None`
/// when chrono cannot represent it. The text is named by [`rfc3339_text`].
#[verifier::external_body]
pub(crate) fn rfc3339_of(ms: i64) -> (r: Option<String>)
    ensures
        r is Some <==> millis_representable(ms),
        r is Some ==> r->0@ == rfc3339_text(ms),
{
    match chrono::DateTime::from_timestamp_millis(ms) {
        Some(d) => Some(d.to_rfc3339()),
        None => None,
    }
}

/// RFC 3339 text of a timestamp, empty when it cannot be represented.
pub open spec fn time_text(ms: i64) -> Seq<char> {
    if millis_representable(ms) {
        rfc3339_text(ms)
    } else {
        Seq::empty()
    }
}

/// Lower-case name of a severity.
pub open spec fn severity_text(s: ViolationSeverity) -> Seq<char> {
    match s {
        ViolationSeverity::Info => "info"@,
        ViolationSeverity::Warning => "warning"@,
        ViolationSeverity::Hard => "hard"@,
        ViolationSeverity::Liquidate => "liquidate"@,
    }
}

/// The summary of one violation.
pub open spec fn summary_of(s: ViolationSummary, v: Violation) -> bool {
    &&& s.rule_name@ == v.rule_name@
    &&& s.kind@ == kind_label(v.kind)
    &&& s.severity@ == severity_text(v.severity)
    &&& s.message@ == v.message@
    &&& s.occurred_at@ == time_text(v.occurred_at)
}

/// The violations recorded by the events, in order.
pub open spec fn violations_in(es: Seq<DomainEvent>) -> Seq<Violation>
    decreases es.len(),
{
    if es.len() == 0 {
        Seq::empty()
    } else {
        let prev = violations_in(es.drop_last());
        match es.last().kind {
            DomainEventKind::RuleViolated { violation } => prev.push(violation),
            _ => prev,
        }
    }
}

fn summarize(v: &Violation) -> (r: ViolationSummary)
    ensures
        summary_of(r, *v),
{
    let at = match rfc3339_of(v.occurred_at) {
        Some(t) => t,
        None => String::new(),
    };
    ViolationSummary {
        rule_name: v.rule_name.clone(),
        kind: v.kind.label().to_string(),
        severity: v.severity.label().to_string(),
        message: v.message.clone(),
        occurred_at: at,
    }
}

/// The breach report's violations: one summary per violation event, in
/// event order.
pub fn violation_summaries(events: &Vec<DomainEvent>) -> (r: Vec<ViolationSummary>)
    ensures
        r@.len() == violations_in(events@).len(),
        forall|i: int| 0 <= i < r@.len() ==> summary_of(#[trigger] r@[i], violations_in(events@)[i]),
{
    let mut out: Vec<ViolationSummary> = Vec::new();
    let mut i: usize = 0;
    while i < events.len()
        invariant
            i <= events@.len(),
            out@.len() == violations_in(events@.take(i as int)).len(),
            forall|k: int| 0 <= k < out@.len() ==> summary_of(#[trigger] out@[k], violations_in(events@.take(i as int))[k]),
        decreases events@.len() - i,
    {
        proof {
            let t = events@.take(i + 1);
            assert(t.drop_last() =~= events@.take(i as int));
            assert(t.last() == events@[i as int]);
        }
        match &events[i].kind {
            DomainEventKind::RuleViolated { violation } => {
                out.push(summarize(violation));
            },
            _ => {},
        }
        i = i + 1;
    }
    assert(events@.take(events@.len() as int) =~= events@);
    out
}

/// The pending immediate-or-cancel order of a pre-check request: side
/// `buy` or `sell` (exactly), a limit order at the given price (zero when
/// absent) for `limit`, a market order otherwise. Any other side is a bad
/// request.
pub fn order_from_request(req: &EvaluateOrderRequest, account_id: AccountId, now: Timestamp) -> (r: Result<
    Order,
    ApiError,
>)
    ensures
        req.side@ != "buy"@ && req.side@ != "sell"@ ==> r is Err && r->Err_0.status == BAD_REQUEST,
        (req.side@ == "buy"@ || req.side@ == "sell"@) ==> r is Ok && {
            let o = r->Ok_0;
            &&& o.account_id == account_id
            &&& o.symbol.0@ == crate::types::upper_case(req.symbol@)
            &&& o.side == (if req.side@ == "buy"@ {
                OrderSide::Buy
            } else {
                OrderSide::Sell
            })
            &&& o.kind == OrderKind::Open
            &&& o.order_type == (if req.order_type@ == "limit"@ {
                OrderType::Limit {
                    price: match req.price {
                        Some(p) => p,
                        None => Price(0),
                    },
                }
            } else {
                OrderType::Market
            })
            &&& o.quantity == req.quantity
            &&& o.tif == TimeInForce::Ioc
            &&& o.stop_loss == req.stop_loss && o.take_profit == req.take_profit
            &&& o.comment is None
            &&& o.submitted_at == now
            &&& o.status == OrderStatus::Pending
            &&& o.filled_quantity.0 == 0
            &&& o.avg_fill_price is None
        },
{
    let side = if text_eq(req.side.as_str(), "buy") {
        OrderSide::Buy
    } else if text_eq(req.side.as_str(), "sell") {
        OrderSide::Sell
    } else {
        let mut m = "invalid side ".to_string();
        append_str(&mut m, req.side.as_str());
        return Err(ApiError { status: BAD_REQUEST, message: m });
    };
    let order_type = if text_eq(req.order_type.as_str(), "limit") {
        OrderType::Limit {
            price: match req.price {
                Some(p) => p,
                None => Price(0),
            },
        }
    } else {
        OrderType::Market
    };
    Ok(
        Order {
            id: OrderId::new(),
            account_id,
            symbol: Symbol::new(req.symbol.as_str()),
            side,
            kind: OrderKind::Open,
            order_type,
            quantity: req.quantity,
            tif: TimeInForce::Ioc,
            stop_loss: req.stop_loss,
            take_profit: req.take_profit,
            comment: None,
            submitted_at: now,
            status: OrderStatus::Pending,
            filled_quantity: Quantity(0),
            avg_fill_price: None,
        },
    )
}

/// `kind: message` of each violation.
pub open spec fn kind_and_message(v: Violation) -> Seq<char> {
    kind_label(v.kind) + ": "@ + v.message@
}

/// The pre-check response: the decision's kind, whether it passed, and
/// `kind: message` per violation.
pub fn order_response(result: &EvaluationResult) -> (r: EvaluateOrderResponse)
    ensures
        r.decision@ == kind_name(result.decision.kind),
        r.passed == (result.decision.kind == DecisionKind::Pass),
        r.violations@.map_values(|s: String| s@) == all_violations_of(result.reports@).map_values(
            |v: Violation| kind_and_message(v),
        ),
{
    let vs = result.violations();
    let mut out: Vec<String> = Vec::new();
    let mut j: usize = 0;
    while j < vs.len()
        invariant
            j <= vs@.len(),
            out@.map_values(|s: String| s@) == vs@.take(j as int).map_values(|v: Violation| kind_and_message(v)),
        decreases vs@.len() - j,
    {
        let mut m = vs[j].kind.label().to_string();
        append_str(&mut m, ": ");
        append_str(&mut m, vs[j].message.as_str());
        let ghost before = out@;
        out.push(m);
        assert(vs@.take(j + 1) =~= vs@.take(j as int).push(vs@[j as int]));
        assert(out@.map_values(|s: String| s@) =~= before.map_values(|s: String| s@).push(
            kind_and_message(vs@[j as int]),
        ));
        j = j + 1;
    }
    assert(vs@.take(vs@.len() as int) =~= vs@);
    EvaluateOrderResponse {
        decision: kind_name_of(result.decision.kind).to_string(),
        passed: result.passed(),
        violations: out,
    }
}

/// The manual-run response: the decision's kind and the violation
/// messages.
pub fn manual_run_response(result: &EvaluationResult) -> (r: ManualRunResponse)
    ensures
        r.decision_kind@ == kind_name(result.decision.kind),
        r.violations@.map_values(|s: String| s@) == all_violations_of(result.reports@).map_values(
            |v: Violation| v.message@,
        ),
{
    let vs = result.violations();
    let mut out: Vec<String> = Vec::new();
    let mut j: usize = 0;
    while j < vs.len()
        invariant
            j <= vs@.len(),
            out@.map_values(|s: String| s@) == vs@.take(j as int).map_values(|v: Violation| v.message@),
        decreases vs@.len() - j,
    {
        let ghost before = out@;
        out.push(vs[j].message.clone());
        assert(vs@.take(j + 1) =~= vs@.take(j as int).push(vs@[j as int]));
        assert(out@.map_values(|s: String| s@) =~= before.map_values(|s: String| s@).push(vs@[j as int].message@));
        j = j + 1;
    }
    assert(vs@.take(vs@.len() as int) =~= vs@);
    ManualRunResponse { decision_kind: kind_name_of(result.decision.kind).to_string(), violations: out }
}

/// `p` is the draft pack the create request describes, effective `now`.
pub open spec fn pack_of_request(p: RulePack, req: CreateRulePackRequest, now: Timestamp) -> bool {
    &&& p.id@ == req.id@
    &&& p.version == req.version
    &&& p.tenant_id == validation_tenant()
    &&& p.lifecycle == PackLifecycle::Draft
    &&& p.effective_from == now
    &&& p.superseded_by is None
    &&& p.description@ == req.description@
    &&& p.initial_balance == req.initial_balance
    &&& p.leverage == req.leverage
    &&& p.profit_target_pct == req.profit_target_pct
    &&& p.rules@.len() == req.rules@.len()
    &&& forall|i: int| 0 <= i < p.rules@.len() ==> entry_of_dto(#[trigger] p.rules@[i], req.rules@[i])
}

/// The rule pack a validation request describes, as a draft of the
/// validation tenant effective `now`; an unknown basis or unit is a bad
/// request.
pub fn pack_from_request(req: CreateRulePackRequest, now: Timestamp) -> (r: Result<RulePack, ApiError>)
    ensures
        r is Ok <==> forall|i: int|
            0 <= i < req.rules@.len() ==> basis_of_text(#[trigger] req.rules@[i].basis@) is Some
                && unit_of_text(req.rules@[i].unit@) is Some,
        r is Err ==> r->Err_0.status == BAD_REQUEST,
        r is Ok ==> pack_of_request(r->Ok_0, req, now),
{
    let ghost orig = req.rules@;
    let mut rules: Vec<RuleEntry> = Vec::new();
    let mut i: usize = 0;
    while i < req.rules.len()
        invariant
            i <= req.rules@.len(),
            orig == req.rules@,
            rules@.len() == i,
            forall|k: int|
                0 <= k < i ==> basis_of_text(#[trigger] orig[k].basis@) is Some && unit_of_text(orig[k].unit@) is Some,
            forall|k: int| 0 <= k < i ==> entry_of_dto(#[trigger] rules@[k], orig[k]),
        decreases req.rules@.len() - i,
    {
        let d = &req.rules[i];
        let basis = match RuleBasis::parse(d.basis.as_str()) {
            Ok(b) => b,
            Err(e) => {
                return Err(ApiError { status: BAD_REQUEST, message: e.message() });
            },
        };
        let unit = match RuleUnit::parse(d.unit.as_str()) {
            Ok(u) => u,
            Err(e) => {
                return Err(ApiError { status: BAD_REQUEST, message: e.message() });
            },
        };
        let params = match &d.params_json {
            Some(p) => p.clone(),
            None => "{}".to_string(),
        };
        rules.push(
            RuleEntry {
                id: d.id.clone(),
                kind: d.kind.clone(),
                basis,
                unit,
                value: d.value,
                tolerance_cents: d.tolerance_cents,
                early_warning_pct: d.early_warning_pct,
                priority: d.priority,
                enabled: d.enabled,
                params_json: params,
            },
        );
        i = i + 1;
    }
    Ok(
        RulePack {
            id: req.id,
            version: req.version,
            tenant_id: TenantId::named("validation"),
            lifecycle: PackLifecycle::Draft,
            effective_from: now,
            superseded_by: None,
            description: req.description,
            rules,
            initial_balance: req.initial_balance,
            leverage: req.leverage,
            profit_target_pct: req.profit_target_pct,
        },
    )
}

/// The tenant rule packs are validated under.
pub open spec fn validation_tenant() -> TenantId {
    TenantId(uuid_from_hash(default_str_hash("validation"@)))
}

/// The basis a wire text names.
pub open spec fn basis_of_text(s: Seq<char>) -> Option<RuleBasis> {
    if lowers_to(s, "static"@) {
        Some(RuleBasis::Static)
    } else if lowers_to(s, "trailing"@) {
        Some(RuleBasis::Trailing)
    } else if lowers_to(s, "eod_trailing"@) || lowers_to(s, "eodtrailing"@) || lowers_to(s, "eod-trailing"@) {
        Some(RuleBasis::EodTrailing)
    } else {
        None
    }
}

/// The unit a wire text names.
pub open spec fn unit_of_text(s: Seq<char>) -> Option<RuleUnit> {
    if lowers_to(s, "percent"@) {
        Some(RuleUnit::Percent)
    } else if lowers_to(s, "money"@) {
        Some(RuleUnit::Money)
    } else {
        None
    }
}

/// The rule entry a wire entry describes.
pub open spec fn entry_of_dto(e: RuleEntry, d: RuleEntryDto) -> bool {
    &&& e.id@ == d.id@
    &&& e.kind@ == d.kind@
    &&& Some(e.basis) == basis_of_text(d.basis@)
    &&& Some(e.unit) == unit_of_text(d.unit@)
    &&& e.value == d.value
    &&& e.tolerance_cents == d.tolerance_cents
    &&& e.early_warning_pct == d.early_warning_pct
    &&& e.priority == d.priority
    &&& e.enabled == d.enabled
    &&& e.params_json@ == (match d.params_json {
        Some(p) => p@,
        None => "{}"@,
    })
}

/// Validates the pack a request describes without storing it: its id,
/// version, lifecycle and content fingerprint, or a bad request when a
/// rule's basis or unit is unknown or the pack is inconsistent.
pub fn validate_rule_pack(req: CreateRulePackRequest, now: Timestamp) -> (r: Result<RulePackResponse, ApiError>)
    ensures
        r is Err ==> r->Err_0.status == BAD_REQUEST,
        r is Ok ==> r->Ok_0.version == req.version && r->Ok_0.id@ == req.id@ && r->Ok_0.lifecycle@
            == "draft"@,
        r is Ok ==> exists|p: RulePack| #[trigger] pack_of_request(p, req, now)
            && r->Ok_0.content_hash@ == fingerprint_of(pack_content_bytes(p)),
        r is Ok <==> (forall|i: int|
            0 <= i < req.rules@.len() ==> basis_of_text(#[trigger] req.rules@[i].basis@) is Some
                && unit_of_text(req.rules@[i].unit@) is Some) && req.id@.len() > 0 && req.rules@.len() > 0
            && rule_ids_distinct(req.rules@),
{
    let ghost rq = req;
    let pack = match pack_from_request(req, now) {
        Ok(p) => p,
        Err(e) => {
            return Err(e);
        },
    };
    proof {
        assert(crate::rulepack::ids_unique(pack.rules@) <==> rule_ids_distinct(rq.rules@)) by {
            if rule_ids_distinct(rq.rules@) {
                assert forall|i: int, j: int| 0 <= i < j < pack.rules@.len() implies #[trigger] pack.rules@[i].id@
                    != #[trigger] pack.rules@[j].id@ by {
                    assert(entry_of_dto(pack.rules@[i], rq.rules@[i]));
                    assert(entry_of_dto(pack.rules@[j], rq.rules@[j]));
                }
            }
            if crate::rulepack::ids_unique(pack.rules@) {
                assert forall|i: int, j: int| 0 <= i < j < rq.rules@.len() implies #[trigger] rq.rules@[i].id@
                    != #[trigger] rq.rules@[j].id@ by {
                    assert(entry_of_dto(pack.rules@[i], rq.rules@[i]));
                    assert(entry_of_dto(pack.rules@[j], rq.rules@[j]));
                }
            }
        }
    }
    match pack.validate() {
        Ok(()) => {},
        Err(e) => {
            return Err(ApiError { status: BAD_REQUEST, message: e.message() });
        },
    }
    Ok(
        RulePackResponse {
            id: pack.id.clone(),
            version: pack.version,
            lifecycle: pack.lifecycle.label().to_string(),
            content_hash: pack.content_hash(),
        },
    )
}

/// No two wire entries share an id.
pub open spec fn rule_ids_distinct(rs: Seq<RuleEntryDto>) -> bool {
    forall|i: int, j: int| 0 <= i < j < rs.len() ==> #[trigger] rs[i].id@ != #[trigger] rs[j].id@
}

fn clone_opt_string(s: &Option<String>) -> (r: Option<String>)
    ensures
        r == *s,
{
    match s {
        Some(t) => Some(t.clone()),
        None => None,
    }
}

/// The account view returned by the account lookup: balances, drawdowns,
/// utilizations and day counters of the snapshot.
#[derive(Debug, Clone, Copy)]
pub struct AccountSnapshotDto {
    pub balance: Money,
    pub equity: Money,
    pub net_profit: Money,
    pub daily_drawdown: Money,
    pub total_drawdown: Money,
    pub daily_dd_utilization: Pct,
    pub max_dd_utilization: Pct,
    pub profit_target_utilization: Pct,
    pub active_trading_days: u32,
    pub trading_day_index: u32,
}

/// The account view of a snapshot.
pub open spec fn snapshot_dto(s: AccountSnapshot) -> AccountSnapshotDto {
    AccountSnapshotDto {
        balance: s.balance,
        equity: s.equity,
        net_profit: s.net_profit,
        daily_drawdown: s.daily_drawdown,
        total_drawdown: s.total_drawdown,
        daily_dd_utilization: s.daily_dd_utilization,
        max_dd_utilization: s.max_dd_utilization,
        profit_target_utilization: s.profit_target_utilization,
        active_trading_days: s.active_trading_days,
        trading_day_index: s.trading_day_index,
    }
}

impl<'a> From<&'a AccountSnapshot> for AccountSnapshotDto {
    fn from(s: &'a AccountSnapshot) -> (r: AccountSnapshotDto) {
        AccountSnapshotDto {
            balance: s.balance,
            equity: s.equity,
            net_profit: s.net_profit,
            daily_drawdown: s.daily_drawdown,
            total_drawdown: s.total_drawdown,
            daily_dd_utilization: s.daily_dd_utilization,
            max_dd_utilization: s.max_dd_utilization,
            profit_target_utilization: s.profit_target_utilization,
            active_trading_days: s.active_trading_days,
            trading_day_index: s.trading_day_index,
        }
    }
}

impl<'a> vstd::std_specs::convert::FromSpecImpl<&'a AccountSnapshot> for AccountSnapshotDto {
    open spec fn obeys_from_spec() -> bool {
        true
    }

    open spec fn from_spec(s: &'a AccountSnapshot) -> AccountSnapshotDto {
        snapshot_dto(*s)
    }
}

} // verus!
