//! Positions, ticks and trades.
use crate::fixed::{fits, fx_mul, mul_raw, tdiv, Fixed, SCALE};
use crate::ids::{AccountId, OrderId, PositionId, TradeId};
use crate::order::OrderSide;
use crate::types::{Money, Price, Quantity, Symbol, Timestamp};
use vstd::prelude::*;

verus! {

/// Side of an open position.
#[derive(Debug, Clone, Copy, PartialEq, Eq, Structural)]
pub enum PositionSide {
    Long,
    Short,
}

/// The position side an order side opens.
pub open spec fn side_from_order(s: OrderSide) -> PositionSide {
    match s {
        OrderSide::Buy => PositionSide::Long,
        OrderSide::Sell => PositionSide::Short,
    }
}

impl PositionSide {
    /// `+1` for long, `-1` for short.
    pub fn sign(self) -> (r: Fixed)
        ensures
            r.0 == (if self == PositionSide::Long { SCALE as int } else { -SCALE }),
    {
        match self {
            PositionSide::Long => Fixed(SCALE),
            PositionSide::Short => Fixed(-SCALE),
        }
    }

    /// Long for a buy, short for a sell.
    pub fn from_order(s: OrderSide) -> (r: PositionSide)
        ensures
            r == side_from_order(s),
    {
        match s {
            OrderSide::Buy => PositionSide::Long,
            OrderSide::Sell => PositionSide::Short,
        }
    }
}

/// Lifecycle status of a position.
#[derive(Debug, Clone, Copy, PartialEq, Eq, Structural)]
pub enum PositionStatus {
    Open,
    Closed,
    Liquidated,
}

/// Bid/ask quote at a point in time.
#[derive(Debug, Clone, Copy, PartialEq, Eq, Structural)]
pub struct Quote {
    pub bid: Price,
    pub ask: Price,
    pub ts: Timestamp,
}

impl Quote {
    /// Mid price `(bid + ask) / 2`, truncated toward zero.
    pub fn mid(self) -> (r: Price)
        ensures
            r.0 == tdiv(self.bid.0 + self.ask.0, 2),
    {
        let s: i128 = self.bid.0 as i128 + self.ask.0 as i128;
        let h: i128 = if s >= 0 {
            s / 2
        } else {
            -((-s) / 2)
        };
        Price(h as i64)
    }

    /// Spread `ask - bid`; never negative (zero for a crossed quote).
    pub fn spread(self) -> (r: Price)
        requires
            fits(self.ask.0 - self.bid.0),
        ensures
            r.0 == (if self.ask.0 >= self.bid.0 { self.ask.0 - self.bid.0 } else { 0 }),
            r.0 >= 0,
    {
        if self.ask.0 >= self.bid.0 {
            Price(self.ask.0 - self.bid.0)
        } else {
            Price(0)
        }
    }
}

/// A market-data update.
#[derive(Debug, Clone)]
pub struct Tick {
    pub symbol: Symbol,
    pub quote: Quote,
    pub last: Option<Price>,
    pub bid_volume: Option<Fixed>,
    pub ask_volume: Option<Fixed>,
}

impl Tick {
    /// A tick with only a quote.
    pub fn new(symbol: Symbol, quote: Quote) -> (r: Tick)
        ensures
            r.symbol == symbol,
            r.quote == quote,
            r.last is None,
            r.bid_volume is None,
            r.ask_volume is None,
    {
        Tick { symbol, quote, last: None, bid_volume: None, ask_volume: None }
    }
}

/// A position built from one or more fills.
#[derive(Debug)]
pub struct Position {
    pub id: PositionId,
    pub account_id: AccountId,
    pub symbol: Symbol,
    pub side: PositionSide,
    pub opened_at: Timestamp,
    pub closed_at: Option<Timestamp>,
    pub status: PositionStatus,
    /// Weighted-average entry price.
    pub avg_entry_price: Price,
    /// Total opened volume.
    pub opened_quantity: Quantity,
    /// Remaining open volume.
    pub open_quantity: Quantity,
    /// Realized P&L of partial closes.
    pub realized_pnl: Money,
    pub commission: Money,
    pub swap: Money,
    pub stop_loss: Option<Price>,
    pub take_profit: Option<Price>,
    pub magic: Option<u64>,
    pub comment: Option<String>,
}

impl Clone for Position {
    fn clone(&self) -> (r: Position)
        ensures
            r == *self,
    {
        Position {
            id: self.id,
            account_id: self.account_id,
            symbol: self.symbol.clone(),
            side: self.side,
            opened_at: self.opened_at,
            closed_at: self.closed_at,
            status: self.status,
            avg_entry_price: self.avg_entry_price,
            opened_quantity: self.opened_quantity,
            open_quantity: self.open_quantity,
            realized_pnl: self.realized_pnl,
            commission: self.commission,
            swap: self.swap,
            stop_loss: self.stop_loss,
            take_profit: self.take_profit,
            magic: self.magic,
            comment: match &self.comment {
                Some(c) => Some(c.clone()),
                None => None,
            },
        }
    }
}

/// Open with a positive remaining quantity.
pub open spec fn position_open(p: Position) -> bool {
    p.status == PositionStatus::Open && p.open_quantity.0 > 0
}

/// P&L (raw) of holding `qty` from `entry` to `current` on `side`.
pub open spec fn pnl_of(entry: int, current: int, qty: int, side: PositionSide) -> int {
    let diff = match side {
        PositionSide::Long => current - entry,
        PositionSide::Short => entry - current,
    };
    fx_mul(diff, qty)
}

/// Price diff a side gains from `entry` to `current`.
pub open spec fn side_diff(entry: int, current: int, side: PositionSide) -> int {
    match side {
        PositionSide::Long => current - entry,
        PositionSide::Short => entry - current,
    }
}

/// Price a position is marked at: bid for longs, ask for shorts.
pub open spec fn mark_price(q: Quote, side: PositionSide) -> i64 {
    match side {
        PositionSide::Long => q.bid.0,
        PositionSide::Short => q.ask.0,
    }
}

/// Unrealized P&L (raw) of a position at a quote: zero unless open.
pub open spec fn position_pnl(p: Position, q: Quote) -> int {
    if position_open(p) {
        pnl_of(p.avg_entry_price.0 as int, mark_price(q, p.side) as int, p.open_quantity.0 as int, p.side)
    } else {
        0
    }
}

/// The P&L of the position at the quote fits the raw range.
pub open spec fn position_pnl_fits(p: Position, q: Quote) -> bool {
    position_open(p) ==> {
        &&& fits(side_diff(p.avg_entry_price.0 as int, mark_price(q, p.side) as int, p.side))
        &&& fits(position_pnl(p, q))
    }
}

impl Position {
    /// A fresh open position from a single fill.
    pub fn open(
        account_id: AccountId,
        symbol: Symbol,
        side: PositionSide,
        entry_price: Price,
        quantity: Quantity,
        opened_at: Timestamp,
        commission: Money,
        stop_loss: Option<Price>,
        take_profit: Option<Price>,
        magic: Option<u64>,
        comment: Option<String>,
    ) -> (r: Position)
        ensures
            r.account_id == account_id,
            r.symbol == symbol,
            r.side == side,
            r.opened_at == opened_at,
            r.closed_at is None,
            r.status == PositionStatus::Open,
            r.avg_entry_price == entry_price,
            r.opened_quantity == quantity,
            r.open_quantity == quantity,
            r.realized_pnl.0 == 0,
            r.commission == commission,
            r.swap.0 == 0,
            r.stop_loss == stop_loss,
            r.take_profit == take_profit,
            r.magic == magic,
            r.comment == comment,
    {
        Position {
            id: PositionId::new(),
            account_id,
            symbol,
            side,
            opened_at,
            closed_at: None,
            status: PositionStatus::Open,
            avg_entry_price: entry_price,
            opened_quantity: quantity,
            open_quantity: quantity,
            realized_pnl: Money(0),
            commission,
            swap: Money(0),
            stop_loss,
            take_profit,
            magic,
            comment,
        }
    }

    /// Open with a positive remaining quantity.
    pub fn is_open(&self) -> (r: bool)
        ensures
            r == position_open(*self),
    {
        self.status == PositionStatus::Open && self.open_quantity.is_positive()
    }

    /// Unrealized P&L at a quote (longs at the bid, shorts at the ask);
    /// zero unless open.
    pub fn unrealized_pnl(&self, quote: &Quote) -> (r: Money)
        requires
            position_pnl_fits(*self, *quote),
        ensures
            r.0 == position_pnl(*self, *quote),
    {
        if !self.is_open() {
            return Money(0);
        }
        let price = match self.side {
            PositionSide::Long => quote.bid,
            PositionSide::Short => quote.ask,
        };
        unrealized_pnl(self.avg_entry_price, price, self.open_quantity, self.side)
    }
}

/// P&L of holding `qty` from `entry` to `current` on `side`.
pub fn unrealized_pnl(entry: Price, current: Price, qty: Quantity, side: PositionSide) -> (r: Money)
    requires
        fits(side_diff(entry.0 as int, current.0 as int, side)),
        fits(pnl_of(entry.0 as int, current.0 as int, qty.0 as int, side)),
    ensures
        r.0 == pnl_of(entry.0 as int, current.0 as int, qty.0 as int, side),
{
    let diff = match side {
        PositionSide::Long => current.0 - entry.0,
        PositionSide::Short => entry.0 - current.0,
    };
    Money(mul_raw(diff, qty.0))
}

/// Signed exposure `price * qty` (negative for shorts).
pub fn exposure(price: Price, qty: Quantity, side: PositionSide) -> (r: Money)
    requires
        qty.0 != i64::MIN,
        fits(fx_mul(price.0 as int, if side == PositionSide::Long { qty.0 as int } else { -qty.0 })),
    ensures
        r.0 == fx_mul(price.0 as int, if side == PositionSide::Long { qty.0 as int } else { -qty.0 }),
{
    let signed = match side {
        PositionSide::Long => qty.0,
        PositionSide::Short => -qty.0,
    };
    Money(mul_raw(price.0, signed))
}

/// Direction of a trade relative to the position it affects.
#[derive(Debug, Clone, Copy, PartialEq, Eq, Structural)]
pub enum TradeSide {
    Entry,
    Exit,
    Reverse,
}

/// Exit details of a closing trade.
#[derive(Debug, Clone, Copy, PartialEq, Eq, Structural)]
pub struct TradeExit {
    pub position_id: PositionId,
    pub realized_pnl: Money,
    pub closed_quantity: Quantity,
    pub entry_price: Price,
    pub exit_price: Price,
}

/// A fill.
#[derive(Debug)]
pub struct Trade {
    pub id: TradeId,
    pub order_id: OrderId,
    pub account_id: AccountId,
    pub symbol: Symbol,
    pub side: OrderSide,
    pub trade_side: TradeSide,
    pub price: Price,
    pub quantity: Quantity,
    pub commission: Money,
    pub swap: Money,
    pub executed_at: Timestamp,
    pub exit_info: Option<TradeExit>,
    pub comment: Option<String>,
}

impl Clone for Trade {
    fn clone(&self) -> (r: Trade)
        ensures
            r == *self,
    {
        Trade {
            id: self.id,
            order_id: self.order_id,
            account_id: self.account_id,
            symbol: self.symbol.clone(),
            side: self.side,
            trade_side: self.trade_side,
            price: self.price,
            quantity: self.quantity,
            commission: self.commission,
            swap: self.swap,
            executed_at: self.executed_at,
            exit_info: self.exit_info,
            comment: match &self.comment {
                Some(c) => Some(c.clone()),
                None => None,
            },
        }
    }
}

/// Net P&L (raw) of a trade: realized P&L of an exit minus commission
/// and swap.
pub open spec fn trade_net_pnl(t: Trade) -> int {
    let gross: int = match t.exit_info {
        Some(e) => e.realized_pnl.0 as int,
        None => 0,
    };
    gross - t.commission.0 - t.swap.0
}

impl Trade {
    /// A fill without exit details, swap or comment.
    pub fn new(
        order_id: OrderId,
        account_id: AccountId,
        symbol: Symbol,
        side: OrderSide,
        trade_side: TradeSide,
        price: Price,
        quantity: Quantity,
        commission: Money,
        executed_at: Timestamp,
    ) -> (r: Trade)
        ensures
            r.order_id == order_id,
            r.account_id == account_id,
            r.symbol == symbol,
            r.side == side,
            r.trade_side == trade_side,
            r.price == price,
            r.quantity == quantity,
            r.commission == commission,
            r.swap.0 == 0,
            r.executed_at == executed_at,
            r.exit_info is None,
            r.comment is None,
    {
        Trade {
            id: TradeId::new(),
            order_id,
            account_id,
            symbol,
            side,
            trade_side,
            price,
            quantity,
            commission,
            swap: Money(0),
            executed_at,
            exit_info: None,
            comment: None,
        }
    }

    /// Realized P&L of an exit minus commission and swap.
    pub fn net_pnl(&self) -> (r: Money)
        requires
            fits(trade_net_pnl(*self)),
        ensures
            r.0 == trade_net_pnl(*self),
    {
        let gross: i128 = match &self.exit_info {
            Some(e) => e.realized_pnl.0 as i128,
            None => 0,
        };
        Money((gross - self.commission.0 as i128 - self.swap.0 as i128) as i64)
    }
}

} // verus!
