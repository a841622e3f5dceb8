//! Orders: intents to open or close positions.
use crate::error::Error;
use crate::fixed::{Fixed, SCALE};
use crate::ids::{AccountId, OrderId, PositionId};
use crate::types::{Price, Quantity, Symbol, Timestamp};
use vstd::prelude::*;

verus! {

/// Side of an order.
#[derive(Debug, Clone, Copy, PartialEq, Eq, Structural)]
pub enum OrderSide {
    Buy,
    Sell,
}

/// The other side.
pub open spec fn opposite_side(s: OrderSide) -> OrderSide {
    match s {
        OrderSide::Buy => OrderSide::Sell,
        OrderSide::Sell => OrderSide::Buy,
    }
}

impl OrderSide {
    /// Lower-case label (`buy`, `sell`).
    pub fn label(self) -> (r: &'static str)
        ensures
            self == OrderSide::Buy ==> r@ == "buy"@,
            self == OrderSide::Sell ==> r@ == "sell"@,
    {
        match self {
            OrderSide::Buy => "buy",
            OrderSide::Sell => "sell",
        }
    }

    /// The opposite side.
    pub fn opposite(self) -> (r: OrderSide)
        ensures
            r == opposite_side(self),
    {
        match self {
            OrderSide::Buy => OrderSide::Sell,
            OrderSide::Sell => OrderSide::Buy,
        }
    }

    /// `+1` for buy, `-1` for sell.
    pub fn sign(self) -> (r: Fixed)
        ensures
            r.0 == (if self == OrderSide::Buy { SCALE as int } else { -SCALE }),
    {
        match self {
            OrderSide::Buy => Fixed(SCALE),
            OrderSide::Sell => Fixed(-SCALE),
        }
    }
}

/// Price logic of an order.
#[derive(Debug, Clone, Copy, PartialEq, Eq, Structural)]
pub enum OrderType {
    Market,
    Limit { price: Price },
    Stop { stop: Price },
    StopLimit { stop: Price, limit: Price },
}

/// Time-in-force policy.
#[derive(Debug, Clone, Copy, PartialEq, Eq, Structural)]
pub enum TimeInForce {
    Gtc,
    Ioc,
    Fok,
    Day,
}

/// Open, close or reverse a position.
#[derive(Debug, Clone, Copy, PartialEq, Eq, Structural)]
pub enum OrderKind {
    Open,
    Close { position_id: PositionId, partial_quantity: Option<Quantity> },
    Reverse,
}

/// Lifecycle status of an order.
#[derive(Debug, Clone, Copy, PartialEq, Eq, Structural)]
pub enum OrderStatus {
    Pending,
    Accepted,
    PartiallyFilled,
    Filled,
    Cancelled,
    Rejected,
    Expired,
}

/// Filled, cancelled, rejected or expired.
pub open spec fn order_status_terminal(s: OrderStatus) -> bool {
    s == OrderStatus::Filled || s == OrderStatus::Cancelled || s == OrderStatus::Rejected || s
        == OrderStatus::Expired
}

impl OrderStatus {
    /// Filled, cancelled, rejected or expired.
    pub fn is_terminal(self) -> (r: bool)
        ensures
            r == order_status_terminal(self),
    {
        match self {
            OrderStatus::Filled | OrderStatus::Cancelled | OrderStatus::Rejected
            | OrderStatus::Expired => true,
            _ => false,
        }
    }
}

/// An order.
#[derive(Debug, Clone)]
pub struct Order {
    pub id: OrderId,
    pub account_id: AccountId,
    pub symbol: Symbol,
    pub side: OrderSide,
    pub kind: OrderKind,
    pub order_type: OrderType,
    pub quantity: Quantity,
    pub tif: TimeInForce,
    pub stop_loss: Option<Price>,
    pub take_profit: Option<Price>,
    pub comment: Option<String>,
    pub submitted_at: Timestamp,
    pub status: OrderStatus,
    pub filled_quantity: Quantity,
    pub avg_fill_price: Option<Price>,
}

impl Order {
    /// A pending immediate-or-cancel market order opening a position.
    pub fn market_open(
        account_id: AccountId,
        symbol: Symbol,
        side: OrderSide,
        quantity: Quantity,
        stop_loss: Option<Price>,
        take_profit: Option<Price>,
        submitted_at: Timestamp,
    ) -> (r: Order)
        ensures
            r.account_id == account_id,
            r.symbol == symbol,
            r.side == side,
            r.kind == OrderKind::Open,
            r.order_type == OrderType::Market,
            r.quantity == quantity,
            r.tif == TimeInForce::Ioc,
            r.stop_loss == stop_loss,
            r.take_profit == take_profit,
            r.comment is None,
            r.submitted_at == submitted_at,
            r.status == OrderStatus::Pending,
            r.filled_quantity.0 == 0,
            r.avg_fill_price is None,
    {
        Order {
            id: OrderId::new(),
            account_id,
            symbol,
            side,
            kind: OrderKind::Open,
            order_type: OrderType::Market,
            quantity,
            tif: TimeInForce::Ioc,
            stop_loss,
            take_profit,
            comment: None,
            submitted_at,
            status: OrderStatus::Pending,
            filled_quantity: Quantity(0),
            avg_fill_price: None,
        }
    }

    /// A pending market order closing (all or part of) a position; the
    /// symbol is `UNKNOWN` and the side `Buy` until the caller sets them.
    pub fn market_close(
        account_id: AccountId,
        position_id: PositionId,
        partial_quantity: Option<Quantity>,
        submitted_at: Timestamp,
    ) -> (r: Order)
        ensures
            r.account_id == account_id,
            r.symbol.0@ == crate::types::upper_case("UNKNOWN"@),
            r.side == OrderSide::Buy,
            r.kind == (OrderKind::Close { position_id, partial_quantity }),
            r.order_type == OrderType::Market,
            r.quantity == (match partial_quantity {
                Some(q) => q,
                None => Quantity(0),
            }),
            r.tif == TimeInForce::Ioc,
            r.stop_loss is None,
            r.take_profit is None,
            r.comment is None,
            r.submitted_at == submitted_at,
            r.status == OrderStatus::Pending,
            r.filled_quantity.0 == 0,
            r.avg_fill_price is None,
    {
        let quantity = match partial_quantity {
            Some(q) => q,
            None => Quantity(0),
        };
        Order {
            id: OrderId::new(),
            account_id,
            symbol: Symbol::new("UNKNOWN"),
            side: OrderSide::Buy,
            kind: OrderKind::Close { position_id, partial_quantity },
            order_type: OrderType::Market,
            quantity,
            tif: TimeInForce::Ioc,
            stop_loss: None,
            take_profit: None,
            comment: None,
            submitted_at,
            status: OrderStatus::Pending,
            filled_quantity: Quantity(0),
            avg_fill_price: None,
        }
    }

    /// An opening order without a stop-loss.
    pub fn requires_sl(&self) -> (r: bool)
        ensures
            r == (self.stop_loss is None && self.kind == OrderKind::Open),
    {
        self.stop_loss.is_none() && self.kind == OrderKind::Open
    }

    /// An opening order without a take-profit.
    pub fn requires_tp(&self) -> (r: bool)
        ensures
            r == (self.take_profit is None && self.kind == OrderKind::Open),
    {
        self.take_profit.is_none() && self.kind == OrderKind::Open
    }

    /// Accepts a pending order; any other status is an error.
    pub fn accepted(self) -> (r: Result<Order, Error>)
        ensures
            self.status == OrderStatus::Pending ==> r == Ok::<Order, Error>(
                Order { status: OrderStatus::Accepted, ..self },
            ),
            self.status != OrderStatus::Pending ==> r is Err && r->Err_0 is InvalidState
                && r->Err_0->InvalidState_0@ == "order is not pending"@,
    {
        if self.status != OrderStatus::Pending {
            return Err(Error::invalid_state("order is not pending"));
        }
        Ok(Order { status: OrderStatus::Accepted, ..self })
    }

    /// Rejects a non-terminal order, appending `rejected: <reason>` to its
    /// comment (after ` | ` when a comment exists).
    pub fn rejected(self, reason: &str) -> (r: Result<Order, Error>)
        ensures
            order_status_terminal(self.status) ==> r is Err && r->Err_0 is InvalidState
                && r->Err_0->InvalidState_0@ == "order already terminal"@,
            !order_status_terminal(self.status) ==> r is Ok && r->Ok_0.status
                == OrderStatus::Rejected && r->Ok_0.comment is Some && r->Ok_0.comment->0@ == (
            match self.comment {
                Some(c) => c@ + " | rejected: "@ + reason@,
                None => "rejected: "@ + reason@,
            }) && r->Ok_0 == (Order {
                status: OrderStatus::Rejected,
                comment: r->Ok_0.comment,
                ..self
            }),
    {
        if self.status.is_terminal() {
            return Err(Error::invalid_state("order already terminal"));
        }
        let comment = match &self.comment {
            Some(c) => {
                let mut s = c.clone();
                s.append(" | rejected: ");
                s.append(reason);
                s
            },
            None => {
                let mut s = "rejected: ".to_string();
                s.append(reason);
                s
            },
        };
        Ok(Order { status: OrderStatus::Rejected, comment: Some(comment), ..self })
    }
}

} // verus!
