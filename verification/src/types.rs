//! Numeric and primitive domain types.
//!
//! [`Money`], [`Price`], [`Quantity`], [`Lots`] and [`Pct`] wrap a raw
//! fixed-point integer (units of `10^-8`, see [`crate::fixed`]). A
//! [`Pct`] is stored as a fraction (`0.05` = 5%). Timestamps are
//! milliseconds since the Unix epoch (UTC).
use crate::error::Error;
use crate::fixed::{decimal_parts_ok, fits, fx_mul, mul_raw, raw_from_parts, raw_of_parts, Fixed, SCALE};
use vstd::prelude::*;

verus! {

/// UTC timestamp in milliseconds since the Unix epoch.
pub type Timestamp = i64;

/// Milliseconds per second.
pub const MS_PER_SECOND: i64 = 1000;

/// Milliseconds per minute.
pub const MS_PER_MINUTE: i64 = 60_000;

/// Milliseconds per day.
pub const MS_PER_DAY: i64 = 86_400_000;

/// Monetary value (balance, equity, P&L).
#[derive(Debug, Clone, Copy, PartialEq, Eq, Structural)]
pub struct Money(pub i64);

/// Price (quotes, fills).
#[derive(Debug, Clone, Copy, PartialEq, Eq, Structural)]
pub struct Price(pub i64);

/// Tradeable quantity in units.
#[derive(Debug, Clone, Copy, PartialEq, Eq, Structural)]
pub struct Quantity(pub i64);

/// Lot size.
#[derive(Debug, Clone, Copy, PartialEq, Eq, Structural)]
pub struct Lots(pub i64);

/// Percentage stored as a fraction (`0.05` = 5%).
#[derive(Debug, Clone, Copy, PartialEq, Eq, Structural)]
pub struct Pct(pub i64);

/// Account leverage (`1:n`).
#[derive(Debug, Clone, Copy, PartialEq, Eq, Structural)]
pub struct Leverage(pub u32);

/// Server-side point in time.
#[derive(Debug, Clone, Copy, PartialEq, Eq, Structural)]
pub struct ServerTime(pub Timestamp);

/// Trading instrument symbol, always upper case.
#[derive(Debug)]
pub struct Symbol(pub String);

impl Clone for Symbol {
    fn clone(&self) -> (r: Symbol)
        ensures
            r == *self,
    {
        Symbol(self.0.clone())
    }
}

/// Upper-case form of a string, as Rust's `str::to_uppercase` computes it.
pub uninterp spec fn upper_case(s: Seq<char>) -> Seq<char>;

/// Calls `str::to_uppercase`; the result is named by [`upper_case`].
#[verifier::external_body]
pub(crate) fn str_to_uppercase(s: &str) -> (r: String)
    ensures
        r@ == upper_case(s@),
{
    s.to_uppercase()
}

/// Reads the wall clock (`chrono::Utc::now`) in epoch milliseconds.
/// Nothing is stated of the value: it depends on the time of the call.
#[verifier::external_body]
pub(crate) fn now_millis() -> Timestamp {
    chrono::Utc::now().timestamp_millis()
}

/// The mantissa and scale of the decimal `rust_decimal::Decimal::from_str`
/// reads from a string; `None` when the string is not a decimal.
pub uninterp spec fn parsed_decimal_parts(s: Seq<char>) -> Option<(i128, u32)>;

/// Parses a decimal string with `rust_decimal::Decimal::from_str`; the
/// mantissa and scale are named by [`parsed_decimal_parts`], and are
/// those of a `Decimal` (at most 28 places, mantissa below `2^96`).
#[verifier::external_body]
fn decimal_from_str_parts(s: &str) -> (r: Option<(i128, u32)>)
    ensures
        r == parsed_decimal_parts(s@),
        r matches Some(p) ==> decimal_parts_ok(p.0, p.1),
{
    match <rust_decimal::Decimal as core::str::FromStr>::from_str(s) {
        Ok(d) => Some((d.mantissa(), d.scale())),
        Err(_) => None,
    }
}

/// The raw value (eight decimals, truncated toward zero) of the decimal a
/// string holds; `None` when it is not a decimal or does not fit.
pub open spec fn parsed_decimal_raw(s: Seq<char>) -> Option<i64> {
    match parsed_decimal_parts(s) {
        Some(p) => raw_of_parts(p.0, p.1),
        None => None,
    }
}

/// Reads a decimal string as a raw value; see [`parsed_decimal_raw`].
fn decimal_from_str_raw(s: &str) -> (r: Option<i64>)
    ensures
        r == parsed_decimal_raw(s@),
{
    match decimal_from_str_parts(s) {
        Some((m, scale)) => raw_from_parts(m, scale),
        None => None,
    }
}

impl Money {
    /// Zero.
    pub fn zero() -> (r: Money)
        ensures
            r.0 == 0,
    {
        Money(0)
    }

    /// Wraps a raw fixed-point value.
    pub fn new(v: i64) -> (r: Money)
        ensures
            r.0 == v,
    {
        Money(v)
    }

    /// A whole number of currency units.
    pub fn from_units(v: i64) -> (r: Money)
        requires
            fits(v * SCALE),
        ensures
            r.0 == v * SCALE,
    {
        Money(v * SCALE)
    }

    /// Parses a decimal string into money.
    pub fn parse_money(s: &str) -> (r: Result<Money, Error>)
        ensures
            match parsed_decimal_raw(s@) {
                Some(v) => r == Ok::<Money, Error>(Money(v)),
                None => r is Err && r->Err_0 is NumericConversion,
            },
    {
        match decimal_from_str_raw(s) {
            Some(v) => Ok(Money(v)),
            None => Err(Error::NumericConversion("invalid decimal".to_string())),
        }
    }

    /// The raw fixed-point value.
    pub fn raw(self) -> (r: i64)
        ensures
            r == self.0,
    {
        self.0
    }

    /// True when strictly negative.
    pub fn is_negative(self) -> (r: bool)
        ensures
            r == (self.0 < 0),
    {
        self.0 < 0
    }

    /// Absolute value.
    pub fn abs(self) -> (r: Money)
        requires
            self.0 != i64::MIN,
        ensures
            r.0 == if self.0 < 0 { -self.0 } else { self.0 as int },
    {
        if self.0 < 0 {
            Money(-self.0)
        } else {
            self
        }
    }

    /// Larger of two amounts.
    pub fn max(self, other: Money) -> (r: Money)
        ensures
            r.0 == if self.0 >= other.0 { self.0 } else { other.0 },
    {
        if self.0 >= other.0 {
            self
        } else {
            other
        }
    }

    /// Smaller of two amounts.
    pub fn min(self, other: Money) -> (r: Money)
        ensures
            r.0 == if self.0 <= other.0 { self.0 } else { other.0 },
    {
        if self.0 <= other.0 {
            self
        } else {
            other
        }
    }

    /// Sum.
    pub fn add(self, rhs: Money) -> (r: Money)
        requires
            fits(self.0 + rhs.0),
        ensures
            r.0 == self.0 + rhs.0,
    {
        Money(self.0 + rhs.0)
    }

    /// Difference.
    pub fn sub(self, rhs: Money) -> (r: Money)
        requires
            fits(self.0 - rhs.0),
        ensures
            r.0 == self.0 - rhs.0,
    {
        Money(self.0 - rhs.0)
    }

    /// In-place sum.
    pub fn add_assign(&mut self, rhs: Money)
        requires
            fits(old(self).0 + rhs.0),
        ensures
            final(self).0 == old(self).0 + rhs.0,
    {
        self.0 = self.0 + rhs.0;
    }

    /// In-place difference.
    pub fn sub_assign(&mut self, rhs: Money)
        requires
            fits(old(self).0 - rhs.0),
        ensures
            final(self).0 == old(self).0 - rhs.0,
    {
        self.0 = self.0 - rhs.0;
    }
}

impl Price {
    /// Zero.
    pub fn zero() -> (r: Price)
        ensures
            r.0 == 0,
    {
        Price(0)
    }

    /// Wraps a raw fixed-point value.
    pub fn new(v: i64) -> (r: Price)
        ensures
            r.0 == v,
    {
        Price(v)
    }

    /// The raw fixed-point value.
    pub fn raw(self) -> (r: i64)
        ensures
            r == self.0,
    {
        self.0
    }
}

impl Quantity {
    /// Zero.
    pub fn zero() -> (r: Quantity)
        ensures
            r.0 == 0,
    {
        Quantity(0)
    }

    /// Wraps a raw fixed-point value.
    pub fn new(v: i64) -> (r: Quantity)
        ensures
            r.0 == v,
    {
        Quantity(v)
    }

    /// The raw fixed-point value.
    pub fn raw(self) -> (r: i64)
        ensures
            r == self.0,
    {
        self.0
    }

    /// True when strictly positive.
    pub fn is_positive(self) -> (r: bool)
        ensures
            r == (self.0 > 0),
    {
        self.0 > 0
    }
}

impl Lots {
    /// Zero.
    pub fn zero() -> (r: Lots)
        ensures
            r.0 == 0,
    {
        Lots(0)
    }

    /// Wraps a raw fixed-point value.
    pub fn new(v: i64) -> (r: Lots)
        ensures
            r.0 == v,
    {
        Lots(v)
    }

    /// The raw fixed-point value.
    pub fn raw(self) -> (r: i64)
        ensures
            r == self.0,
    {
        self.0
    }
}

impl Pct {
    /// Zero.
    pub fn zero() -> (r: Pct)
        ensures
            r.0 == 0,
    {
        Pct(0)
    }

    /// Wraps a raw fraction.
    pub fn new(v: i64) -> (r: Pct)
        ensures
            r.0 == v,
    {
        Pct(v)
    }

    /// Builds a percentage from a fixed-point fraction.
    pub fn from_fixed(v: Fixed) -> (r: Pct)
        ensures
            r.0 == v.0,
    {
        Pct(v.0)
    }

    /// The raw fraction.
    pub fn raw(self) -> (r: i64)
        ensures
            r == self.0,
    {
        self.0
    }

    /// The percentage scaled by one hundred (`0.05` → `5`).
    pub fn as_percent(self) -> (r: Fixed)
        requires
            fits(self.0 * 100),
        ensures
            r.0 == self.0 * 100,
    {
        Fixed(self.0 * 100)
    }

    /// Applies the percentage to an amount.
    pub fn of(self, m: Money) -> (r: Money)
        requires
            fits(fx_mul(self.0 as int, m.0 as int)),
        ensures
            r.0 == fx_mul(self.0 as int, m.0 as int),
    {
        Money(mul_raw(self.0, m.0))
    }
}

impl Symbol {
    /// Builds a symbol, upper-casing the text.
    pub fn new(s: &str) -> (r: Symbol)
        ensures
            r.0@ == upper_case(s@),
    {
        Symbol(str_to_uppercase(s))
    }

    /// The symbol text.
    pub fn as_str(&self) -> (r: &str)
        ensures
            r@ == self.0@,
    {
        self.0.as_str()
    }
}

impl Leverage {
    /// `1:1` leverage.
    pub fn one() -> (r: Leverage)
        ensures
            r.0 == 1,
    {
        Leverage(1)
    }

    /// Wraps a leverage ratio.
    pub fn new(v: u32) -> (r: Leverage)
        ensures
            r.0 == v,
    {
        Leverage(v)
    }

    /// The ratio.
    pub fn raw(self) -> (r: u32)
        ensures
            r == self.0,
    {
        self.0
    }
}

impl ServerTime {
    /// The current wall-clock time.
    pub fn now() -> ServerTime {
        ServerTime(now_millis())
    }

    /// A given point in time.
    pub fn at(ts: Timestamp) -> (r: ServerTime)
        ensures
            r.0 == ts,
    {
        ServerTime(ts)
    }

    /// The timestamp.
    pub fn ts(self) -> (r: Timestamp)
        ensures
            r == self.0,
    {
        self.0
    }
}

} // verus!
