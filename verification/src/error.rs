//! Crate error type.
use crate::text::{append_char, append_str};
use vstd::prelude::*;

verus! {

/// Errors returned by fallible operations of the engine.
#[derive(Debug, Clone)]
pub enum Error {
    /// A configuration value was invalid (e.g. negative drawdown limit).
    InvalidConfig(String),
    /// A rule evaluation was attempted on an unsupported context kind.
    RuleNotApplicable(String, String),
    /// A numeric conversion could not be performed safely.
    NumericConversion(String),
    /// A requested entity could not be found in storage.
    NotFound(String),
    /// A persistence operation failed.
    Persistence(String),
    /// A serialization error occurred.
    Serialization(String),
    /// A logical precondition was violated.
    InvalidState(String),
    /// A user-supplied rule produced an error.
    RuleEval(String),
    /// Optimistic-concurrency conflict: (entity, expected version, found version).
    StateConflict(String, u64, u64),
    /// A tick was rejected as stale or out of order.
    TickRejected(String),
    /// A required metric was unavailable for evaluation.
    MissingMetric(String),
}

/// Builds [`Error::InvalidConfig`].
pub fn invalid_config(msg: &str) -> (r: Error)
    ensures
        r is InvalidConfig && r->InvalidConfig_0@ == msg@,
{
    Error::InvalidConfig(msg.to_string())
}

/// Builds [`Error::InvalidState`].
pub fn invalid_state(msg: &str) -> (r: Error)
    ensures
        r is InvalidState && r->InvalidState_0@ == msg@,
{
    Error::InvalidState(msg.to_string())
}

impl Error {
    /// Builds [`Error::InvalidConfig`].
    pub fn invalid_config(msg: &str) -> (r: Error)
        ensures
            r is InvalidConfig && r->InvalidConfig_0@ == msg@,
    {
        Error::InvalidConfig(msg.to_string())
    }

    /// Builds [`Error::InvalidState`].
    pub fn invalid_state(msg: &str) -> (r: Error)
        ensures
            r is InvalidState && r->InvalidState_0@ == msg@,
    {
        Error::InvalidState(msg.to_string())
    }

    /// Builds [`Error::NotFound`].
    pub fn not_found(msg: &str) -> (r: Error)
        ensures
            r is NotFound && r->NotFound_0@ == msg@,
    {
        Error::NotFound(msg.to_string())
    }

    /// The human-readable text of the error.
    pub fn message(&self) -> (r: String)
        ensures
            r@ == error_text(*self),
    {
        let (prefix, body): (&str, &String) = match self {
            Error::InvalidConfig(m) => ("invalid configuration: ", m),
            Error::NumericConversion(m) => ("numeric conversion error: ", m),
            Error::NotFound(m) => ("entity not found: ", m),
            Error::Persistence(m) => ("persistence error: ", m),
            Error::Serialization(m) => ("serialization error: ", m),
            Error::InvalidState(m) => ("invalid state: ", m),
            Error::RuleEval(m) => ("rule evaluation error: ", m),
            Error::TickRejected(m) => ("tick rejected: ", m),
            Error::MissingMetric(m) => ("missing metric: ", m),
            Error::RuleNotApplicable(a, b) => {
                let mut s = "rule ".to_string();
                append_str(&mut s, a.as_str());
                append_str(&mut s, " not applicable to context kind ");
                append_str(&mut s, b.as_str());
                return s;
            },
            Error::StateConflict(e, x, y) => {
                let mut s = "state conflict on ".to_string();
                append_str(&mut s, e.as_str());
                append_str(&mut s, ": expected version ");
                let xs = decimal_text(*x);
                append_str(&mut s, xs.as_str());
                append_str(&mut s, ", found ");
                let ys = decimal_text(*y);
                append_str(&mut s, ys.as_str());
                return s;
            },
        };
        let mut s = prefix.to_string();
        append_str(&mut s, body.as_str());
        s
    }
}

/// The message an error carries (the first text of a state conflict).
pub open spec fn error_detail(e: Error) -> Seq<char> {
    match e {
        Error::InvalidConfig(m) => m@,
        Error::RuleNotApplicable(a, _) => a@,
        Error::NumericConversion(m) => m@,
        Error::NotFound(m) => m@,
        Error::Persistence(m) => m@,
        Error::Serialization(m) => m@,
        Error::InvalidState(m) => m@,
        Error::RuleEval(m) => m@,
        Error::StateConflict(m, _, _) => m@,
        Error::TickRejected(m) => m@,
        Error::MissingMetric(m) => m@,
    }
}

/// The human-readable text of an error.
pub open spec fn error_text(e: Error) -> Seq<char> {
    match e {
        Error::InvalidConfig(m) => "invalid configuration: "@ + m@,
        Error::RuleNotApplicable(a, b) => "rule "@ + a@ + " not applicable to context kind "@ + b@,
        Error::NumericConversion(m) => "numeric conversion error: "@ + m@,
        Error::NotFound(m) => "entity not found: "@ + m@,
        Error::Persistence(m) => "persistence error: "@ + m@,
        Error::Serialization(m) => "serialization error: "@ + m@,
        Error::InvalidState(m) => "invalid state: "@ + m@,
        Error::RuleEval(m) => "rule evaluation error: "@ + m@,
        Error::StateConflict(e, x, y) => "state conflict on "@ + e@ + ": expected version "@ + decimal_of(
            x as nat,
        ) + ", found "@ + decimal_of(y as nat),
        Error::TickRejected(m) => "tick rejected: "@ + m@,
        Error::MissingMetric(m) => "missing metric: "@ + m@,
    }
}

/// Decimal digit character of `d` (0 to 9).
pub open spec fn digit_char(d: nat) -> char {
    ((d + 48) as u32) as char
}

/// Decimal text of a natural number, without leading zeros.
pub open spec fn decimal_of(n: nat) -> Seq<char>
    decreases n,
{
    if n < 10 {
        seq![digit_char(n)]
    } else {
        decimal_of(n / 10).push(digit_char(n % 10))
    }
}

/// Decimal text of a number.
pub fn decimal_text(n: u64) -> (r: String)
    ensures
        r@ == decimal_of(n as nat),
    decreases n,
{
    let d = n % 10;
    let c = match d {
        0 => '0',
        1 => '1',
        2 => '2',
        3 => '3',
        4 => '4',
        5 => '5',
        6 => '6',
        7 => '7',
        8 => '8',
        _ => '9',
    };
    assert(c == digit_char((n % 10) as nat));
    if n < 10 {
        let mut s = String::new();
        append_char(&mut s, c);
        assert(s@ =~= seq![c]);
        s
    } else {
        let mut s = decimal_text(n / 10);
        append_char(&mut s, c);
        s
    }
}

} // verus!
