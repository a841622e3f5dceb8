//! Equity inputs tagged with their provenance: only broker-reported
//! equity may drive a terminating verdict; an engine estimate may not.
use crate::error::Error;
use crate::text::{lowercase_equals, lowers_to};
use crate::types::Money;
use vstd::prelude::*;

verus! {

/// Equity and balance, tagged broker-reported or estimated.
#[derive(Debug, Clone, Copy, PartialEq, Eq, Structural)]
pub enum EquityInput {
    /// The broker's own numbers: the only ones that can terminate.
    BrokerReported { equity: Money, balance: Money },
    /// The engine's estimate: display and backtest only.
    Estimated { equity: Money, balance: Money },
}

impl EquityInput {
    /// The equity, whatever its source.
    pub fn equity(self) -> (r: Money)
        ensures
            r == match self {
                EquityInput::BrokerReported { equity, .. } => equity,
                EquityInput::Estimated { equity, .. } => equity,
            },
    {
        match self {
            EquityInput::BrokerReported { equity, .. } => equity,
            EquityInput::Estimated { equity, .. } => equity,
        }
    }

    /// The balance, whatever its source.
    pub fn balance(self) -> (r: Money)
        ensures
            r == match self {
                EquityInput::BrokerReported { balance, .. } => balance,
                EquityInput::Estimated { balance, .. } => balance,
            },
    {
        match self {
            EquityInput::BrokerReported { balance, .. } => balance,
            EquityInput::Estimated { balance, .. } => balance,
        }
    }

    /// True only for broker-reported input.
    pub fn is_broker_reported(self) -> (r: bool)
        ensures
            r == (self is BrokerReported),
    {
        match self {
            EquityInput::BrokerReported { .. } => true,
            EquityInput::Estimated { .. } => false,
        }
    }

    /// The equity if and only if it is broker-reported.
    pub fn broker_equity(self) -> (r: Option<Money>)
        ensures
            r == match self {
                EquityInput::BrokerReported { equity, .. } => Some(equity),
                EquityInput::Estimated { .. } => None::<Money>,
            },
    {
        match self {
            EquityInput::BrokerReported { equity, .. } => Some(equity),
            EquityInput::Estimated { .. } => None,
        }
    }
}

impl Default for EquityInput {
    /// The conservative default: an estimate of zero.
    fn default() -> (r: EquityInput)
        ensures
            r == (EquityInput::Estimated { equity: Money(0), balance: Money(0) }),
    {
        EquityInput::Estimated { equity: Money(0), balance: Money(0) }
    }
}

/// Who vouches for the equity and balance on an account state.
#[derive(Debug, Clone, Copy, PartialEq, Eq, Hash, Structural)]
pub enum EquitySource {
    /// From the broker bridge: breach rules may terminate on it.
    BrokerReported,
    /// An engine estimate: never terminates. The safe default.
    Estimated,
}

impl Default for EquitySource {
    /// The safe default, [`EquitySource::Estimated`].
    fn default() -> (r: EquitySource)
        ensures
            r == EquitySource::Estimated,
    {
        EquitySource::Estimated
    }
}

impl EquitySource {
    /// Parses `broker_reported`/`broker` or `estimated`/`estimate`,
    /// ignoring ASCII case.
    pub fn parse(s: &str) -> (r: Result<EquitySource, Error>)
        ensures
            (lowers_to(s@, "broker_reported"@) || lowers_to(s@, "broker"@)) ==> r == Ok::<
                EquitySource,
                Error,
            >(EquitySource::BrokerReported),
            !lowers_to(s@, "broker_reported"@) && !lowers_to(s@, "broker"@) && (lowers_to(
                s@,
                "estimated"@,
            ) || lowers_to(s@, "estimate"@)) ==> r == Ok::<
                EquitySource,
                Error,
            >(EquitySource::Estimated),
            !lowers_to(s@, "broker_reported"@) && !lowers_to(s@, "broker"@) && !lowers_to(
                s@,
                "estimated"@,
            ) && !lowers_to(s@, "estimate"@) ==> r is Err && r->Err_0 is InvalidConfig
                && r->Err_0->InvalidConfig_0@ == "unknown equity_source (expected broker_reported | estimated)"@,
    {
        if lowercase_equals(s, "broker_reported") || lowercase_equals(s, "broker") {
            Ok(EquitySource::BrokerReported)
        } else if lowercase_equals(s, "estimated") || lowercase_equals(s, "estimate") {
            Ok(EquitySource::Estimated)
        } else {
            Err(Error::invalid_config(
                "unknown equity_source (expected broker_reported | estimated)",
            ))
        }
    }
}

} // verus!
