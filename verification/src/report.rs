//! Performance report: the account snapshot, its risk metrics and the
//! engine's decision.
use crate::account::AccountSnapshot;
use crate::decision::{same_decision, Decision};
use crate::fixed::{fits, fx_mul, mul_raw, Fixed};
use crate::risk::RiskMetrics;
use crate::snapshot::Snapshot;
use crate::types::{now_millis, Money, Timestamp};
use vstd::prelude::*;

verus! {

/// A performance report.
#[derive(Debug)]
pub struct PerformanceReport {
    pub account: AccountSnapshot,
    pub risk: RiskMetrics,
    pub decision: Decision,
    /// When the report was generated (wall clock).
    pub generated_at: Timestamp,
}

/// Estimated payout (raw): the net profit times the split, zero for a
/// loss.
pub open spec fn estimated_payout_of(net: int, split: int) -> int {
    if net < 0 {
        0
    } else {
        fx_mul(net, split)
    }
}

impl PerformanceReport {
    /// A report of a snapshot with its risk metrics, stamped with the
    /// clock.
    pub fn new(snapshot: &Snapshot, risk: RiskMetrics) -> (r: PerformanceReport)
        ensures
            r.account == snapshot.account,
            r.risk == risk,
            same_decision(r.decision, snapshot.decision),
    {
        PerformanceReport {
            account: snapshot.account,
            risk,
            decision: snapshot.decision.clone(),
            generated_at: now_millis(),
        }
    }

    /// Estimated payout at the given profit split: zero while the account
    /// is at a loss.
    pub fn estimated_payout(&self, split_pct: Fixed) -> (r: Money)
        requires
            self.account.net_profit.0 >= 0 ==> fits(fx_mul(self.account.net_profit.0 as int, split_pct.0 as int)),
        ensures
            r.0 == estimated_payout_of(self.account.net_profit.0 as int, split_pct.0 as int),
    {
        let net = self.account.net_profit;
        if net.0 < 0 {
            return Money(0);
        }
        Money(mul_raw(net.0, split_pct.0))
    }
}

} // verus!
