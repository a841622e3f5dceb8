//! Point-in-time account snapshots taken after each evaluation.
use crate::account::{derived_fit, snapshot_of, Account, AccountSnapshot};
use crate::decision::{kind_terminating, Decision, DecisionKind};
use crate::events::DomainEvent;
use crate::evaluator::EvaluationResult;
use crate::ids::AccountId;
use crate::types::{now_millis, Timestamp};
use vstd::prelude::*;

verus! {

/// The account state at evaluation time with the engine's decision.
#[derive(Debug)]
pub struct Snapshot {
    pub account_id: AccountId,
    /// When the snapshot was taken (wall clock).
    pub at: Timestamp,
    pub account: AccountSnapshot,
    pub decision: Decision,
}

impl Snapshot {
    /// Snapshots the account with the decision, stamped with the clock.
    pub fn new(account: &Account, decision: Decision) -> (r: Snapshot)
        requires
            derived_fit(*account),
        ensures
            r.account_id == account.id,
            snapshot_of(r.account, *account),
            r.decision == decision,
    {
        Snapshot {
            account_id: account.id,
            at: now_millis(),
            account: AccountSnapshot::from_account(account),
            decision,
        }
    }
}

/// What processing an event returns: the snapshot, the emitted events and
/// the evaluation.
#[derive(Debug)]
pub struct PipelineResult {
    pub snapshot: Snapshot,
    pub events: Vec<DomainEvent>,
    pub result: EvaluationResult,
}

impl PipelineResult {
    /// Every rule passed.
    pub fn passed(&self) -> (r: bool)
        ensures
            r == (self.result.decision.kind == DecisionKind::Pass),
    {
        self.result.passed()
    }

    /// The decision terminates the account.
    pub fn failed(&self) -> (r: bool)
        ensures
            r == kind_terminating(self.result.decision.kind),
    {
        self.result.failed()
    }
}

} // verus!
