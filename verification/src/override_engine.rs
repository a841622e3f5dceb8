//! Manual override of a false-positive breach.
//!
//! An [`Override`] clears one violation and reverts a `Failed` or
//! `EmergencyStopped` account to `Active`; the original violation stays in
//! the audit log and the override is recorded beside it.
use crate::error::Error;
use crate::ids::{AccountId, ViolationId};
use crate::text::{blank, is_blank};
use crate::types::Timestamp;
use vstd::prelude::*;

verus! {

/// Identifier of an override record.
pub type OverrideId = ViolationId;

/// An audited record clearing a violation.
#[derive(Debug)]
pub struct Override {
    pub id: OverrideId,
    pub account_id: AccountId,
    /// The violation being cleared.
    pub clears_violation_id: ViolationId,
    /// Why the breach is a false positive.
    pub reason: String,
    /// The responsible ops/compliance actor.
    pub actor_id: String,
    pub at: Timestamp,
}

impl Clone for Override {
    fn clone(&self) -> (r: Override)
        ensures
            r == *self,
    {
        Override {
            id: self.id,
            account_id: self.account_id,
            clears_violation_id: self.clears_violation_id,
            reason: self.reason.clone(),
            actor_id: self.actor_id.clone(),
            at: self.at,
        }
    }
}

impl Override {
    /// A new override record.
    pub fn new(
        account_id: AccountId,
        clears_violation_id: ViolationId,
        reason: String,
        actor_id: String,
        at: Timestamp,
    ) -> (r: Override)
        ensures
            r.account_id == account_id,
            r.clears_violation_id == clears_violation_id,
            r.reason == reason,
            r.actor_id == actor_id,
            r.at == at,
    {
        Override { id: ViolationId::new(), account_id, clears_violation_id, reason, actor_id, at }
    }

    /// A reason and an actor are required (not blank).
    pub fn validate(&self) -> (r: Result<(), Error>)
        ensures
            r is Ok <==> (!blank(self.reason@) && !blank(self.actor_id@)),
            r is Err ==> r->Err_0 is InvalidState && r->Err_0->InvalidState_0@ == (if blank(self.reason@) {
                "override reason cannot be empty — must explain why the breach is a false positive"@
            } else {
                "override actor_id cannot be empty — must identify the responsible human"@
            }),
    {
        if is_blank(self.reason.as_str()) {
            return Err(
                Error::InvalidState(
                    "override reason cannot be empty — must explain why the breach is a false positive".to_string(),
                ),
            );
        }
        if is_blank(self.actor_id.as_str()) {
            return Err(
                Error::InvalidState(
                    "override actor_id cannot be empty — must identify the responsible human".to_string(),
                ),
            );
        }
        Ok(())
    }
}

} // verus!
