//! The pipeline bound to its stores: an event for a stored account is
//! processed against what the stores hold (its open positions, the day's
//! fills, its audit log) and the new state is written back under
//! optimistic concurrency.
use crate::account::{derived_fit, same_account, snapshot_of, Account};
use crate::decision::{kind_of_category, same_decision, top_category, RuleReport};
use crate::error::{error_detail, Error};
use crate::events::{events_of, same_event, DomainEvent, InMemoryEventStore};
use crate::evaluator::Evaluator;
use crate::idempotency::{uuid_string, uuid_text};
use crate::ids::{AccountId, TenantId};
use crate::market::{Position, Trade};
use crate::pipeline::{
    apply_error_text, apply_outcome, completed_account, process_fits, process_with_loaded_account,
    processed_as, processed_ok, rolled_account, PipelineEvent, Processed,
};
use crate::snapshot::{PipelineResult, Snapshot};
use crate::store::{open_positions_for, upserted, InMemoryStore};
use crate::text::append_str;
use crate::types::Timestamp;
use vstd::prelude::*;

verus! {

/// How many of the account's latest audit events the rules see.
pub const RECENT_EVENTS: usize = 50;

/// `h` copies the events of `log`, one by one.
pub open spec fn copies_events(h: Seq<DomainEvent>, log: Seq<DomainEvent>) -> bool {
    h.len() == log.len() && forall|i: int| 0 <= i < h.len() ==> same_event(#[trigger] h[i], log[i])
}

/// Processing `ev` for a copy of the stored account `a`, against its open
/// positions `open`, a copy of its audit log `log` and the rules'
/// `reports`, stays in the fixed-point range, and so does the snapshot of
/// the processed account.
pub open spec fn pipeline_fits(
    a: Account,
    ev: PipelineEvent,
    open: Seq<Position>,
    log: Seq<DomainEvent>,
    reports: Seq<RuleReport>,
    now: Timestamp,
) -> bool {
    forall|b: Account, h: Seq<DomainEvent>|
        #![trigger same_account(b, a), copies_events(h, log)]
        same_account(b, a) && copies_events(h, log) ==> {
            &&& process_fits(b, ev, open, reports, now)
            &&& (processed_ok(b, ev, open, h, now) ==> derived_fit(
                completed_account(
                    apply_outcome(rolled_account(b, ev, now)->0, ev, open, h, now)->Ok_0,
                    ev,
                    kind_of_category(top_category(reports)),
                    now,
                ),
            ))
        }
}

/// `res` returns what the processing yielded in `p`: its events, its
/// evaluation, and the snapshot of the processed account with a copy of
/// the decision.
pub open spec fn returns_processed(res: PipelineResult, p: Processed) -> bool {
    &&& res.events == p.events
    &&& res.result == p.result
    &&& res.snapshot.account_id == p.state.account.id
    &&& snapshot_of(res.snapshot.account, p.state.account)
    &&& same_decision(res.snapshot.decision, p.result.decision)
}

/// What writing `p` back for the stored account `a` leaves in the store
/// (accounts, positions and fills before, then after): the processed
/// account under its id with the stored version plus one (wrapping), and
/// for a fill the trade recorded and its position upserted.
pub open spec fn written(
    accounts0: Map<u128, Account>,
    positions0: Seq<Position>,
    trades0: Seq<Trade>,
    accounts1: Map<u128, Account>,
    positions1: Seq<Position>,
    trades1: Seq<Trade>,
    a: Account,
    p: Processed,
) -> bool {
    &&& accounts1 == accounts0.insert(
        a.id.0,
        Account { version: a.version.wrapping_add(1), ..p.state.account },
    )
    &&& match p.trade_fill {
        Some(f) => trades1 == trades0.push(f.0) && positions1 == upserted(positions0, f.1),
        None => trades1 == trades0 && positions1 == positions0,
    }
}

/// An evaluator with the store it reads and writes and the audit log the
/// rules read.
#[derive(Debug)]
pub struct Pipeline {
    pub evaluator: Evaluator,
    pub store: InMemoryStore,
    pub event_store: InMemoryEventStore,
}

/// The outcome `r` of processing `ev` for the stored account `a`, the
/// pipeline going from `s0` to `s1`: for a copy `b` of the account and `h`
/// of its audit log, `r` is `Ok` exactly when the processing of `b`
/// succeeds; then it returns what the processing yielded and the store
/// holds its write; otherwise the store is unchanged and the error names
/// the check that failed.
pub open spec fn processed_in_store(
    s0: Pipeline,
    s1: Pipeline,
    a: Account,
    ev: PipelineEvent,
    reports: Seq<RuleReport>,
    now: Timestamp,
    r: Result<PipelineResult, Error>,
) -> bool {
    let open = open_positions_for(s0.store.positions(), a.id);
    let log = events_of(s0.event_store.log(), a.id);
    exists|b: Account, h: Seq<DomainEvent>|
        #![trigger same_account(b, a), copies_events(h, log)]
        same_account(b, a) && copies_events(h, log) && {
            &&& r is Ok <==> processed_ok(b, ev, open, h, now)
            &&& r is Ok ==> exists|p: Processed|
                #[trigger] processed_as(b, ev, open, h, reports, now, p) && returns_processed(
                    r->Ok_0,
                    p,
                ) && written(
                    s0.store.accounts(),
                    s0.store.positions(),
                    s0.store.trades(),
                    s1.store.accounts(),
                    s1.store.positions(),
                    s1.store.trades(),
                    a,
                    p,
                )
            &&& r is Err ==> s1.store.accounts() == s0.store.accounts() && s1.store.positions()
                == s0.store.positions() && s1.store.trades() == s0.store.trades()
            &&& r is Err ==> error_detail(r->Err_0) == match rolled_account(b, ev, now) {
                Some(b2) => apply_error_text(b2, ev, h, now),
                None => "trading day counter overflow"@,
            }
        }
}

impl Pipeline {
    /// A pipeline over `store`, with an empty audit log.
    pub fn new(evaluator: Evaluator, store: InMemoryStore) -> (r: Pipeline)
        ensures
            r.evaluator == evaluator,
            r.store == store,
            r.event_store.log() == Seq::<DomainEvent>::empty(),
    {
        Pipeline { evaluator, store, event_store: InMemoryEventStore::new() }
    }

    /// Processes `ev` for the account, whatever its tenant; `reports` are
    /// the rules' reports on the event and `now` the server time. An
    /// unknown account is `NotFound`.
    pub fn process(
        &mut self,
        account_id: AccountId,
        ev: PipelineEvent,
        reports: Vec<RuleReport>,
        now: Timestamp,
    ) -> (r: Result<PipelineResult, Error>)
        requires
            old(self).store.wf(),
            old(self).store.account_for(account_id) matches Some(a) ==> pipeline_fits(
                a,
                ev,
                open_positions_for(old(self).store.positions(), account_id),
                events_of(old(self).event_store.log(), account_id),
                reports@,
                now,
            ),
        ensures
            final(self).store.wf(),
            final(self).evaluator == old(self).evaluator,
            final(self).event_store == old(self).event_store,
            match old(self).store.account_for(account_id) {
                None => r is Err && r->Err_0 is NotFound && r->Err_0->NotFound_0@ == "account "@
                    + uuid_text(account_id.0) && final(self).store == old(self).store,
                Some(a) => processed_in_store(*old(self), *final(self), a, ev, reports@, now, r),
            },
    {
        let account = match self.store.get(account_id) {
            Ok(Some(a)) => a,
            _ => {
                let mut m = "account ".to_string();
                let t = uuid_string(account_id.0);
                append_str(&mut m, t.as_str());
                return Err(Error::NotFound(m));
            },
        };
        let ghost a = self.store.account_for(account_id)->0;
        proof {
            self.store.lemma_held_under_own_id(account_id);
        }
        self.process_loaded(account, Ghost(a), ev, reports, now)
    }

    /// Processes `ev` for the account if it belongs to `tenant_id`; an
    /// unknown account, or another tenant's, is `NotFound`.
    pub fn process_for_tenant(
        &mut self,
        tenant_id: TenantId,
        account_id: AccountId,
        ev: PipelineEvent,
        reports: Vec<RuleReport>,
        now: Timestamp,
    ) -> (r: Result<PipelineResult, Error>)
        requires
            old(self).store.wf(),
            old(self).store.account_for(account_id) matches Some(a) ==> pipeline_fits(
                a,
                ev,
                open_positions_for(old(self).store.positions(), account_id),
                events_of(old(self).event_store.log(), account_id),
                reports@,
                now,
            ),
        ensures
            final(self).store.wf(),
            final(self).evaluator == old(self).evaluator,
            final(self).event_store == old(self).event_store,
            match old(self).store.account_for(account_id) {
                Some(a) => if a.tenant_id == tenant_id {
                    processed_in_store(*old(self), *final(self), a, ev, reports@, now, r)
                } else {
                    r is Err && r->Err_0 is NotFound && r->Err_0->NotFound_0@ == "account "@
                        + uuid_text(account_id.0) + " not found for tenant "@ + uuid_text(tenant_id.0)
                        && final(self).store == old(self).store
                },
                None => r is Err && r->Err_0 is NotFound && r->Err_0->NotFound_0@ == "account "@
                    + uuid_text(account_id.0) + " not found for tenant "@ + uuid_text(tenant_id.0)
                    && final(self).store == old(self).store,
            },
    {
        let account = match self.store.get_for_tenant(tenant_id, account_id) {
            Ok(Some(a)) => a,
            _ => {
                let mut m = "account ".to_string();
                let t = uuid_string(account_id.0);
                append_str(&mut m, t.as_str());
                append_str(&mut m, " not found for tenant ");
                let u = uuid_string(tenant_id.0);
                append_str(&mut m, u.as_str());
                return Err(Error::NotFound(m));
            },
        };
        let ghost a = self.store.account_for(account_id)->0;
        proof {
            self.store.lemma_held_under_own_id(account_id);
        }
        self.process_loaded(account, Ghost(a), ev, reports, now)
    }

    /// Processes `ev` for `account`, a copy of the stored `a`, and writes
    /// the result back.
    fn process_loaded(
        &mut self,
        account: Account,
        Ghost(a): Ghost<Account>,
        ev: PipelineEvent,
        reports: Vec<RuleReport>,
        now: Timestamp,
    ) -> (r: Result<PipelineResult, Error>)
        requires
            old(self).store.wf(),
            old(self).store.account_for(a.id) == Some(a),
            same_account(account, a),
            pipeline_fits(
                a,
                ev,
                open_positions_for(old(self).store.positions(), a.id),
                events_of(old(self).event_store.log(), a.id),
                reports@,
                now,
            ),
        ensures
            final(self).store.wf(),
            final(self).evaluator == old(self).evaluator,
            final(self).event_store == old(self).event_store,
            processed_in_store(*old(self), *final(self), a, ev, reports@, now, r),
    {
        let ghost s0 = *self;
        let ghost b = account;
        let ghost rep = reports@;
        let id = account.id;
        let expected_version = account.version;
        let open_positions = match self.store.open_positions(id) {
            Ok(v) => v,
            Err(e) => {
                return Err(e);
            },
        };
        let history = match self.event_store.all(id) {
            Ok(v) => v,
            Err(e) => {
                return Err(e);
            },
        };
        let recent_events = match self.event_store.recent(id, RECENT_EVENTS) {
            Ok(v) => v,
            Err(e) => {
                return Err(e);
            },
        };
        let ghost open = open_positions@;
        let ghost h = history@;
        let ghost log = events_of(s0.event_store.log(), a.id);
        proof {
            assert(copies_events(h, log));
            assert(same_account(b, a));
            assert(process_fits(b, ev, open, rep, now));
        }
        let event_ts = ev.event_timestamp_at(now);
        let day_start = account.plan.trading_day_start(event_ts);
        let today_trades = match self.store.today_trades_since(id, day_start) {
            Ok(v) => v,
            Err(e) => {
                return Err(e);
            },
        };
        let processed = match process_with_loaded_account(
            &self.evaluator,
            account,
            &ev,
            open_positions,
            today_trades,
            recent_events,
            &history,
            reports,
            now,
        ) {
            Ok(p) => p,
            Err(e) => {
                return Err(e);
            },
        };
        let ghost p = processed;
        let Processed { state, events, result, trade_fill, open_positions: _ } = processed;
        let snapshot = Snapshot::new(&state.account, result.decision.clone());
        let ghost stored = s0.store.accounts();
        proof {
            assert(stored.contains_key(state.account.id.0));
            assert(stored[state.account.id.0].version == expected_version);
        }
        let written_back = match trade_fill {
            Some((trade, position)) => self.store.ingest_trade_fill(
                trade,
                position,
                state.account,
                expected_version,
                &events,
            ),
            None => self.store.put_with_version_and_events(state.account, expected_version, &events),
        };
        match written_back {
            Ok(()) => {},
            Err(e) => {
                return Err(e);
            },
        }
        let res = PipelineResult { snapshot, events, result };
        proof {
            assert(processed_as(b, ev, open, h, rep, now, p));
            assert(returns_processed(res, p));
        }
        Ok(res)
    }
}

} // verus!
