//! In-memory account store: accounts keyed by id with optimistic
//! concurrency, positions and trades per account, tenant-scoped reads.
use crate::account::{same_account, Account};
use crate::error::Error;
use crate::events::DomainEvent;
use crate::ids::{AccountId, PositionId, TenantId};
use crate::market::{position_open, Position, PositionStatus, Trade};
use crate::types::{now_millis, Timestamp};
use std::collections::HashMap;
use vstd::prelude::*;

verus! {

/// The positions of an account, in insertion order.
pub open spec fn positions_of(s: Seq<Position>, id: AccountId) -> Seq<Position>
    decreases s.len(),
{
    if s.len() == 0 {
        Seq::empty()
    } else if s.last().account_id == id {
        positions_of(s.drop_last(), id).push(s.last())
    } else {
        positions_of(s.drop_last(), id)
    }
}

/// The open positions of an account, in insertion order.
pub open spec fn open_positions_for(s: Seq<Position>, id: AccountId) -> Seq<Position>
    decreases s.len(),
{
    if s.len() == 0 {
        Seq::empty()
    } else if s.last().account_id == id && position_open(s.last()) {
        open_positions_for(s.drop_last(), id).push(s.last())
    } else {
        open_positions_for(s.drop_last(), id)
    }
}

/// The positions not belonging to an account.
pub open spec fn positions_except(s: Seq<Position>, id: AccountId) -> Seq<Position>
    decreases s.len(),
{
    if s.len() == 0 {
        Seq::empty()
    } else if s.last().account_id != id {
        positions_except(s.drop_last(), id).push(s.last())
    } else {
        positions_except(s.drop_last(), id)
    }
}

/// The trades of an account executed at or after `since` (all of them
/// for `None`), in insertion order.
pub open spec fn trades_of(s: Seq<Trade>, id: AccountId, since: Option<Timestamp>) -> Seq<Trade>
    decreases s.len(),
{
    if s.len() == 0 {
        Seq::empty()
    } else if s.last().account_id == id && (since matches Some(t) ==> s.last().executed_at >= t) {
        trades_of(s.drop_last(), id, since).push(s.last())
    } else {
        trades_of(s.drop_last(), id, since)
    }
}

/// The trades not belonging to an account.
pub open spec fn trades_except(s: Seq<Trade>, id: AccountId) -> Seq<Trade>
    decreases s.len(),
{
    if s.len() == 0 {
        Seq::empty()
    } else if s.last().account_id != id {
        trades_except(s.drop_last(), id).push(s.last())
    } else {
        trades_except(s.drop_last(), id)
    }
}

/// Index of the first position of account `acc` with id `pid` (`-1`
/// when there is none).
pub open spec fn slot_of(s: Seq<Position>, acc: AccountId, pid: PositionId) -> int
    decreases s.len(),
{
    if s.len() == 0 {
        -1
    } else if s[0].account_id == acc && s[0].id == pid {
        0
    } else {
        let k = slot_of(s.drop_first(), acc, pid);
        if k < 0 {
            -1
        } else {
            k + 1
        }
    }
}

/// Index of the first position with id `pid`, whatever its account.
pub open spec fn slot_of_id(s: Seq<Position>, pid: PositionId) -> int
    decreases s.len(),
{
    if s.len() == 0 {
        -1
    } else if s[0].id == pid {
        0
    } else {
        let k = slot_of_id(s.drop_first(), pid);
        if k < 0 {
            -1
        } else {
            k + 1
        }
    }
}

/// The positions after an upsert: the account's position with the same
/// id is replaced, or the position is appended.
pub open spec fn upserted(s: Seq<Position>, p: Position) -> Seq<Position> {
    let k = slot_of(s, p.account_id, p.id);
    if k >= 0 {
        s.update(k, p)
    } else {
        s.push(p)
    }
}

proof fn lemma_slot_range(s: Seq<Position>, acc: AccountId, pid: PositionId)
    ensures
        -1 <= slot_of(s, acc, pid) < s.len(),
        slot_of(s, acc, pid) >= 0 ==> s[slot_of(s, acc, pid)].account_id == acc && s[slot_of(
            s,
            acc,
            pid,
        )].id == pid,
    decreases s.len(),
{
    if s.len() > 0 {
        lemma_slot_range(s.drop_first(), acc, pid);
    }
}

proof fn lemma_slot_id_range(s: Seq<Position>, pid: PositionId)
    ensures
        -1 <= slot_of_id(s, pid) < s.len(),
        slot_of_id(s, pid) >= 0 ==> s[slot_of_id(s, pid)].id == pid,
    decreases s.len(),
{
    if s.len() > 0 {
        lemma_slot_id_range(s.drop_first(), pid);
    }
}

/// Accounts, positions and fills held in memory.
#[derive(Debug)]
pub struct InMemoryStore {
    accounts: HashMap<u128, Account>,
    positions: Vec<Position>,
    trades: Vec<Trade>,
}

/// The outcome of an optimistic-concurrency write of `account` expecting
/// `expected`: `NotFound` for an unknown account, `StateConflict` with the
/// expected and stored versions on a mismatch (both leaving the accounts
/// unchanged), otherwise the account stored with version `expected + 1`
/// (wrapping).
pub open spec fn occ_write(
    before: Map<u128, Account>,
    after: Map<u128, Account>,
    account: Account,
    expected: u64,
    r: Result<(), Error>,
) -> bool {
    if !before.contains_key(account.id.0) {
        r is Err && r->Err_0 is NotFound && r->Err_0->NotFound_0@ == "account not found"@ && after == before
    } else if before[account.id.0].version != expected {
        &&& r is Err
        &&& r->Err_0 is StateConflict
        &&& r->Err_0->StateConflict_0@ == "account version conflict"@
        &&& r->Err_0->StateConflict_1 == expected
        &&& r->Err_0->StateConflict_2 == before[account.id.0].version
        &&& after == before
    } else {
        r is Ok && after == before.insert(
            account.id.0,
            Account { version: expected.wrapping_add(1), ..account },
        )
    }
}

/// Optimistic concurrency: of two writers holding the same expected
/// version of an account, once the first has written, the second gets a
/// version conflict and changes nothing (no last-write-wins).
pub proof fn law_second_writer_conflicts(
    s0: Map<u128, Account>,
    s1: Map<u128, Account>,
    s2: Map<u128, Account>,
    first: Account,
    second: Account,
    expected: u64,
    r1: Result<(), Error>,
    r2: Result<(), Error>,
)
    requires
        occ_write(s0, s1, first, expected, r1),
        r1 is Ok,
        occ_write(s1, s2, second, expected, r2),
        second.id == first.id,
    ensures
        r2 is Err && r2->Err_0 is StateConflict,
        s2 == s1,
{
    assert(s1.contains_key(first.id.0));
    assert(s1[first.id.0].version == expected.wrapping_add(1));
    assert(expected.wrapping_add(1) != expected);
}

impl InMemoryStore {
    /// Accounts by raw id.
    pub closed spec fn accounts(&self) -> Map<u128, Account> {
        self.accounts@
    }

    /// All positions, in insertion order.
    pub closed spec fn positions(&self) -> Seq<Position> {
        self.positions@
    }

    /// All fills, in insertion order.
    pub closed spec fn trades(&self) -> Seq<Trade> {
        self.trades@
    }

    /// Every account is held under its own id.
    pub closed spec fn wf(&self) -> bool {
        forall|k: u128| #[trigger] self.accounts@.contains_key(k) ==> self.accounts@[k].id.0 == k
    }

    /// The account held under `id`, if any.
    pub open spec fn account_for(&self, id: AccountId) -> Option<Account> {
        if self.accounts().contains_key(id.0) {
            Some(self.accounts()[id.0])
        } else {
            None
        }
    }

    /// In a well-formed store an account is held under its own id.
    pub proof fn lemma_held_under_own_id(&self, id: AccountId)
        requires
            self.wf(),
        ensures
            self.account_for(id) matches Some(a) ==> a.id == id,
    {
    }

    /// An empty store.
    pub fn new() -> (r: InMemoryStore)
        ensures
            r.wf(),
            r.accounts() == Map::<u128, Account>::empty(),
            r.positions() == Seq::<Position>::empty(),
            r.trades() == Seq::<Trade>::empty(),
    {
        InMemoryStore { accounts: HashMap::new(), positions: Vec::new(), trades: Vec::new() }
    }

    /// A copy of the account, whatever its tenant.
    pub fn get(&self, id: AccountId) -> (r: Result<Option<Account>, Error>)
        ensures
            r is Ok,
            self.account_for(id) is None ==> r->Ok_0 is None,
            self.account_for(id) matches Some(a) ==> r->Ok_0 matches Some(b) && same_account(b, a),
    {
        match self.accounts.get(&id.0) {
            Some(a) => Ok(Some(a.clone())),
            None => Ok(None),
        }
    }

    /// A copy of the account if it belongs to `tenant_id`; `None` when it
    /// is absent or another tenant's.
    pub fn get_for_tenant(&self, tenant_id: TenantId, id: AccountId) -> (r: Result<
        Option<Account>,
        Error,
    >)
        ensures
            r is Ok,
            (match self.account_for(id) {
                Some(a) => if a.tenant_id == tenant_id {
                    r->Ok_0 is Some && same_account(r->Ok_0->0, a)
                } else {
                    r->Ok_0 is None
                },
                None => r->Ok_0 is None,
            }),
    {
        match self.accounts.get(&id.0) {
            Some(a) => if a.tenant_id == tenant_id {
                Ok(Some(a.clone()))
            } else {
                Ok(None)
            },
            None => Ok(None),
        }
    }

    /// Last-write-wins: a known account is replaced with its stored
    /// version plus one (wrapping); a new account is stored as given.
    pub fn put(&mut self, account: Account) -> (r: Result<(), Error>)
        requires
            old(self).wf(),
        ensures
            r is Ok,
            final(self).wf(),
            final(self).positions() == old(self).positions(),
            final(self).trades() == old(self).trades(),
            final(self).accounts().dom() == old(self).accounts().dom().insert(account.id.0),
            forall|k: u128| k != account.id.0 && #[trigger] old(self).accounts().contains_key(k) ==> final(self).accounts()[k] == old(self).accounts()[k],
            old(self).account_for(account.id) matches Some(e) ==> final(self).accounts()[account.id.0] == (Account { version: e.version.wrapping_add(1), ..account }),
            old(self).account_for(account.id) is None ==> final(self).accounts()[account.id.0] == account,
    {
        let key = account.id.0;
        let version = match self.accounts.get(&key) {
            Some(e) => Some(e.version.wrapping_add(1)),
            None => None,
        };
        let mut updated = account;
        match version {
            Some(v) => {
                updated.version = v;
            },
            None => {},
        }
        self.accounts.insert(key, updated);
        Ok(())
    }

    /// Optimistic-concurrency write: fails with `NotFound` for an unknown
    /// account and with `StateConflict(_, expected, stored)` when the
    /// stored version differs; otherwise stores the account with version
    /// `expected + 1` (wrapping).
    pub fn put_with_version(&mut self, account: Account, expected_version: u64) -> (r: Result<
        (),
        Error,
    >)
        requires
            old(self).wf(),
        ensures
            final(self).wf(),
            final(self).positions() == old(self).positions(),
            final(self).trades() == old(self).trades(),
            occ_write(old(self).accounts(), final(self).accounts(), account, expected_version, r),
    {
        let key = account.id.0;
        let found = match self.accounts.get(&key) {
            Some(e) => e.version,
            None => {
                return Err(Error::not_found("account not found"));
            },
        };
        if found != expected_version {
            return Err(Error::StateConflict("account version conflict".to_string(), expected_version, found));
        }
        let mut updated = account;
        updated.version = expected_version.wrapping_add(1);
        self.accounts.insert(key, updated);
        Ok(())
    }

    /// Optimistic-concurrency write together with the events of the
    /// change; the in-memory store keeps no event log, so this is
    /// [`InMemoryStore::put_with_version`].
    pub fn put_with_version_and_events(
        &mut self,
        account: Account,
        expected_version: u64,
        events: &Vec<DomainEvent>,
    ) -> (r: Result<(), Error>)
        requires
            old(self).wf(),
        ensures
            final(self).wf(),
            final(self).positions() == old(self).positions(),
            final(self).trades() == old(self).trades(),
            occ_write(old(self).accounts(), final(self).accounts(), account, expected_version, r),
    {
        self.put_with_version(account, expected_version)
    }

    /// Deletes an account with its positions and fills, unless it belongs
    /// to another tenant (then nothing changes).
    pub fn delete(&mut self, tenant_id: TenantId, id: AccountId) -> (r: Result<(), Error>)
        requires
            old(self).wf(),
        ensures
            r is Ok,
            final(self).wf(),
            (old(self).accounts().contains_key(id.0) && old(self).accounts()[id.0].tenant_id
                != tenant_id) ==> (final(self).accounts() == old(self).accounts()
                && final(self).positions() == old(self).positions() && final(self).trades()
                == old(self).trades()),
            !(old(self).accounts().contains_key(id.0) && old(self).accounts()[id.0].tenant_id
                != tenant_id) ==> (final(self).accounts() == old(self).accounts().remove(id.0)
                && final(self).positions() == positions_except(old(self).positions(), id)
                && final(self).trades() == trades_except(old(self).trades(), id)),
    {
        match self.accounts.get(&id.0) {
            Some(a) => {
                if a.tenant_id != tenant_id {
                    return Ok(());
                }
            },
            None => {},
        }
        self.accounts.remove(&id.0);
        let mut kept: Vec<Position> = Vec::new();
        let mut i: usize = 0;
        while i < self.positions.len()
            invariant
                i <= self.positions@.len(),
                kept@ == positions_except(self.positions@.take(i as int), id),
            decreases self.positions@.len() - i,
        {
            assert(self.positions@.take(i + 1).drop_last() == self.positions@.take(i as int));
            if self.positions[i].account_id != id {
                kept.push(self.positions[i].clone());
            }
            i = i + 1;
        }
        assert(self.positions@.take(self.positions@.len() as int) == self.positions@);
        let mut kept_trades: Vec<Trade> = Vec::new();
        let mut j: usize = 0;
        while j < self.trades.len()
            invariant
                j <= self.trades@.len(),
                kept_trades@ == trades_except(self.trades@.take(j as int), id),
            decreases self.trades@.len() - j,
        {
            assert(self.trades@.take(j + 1).drop_last() == self.trades@.take(j as int));
            if self.trades[j].account_id != id {
                kept_trades.push(self.trades[j].clone());
            }
            j = j + 1;
        }
        assert(self.trades@.take(self.trades@.len() as int) == self.trades@);
        self.positions = kept;
        self.trades = kept_trades;
        Ok(())
    }

    /// Copies of the open positions of an account, in insertion order.
    pub fn open_positions(&self, id: AccountId) -> (r: Result<Vec<Position>, Error>)
        ensures
            r is Ok,
            r->Ok_0@ == open_positions_for(self.positions(), id),
    {
        let mut out: Vec<Position> = Vec::new();
        let mut i: usize = 0;
        while i < self.positions.len()
            invariant
                i <= self.positions@.len(),
                out@ == open_positions_for(self.positions@.take(i as int), id),
            decreases self.positions@.len() - i,
        {
            assert(self.positions@.take(i + 1).drop_last() == self.positions@.take(i as int));
            if self.positions[i].account_id == id && self.positions[i].is_open() {
                out.push(self.positions[i].clone());
            }
            i = i + 1;
        }
        assert(self.positions@.take(self.positions@.len() as int) == self.positions@);
        Ok(out)
    }

    /// Appends a position.
    pub fn add_position(&mut self, position: Position) -> (r: Result<(), Error>)
        ensures
            r is Ok,
            final(self).positions() == old(self).positions().push(position),
            final(self).accounts() == old(self).accounts(),
            final(self).trades() == old(self).trades(),
            final(self).wf() == old(self).wf(),
    {
        self.positions.push(position);
        Ok(())
    }

    /// Replaces the account's position with the same id, or appends it.
    pub fn update_position(&mut self, position: Position) -> (r: Result<(), Error>)
        ensures
            r is Ok,
            final(self).positions() == upserted(old(self).positions(), position),
            final(self).accounts() == old(self).accounts(),
            final(self).trades() == old(self).trades(),
            final(self).wf() == old(self).wf(),
    {
        let mut i: usize = 0;
        assert(self.positions@.skip(0) == self.positions@);
        while i < self.positions.len()
            invariant
                i <= self.positions@.len(),
                self.positions@ == old(self).positions@,
                self.accounts@ == old(self).accounts@,
                self.trades@ == old(self).trades@,
                slot_of(self.positions@, position.account_id, position.id) == (if slot_of(
                    self.positions@.skip(i as int),
                    position.account_id,
                    position.id,
                ) < 0 {
                    -1
                } else {
                    slot_of(self.positions@.skip(i as int), position.account_id, position.id) + i
                }),
            decreases self.positions@.len() - i,
        {
            assert(self.positions@.skip(i as int)[0] == self.positions@[i as int]);
            assert(self.positions@.skip(i as int).drop_first() == self.positions@.skip(i + 1));
            if self.positions[i].account_id == position.account_id && self.positions[i].id
                == position.id {
                self.positions.set(i, position);
                return Ok(());
            }
            i = i + 1;
        }
        assert(self.positions@.skip(i as int) == Seq::<Position>::empty());
        self.positions.push(position);
        Ok(())
    }

    /// Closes the first position with the given id (status `Closed`,
    /// closing time read from the clock); `NotFound` when there is none.
    pub fn close_position(&mut self, position_id: PositionId) -> (r: Result<(), Error>)
        ensures
            final(self).accounts() == old(self).accounts(),
            final(self).trades() == old(self).trades(),
            final(self).wf() == old(self).wf(),
            slot_of_id(old(self).positions(), position_id) < 0 ==> r is Err && r->Err_0 is NotFound && r->Err_0->NotFound_0@ == "position not found"@ && final(self).positions() == old(self).positions(),
            slot_of_id(old(self).positions(), position_id) >= 0 ==> r is Ok && final(self).positions().len() == old(self).positions().len() && (forall|i: int| 0 <= i < old(self).positions().len() && i != slot_of_id(old(self).positions(), position_id) ==> #[trigger] final(self).positions()[i] == old(self).positions()[i]) && ({
                let p = old(self).positions()[slot_of_id(old(self).positions(), position_id)];
                let q = final(self).positions()[slot_of_id(old(self).positions(), position_id)];
                q == Position { status: PositionStatus::Closed, closed_at: q.closed_at, ..p } && q.closed_at is Some
            }),
    {
        let mut i: usize = 0;
        assert(self.positions@.skip(0) == self.positions@);
        while i < self.positions.len()
            invariant
                i <= self.positions@.len(),
                self.positions@ == old(self).positions@,
                self.accounts@ == old(self).accounts@,
                self.trades@ == old(self).trades@,
                slot_of_id(self.positions@, position_id) == (if slot_of_id(
                    self.positions@.skip(i as int),
                    position_id,
                ) < 0 {
                    -1
                } else {
                    slot_of_id(self.positions@.skip(i as int), position_id) + i
                }),
            decreases self.positions@.len() - i,
        {
            assert(self.positions@.skip(i as int)[0] == self.positions@[i as int]);
            assert(self.positions@.skip(i as int).drop_first() == self.positions@.skip(i + 1));
            if self.positions[i].id == position_id {
                let mut p = self.positions[i].clone();
                p.status = PositionStatus::Closed;
                p.closed_at = Some(now_millis());
                self.positions.set(i, p);
                return Ok(());
            }
            i = i + 1;
        }
        assert(self.positions@.skip(i as int) == Seq::<Position>::empty());
        Err(Error::not_found("position not found"))
    }

    /// Copies of the account's fills executed at or after `since`.
    pub fn today_trades_since(&self, id: AccountId, since: Timestamp) -> (r: Result<Vec<Trade>, Error>)
        ensures
            r is Ok,
            r->Ok_0@ == trades_of(self.trades(), id, Some(since)),
    {
        self.collect_trades(id, Some(since))
    }

    /// Copies of all fills of the account.
    pub fn all_trades(&self, id: AccountId) -> (r: Result<Vec<Trade>, Error>)
        ensures
            r is Ok,
            r->Ok_0@ == trades_of(self.trades(), id, None),
    {
        self.collect_trades(id, None)
    }

    fn collect_trades(&self, id: AccountId, since: Option<Timestamp>) -> (r: Result<Vec<Trade>, Error>)
        ensures
            r is Ok,
            r->Ok_0@ == trades_of(self.trades(), id, since),
    {
        let mut out: Vec<Trade> = Vec::new();
        let mut i: usize = 0;
        while i < self.trades.len()
            invariant
                i <= self.trades@.len(),
                out@ == trades_of(self.trades@.take(i as int), id, since),
            decreases self.trades@.len() - i,
        {
            assert(self.trades@.take(i + 1).drop_last() == self.trades@.take(i as int));
            let t = &self.trades[i];
            let recent = match since {
                Some(s) => t.executed_at >= s,
                None => true,
            };
            if t.account_id == id && recent {
                out.push(t.clone());
            }
            i = i + 1;
        }
        assert(self.trades@.take(self.trades@.len() as int) == self.trades@);
        Ok(out)
    }

    /// Appends a fill.
    pub fn add_trade(&mut self, trade: Trade) -> (r: Result<(), Error>)
        ensures
            r is Ok,
            final(self).trades() == old(self).trades().push(trade),
            final(self).accounts() == old(self).accounts(),
            final(self).positions() == old(self).positions(),
            final(self).wf() == old(self).wf(),
    {
        self.trades.push(trade);
        Ok(())
    }

    /// Appends a fill and upserts its position.
    pub fn add_trade_and_update_position(&mut self, trade: Trade, position: Position) -> (r: Result<
        (),
        Error,
    >)
        ensures
            r is Ok,
            final(self).trades() == old(self).trades().push(trade),
            final(self).positions() == upserted(old(self).positions(), position),
            final(self).accounts() == old(self).accounts(),
            final(self).wf() == old(self).wf(),
    {
        self.trades.push(trade);
        self.update_position(position)
    }

    /// Persists a fill atomically with the account change: the
    /// optimistic-concurrency write first, then (only if it succeeded)
    /// the fill and its position.
    pub fn ingest_trade_fill(
        &mut self,
        trade: Trade,
        position: Position,
        account: Account,
        expected_version: u64,
        events: &Vec<DomainEvent>,
    ) -> (r: Result<(), Error>)
        requires
            old(self).wf(),
        ensures
            final(self).wf(),
            r is Ok <==> (old(self).accounts().contains_key(account.id.0) && old(self).accounts()[account.id.0].version == expected_version),
            r is Ok ==> final(self).accounts() == old(self).accounts().insert(account.id.0, Account { version: expected_version.wrapping_add(1), ..account }) && final(self).trades() == old(self).trades().push(trade) && final(self).positions() == upserted(old(self).positions(), position),
            r is Err ==> final(self).accounts() == old(self).accounts() && final(self).trades() == old(self).trades() && final(self).positions() == old(self).positions(),
    {
        match self.put_with_version_and_events(account, expected_version, events) {
            Ok(()) => {},
            Err(e) => {
                return Err(e);
            },
        }
        self.add_trade_and_update_position(trade, position)
    }
}

} // verus!
