//! Idempotency store: the first response to `(tenant, endpoint, key)` is
//! kept and replayed on retries; a retry with a different request body
//! is a conflict. Bounded (least-recently-remembered entries are evicted)
//! and time-limited (expired entries are dropped).
use crate::auth::{hex_chars, hex_digit, hex_fmt, sha256_digest, sha256_of};
use crate::ids::TenantId;
use crate::text::{append_char, append_str};
use crate::types::now_millis;
use vstd::prelude::*;
use vstd::string::StringSliceAdditionalSpecFns;

verus! {

/// The result of an idempotency lookup.
#[derive(Debug, PartialEq, Eq)]
pub enum IdempotencyOutcome {
    /// No prior request: execute, then remember the response.
    Fresh,
    /// Same key and body seen before: replay this response.
    Replay(String),
    /// Same key with a different body: reject, never apply twice.
    Conflict,
    /// The backend could not decide.
    Error,
}

/// Hex SHA-256 of a request body, hashed as `str`'s `Hash` feeds a
/// hasher: the UTF-8 bytes followed by `0xff`.
pub open spec fn body_hash_of(body: Seq<char>) -> Seq<char> {
    hex_chars(sha256_of(vstd::utf8::encode_utf8(body).push(0xffu8)))
}

/// Hex SHA-256 of a request body (its bytes and a `0xff` terminator).
pub fn hash_body(body: &str) -> (r: String)
    ensures
        r@ == body_hash_of(body@),
{
    let bytes = body.as_bytes();
    let mut data: Vec<u8> = Vec::new();
    let mut i: usize = 0;
    while i < bytes.len()
        invariant
            i <= bytes@.len(),
            data@ == bytes@.take(i as int),
        decreases bytes@.len() - i,
    {
        data.push(bytes[i]);
        assert(bytes@.take(i + 1) == bytes@.take(i as int).push(bytes@[i as int]));
        i = i + 1;
    }
    assert(bytes@.take(bytes@.len() as int) == bytes@);
    data.push(0xffu8);
    let d = sha256_digest(data.as_slice());
    hex_fmt(d.as_slice())
}

/// The `n` low-order hex digits of `u`, most significant first.
pub open spec fn hex_of(u: nat, n: nat) -> Seq<char>
    decreases n,
{
    if n == 0 {
        Seq::empty()
    } else {
        hex_of(u / 16, (n - 1) as nat).push(hex_digit((u % 16) as int))
    }
}

/// `16^n`.
pub open spec fn pow16(n: nat) -> nat
    decreases n,
{
    if n == 0 {
        1
    } else {
        16 * pow16((n - 1) as nat)
    }
}

/// The hyphenated lower-case text of a UUID, as `uuid::Uuid` displays it:
/// its 32 hex digits, most significant first, grouped 8-4-4-4-12.
pub open spec fn uuid_text(u: u128) -> Seq<char> {
    let h = hex_of(u as nat, 32);
    h.subrange(0, 8) + seq!['-'] + h.subrange(8, 12) + seq!['-'] + h.subrange(12, 16) + seq!['-']
        + h.subrange(16, 20) + seq!['-'] + h.subrange(20, 32)
}

proof fn lemma_hex_digit_injective(a: int, b: int)
    requires
        0 <= a < 16,
        0 <= b < 16,
        hex_digit(a) == hex_digit(b),
    ensures
        a == b,
{
    assert((hex_digit(a) as int) == (if a < 10 { 48 + a } else { 87 + a }));
    assert((hex_digit(b) as int) == (if b < 10 { 48 + b } else { 87 + b }));
}

proof fn lemma_hex_of(u: nat, v: nat, n: nat)
    requires
        u < pow16(n),
        v < pow16(n),
    ensures
        hex_of(u, n).len() == n,
        hex_of(u, n) == hex_of(v, n) ==> u == v,
    decreases n,
{
    if n > 0 {
        let m = (n - 1) as nat;
        assert(u / 16 < pow16(m)) by (nonlinear_arith)
            requires
                u < 16 * pow16(m),
        ;
        assert(v / 16 < pow16(m)) by (nonlinear_arith)
            requires
                v < 16 * pow16(m),
        ;
        lemma_hex_of(u / 16, v / 16, m);
        if hex_of(u, n) == hex_of(v, n) {
            assert(hex_of(u / 16, m) == hex_of(u, n).drop_last());
            assert(hex_of(v / 16, m) == hex_of(v, n).drop_last());
            assert(hex_of(u, n).last() == hex_digit((u % 16) as int));
            assert(hex_of(v, n).last() == hex_digit((v % 16) as int));
            lemma_hex_digit_injective((u % 16) as int, (v % 16) as int);
            assert(u == 16 * (u / 16) + u % 16) by (nonlinear_arith);
            assert(v == 16 * (v / 16) + v % 16) by (nonlinear_arith);
        }
    }
}

/// The text of a UUID has 36 characters and tells UUIDs apart.
pub proof fn lemma_uuid_text(u: u128, v: u128)
    ensures
        uuid_text(u).len() == 36,
        uuid_text(u) == uuid_text(v) ==> u == v,
{
    assert(pow16(32) == 0x1_0000_0000_0000_0000_0000_0000_0000_0000) by {
        reveal_with_fuel(pow16, 33);
    }
    lemma_hex_of(u as nat, v as nat, 32);
    lemma_hex_of(v as nat, u as nat, 32);
    let h = hex_of(u as nat, 32);
    let g = hex_of(v as nat, 32);
    let t = uuid_text(u);
    let t2 = uuid_text(v);
    assert(h =~= t.subrange(0, 8) + t.subrange(9, 13) + t.subrange(14, 18) + t.subrange(19, 23)
        + t.subrange(24, 36));
    assert(g =~= t2.subrange(0, 8) + t2.subrange(9, 13) + t2.subrange(14, 18) + t2.subrange(19, 23)
        + t2.subrange(24, 36));
}

/// Formats a UUID value with `uuid::Uuid::from_u128(..).to_string()`,
/// which writes the hyphenated lower-case form [`uuid_text`].
#[verifier::external_body]
pub(crate) fn uuid_string(u: u128) -> (r: String)
    ensures
        r@ == uuid_text(u),
{
    uuid::Uuid::from_u128(u).to_string()
}

/// The store key of `(tenant, endpoint, key)`: the three joined by NUL.
pub open spec fn scoped_key(tenant: TenantId, endpoint: Seq<char>, key: Seq<char>) -> Seq<char> {
    uuid_text(tenant.0) + seq!['\0'] + endpoint + seq!['\0'] + key
}

/// Builds the store key of `(tenant, endpoint, key)`.
pub fn scoped_key_of(tenant: TenantId, endpoint: &str, key: &str) -> (r: String)
    ensures
        r@ == scoped_key(tenant, endpoint@, key@),
{
    let mut s = uuid_string(tenant.0);
    append_char(&mut s, '\0');
    append_str(&mut s, endpoint);
    append_char(&mut s, '\0');
    append_str(&mut s, key);
    s
}

/// One remembered response.
#[derive(Debug)]
pub struct IdemEntry {
    pub key: String,
    pub body_hash: String,
    pub response: String,
    /// When it was remembered (milliseconds).
    pub inserted_at: i64,
}

impl Clone for IdemEntry {
    fn clone(&self) -> (r: IdemEntry)
        ensures
            r == *self,
    {
        IdemEntry {
            key: self.key.clone(),
            body_hash: self.body_hash.clone(),
            response: self.response.clone(),
            inserted_at: self.inserted_at,
        }
    }
}

/// An entry as texts and time.
pub open spec fn entry_of(e: IdemEntry) -> (Seq<char>, Seq<char>, Seq<char>, i64) {
    (e.key@, e.body_hash@, e.response@, e.inserted_at)
}

/// Entries as texts and times, least recently remembered first.
pub open spec fn entries_of(s: Seq<IdemEntry>) -> Seq<(Seq<char>, Seq<char>, Seq<char>, i64)> {
    s.map_values(|e: IdemEntry| entry_of(e))
}

/// An entry remembered at `t` has expired at `now` when more than `ttl`
/// milliseconds have passed.
pub open spec fn expired(t: i64, now: i64, ttl: i64) -> bool {
    now - t > ttl
}

/// The entries still live at `now`, in order.
pub open spec fn live(s: Seq<(Seq<char>, Seq<char>, Seq<char>, i64)>, now: i64, ttl: i64) -> Seq<
    (Seq<char>, Seq<char>, Seq<char>, i64),
>
    decreases s.len(),
{
    if s.len() == 0 {
        Seq::empty()
    } else if expired(s.last().3, now, ttl) {
        live(s.drop_last(), now, ttl)
    } else {
        live(s.drop_last(), now, ttl).push(s.last())
    }
}

/// The entries without those of `key`, in order.
pub open spec fn without_key(s: Seq<(Seq<char>, Seq<char>, Seq<char>, i64)>, key: Seq<char>) -> Seq<
    (Seq<char>, Seq<char>, Seq<char>, i64),
>
    decreases s.len(),
{
    if s.len() == 0 {
        Seq::empty()
    } else if s.last().0 == key {
        without_key(s.drop_last(), key)
    } else {
        without_key(s.drop_last(), key).push(s.last())
    }
}

/// The last entry of `key` (`None` when absent).
pub open spec fn lookup_key(s: Seq<(Seq<char>, Seq<char>, Seq<char>, i64)>, key: Seq<char>) -> Option<
    (Seq<char>, Seq<char>, Seq<char>, i64),
>
    decreases s.len(),
{
    if s.len() == 0 {
        None
    } else if s.last().0 == key {
        Some(s.last())
    } else {
        lookup_key(s.drop_last(), key)
    }
}

/// The entries after remembering `e`: its key's old entry removed, `e`
/// appended, and the oldest entries dropped beyond `capacity`.
pub open spec fn remembered(
    s: Seq<(Seq<char>, Seq<char>, Seq<char>, i64)>,
    e: (Seq<char>, Seq<char>, Seq<char>, i64),
    capacity: int,
) -> Seq<(Seq<char>, Seq<char>, Seq<char>, i64)> {
    let t = without_key(s, e.0).push(e);
    if t.len() > capacity {
        t.skip(t.len() - capacity)
    } else {
        t
    }
}

/// The outcome of looking up `key` with body hash `hash` among `s`.
pub open spec fn lookup_outcome(
    s: Seq<(Seq<char>, Seq<char>, Seq<char>, i64)>,
    key: Seq<char>,
    hash: Seq<char>,
    r: IdempotencyOutcome,
) -> bool {
    match lookup_key(s, key) {
        Some(e) => if e.1 == hash {
            r matches IdempotencyOutcome::Replay(resp) && resp@ == e.2
        } else {
            r is Conflict
        },
        None => r is Fresh,
    }
}

/// Bounded, time-limited idempotency store.
#[derive(Debug)]
pub struct IdempotencyStore {
    entries: Vec<IdemEntry>,
    capacity: usize,
    ttl_ms: i64,
}

impl IdempotencyStore {
    /// The remembered entries, least recently remembered first.
    pub closed spec fn view_entries(&self) -> Seq<(Seq<char>, Seq<char>, Seq<char>, i64)> {
        entries_of(self.entries@)
    }

    /// Maximum number of entries.
    pub closed spec fn cap(&self) -> usize {
        self.capacity
    }

    /// Time to live in milliseconds.
    pub closed spec fn ttl(&self) -> i64 {
        self.ttl_ms
    }

    /// A store of at most `capacity` entries living `ttl_ms` milliseconds.
    pub fn new(capacity: usize, ttl_ms: i64) -> (r: IdempotencyStore)
        ensures
            r.view_entries() == Seq::<(Seq<char>, Seq<char>, Seq<char>, i64)>::empty(),
            r.cap() == capacity,
            r.ttl() == ttl_ms,
    {
        IdempotencyStore { entries: Vec::new(), capacity, ttl_ms }
    }

    /// Production settings: 10,000 keys for 24 hours.
    pub fn with_defaults() -> (r: IdempotencyStore)
        ensures
            r.view_entries() == Seq::<(Seq<char>, Seq<char>, Seq<char>, i64)>::empty(),
            r.cap() == 10_000,
            r.ttl() == 86_400_000,
    {
        IdempotencyStore::new(10_000, 86_400_000)
    }

    /// Drops the entries expired at `now`.
    pub fn prune_at(&mut self, now: i64)
        ensures
            final(self).view_entries() == live(old(self).view_entries(), now, old(self).ttl()),
            final(self).cap() == old(self).cap(),
            final(self).ttl() == old(self).ttl(),
    {
        let mut kept: Vec<IdemEntry> = Vec::new();
        let mut i: usize = 0;
        while i < self.entries.len()
            invariant
                i <= self.entries@.len(),
                entries_of(kept@) == live(entries_of(self.entries@).take(i as int), now, self.ttl_ms),
            decreases self.entries@.len() - i,
        {
            proof {
                assert(entries_of(self.entries@).take(i + 1).drop_last() == entries_of(self.entries@).take(i as int));
                assert(entries_of(self.entries@).take(i + 1).last() == entry_of(self.entries@[i as int]));
            }
            let t = self.entries[i].inserted_at;
            if !((now as i128) - (t as i128) > (self.ttl_ms as i128)) {
                kept.push(self.entries[i].clone());
                proof {
                    assert(entries_of(kept@) == entries_of(kept@.drop_last()).push(entry_of(kept@.last())));
                }
            }
            i = i + 1;
        }
        proof {
            assert(entries_of(self.entries@).take(self.entries@.len() as int) == entries_of(self.entries@));
        }
        self.entries = kept;
    }

    /// Looks up a store key against a body hash at time `now`, dropping
    /// the expired entries first.
    pub fn check_at(&mut self, ckey: &str, body_hash: &str, now: i64) -> (r: IdempotencyOutcome)
        ensures
            final(self).view_entries() == live(old(self).view_entries(), now, old(self).ttl()),
            final(self).cap() == old(self).cap(),
            final(self).ttl() == old(self).ttl(),
            lookup_outcome(final(self).view_entries(), ckey@, body_hash@, r),
    {
        self.prune_at(now);
        let mut i = self.entries.len();
        assert(entries_of(self.entries@).take(self.entries@.len() as int) == entries_of(self.entries@));
        while i > 0
            invariant
                i <= self.entries@.len(),
                entries_of(self.entries@) == live(entries_of(old(self).entries@), now, old(self).ttl_ms),
                self.capacity == old(self).capacity,
                self.ttl_ms == old(self).ttl_ms,
                lookup_key(entries_of(self.entries@), ckey@) == lookup_key(entries_of(self.entries@).take(i as int), ckey@),
            decreases i,
        {
            proof {
                let t = entries_of(self.entries@).take(i as int);
                assert(t.drop_last() == entries_of(self.entries@).take(i - 1));
                assert(t.last() == entry_of(self.entries@[i - 1]));
            }
            if crate::text::text_eq(self.entries[i - 1].key.as_str(), ckey) {
                if crate::text::text_eq(self.entries[i - 1].body_hash.as_str(), body_hash) {
                    return IdempotencyOutcome::Replay(self.entries[i - 1].response.clone());
                } else {
                    return IdempotencyOutcome::Conflict;
                }
            }
            i = i - 1;
        }
        IdempotencyOutcome::Fresh
    }

    /// Remembers the response for a store key at time `now`: the key's
    /// old entry is removed, the new one becomes the most recent, and the
    /// oldest entries are evicted beyond the capacity.
    pub fn remember_at(&mut self, ckey: &str, body_hash: &str, response: &str, now: i64)
        ensures
            final(self).view_entries() == remembered(
                old(self).view_entries(),
                (ckey@, body_hash@, response@, now),
                old(self).cap() as int,
            ),
            final(self).cap() == old(self).cap(),
            final(self).ttl() == old(self).ttl(),
    {
        let mut kept: Vec<IdemEntry> = Vec::new();
        let mut i: usize = 0;
        while i < self.entries.len()
            invariant
                i <= self.entries@.len(),
                entries_of(kept@) == without_key(entries_of(self.entries@).take(i as int), ckey@),
            decreases self.entries@.len() - i,
        {
            proof {
                assert(entries_of(self.entries@).take(i + 1).drop_last() == entries_of(self.entries@).take(i as int));
                assert(entries_of(self.entries@).take(i + 1).last() == entry_of(self.entries@[i as int]));
            }
            if !crate::text::text_eq(self.entries[i].key.as_str(), ckey) {
                kept.push(self.entries[i].clone());
                proof {
                    assert(entries_of(kept@) == entries_of(kept@.drop_last()).push(entry_of(kept@.last())));
                }
            }
            i = i + 1;
        }
        proof {
            assert(entries_of(self.entries@).take(self.entries@.len() as int) == entries_of(self.entries@));
        }
        kept.push(IdemEntry {
            key: ckey.to_string(),
            body_hash: body_hash.to_string(),
            response: response.to_string(),
            inserted_at: now,
        });
        let ghost t = entries_of(kept@);
        proof {
            assert(t == without_key(entries_of(self.entries@), ckey@).push((ckey@, body_hash@, response@, now)));
        }
        let n = kept.len();
        if n > self.capacity {
            let drop = n - self.capacity;
            let mut out: Vec<IdemEntry> = Vec::new();
            let mut j: usize = drop;
            while j < n
                invariant
                    drop <= j <= n == kept@.len(),
                    t == entries_of(kept@),
                    entries_of(out@) == t.subrange(drop as int, j as int),
                decreases n - j,
            {
                out.push(kept[j].clone());
                proof {
                    assert(t.subrange(drop as int, j + 1) == t.subrange(drop as int, j as int).push(t[j as int]));
                    assert(entries_of(out@) == entries_of(out@.drop_last()).push(entry_of(out@.last())));
                }
                j = j + 1;
            }
            proof {
                assert(t.skip(drop as int) == t.subrange(drop as int, n as int));
            }
            self.entries = out;
        } else {
            self.entries = kept;
        }
    }

    /// Looks up `(endpoint, key)` against the request body, now.
    pub fn check(&mut self, endpoint: &str, key: &str, request_body: &str) -> (r: IdempotencyOutcome)
        ensures
            final(self).cap() == old(self).cap(),
            final(self).ttl() == old(self).ttl(),
            exists|now: i64| {
                &&& #[trigger] live(old(self).view_entries(), now, old(self).ttl()) == final(self).view_entries()
                &&& lookup_outcome(
                    final(self).view_entries(),
                    endpoint@ + seq!['\0'] + key@,
                    body_hash_of(request_body@),
                    r,
                )
            },
    {
        let mut ckey = endpoint.to_string();
        append_char(&mut ckey, '\0');
        append_str(&mut ckey, key);
        let h = hash_body(request_body);
        let now = now_millis();
        assert(ckey@ =~= endpoint@ + seq!['\0'] + key@);
        let r = self.check_at(ckey.as_str(), h.as_str(), now);
        assert(live(old(self).view_entries(), now, old(self).ttl()) == self.view_entries());
        r
    }

    /// Remembers the first response for `(endpoint, key)`, now.
    pub fn remember(&mut self, endpoint: &str, key: &str, request_body: &str, response: &str)
        ensures
            final(self).cap() == old(self).cap(),
            final(self).ttl() == old(self).ttl(),
            exists|now: i64|
                #[trigger] remembered(
                    old(self).view_entries(),
                    (endpoint@ + seq!['\0'] + key@, body_hash_of(request_body@), response@, now),
                    old(self).cap() as int,
                ) == final(self).view_entries(),
    {
        let mut ckey = endpoint.to_string();
        append_char(&mut ckey, '\0');
        append_str(&mut ckey, key);
        let h = hash_body(request_body);
        let now = now_millis();
        assert(ckey@ =~= endpoint@ + seq!['\0'] + key@);
        self.remember_at(ckey.as_str(), h.as_str(), response, now);
        assert(remembered(
            old(self).view_entries(),
            (endpoint@ + seq!['\0'] + key@, body_hash_of(request_body@), response@, now),
            old(self).cap() as int,
        ) == self.view_entries());
    }

    /// Number of live entries at time `now` (expired ones are dropped).
    pub fn len_at(&mut self, now: i64) -> (r: usize)
        ensures
            final(self).view_entries() == live(old(self).view_entries(), now, old(self).ttl()),
            final(self).cap() == old(self).cap(),
            final(self).ttl() == old(self).ttl(),
            r == final(self).view_entries().len(),
    {
        self.prune_at(now);
        self.entries.len()
    }

    /// Number of live entries now.
    pub fn len(&mut self) -> (r: usize)
        ensures
            final(self).cap() == old(self).cap(),
            final(self).ttl() == old(self).ttl(),
            r == final(self).view_entries().len(),
            exists|now: i64| #[trigger] live(old(self).view_entries(), now, old(self).ttl()) == final(self).view_entries(),
    {
        let now = now_millis();
        let r = self.len_at(now);
        assert(live(old(self).view_entries(), now, old(self).ttl()) == self.view_entries());
        r
    }

    /// No live entry now.
    pub fn is_empty(&mut self) -> (r: bool)
        ensures
            final(self).cap() == old(self).cap(),
            final(self).ttl() == old(self).ttl(),
            r == (final(self).view_entries().len() == 0),
            exists|now: i64| #[trigger] live(old(self).view_entries(), now, old(self).ttl()) == final(self).view_entries(),
    {
        self.len() == 0
    }
}

/// Storage of idempotency records, scoped by tenant so that one tenant's
/// retry key never replays or conflicts with another tenant's request.
pub trait IdempotencyBackend: Sized {
    /// `r` is an outcome of looking up the tenant's `(endpoint, key)`
    /// against the request body, taking the backend from `self` to `after`.
    spec fn checked(
        self,
        after: Self,
        tenant_id: TenantId,
        endpoint: Seq<char>,
        key: Seq<char>,
        request_body: Seq<char>,
        r: IdempotencyOutcome,
    ) -> bool;

    /// `r` is an outcome of recording the response of the tenant's
    /// `(endpoint, key)` for replay, taking the backend from `self` to
    /// `after`.
    spec fn recorded(
        self,
        after: Self,
        tenant_id: TenantId,
        endpoint: Seq<char>,
        key: Seq<char>,
        request_body: Seq<char>,
        response: Seq<char>,
        r: IdempotencyOutcome,
    ) -> bool;

    /// Looks up a prior request.
    fn check(&mut self, tenant_id: TenantId, endpoint: &str, key: &str, request_body: &str) -> (r: IdempotencyOutcome)
        ensures
            old(self).checked(*final(self), tenant_id, endpoint@, key@, request_body@, r),
    ;

    /// Records a response for later replay.
    fn remember(
        &mut self,
        tenant_id: TenantId,
        endpoint: &str,
        key: &str,
        request_body: &str,
        response: &str,
    ) -> (r: IdempotencyOutcome)
        ensures
            old(self).recorded(*final(self), tenant_id, endpoint@, key@, request_body@, response@, r),
    ;

    /// Checks and, when the request is fresh, remembers the response:
    /// the check's outcome is returned, and only a fresh request is
    /// recorded.
    fn check_and_remember(
        &mut self,
        tenant_id: TenantId,
        endpoint: &str,
        key: &str,
        request_body: &str,
        response: &str,
    ) -> (r: IdempotencyOutcome)
        ensures
            exists|mid: Self, c: IdempotencyOutcome|
                #[trigger] old(self).checked(mid, tenant_id, endpoint@, key@, request_body@, c) && {
                    &&& c is Fresh ==> r is Fresh && exists|rr: IdempotencyOutcome|
                        #[trigger] mid.recorded(*final(self), tenant_id, endpoint@, key@, request_body@, response@, rr)
                    &&& !(c is Fresh) ==> r == c && *final(self) == mid
                },
    {
        let c = self.check(tenant_id, endpoint, key, request_body);
        let ghost mid = *self;
        let ghost cg = c;
        match c {
            IdempotencyOutcome::Fresh => {
                let rr = self.remember(tenant_id, endpoint, key, request_body, response);
                proof {
                    assert(mid.recorded(*self, tenant_id, endpoint@, key@, request_body@, response@, rr));
                }
                IdempotencyOutcome::Fresh
            },
            other => other,
        }
    }
}

impl IdempotencyBackend for IdempotencyStore {
    /// Expired entries are dropped, then the tenant's key is looked up.
    open spec fn checked(
        self,
        after: Self,
        tenant_id: TenantId,
        endpoint: Seq<char>,
        key: Seq<char>,
        request_body: Seq<char>,
        r: IdempotencyOutcome,
    ) -> bool {
        &&& after.cap() == self.cap()
        &&& after.ttl() == self.ttl()
        &&& exists|now: i64| {
            &&& #[trigger] live(self.view_entries(), now, self.ttl()) == after.view_entries()
            &&& lookup_outcome(
                after.view_entries(),
                scoped_key(tenant_id, endpoint, key),
                body_hash_of(request_body),
                r,
            )
        }
    }

    /// The tenant's key is remembered with the body's hash and the
    /// response, now; the outcome is `Fresh`.
    open spec fn recorded(
        self,
        after: Self,
        tenant_id: TenantId,
        endpoint: Seq<char>,
        key: Seq<char>,
        request_body: Seq<char>,
        response: Seq<char>,
        r: IdempotencyOutcome,
    ) -> bool {
        &&& r is Fresh
        &&& after.cap() == self.cap()
        &&& after.ttl() == self.ttl()
        &&& exists|now: i64|
            #[trigger] remembered(
                self.view_entries(),
                (scoped_key(tenant_id, endpoint, key), body_hash_of(request_body), response, now),
                self.cap() as int,
            ) == after.view_entries()
    }

    fn check(&mut self, tenant_id: TenantId, endpoint: &str, key: &str, request_body: &str) -> (r: IdempotencyOutcome) {
        let ckey = scoped_key_of(tenant_id, endpoint, key);
        let h = hash_body(request_body);
        let now = now_millis();
        let r = self.check_at(ckey.as_str(), h.as_str(), now);
        assert(live(old(self).view_entries(), now, old(self).ttl()) == self.view_entries());
        r
    }

    fn remember(
        &mut self,
        tenant_id: TenantId,
        endpoint: &str,
        key: &str,
        request_body: &str,
        response: &str,
    ) -> (r: IdempotencyOutcome) {
        let ckey = scoped_key_of(tenant_id, endpoint, key);
        let h = hash_body(request_body);
        let now = now_millis();
        self.remember_at(ckey.as_str(), h.as_str(), response, now);
        assert(remembered(
            old(self).view_entries(),
            (scoped_key(tenant_id, endpoint@, key@), body_hash_of(request_body@), response@, now),
            old(self).cap() as int,
        ) == self.view_entries());
        IdempotencyOutcome::Fresh
    }
}

proof fn lemma_without_other(
    s: Seq<(Seq<char>, Seq<char>, Seq<char>, i64)>,
    k1: Seq<char>,
    k2: Seq<char>,
)
    requires
        k1 != k2,
    ensures
        lookup_key(without_key(s, k1), k2) == lookup_key(s, k2),
    decreases s.len(),
{
    if s.len() > 0 {
        lemma_without_other(s.drop_last(), k1, k2);
        let w = without_key(s.drop_last(), k1);
        assert(w.push(s.last()).drop_last() == w);
    }
}

proof fn lemma_without_none(s: Seq<(Seq<char>, Seq<char>, Seq<char>, i64)>, k: Seq<char>)
    ensures
        lookup_key(without_key(s, k), k) is None,
    decreases s.len(),
{
    if s.len() > 0 {
        lemma_without_none(s.drop_last(), k);
        let w = without_key(s.drop_last(), k);
        assert(w.push(s.last()).drop_last() == w);
    }
}

proof fn lemma_lookup_skip(t: Seq<(Seq<char>, Seq<char>, Seq<char>, i64)>, n: int, k: Seq<char>)
    requires
        0 <= n <= t.len(),
    ensures
        lookup_key(t.skip(n), k) is None || lookup_key(t.skip(n), k) == lookup_key(t, k),
    decreases t.len(),
{
    if n < t.len() {
        assert(t.skip(n).drop_last() == t.drop_last().skip(n));
        assert(t.skip(n).last() == t.last());
        lemma_lookup_skip(t.drop_last(), n, k);
    } else {
        assert(t.skip(n).len() == 0);
    }
}

proof fn lemma_live_none(x: Seq<(Seq<char>, Seq<char>, Seq<char>, i64)>, now: i64, ttl: i64, k: Seq<char>)
    requires
        lookup_key(x, k) is None,
    ensures
        lookup_key(live(x, now, ttl), k) is None,
    decreases x.len(),
{
    if x.len() > 0 {
        lemma_live_none(x.drop_last(), now, ttl, k);
        let l = live(x.drop_last(), now, ttl);
        assert(l.push(x.last()).drop_last() == l);
    }
}

/// Right after remembering `e` (capacity at least one), `e` is the last
/// entry and no earlier entry has its key.
proof fn lemma_remembered_last(
    s: Seq<(Seq<char>, Seq<char>, Seq<char>, i64)>,
    e: (Seq<char>, Seq<char>, Seq<char>, i64),
    capacity: int,
)
    requires
        capacity >= 1,
    ensures
        remembered(s, e, capacity).len() > 0,
        remembered(s, e, capacity).last() == e,
        lookup_key(remembered(s, e, capacity).drop_last(), e.0) is None,
{
    let w = without_key(s, e.0);
    let t = w.push(e);
    let x = remembered(s, e, capacity);
    lemma_without_none(s, e.0);
    if t.len() > capacity {
        let d = t.len() - capacity;
        assert(x.last() == t.last());
        assert(x.drop_last() == w.skip(d));
        lemma_lookup_skip(w, d, e.0);
    } else {
        assert(x == t);
        assert(x.drop_last() == w);
    }
}

/// A remembered response is replayed within its lifetime: looking the
/// key up at any time from the remembering up to `ttl` milliseconds later
/// (capacity at least one) finds exactly the remembered entry.
pub proof fn law_replay_after_remember(
    s: Seq<(Seq<char>, Seq<char>, Seq<char>, i64)>,
    key: Seq<char>,
    hash: Seq<char>,
    response: Seq<char>,
    now: i64,
    later: i64,
    capacity: int,
    ttl: i64,
)
    requires
        capacity >= 1,
        now <= later,
        later - now <= ttl,
    ensures
        lookup_key(live(remembered(s, (key, hash, response, now), capacity), later, ttl), key) == Some(
            (key, hash, response, now),
        ),
{
    let e = (key, hash, response, now);
    let x = remembered(s, e, capacity);
    lemma_remembered_last(s, e, capacity);
    assert(!expired(x.last().3, later, ttl));
    assert(live(x, later, ttl) == live(x.drop_last(), later, ttl).push(e));
}

/// Once its lifetime has passed, a remembered key is fresh again.
pub proof fn law_expired_is_fresh(
    s: Seq<(Seq<char>, Seq<char>, Seq<char>, i64)>,
    key: Seq<char>,
    hash: Seq<char>,
    response: Seq<char>,
    now: i64,
    later: i64,
    capacity: int,
    ttl: i64,
)
    requires
        capacity >= 1,
        later - now > ttl,
    ensures
        lookup_key(live(remembered(s, (key, hash, response, now), capacity), later, ttl), key) is None,
{
    let e = (key, hash, response, now);
    let x = remembered(s, e, capacity);
    lemma_remembered_last(s, e, capacity);
    assert(expired(x.last().3, later, ttl));
    assert(live(x, later, ttl) == live(x.drop_last(), later, ttl));
    lemma_live_none(x.drop_last(), later, ttl, key);
}

/// Within the lifetime, a retry with the same key but a different body
/// is a conflict, and one with the same body replays the response.
pub proof fn law_retry_outcome(
    s: Seq<(Seq<char>, Seq<char>, Seq<char>, i64)>,
    key: Seq<char>,
    hash: Seq<char>,
    other_hash: Seq<char>,
    response: Seq<char>,
    now: i64,
    later: i64,
    capacity: int,
    ttl: i64,
    r: IdempotencyOutcome,
)
    requires
        capacity >= 1,
        now <= later,
        later - now <= ttl,
        lookup_outcome(live(remembered(s, (key, hash, response, now), capacity), later, ttl), key, other_hash, r),
    ensures
        other_hash != hash ==> r is Conflict,
        other_hash == hash ==> (r matches IdempotencyOutcome::Replay(x) && x@ == response),
{
    law_replay_after_remember(s, key, hash, response, now, later, capacity, ttl);
}

/// Two tenants' store keys never coincide, whatever their endpoints and
/// keys.
pub proof fn law_scoped_keys_apart(
    t1: TenantId,
    t2: TenantId,
    e1: Seq<char>,
    k1: Seq<char>,
    e2: Seq<char>,
    k2: Seq<char>,
)
    requires
        t1 != t2,
    ensures
        scoped_key(t1, e1, k1) != scoped_key(t2, e2, k2),
{
    lemma_uuid_text(t1.0, t2.0);
    lemma_uuid_text(t2.0, t1.0);
    assert(scoped_key(t1, e1, k1).take(36) =~= uuid_text(t1.0));
    assert(scoped_key(t2, e2, k2).take(36) =~= uuid_text(t2.0));
}

/// A response remembered for one tenant never answers another tenant's
/// lookup: the other tenant's key finds what it found before (or nothing,
/// once evicted by capacity), so a key it never used stays fresh.
pub proof fn law_tenants_isolated(
    s: Seq<(Seq<char>, Seq<char>, Seq<char>, i64)>,
    t1: TenantId,
    t2: TenantId,
    e1: Seq<char>,
    k1: Seq<char>,
    e2: Seq<char>,
    k2: Seq<char>,
    hash: Seq<char>,
    response: Seq<char>,
    now: i64,
    capacity: int,
)
    requires
        t1 != t2,
        capacity >= 0,
    ensures
        ({
            let r = lookup_key(
                remembered(s, (scoped_key(t1, e1, k1), hash, response, now), capacity),
                scoped_key(t2, e2, k2),
            );
            r is None || r == lookup_key(s, scoped_key(t2, e2, k2))
        }),
{
    let key1 = scoped_key(t1, e1, k1);
    let key2 = scoped_key(t2, e2, k2);
    law_scoped_keys_apart(t1, t2, e1, k1, e2, k2);
    let w = without_key(s, key1);
    let t = w.push((key1, hash, response, now));
    lemma_without_other(s, key1, key2);
    assert(t.drop_last() == w);
    if t.len() > capacity {
        lemma_lookup_skip(t, t.len() - capacity, key2);
    }
}

/// The store never holds more entries than its capacity after a
/// response is remembered.
pub proof fn law_bounded(
    s: Seq<(Seq<char>, Seq<char>, Seq<char>, i64)>,
    e: (Seq<char>, Seq<char>, Seq<char>, i64),
    capacity: int,
)
    requires
        capacity >= 0,
    ensures
        remembered(s, e, capacity).len() <= capacity,
{
}

/// Through the backend: once tenant `t1` has checked and remembered a
/// request, a lookup by another tenant `t2` of a key `t2` never used is
/// still fresh, whatever the bodies, endpoints, keys and clock readings.
pub proof fn law_backend_tenants_isolated(
    b0: IdempotencyStore,
    mid: IdempotencyStore,
    b1: IdempotencyStore,
    b2: IdempotencyStore,
    t1: TenantId,
    t2: TenantId,
    e1: Seq<char>,
    k1: Seq<char>,
    body1: Seq<char>,
    response: Seq<char>,
    c: IdempotencyOutcome,
    rr: IdempotencyOutcome,
    e2: Seq<char>,
    k2: Seq<char>,
    body2: Seq<char>,
    r: IdempotencyOutcome,
)
    requires
        t1 != t2,
        b0.checked(mid, t1, e1, k1, body1, c),
        c is Fresh ==> mid.recorded(b1, t1, e1, k1, body1, response, rr),
        !(c is Fresh) ==> b1 == mid,
        b1.checked(b2, t2, e2, k2, body2, r),
        lookup_key(b0.view_entries(), scoped_key(t2, e2, k2)) is None,
    ensures
        r is Fresh,
{
    let key2 = scoped_key(t2, e2, k2);
    let now0 = choose|now: i64| #[trigger] live(b0.view_entries(), now, b0.ttl()) == mid.view_entries()
        && lookup_outcome(mid.view_entries(), scoped_key(t1, e1, k1), body_hash_of(body1), c);
    lemma_live_none(b0.view_entries(), now0, b0.ttl(), key2);
    if c is Fresh {
        let now1 = choose|now: i64|
            #[trigger] remembered(
                mid.view_entries(),
                (scoped_key(t1, e1, k1), body_hash_of(body1), response, now),
                mid.cap() as int,
            ) == b1.view_entries();
        law_tenants_isolated(
            mid.view_entries(),
            t1,
            t2,
            e1,
            k1,
            e2,
            k2,
            body_hash_of(body1),
            response,
            now1,
            mid.cap() as int,
        );
    }
    let now2 = choose|now: i64| #[trigger] live(b1.view_entries(), now, b1.ttl()) == b2.view_entries()
        && lookup_outcome(b2.view_entries(), key2, body_hash_of(body2), r);
    lemma_live_none(b1.view_entries(), now2, b1.ttl(), key2);
}

} // verus!
