//! Rule-pack storage with the lifecycle state machine
//! (draft -> active -> superseded; drafts alone are editable).
use crate::error::Error;
use crate::ids::TenantId;
use crate::rulepack::{lemma_same_pack, same_pack, PackLifecycle, RulePack};
use vstd::prelude::*;

verus! {

/// Legal lifecycle transitions: activate a draft, supersede an active
/// pack, and re-supersede (a no-op).
pub open spec fn transition_legal(current: PackLifecycle, target: PackLifecycle) -> bool {
    (current == PackLifecycle::Draft && target == PackLifecycle::Active) || (current
        == PackLifecycle::Active && target == PackLifecycle::Superseded) || (current
        == PackLifecycle::Superseded && target == PackLifecycle::Superseded)
}

/// The lifecycle only moves forward: no legal transition leads back to
/// draft, and a superseded pack stays superseded.
pub proof fn law_lifecycle_forward(current: PackLifecycle, target: PackLifecycle)
    requires
        transition_legal(current, target),
    ensures
        target != PackLifecycle::Draft,
        current == PackLifecycle::Superseded ==> target == PackLifecycle::Superseded,
        current != target ==> current != PackLifecycle::Superseded,
{
}

/// Guards a lifecycle transition: an illegal one is an `InvalidState`
/// error (a conflict upstream).
pub fn check_transition(current: PackLifecycle, target: PackLifecycle) -> (r: Result<(), Error>)
    ensures
        r is Ok <==> transition_legal(current, target),
        r is Err ==> r->Err_0 is InvalidState && r->Err_0->InvalidState_0@
            == "illegal rule-pack lifecycle transition (allowed: draft->active, active->superseded)"@,
{
    let legal = match (current, target) {
        (PackLifecycle::Draft, PackLifecycle::Active) => true,
        (PackLifecycle::Active, PackLifecycle::Superseded) => true,
        (PackLifecycle::Superseded, PackLifecycle::Superseded) => true,
        _ => false,
    };
    if legal {
        Ok(())
    } else {
        Err(
            Error::invalid_state(
                "illegal rule-pack lifecycle transition (allowed: draft->active, active->superseded)",
            ),
        )
    }
}

/// Guards an edit: only a draft may be edited.
pub fn ensure_draft(current: PackLifecycle) -> (r: Result<(), Error>)
    ensures
        r is Ok <==> current == PackLifecycle::Draft,
        r is Err ==> r->Err_0 is InvalidState && r->Err_0->InvalidState_0@ == "rule pack may only be edited while draft"@,
{
    if current == PackLifecycle::Draft {
        Ok(())
    } else {
        Err(Error::invalid_state("rule pack may only be edited while draft"))
    }
}


/// Index of the pack with id `id` (`-1` when absent).
pub open spec fn pack_index(s: Seq<RulePack>, id: Seq<char>) -> int
    decreases s.len(),
{
    if s.len() == 0 {
        -1
    } else if s.last().id@ == id {
        s.len() - 1
    } else {
        pack_index(s.drop_last(), id)
    }
}

proof fn lemma_pack_index(s: Seq<RulePack>, id: Seq<char>)
    ensures
        -1 <= pack_index(s, id) < s.len(),
        pack_index(s, id) >= 0 ==> s[pack_index(s, id)].id@ == id,
        pack_index(s, id) < 0 ==> forall|i: int| 0 <= i < s.len() ==> #[trigger] s[i].id@ != id,
    decreases s.len(),
{
    if s.len() > 0 {
        lemma_pack_index(s.drop_last(), id);
        if pack_index(s, id) < 0 {
            assert forall|i: int| 0 <= i < s.len() implies #[trigger] s[i].id@ != id by {
                if i < s.len() - 1 {
                    assert(s[i] == s.drop_last()[i]);
                }
            }
        }
    }
}

/// `p` agrees with some stored pack of the tenant.
#[verifier::opaque]
pub open spec fn pack_of_tenant(p: RulePack, packs: Seq<RulePack>, tenant_id: TenantId) -> bool {
    exists|i: int| 0 <= i < packs.len() && packs[i].tenant_id == tenant_id && same_pack(p, #[trigger] packs[i])
}

/// Some pack of `out` agrees with `p`.
#[verifier::opaque]
pub open spec fn pack_listed(out: Seq<RulePack>, p: RulePack) -> bool {
    exists|k: int| 0 <= k < out.len() && same_pack(#[trigger] out[k], p)
}

/// Copies of the packs at the sorted indices `idx` list the tenant's
/// packs in order.
proof fn lemma_listing(out: Seq<RulePack>, idx: Seq<usize>, packs: Seq<RulePack>, tenant_id: TenantId)
    requires
        packs.len() <= usize::MAX,
        out.len() == idx.len(),
        forall|t: int| 0 <= t < idx.len() ==> #[trigger] idx[t] < packs.len() && packs[idx[t] as int].tenant_id == tenant_id,
        forall|t: int| 0 <= t < out.len() ==> same_pack(#[trigger] out[t], packs[idx[t] as int]),
        forall|j: int| 0 <= j < packs.len() && packs[j].tenant_id == tenant_id ==> #[trigger] idx.contains(j as usize),
        forall|k: int, l: int| 0 <= k < l < idx.len() ==> listed_before(packs[#[trigger] idx[k] as int], packs[#[trigger] idx[l] as int]),
    ensures
        forall|k: int, l: int| 0 <= k < l < out.len() ==> listed_before(#[trigger] out[k], #[trigger] out[l]),
        forall|k: int| 0 <= k < out.len() ==> pack_of_tenant(#[trigger] out[k], packs, tenant_id),
        forall|i: int| 0 <= i < packs.len() && packs[i].tenant_id == tenant_id ==> pack_listed(out, #[trigger] packs[i]),
{
    assert forall|a: int, b: int| 0 <= a < b < out.len() implies listed_before(#[trigger] out[a], #[trigger] out[b]) by {
        lemma_same_pack(out[a], packs[idx[a] as int]);
        lemma_same_pack(out[b], packs[idx[b] as int]);
        assert(listed_before(packs[idx[a] as int], packs[idx[b] as int]));
    }
    assert forall|t: int| 0 <= t < out.len() implies pack_of_tenant(#[trigger] out[t], packs, tenant_id) by {
        reveal(pack_of_tenant);
        let j = idx[t] as int;
        assert(0 <= j < packs.len() && packs[j].tenant_id == tenant_id && same_pack(out[t], packs[j]));
    }
    assert forall|j: int| 0 <= j < packs.len() && packs[j].tenant_id == tenant_id implies pack_listed(out, #[trigger] packs[j]) by {
        reveal(pack_listed);
        assert(idx.contains(j as usize));
        let t = choose|t: int| 0 <= t < idx.len() && idx[t] == j as usize;
        assert(idx[t] as int == j);
        assert(0 <= t < out.len() && same_pack(out[t], packs[j]));
    }
}

/// Packs keyed by id, in memory.
#[derive(Debug)]
pub struct InMemoryRulePackStore {
    packs: Vec<RulePack>,
}

/// Pack `a` sorts before pack `b`: higher version first, then by id.
pub open spec fn listed_before(a: RulePack, b: RulePack) -> bool {
    a.version > b.version || (a.version == b.version && text_le(a.id@, b.id@))
}

/// Lexicographic order of texts by character code.
pub open spec fn text_le(a: Seq<char>, b: Seq<char>) -> bool
    decreases a.len(),
{
    if a.len() == 0 {
        true
    } else if b.len() == 0 {
        false
    } else if a[0] != b[0] {
        (a[0] as int) < (b[0] as int)
    } else {
        text_le(a.drop_first(), b.drop_first())
    }
}

proof fn lemma_text_le_total(a: Seq<char>, b: Seq<char>)
    ensures
        text_le(a, b) || text_le(b, a),
    decreases a.len(),
{
    if a.len() > 0 && b.len() > 0 {
        if a[0] == b[0] {
            lemma_text_le_total(a.drop_first(), b.drop_first());
        } else {
            assert((a[0] as int) != (b[0] as int));
        }
    }
}

proof fn lemma_text_le_trans(a: Seq<char>, b: Seq<char>, c: Seq<char>)
    requires
        text_le(a, b),
        text_le(b, c),
    ensures
        text_le(a, c),
    decreases a.len(),
{
    if a.len() > 0 && b.len() > 0 && c.len() > 0 && a[0] == b[0] && b[0] == c[0] {
        lemma_text_le_trans(a.drop_first(), b.drop_first(), c.drop_first());
    }
}

proof fn lemma_listed_total(a: RulePack, b: RulePack)
    ensures
        listed_before(a, b) || listed_before(b, a),
{
    lemma_text_le_total(a.id@, b.id@);
}

proof fn lemma_listed_trans(a: RulePack, b: RulePack, c: RulePack)
    requires
        listed_before(a, b),
        listed_before(b, c),
    ensures
        listed_before(a, c),
{
    if a.version == b.version && b.version == c.version {
        lemma_text_le_trans(a.id@, b.id@, c.id@);
    }
}

fn text_le_exec(a: &str, b: &str) -> (r: bool)
    ensures
        r == text_le(a@, b@),
{
    let n = a.unicode_len();
    let m = b.unicode_len();
    let mut i: usize = 0;
    assert(a@.skip(0) == a@);
    assert(b@.skip(0) == b@);
    while i < n && i < m && a.get_char(i) == b.get_char(i)
        invariant
            n == a@.len(),
            m == b@.len(),
            i <= n,
            i <= m,
            text_le(a@, b@) == text_le(a@.skip(i as int), b@.skip(i as int)),
        decreases n - i,
    {
        assert(a@.skip(i as int).drop_first() == a@.skip(i + 1));
        assert(b@.skip(i as int).drop_first() == b@.skip(i + 1));
        assert(a@.skip(i as int)[0] == a@[i as int]);
        assert(b@.skip(i as int)[0] == b@[i as int]);
        i = i + 1;
    }
    if i == n {
        assert(a@.skip(i as int).len() == 0);
        return true;
    }
    if i == m {
        assert(b@.skip(i as int).len() == 0);
        return false;
    }
    assert(a@.skip(i as int)[0] == a@[i as int]);
    assert(b@.skip(i as int)[0] == b@[i as int]);
    (a.get_char(i) as u32) < (b.get_char(i) as u32)
}

impl InMemoryRulePackStore {
    /// The stored packs.
    pub closed spec fn packs(&self) -> Seq<RulePack> {
        self.packs@
    }

    /// An empty store.
    pub fn new() -> (r: InMemoryRulePackStore)
        ensures
            r.packs() == Seq::<RulePack>::empty(),
    {
        InMemoryRulePackStore { packs: Vec::new() }
    }

    fn find(&self, id: &String) -> (r: Option<usize>)
        ensures
            pack_index(self.packs@, id@) < 0 ==> r is None,
            pack_index(self.packs@, id@) >= 0 ==> r is Some,
            r is Some ==> r->0 as int == pack_index(self.packs@, id@),
    {
        let mut i = self.packs.len();
        assert(self.packs@.take(self.packs@.len() as int) == self.packs@);
        while i > 0
            invariant
                i <= self.packs@.len(),
                pack_index(self.packs@, id@) == pack_index(self.packs@.take(i as int), id@),
            decreases i,
        {
            assert(self.packs@.take(i as int).drop_last() == self.packs@.take(i - 1));
            assert(self.packs@.take(i as int).last() == self.packs@[i - 1]);
            if self.packs[i - 1].id == *id {
                return Some(i - 1);
            }
            i = i - 1;
        }
        None
    }

    /// A copy of the pack, if it exists and belongs to the tenant.
    pub fn get_pack(&self, tenant_id: TenantId, id: &String) -> (r: Result<Option<RulePack>, Error>)
        ensures
            r is Ok,
            (pack_index(self.packs(), id@) >= 0 && self.packs()[pack_index(self.packs(), id@)].tenant_id
                == tenant_id) ==> (r->Ok_0 is Some && same_pack(
                r->Ok_0->0,
                self.packs()[pack_index(self.packs(), id@)],
            )),
            !(pack_index(self.packs(), id@) >= 0 && self.packs()[pack_index(self.packs(), id@)].tenant_id
                == tenant_id) ==> r->Ok_0 is None,
    {
        match self.find(id) {
            Some(i) => {
                proof {
                    lemma_pack_index(self.packs@, id@);
                }
                if self.packs[i].tenant_id == tenant_id {
                    Ok(Some(self.packs[i].clone()))
                } else {
                    Ok(None)
                }
            },
            None => Ok(None),
        }
    }

    /// Inserts a new pack; an id already stored is an `InvalidState`
    /// error.
    pub fn insert_pack(&mut self, pack: RulePack) -> (r: Result<(), Error>)
        ensures
            pack_index(old(self).packs(), pack.id@) >= 0 ==> r is Err && r->Err_0 is InvalidState
                && r->Err_0->InvalidState_0@ == "rule pack already exists"@
                && final(self).packs() == old(self).packs(),
            pack_index(old(self).packs(), pack.id@) < 0 ==> r is Ok && final(self).packs() == old(self).packs().push(pack),
    {
        match self.find(&pack.id) {
            Some(_) => Err(Error::invalid_state("rule pack already exists")),
            None => {
                self.packs.push(pack);
                Ok(())
            },
        }
    }

    /// Replaces a stored pack; an unknown id is a `NotFound` error.
    pub fn put_pack(&mut self, pack: RulePack) -> (r: Result<(), Error>)
        ensures
            pack_index(old(self).packs(), pack.id@) < 0 ==> r is Err && r->Err_0 is NotFound
                && r->Err_0->NotFound_0@ == "rule pack not found"@
                && final(self).packs() == old(self).packs(),
            pack_index(old(self).packs(), pack.id@) >= 0 ==> r is Ok && final(self).packs() == old(self).packs().update(pack_index(old(self).packs(), pack.id@), pack),
    {
        match self.find(&pack.id) {
            Some(i) => {
                proof {
                    lemma_pack_index(self.packs@, pack.id@);
                }
                self.packs.set(i, pack);
                Ok(())
            },
            None => Err(Error::not_found("rule pack not found")),
        }
    }

    fn listed_before_exec(a: &RulePack, b: &RulePack) -> (r: bool)
        ensures
            r == listed_before(*a, *b),
    {
        a.version > b.version || (a.version == b.version && text_le_exec(a.id.as_str(), b.id.as_str()))
    }

    #[verifier::rlimit(40)]
    fn sorted_tenant_indices(&self, tenant_id: TenantId) -> (idx: Vec<usize>)
        ensures
            forall|k: int| 0 <= k < idx@.len() ==> #[trigger] idx@[k] < self.packs@.len() && self.packs@[idx@[k] as int].tenant_id == tenant_id,
            forall|j: int| 0 <= j < self.packs@.len() && self.packs@[j].tenant_id == tenant_id ==> #[trigger] idx@.contains(j as usize),
            forall|k: int, l: int| 0 <= k < l < idx@.len() ==> listed_before(self.packs@[#[trigger] idx@[k] as int], self.packs@[#[trigger] idx@[l] as int]),
    {
        let n = self.packs.len();
        let mut idx: Vec<usize> = Vec::new();
        let mut i: usize = 0;
        while i < n
            invariant
                n == self.packs@.len(),
                i <= n,
                forall|k: int| 0 <= k < idx@.len() ==> #[trigger] idx@[k] < i && self.packs@[idx@[k] as int].tenant_id == tenant_id,
                forall|j: int| 0 <= j < i && self.packs@[j].tenant_id == tenant_id ==> #[trigger] idx@.contains(j as usize),
                forall|k: int, l: int| 0 <= k < l < idx@.len() ==> listed_before(self.packs@[#[trigger] idx@[k] as int], self.packs@[#[trigger] idx@[l] as int]),
            decreases n - i,
        {
            if self.packs[i].tenant_id == tenant_id {
                let mut p: usize = 0;
                while p < idx.len() && !Self::listed_before_exec(&self.packs[i], &self.packs[idx[p]])
                    invariant
                        n == self.packs@.len(),
                        i < n,
                        p <= idx@.len(),
                        forall|k: int| 0 <= k < idx@.len() ==> #[trigger] idx@[k] < i,
                        forall|k: int| 0 <= k < p ==> !listed_before(self.packs@[i as int], self.packs@[#[trigger] idx@[k] as int]),
                    decreases idx@.len() - p,
                {
                    p = p + 1;
                }
                let ghost old_idx = idx@;
                idx.insert(p, i);
                proof {
                    old_idx.insert_ensures(p as int, i);
                    let x = self.packs@[i as int];
                    assert forall|k: int| 0 <= k < p implies listed_before(self.packs@[#[trigger] old_idx[k] as int], x) by {
                        lemma_listed_total(self.packs@[old_idx[k] as int], x);
                    }
                    if p < old_idx.len() {
                        assert forall|k: int| p <= k < old_idx.len() implies listed_before(x, self.packs@[#[trigger] old_idx[k] as int]) by {
                            if k > p {
                                lemma_listed_trans(x, self.packs@[old_idx[p as int] as int], self.packs@[old_idx[k] as int]);
                            }
                        }
                    }
                    assert forall|k: int, l: int| 0 <= k < l < idx@.len() implies listed_before(self.packs@[#[trigger] idx@[k] as int], self.packs@[#[trigger] idx@[l] as int]) by {
                        if k < p && l < p {
                        } else if k < p && l == p {
                        } else if k < p && l > p {
                            assert(idx@[l] == old_idx[l - 1]);
                            lemma_listed_trans(self.packs@[old_idx[k] as int], x, self.packs@[old_idx[l - 1] as int]);
                        } else if k == p {
                            assert(idx@[l] == old_idx[l - 1]);
                        } else {
                            assert(idx@[k] == old_idx[k - 1]);
                            assert(idx@[l] == old_idx[l - 1]);
                        }
                    }
                    assert forall|j: int| 0 <= j < i + 1 && self.packs@[j].tenant_id == tenant_id implies #[trigger] idx@.contains(j as usize) by {
                        if j == i {
                            assert(idx@[p as int] == i);
                        } else {
                            assert(old_idx.contains(j as usize));
                            let k = choose|k: int| 0 <= k < old_idx.len() && old_idx[k] == j as usize;
                            if k < p {
                                assert(idx@[k] == old_idx[k]);
                            } else {
                                assert(idx@[k + 1] == old_idx[k]);
                            }
                        }
                    }
                    assert forall|k: int| 0 <= k < idx@.len() implies #[trigger] idx@[k] < i + 1 && self.packs@[idx@[k] as int].tenant_id == tenant_id by {
                        if k < p {
                        } else if k > p {
                            assert(idx@[k] == old_idx[k - 1]);
                        }
                    }
                }
            }
            i = i + 1;
        }
        idx
    }

    /// Copies of the tenant's packs, highest version first, then by id.
    #[verifier::rlimit(40)]
    pub fn list_packs(&self, tenant_id: TenantId) -> (r: Result<Vec<RulePack>, Error>)
        ensures
            r is Ok,
            forall|k: int, l: int|
                0 <= k < l < r->Ok_0@.len() ==> listed_before(#[trigger] r->Ok_0@[k], #[trigger] r->Ok_0@[l]),
            forall|k: int| 0 <= k < r->Ok_0@.len() ==> pack_of_tenant(#[trigger] r->Ok_0@[k], self.packs(), tenant_id),
            forall|i: int|
                0 <= i < self.packs().len() && self.packs()[i].tenant_id == tenant_id ==> pack_listed(r->Ok_0@, #[trigger] self.packs()[i]),
    {
        let n = self.packs.len();
        let idx = self.sorted_tenant_indices(tenant_id);
        let mut out: Vec<RulePack> = Vec::new();
        let mut k: usize = 0;
        while k < idx.len()
            invariant
                n == self.packs@.len(),
                k <= idx@.len(),
                out@.len() == k,
                forall|t: int| 0 <= t < idx@.len() ==> #[trigger] idx@[t] < n && self.packs@[idx@[t] as int].tenant_id == tenant_id,
                forall|t: int| 0 <= t < k ==> same_pack(#[trigger] out@[t], self.packs@[idx@[t] as int]),
            decreases idx@.len() - k,
        {
            out.push(self.packs[idx[k]].clone());
            k = k + 1;
        }
        proof {
            lemma_listing(out@, idx@, self.packs@, tenant_id);
        }
        Ok(out)
    }
}

} // verus!
