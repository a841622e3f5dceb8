//! Rule packs: versioned, tenant-owned data describing which rules apply
//! and with what parameters.
use crate::digest::{
    bool_bytes, fingerprint, fingerprint_of, i64_bytes, opt_i64_bytes, put_bool, put_i64, put_opt_i64,
    put_tag, put_text, put_u128, put_u32, text_bytes, u128_bytes, u32_bytes,
};
use crate::error::Error;
use crate::fixed::Fixed;
use crate::ids::{RuleId, TenantId};
use crate::ids::uuid_from_hash;
use crate::ids::default_str_hash;
use crate::text::{lowercase_equals, lowers_to, text_eq};
use crate::types::{Money, Pct, Timestamp};
use vstd::prelude::*;

verus! {

/// Lifecycle of a pack: draft, then active, then superseded.
#[derive(Debug, Clone, Copy, PartialEq, Eq, Hash, Structural)]
pub enum PackLifecycle {
    /// Being edited; not bound to accounts.
    Draft,
    /// Live and bound to accounts.
    Active,
    /// Replaced by a newer active version; kept for replay.
    Superseded,
}

/// Measurement basis of a rule.
#[derive(Debug, Clone, Copy, PartialEq, Eq, Hash, Structural)]
pub enum RuleBasis {
    /// From a fixed reference point.
    Static,
    /// From a high-water mark floating up intraday.
    Trailing,
    /// From the prior day's closing balance.
    EodTrailing,
}

/// Unit of a rule's value.
#[derive(Debug, Clone, Copy, PartialEq, Eq, Hash, Structural)]
pub enum RuleUnit {
    /// A fraction of the reference.
    Percent,
    /// An absolute amount of money.
    Money,
}

/// Label of a lifecycle stage.
pub open spec fn lifecycle_label(l: PackLifecycle) -> Seq<char> {
    match l {
        PackLifecycle::Draft => "draft"@,
        PackLifecycle::Active => "active"@,
        PackLifecycle::Superseded => "superseded"@,
    }
}

/// Label of a basis.
pub open spec fn basis_label(b: RuleBasis) -> Seq<char> {
    match b {
        RuleBasis::Static => "static"@,
        RuleBasis::Trailing => "trailing"@,
        RuleBasis::EodTrailing => "eod_trailing"@,
    }
}

/// Label of a unit.
pub open spec fn unit_label(u: RuleUnit) -> Seq<char> {
    match u {
        RuleUnit::Percent => "percent"@,
        RuleUnit::Money => "money"@,
    }
}

impl PackLifecycle {
    /// `draft`, `active` or `superseded`.
    pub fn label(self) -> (r: &'static str)
        ensures
            r@ == lifecycle_label(self),
    {
        match self {
            PackLifecycle::Draft => "draft",
            PackLifecycle::Active => "active",
            PackLifecycle::Superseded => "superseded",
        }
    }

    /// Parses a label, ignoring ASCII case.
    pub fn parse(s: &str) -> (r: Result<PackLifecycle, Error>)
        ensures
            lowers_to(s@, "draft"@) ==> r == Ok::<PackLifecycle, Error>(PackLifecycle::Draft),
            !lowers_to(s@, "draft"@) && lowers_to(s@, "active"@) ==> r == Ok::<PackLifecycle, Error>(
                PackLifecycle::Active,
            ),
            !lowers_to(s@, "draft"@) && !lowers_to(s@, "active"@) && lowers_to(s@, "superseded"@)
                ==> r == Ok::<PackLifecycle, Error>(PackLifecycle::Superseded),
            !lowers_to(s@, "draft"@) && !lowers_to(s@, "active"@) && !lowers_to(s@, "superseded"@)
                ==> r is Err && r->Err_0 is InvalidConfig && r->Err_0->InvalidConfig_0@
                == "unknown pack lifecycle (expected draft/active/superseded)"@,
    {
        if lowercase_equals(s, "draft") {
            Ok(PackLifecycle::Draft)
        } else if lowercase_equals(s, "active") {
            Ok(PackLifecycle::Active)
        } else if lowercase_equals(s, "superseded") {
            Ok(PackLifecycle::Superseded)
        } else {
            Err(Error::invalid_config("unknown pack lifecycle (expected draft/active/superseded)"))
        }
    }
}

impl RuleBasis {
    /// `static`, `trailing` or `eod_trailing`.
    pub fn label(self) -> (r: &'static str)
        ensures
            r@ == basis_label(self),
    {
        match self {
            RuleBasis::Static => "static",
            RuleBasis::Trailing => "trailing",
            RuleBasis::EodTrailing => "eod_trailing",
        }
    }

    /// Parses `static`, `trailing`, or `eod_trailing` (also
    /// `eodtrailing`, `eod-trailing`), ignoring ASCII case.
    pub fn parse(s: &str) -> (r: Result<RuleBasis, Error>)
        ensures
            lowers_to(s@, "static"@) ==> r == Ok::<RuleBasis, Error>(RuleBasis::Static),
            !lowers_to(s@, "static"@) && lowers_to(s@, "trailing"@) ==> r == Ok::<RuleBasis, Error>(
                RuleBasis::Trailing,
            ),
            !lowers_to(s@, "static"@) && !lowers_to(s@, "trailing"@) && (lowers_to(
                s@,
                "eod_trailing"@,
            ) || lowers_to(s@, "eodtrailing"@) || lowers_to(s@, "eod-trailing"@)) ==> r == Ok::<
                RuleBasis,
                Error,
            >(RuleBasis::EodTrailing),
            !lowers_to(s@, "static"@) && !lowers_to(s@, "trailing"@) && !lowers_to(
                s@,
                "eod_trailing"@,
            ) && !lowers_to(s@, "eodtrailing"@) && !lowers_to(s@, "eod-trailing"@) ==> r is Err
                && r->Err_0 is InvalidConfig && r->Err_0->InvalidConfig_0@
                == "unknown rule basis (expected static/trailing/eod_trailing)"@,
    {
        if lowercase_equals(s, "static") {
            Ok(RuleBasis::Static)
        } else if lowercase_equals(s, "trailing") {
            Ok(RuleBasis::Trailing)
        } else if lowercase_equals(s, "eod_trailing") || lowercase_equals(s, "eodtrailing")
            || lowercase_equals(s, "eod-trailing") {
            Ok(RuleBasis::EodTrailing)
        } else {
            Err(Error::invalid_config("unknown rule basis (expected static/trailing/eod_trailing)"))
        }
    }
}

impl RuleUnit {
    /// `percent` or `money`.
    pub fn label(self) -> (r: &'static str)
        ensures
            r@ == unit_label(self),
    {
        match self {
            RuleUnit::Percent => "percent",
            RuleUnit::Money => "money",
        }
    }

    /// Parses `percent` or `money`, ignoring ASCII case.
    pub fn parse(s: &str) -> (r: Result<RuleUnit, Error>)
        ensures
            lowers_to(s@, "percent"@) ==> r == Ok::<RuleUnit, Error>(RuleUnit::Percent),
            !lowers_to(s@, "percent"@) && lowers_to(s@, "money"@) ==> r == Ok::<RuleUnit, Error>(
                RuleUnit::Money,
            ),
            !lowers_to(s@, "percent"@) && !lowers_to(s@, "money"@) ==> r is Err && r->Err_0 is InvalidConfig
                && r->Err_0->InvalidConfig_0@ == "unknown rule unit (expected percent/money)"@,
    {
        if lowercase_equals(s, "percent") {
            Ok(RuleUnit::Percent)
        } else if lowercase_equals(s, "money") {
            Ok(RuleUnit::Money)
        } else {
            Err(Error::invalid_config("unknown rule unit (expected percent/money)"))
        }
    }
}

/// One rule of a pack: which rule kind, with which parameters.
#[derive(Debug)]
pub struct RuleEntry {
    /// Stable identifier within the pack.
    pub id: String,
    /// Rule kind, naming the rule implementation.
    pub kind: String,
    pub basis: RuleBasis,
    pub unit: RuleUnit,
    /// The value, read per `unit`.
    pub value: Fixed,
    /// Tolerance in cents absorbing broker rounding at the boundary.
    pub tolerance_cents: Option<i64>,
    /// Early-warning threshold as a share of `value`.
    pub early_warning_pct: Option<Fixed>,
    /// Explicit priority; higher wins.
    pub priority: u32,
    pub enabled: bool,
    /// Kind-specific parameters as JSON text (never inspected here).
    pub params_json: String,
}

impl Clone for RuleEntry {
    fn clone(&self) -> (r: RuleEntry)
        ensures
            r == *self,
    {
        RuleEntry {
            id: self.id.clone(),
            kind: self.kind.clone(),
            basis: self.basis,
            unit: self.unit,
            value: self.value,
            tolerance_cents: self.tolerance_cents,
            early_warning_pct: self.early_warning_pct,
            priority: self.priority,
            enabled: self.enabled,
            params_json: self.params_json.clone(),
        }
    }
}

impl RuleEntry {
    /// A rule entry with the defaults: static percent basis, 1 cent
    /// tolerance, warning at 80%, priority 100, enabled, `{}` parameters.
    pub fn new(id: &str, kind: &str, value: Fixed) -> (r: RuleEntry)
        ensures
            r.id@ == id@,
            r.kind@ == kind@,
            r.basis == RuleBasis::Static,
            r.unit == RuleUnit::Percent,
            r.value == value,
            r.tolerance_cents == Some(1i64),
            r.early_warning_pct == Some(Fixed(80_000_000)),
            r.priority == 100,
            r.enabled,
            r.params_json@ == "{}"@,
    {
        RuleEntry {
            id: id.to_string(),
            kind: kind.to_string(),
            basis: RuleBasis::Static,
            unit: RuleUnit::Percent,
            value,
            tolerance_cents: Some(1),
            early_warning_pct: Some(Fixed(80_000_000)),
            priority: 100,
            enabled: true,
            params_json: "{}".to_string(),
        }
    }
}

/// A versioned rule pack.
#[derive(Debug)]
pub struct RulePack {
    /// Stable pack identifier.
    pub id: String,
    /// Monotonically increasing version.
    pub version: u32,
    /// Owning tenant.
    pub tenant_id: TenantId,
    pub lifecycle: PackLifecycle,
    pub effective_from: Timestamp,
    /// The pack that replaced this one.
    pub superseded_by: Option<String>,
    pub description: String,
    /// The rules, in evaluation order.
    pub rules: Vec<RuleEntry>,
    /// Balance the percentages are meant against.
    pub initial_balance: Money,
    pub leverage: u32,
    pub profit_target_pct: Pct,
}

/// No two rules share an id.
pub open spec fn ids_unique(rules: Seq<RuleEntry>) -> bool {
    forall|i: int, j: int| 0 <= i < j < rules.len() ==> #[trigger] rules[i].id@ != #[trigger] rules[j].id@
}

/// The consistency conditions of a pack: a non-empty id, at least one
/// rule, and unique rule ids.
pub open spec fn pack_is_valid(p: RulePack) -> bool {
    p.id@.len() > 0 && p.rules@.len() > 0 && ids_unique(p.rules@)
}

/// Index of the first rule with id `id` (`-1` when absent).
pub open spec fn rule_index(rules: Seq<RuleEntry>, id: Seq<char>) -> int
    decreases rules.len(),
{
    if rules.len() == 0 {
        -1
    } else if rules[0].id@ == id {
        0
    } else {
        let k = rule_index(rules.drop_first(), id);
        if k < 0 {
            -1
        } else {
            k + 1
        }
    }
}

proof fn lemma_rule_index(rules: Seq<RuleEntry>, id: Seq<char>)
    ensures
        -1 <= rule_index(rules, id) < rules.len(),
        rule_index(rules, id) >= 0 ==> rules[rule_index(rules, id)].id@ == id,
    decreases rules.len(),
{
    if rules.len() > 0 {
        lemma_rule_index(rules.drop_first(), id);
    }
}

/// Two packs agree field by field (rules by their contents).
#[verifier::opaque]
pub open spec fn same_pack(a: RulePack, b: RulePack) -> bool {
    (RulePack { rules: b.rules, ..a }) == b && a.rules@ == b.rules@
}

/// Packs that agree have the same identity, version, tenant, lifecycle
/// and rules.
pub proof fn lemma_same_pack(a: RulePack, b: RulePack)
    requires
        same_pack(a, b),
    ensures
        a.id == b.id,
        a.version == b.version,
        a.tenant_id == b.tenant_id,
        a.lifecycle == b.lifecycle,
        a.rules@ == b.rules@,
{
    reveal(same_pack);
}

impl Clone for RulePack {
    fn clone(&self) -> (r: RulePack)
        ensures
            same_pack(r, *self),
    {
        let mut rules: Vec<RuleEntry> = Vec::new();
        let mut i: usize = 0;
        while i < self.rules.len()
            invariant
                i <= self.rules@.len(),
                rules@ == self.rules@.take(i as int),
            decreases self.rules@.len() - i,
        {
            rules.push(self.rules[i].clone());
            assert(self.rules@.take(i + 1) == self.rules@.take(i as int).push(self.rules@[i as int]));
            i = i + 1;
        }
        assert(self.rules@.take(self.rules@.len() as int) == self.rules@);
        let r = RulePack {
            id: self.id.clone(),
            version: self.version,
            tenant_id: self.tenant_id,
            lifecycle: self.lifecycle,
            effective_from: self.effective_from,
            superseded_by: match &self.superseded_by {
                Some(s) => Some(s.clone()),
                None => None,
            },
            description: self.description.clone(),
            rules,
            initial_balance: self.initial_balance,
            leverage: self.leverage,
            profit_target_pct: self.profit_target_pct,
        };
        proof {
            reveal(same_pack);
        }
        r
    }
}

impl RulePack {
    /// Checks the pack: an empty id, no rules, or a duplicated rule id is
    /// an `InvalidConfig` error.
    pub fn validate(&self) -> (r: Result<(), Error>)
        ensures
            r is Ok <==> pack_is_valid(*self),
            r is Err ==> r->Err_0 is InvalidConfig && r->Err_0->InvalidConfig_0@ == (if self.id@.len() == 0 {
                "pack id cannot be empty"@
            } else if self.rules@.len() == 0 {
                "pack has no rules"@
            } else {
                "pack has a duplicate rule id"@
            }),
    {
        if self.id.as_str().unicode_len() == 0 {
            return Err(Error::invalid_config("pack id cannot be empty"));
        }
        if self.rules.len() == 0 {
            return Err(Error::invalid_config("pack has no rules"));
        }
        let n = self.rules.len();
        let mut j: usize = 0;
        while j < n
            invariant
                n == self.rules@.len(),
                self.id@.len() != 0,
                n > 0,
                j <= n,
                forall|a: int, b: int| 0 <= a < b < j ==> #[trigger] self.rules@[a].id@ != #[trigger] self.rules@[b].id@,
            decreases n - j,
        {
            let mut i: usize = 0;
            while i < j
                invariant
                    n == self.rules@.len(),
                    self.id@.len() != 0,
                    i <= j < n,
                    forall|a: int| 0 <= a < i ==> #[trigger] self.rules@[a].id@ != self.rules@[j as int].id@,
                decreases j - i,
            {
                if self.rules[i].id == self.rules[j].id {
                    return Err(Error::invalid_config("pack has a duplicate rule id"));
                }
                i = i + 1;
            }
            j = j + 1;
        }
        Ok(())
    }

    /// The first rule with the given id.
    pub fn get(&self, id: &str) -> (r: Option<&RuleEntry>)
        ensures
            rule_index(self.rules@, id@) < 0 ==> r is None,
            rule_index(self.rules@, id@) >= 0 ==> r == Some(&self.rules@[rule_index(self.rules@, id@)]),
    {
        let mut i: usize = 0;
        proof {
            lemma_rule_index(self.rules@, id@);
        }
        assert(self.rules@.skip(0) == self.rules@);
        while i < self.rules.len()
            invariant
                i <= self.rules@.len(),
                rule_index(self.rules@, id@) == (if rule_index(self.rules@.skip(i as int), id@) < 0 {
                    -1
                } else {
                    rule_index(self.rules@.skip(i as int), id@) + i
                }),
            decreases self.rules@.len() - i,
        {
            assert(self.rules@.skip(i as int)[0] == self.rules@[i as int]);
            assert(self.rules@.skip(i as int).drop_first() == self.rules@.skip(i + 1));
            if text_eq(self.rules[i].id.as_str(), id) {
                return Some(&self.rules[i]);
            }
            i = i + 1;
        }
        assert(self.rules@.skip(i as int) == Seq::<RuleEntry>::empty());
        None
    }

    /// The deterministic rule id of a rule kind.
    pub fn rule_id_for(kind: &str) -> (r: RuleId)
        ensures
            r.0 == uuid_from_hash(default_str_hash(kind@)),
    {
        RuleId::named(kind)
    }

    /// The SHA-256 fingerprint (hex) of the pack's identifying content:
    /// id, version, tenant, each rule's fields, the initial balance,
    /// the leverage and the profit target. Lifecycle, dates and the
    /// description do not enter it.
    pub fn content_hash(&self) -> (r: String)
        ensures
            r@ == fingerprint_of(pack_content_bytes(*self)),
    {
        let mut out: Vec<u8> = Vec::new();
        put_text(&mut out, self.id.as_str());
        put_u32(&mut out, self.version);
        put_u128(&mut out, self.tenant_id.0);
        let ghost head = out@;
        let mut i: usize = 0;
        assert(self.rules@.take(0) =~= Seq::<RuleEntry>::empty());
        assert(head =~= head + rules_bytes(self.rules@.take(0)));
        while i < self.rules.len()
            invariant
                i <= self.rules@.len(),
                out@ == head + rules_bytes(self.rules@.take(i as int)),
            decreases self.rules@.len() - i,
        {
            let ghost before = out@;
            put_rule(&mut out, &self.rules[i]);
            proof {
                let t = self.rules@.take(i + 1);
                assert(t.drop_last() =~= self.rules@.take(i as int));
                assert(t.last() == self.rules@[i as int]);
                assert(out@ =~= head + rules_bytes(t));
            }
            i = i + 1;
        }
        assert(self.rules@.take(self.rules@.len() as int) =~= self.rules@);
        put_i64(&mut out, self.initial_balance.0);
        put_u32(&mut out, self.leverage);
        put_i64(&mut out, self.profit_target_pct.0);
        fingerprint(out.as_slice())
    }
}

/// Tag byte of a basis.
pub open spec fn basis_tag(b: RuleBasis) -> u8 {
    match b {
        RuleBasis::Static => 0,
        RuleBasis::Trailing => 1,
        RuleBasis::EodTrailing => 2,
    }
}

/// Tag byte of a unit.
pub open spec fn unit_tag(u: RuleUnit) -> u8 {
    match u {
        RuleUnit::Percent => 0,
        RuleUnit::Money => 1,
    }
}

/// Raw value of an optional fixed-point number.
pub open spec fn opt_raw(x: Option<Fixed>) -> Option<i64> {
    match x {
        Some(f) => Some(f.0),
        None => None,
    }
}

/// Encoding of one rule entry.
pub open spec fn rule_bytes(r: RuleEntry) -> Seq<u8> {
    text_bytes(r.id@) + text_bytes(r.kind@) + seq![basis_tag(r.basis)] + seq![unit_tag(r.unit)]
        + i64_bytes(r.value.0) + u32_bytes(r.priority) + bool_bytes(r.enabled) + opt_i64_bytes(
        r.tolerance_cents,
    ) + opt_i64_bytes(opt_raw(r.early_warning_pct)) + text_bytes(r.params_json@)
}

/// Encoding of the rules, in order.
pub open spec fn rules_bytes(rs: Seq<RuleEntry>) -> Seq<u8>
    decreases rs.len(),
{
    if rs.len() == 0 {
        Seq::empty()
    } else {
        rules_bytes(rs.drop_last()) + rule_bytes(rs.last())
    }
}

/// Encoding of a pack's identifying content.
pub open spec fn pack_content_bytes(p: RulePack) -> Seq<u8> {
    text_bytes(p.id@) + u32_bytes(p.version) + u128_bytes(p.tenant_id.0) + rules_bytes(p.rules@)
        + i64_bytes(p.initial_balance.0) + u32_bytes(p.leverage) + i64_bytes(p.profit_target_pct.0)
}

fn put_rule(out: &mut Vec<u8>, r: &RuleEntry)
    ensures
        final(out)@ == old(out)@ + rule_bytes(*r),
{
    let ghost s0 = out@;
    put_text(out, r.id.as_str());
    put_text(out, r.kind.as_str());
    let ghost p1 = text_bytes(r.id@) + text_bytes(r.kind@);
    assert(out@ =~= s0 + p1);
    let b: u8 = match r.basis {
        RuleBasis::Static => 0,
        RuleBasis::Trailing => 1,
        RuleBasis::EodTrailing => 2,
    };
    put_tag(out, b);
    let u: u8 = match r.unit {
        RuleUnit::Percent => 0,
        RuleUnit::Money => 1,
    };
    put_tag(out, u);
    let ghost p2 = p1 + seq![basis_tag(r.basis)] + seq![unit_tag(r.unit)];
    assert(out@ =~= s0 + p2);
    put_i64(out, r.value.0);
    put_u32(out, r.priority);
    let ghost p3 = p2 + i64_bytes(r.value.0) + u32_bytes(r.priority);
    assert(out@ =~= s0 + p3);
    put_bool(out, r.enabled);
    put_opt_i64(out, r.tolerance_cents);
    let ghost p4 = p3 + bool_bytes(r.enabled) + opt_i64_bytes(r.tolerance_cents);
    assert(out@ =~= s0 + p4);
    let e: Option<i64> = match r.early_warning_pct {
        Some(f) => Some(f.0),
        None => None,
    };
    put_opt_i64(out, e);
    put_text(out, r.params_json.as_str());
    let ghost p5 = p4 + opt_i64_bytes(opt_raw(r.early_warning_pct)) + text_bytes(r.params_json@);
    assert(out@ =~= s0 + p5);
    assert(p5 == rule_bytes(*r));
}

} // verus!
