//! Decisions: the engine-level outcome combining every rule verdict.
//!
//! The winner is chosen by verdict category first (emergency, liquidate,
//! fail, gap-flagged, target-hit, early-warning, warn, pass) and, within
//! the winning category, by the highest rule priority; among equal
//! priorities the earliest report wins. A target hit therefore loses to
//! any breach on the same evaluation.
use crate::account::AccountStatus;
use crate::violation::{severity_rank, Violation, ViolationSeverity};
use vstd::prelude::*;

verus! {

/// Verdict of one rule on one evaluation.
#[derive(Debug)]
pub enum RuleVerdict {
    /// The rule passed.
    Pass,
    /// The rule did not apply to the evaluation.
    Skipped,
    /// Trader-facing warning.
    Warn(Violation),
    /// Ops-paged early warning.
    EarlyWarning(Violation),
    /// The profit target was reached.
    TargetHit(Violation),
    /// Hard violation: the account terminates.
    Fail(Violation),
    /// Required input data was missing.
    GapFlagged(Violation),
    /// All open positions must be liquidated.
    Liquidate(Violation),
    /// Emergency stop.
    Emergency(Violation),
}

/// Category of a verdict, from emergency (7), liquidate (6), fail (5), gap-flagged (4),
/// target-hit 3, early-warning 2, warn 1, pass or skipped 0.
pub open spec fn category(v: RuleVerdict) -> u8 {
    match v {
        RuleVerdict::Pass => 0,
        RuleVerdict::Skipped => 0,
        RuleVerdict::Warn(_) => 1,
        RuleVerdict::EarlyWarning(_) => 2,
        RuleVerdict::TargetHit(_) => 3,
        RuleVerdict::GapFlagged(_) => 4,
        RuleVerdict::Fail(_) => 5,
        RuleVerdict::Liquidate(_) => 6,
        RuleVerdict::Emergency(_) => 7,
    }
}

/// The violation a verdict carries, if any.
pub open spec fn verdict_violation(v: RuleVerdict) -> Option<Violation> {
    match v {
        RuleVerdict::Pass => None,
        RuleVerdict::Skipped => None,
        RuleVerdict::Warn(x) => Some(x),
        RuleVerdict::EarlyWarning(x) => Some(x),
        RuleVerdict::TargetHit(x) => Some(x),
        RuleVerdict::GapFlagged(x) => Some(x),
        RuleVerdict::Fail(x) => Some(x),
        RuleVerdict::Liquidate(x) => Some(x),
        RuleVerdict::Emergency(x) => Some(x),
    }
}

impl RuleVerdict {
    /// The category rank of this verdict.
    pub fn category(&self) -> (r: u8)
        ensures
            r == category(*self),
    {
        match self {
            RuleVerdict::Pass => 0,
            RuleVerdict::Skipped => 0,
            RuleVerdict::Warn(_) => 1,
            RuleVerdict::EarlyWarning(_) => 2,
            RuleVerdict::TargetHit(_) => 3,
            RuleVerdict::GapFlagged(_) => 4,
            RuleVerdict::Fail(_) => 5,
            RuleVerdict::Liquidate(_) => 6,
            RuleVerdict::Emergency(_) => 7,
        }
    }

    /// A copy of the carried violation, if any.
    pub fn violation(&self) -> (r: Option<Violation>)
        ensures
            r == verdict_violation(*self),
    {
        match self {
            RuleVerdict::Pass => None,
            RuleVerdict::Skipped => None,
            RuleVerdict::Warn(x) => Some(x.clone()),
            RuleVerdict::EarlyWarning(x) => Some(x.clone()),
            RuleVerdict::TargetHit(x) => Some(x.clone()),
            RuleVerdict::GapFlagged(x) => Some(x.clone()),
            RuleVerdict::Fail(x) => Some(x.clone()),
            RuleVerdict::Liquidate(x) => Some(x.clone()),
            RuleVerdict::Emergency(x) => Some(x.clone()),
        }
    }
}

/// The report of one rule: its name, explicit priority and verdict.
#[derive(Debug)]
pub struct RuleReport {
    pub rule_name: String,
    /// Explicit numeric priority; higher wins within a category.
    pub priority: u32,
    pub verdict: RuleVerdict,
}

/// Final decision kind.
#[derive(Debug, Clone, Copy, PartialEq, Eq, Structural)]
pub enum DecisionKind {
    Pass,
    Warn,
    EarlyWarning,
    TargetHit,
    Fail,
    GapFlagged,
    Liquidate,
    Emergency,
}

/// Fail, liquidate or emergency.
pub open spec fn kind_terminating(k: DecisionKind) -> bool {
    k == DecisionKind::Fail || k == DecisionKind::Liquidate || k == DecisionKind::Emergency
}

/// Tie-break weight of a decision kind (higher wins).
pub open spec fn kind_weight(k: DecisionKind) -> u32 {
    match k {
        DecisionKind::Emergency => 10_000,
        DecisionKind::Liquidate => 1_000,
        DecisionKind::Fail => 900,
        DecisionKind::GapFlagged => 800,
        DecisionKind::TargetHit => 100,
        DecisionKind::EarlyWarning => 50,
        DecisionKind::Warn => 40,
        DecisionKind::Pass => 0,
    }
}

/// Decision kind of a verdict category.
pub open spec fn kind_of_category(c: u8) -> DecisionKind {
    if c == 7 {
        DecisionKind::Emergency
    } else if c == 6 {
        DecisionKind::Liquidate
    } else if c == 5 {
        DecisionKind::Fail
    } else if c == 4 {
        DecisionKind::GapFlagged
    } else if c == 3 {
        DecisionKind::TargetHit
    } else if c == 2 {
        DecisionKind::EarlyWarning
    } else if c == 1 {
        DecisionKind::Warn
    } else {
        DecisionKind::Pass
    }
}

impl DecisionKind {
    pub fn is_pass(self) -> (r: bool)
        ensures
            r == (self == DecisionKind::Pass),
    {
        self == DecisionKind::Pass
    }

    pub fn is_warn(self) -> (r: bool)
        ensures
            r == (self == DecisionKind::Warn),
    {
        self == DecisionKind::Warn
    }

    pub fn is_early_warning(self) -> (r: bool)
        ensures
            r == (self == DecisionKind::EarlyWarning),
    {
        self == DecisionKind::EarlyWarning
    }

    pub fn is_target_hit(self) -> (r: bool)
        ensures
            r == (self == DecisionKind::TargetHit),
    {
        self == DecisionKind::TargetHit
    }

    pub fn is_fail(self) -> (r: bool)
        ensures
            r == (self == DecisionKind::Fail),
    {
        self == DecisionKind::Fail
    }

    pub fn is_gap_flagged(self) -> (r: bool)
        ensures
            r == (self == DecisionKind::GapFlagged),
    {
        self == DecisionKind::GapFlagged
    }

    pub fn is_liquidate(self) -> (r: bool)
        ensures
            r == (self == DecisionKind::Liquidate),
    {
        self == DecisionKind::Liquidate
    }

    pub fn is_emergency(self) -> (r: bool)
        ensures
            r == (self == DecisionKind::Emergency),
    {
        self == DecisionKind::Emergency
    }

    /// Fail, liquidate or emergency: the account terminates.
    pub fn is_terminating(self) -> (r: bool)
        ensures
            r == kind_terminating(self),
    {
        match self {
            DecisionKind::Fail | DecisionKind::Liquidate | DecisionKind::Emergency => true,
            _ => false,
        }
    }

    /// Tie-break weight (emergency 10000, liquidate 1000, fail 900,
    /// gap-flagged 800, target-hit 100, early-warning 50, warn 40, pass 0).
    pub fn intrinsic_weight(self) -> (r: u32)
        ensures
            r == kind_weight(self),
    {
        match self {
            DecisionKind::Emergency => 10_000,
            DecisionKind::Liquidate => 1_000,
            DecisionKind::Fail => 900,
            DecisionKind::GapFlagged => 800,
            DecisionKind::TargetHit => 100,
            DecisionKind::EarlyWarning => 50,
            DecisionKind::Warn => 40,
            DecisionKind::Pass => 0,
        }
    }
}

/// Why a decision was made.
#[derive(Debug)]
pub enum DecisionReason {
    AllRulesPassed,
    Warnings(Vec<Violation>),
    EarlyWarnings(Vec<Violation>),
    TargetHitReached(Violation),
    HardViolation(Violation),
    LiquidationRequested(Violation),
    EmergencyStop(Violation),
    GapFlaggedReached(Violation),
}

/// The decision produced by an evaluation.
#[derive(Debug)]
pub struct Decision {
    pub kind: DecisionKind,
    pub reason: DecisionReason,
    /// Priority of the winning rule.
    pub winning_priority: u32,
    /// Every violation produced on the evaluation, in report order.
    pub all_violations: Vec<Violation>,
}

/// Highest verdict category among the reports (0 when none).
pub open spec fn top_category(s: Seq<RuleReport>) -> u8
    decreases s.len(),
{
    if s.len() == 0 {
        0
    } else {
        let t = top_category(s.drop_last());
        let c = category(s.last().verdict);
        if c > t {
            c
        } else {
            t
        }
    }
}

/// Highest priority among the reports of category `c` and the index of
/// the earliest report holding it (`None` when the category is absent).
pub open spec fn best_in(s: Seq<RuleReport>, c: u8) -> Option<(u32, int)>
    decreases s.len(),
{
    if s.len() == 0 {
        None
    } else {
        let b = best_in(s.drop_last(), c);
        let r = s.last();
        if category(r.verdict) == c && (b is None || r.priority > (b->0).0) {
            Some((r.priority, s.len() - 1))
        } else {
            b
        }
    }
}

/// Violations of the reports of category `c`, in report order.
pub open spec fn violations_in(s: Seq<RuleReport>, c: u8) -> Seq<Violation>
    decreases s.len(),
{
    if s.len() == 0 {
        Seq::empty()
    } else {
        let p = violations_in(s.drop_last(), c);
        if category(s.last().verdict) == c && verdict_violation(s.last().verdict) is Some {
            p.push(verdict_violation(s.last().verdict)->0)
        } else {
            p
        }
    }
}

/// Every violation carried by the reports, in report order.
pub open spec fn all_violations_of(s: Seq<RuleReport>) -> Seq<Violation>
    decreases s.len(),
{
    if s.len() == 0 {
        Seq::empty()
    } else {
        let p = all_violations_of(s.drop_last());
        match verdict_violation(s.last().verdict) {
            Some(v) => p.push(v),
            None => p,
        }
    }
}

/// Winning priority of the reports (0 when every rule passed).
pub open spec fn winning_priority_of(s: Seq<RuleReport>) -> u32 {
    let t = top_category(s);
    if t == 0 {
        0
    } else {
        match best_in(s, t) {
            Some(b) => b.0,
            None => 0,
        }
    }
}

/// The violation of the winning report of category `c`.
pub open spec fn winner_violation(s: Seq<RuleReport>, c: u8) -> Violation {
    verdict_violation(s[(best_in(s, c)->0).1].verdict)->0
}

/// The reason the decision over `s` carries.
pub open spec fn reason_matches(s: Seq<RuleReport>, r: DecisionReason) -> bool {
    let t = top_category(s);
    if t == 7 {
        r == DecisionReason::EmergencyStop(winner_violation(s, 7))
    } else if t == 6 {
        r == DecisionReason::LiquidationRequested(winner_violation(s, 6))
    } else if t == 5 {
        r == DecisionReason::HardViolation(winner_violation(s, 5))
    } else if t == 4 {
        r == DecisionReason::GapFlaggedReached(winner_violation(s, 4))
    } else if t == 3 {
        r == DecisionReason::TargetHitReached(winner_violation(s, 3))
    } else if t == 2 {
        r matches DecisionReason::EarlyWarnings(v) && v@ == violations_in(s, 2)
    } else if t == 1 {
        r matches DecisionReason::Warnings(v) && v@ == violations_in(s, 1)
    } else {
        r == DecisionReason::AllRulesPassed
    }
}

/// The decision over the reports.
pub open spec fn decision_of(s: Seq<RuleReport>, d: Decision) -> bool {
    &&& d.kind == kind_of_category(top_category(s))
    &&& d.winning_priority == winning_priority_of(s)
    &&& d.all_violations@ == all_violations_of(s)
    &&& reason_matches(s, d.reason)
}

proof fn lemma_best_in(s: Seq<RuleReport>, c: u8)
    ensures
        best_in(s, c) is None <==> (forall|i: int| 0 <= i < s.len() ==> category(#[trigger] s[i].verdict) != c),
        best_in(s, c) matches Some(b) ==> {
            &&& 0 <= b.1 < s.len()
            &&& category(s[b.1].verdict) == c
            &&& s[b.1].priority == b.0
            &&& forall|i: int|
                0 <= i < s.len() && category(#[trigger] s[i].verdict) == c ==> s[i].priority <= b.0
        },
    decreases s.len(),
{
    if s.len() > 0 {
        lemma_best_in(s.drop_last(), c);
        assert forall|i: int| 0 <= i < s.len() - 1 implies #[trigger] s[i] == s.drop_last()[i] by {}
    }
}

proof fn lemma_top_category(s: Seq<RuleReport>)
    ensures
        forall|i: int| 0 <= i < s.len() ==> category(#[trigger] s[i].verdict) <= top_category(s),
        top_category(s) > 0 ==> exists|i: int|
            0 <= i < s.len() && category(#[trigger] s[i].verdict) == top_category(s),
    decreases s.len(),
{
    if s.len() > 0 {
        lemma_top_category(s.drop_last());
        assert forall|i: int| 0 <= i < s.len() - 1 implies #[trigger] s[i] == s.drop_last()[i] by {}
        if top_category(s) > 0 && category(s.last().verdict) != top_category(s) {
            let i = choose|i: int|
                0 <= i < s.drop_last().len() && category(#[trigger] s.drop_last()[i].verdict)
                    == top_category(s.drop_last());
            assert(s[i] == s.drop_last()[i]);
        }
    }
}

/// Every report of `a` also occurs in `b` (as elements, with any order).
proof fn lemma_transfer(a: Seq<RuleReport>, b: Seq<RuleReport>, i: int) -> (j: int)
    requires
        a.to_multiset() == b.to_multiset(),
        0 <= i < a.len(),
    ensures
        0 <= j < b.len(),
        b[j] == a[i],
{
    broadcast use vstd::seq_lib::to_multiset_contains;

    assert(a.contains(a[i]));
    assert(a.to_multiset().count(a[i]) > 0);
    assert(b.to_multiset().count(a[i]) > 0);
    assert(b.contains(a[i]));
    b.lemma_contains_to_index(a[i])
}

proof fn lemma_top_le(a: Seq<RuleReport>, b: Seq<RuleReport>)
    requires
        a.to_multiset() == b.to_multiset(),
    ensures
        top_category(a) <= top_category(b),
{
    lemma_top_category(a);
    lemma_top_category(b);
    if top_category(a) > 0 {
        let i = choose|i: int| 0 <= i < a.len() && category(#[trigger] a[i].verdict) == top_category(a);
        let j = lemma_transfer(a, b, i);
        assert(category(b[j].verdict) <= top_category(b));
    }
}

proof fn lemma_best_le(a: Seq<RuleReport>, b: Seq<RuleReport>, c: u8)
    requires
        a.to_multiset() == b.to_multiset(),
        best_in(a, c) is Some,
    ensures
        best_in(b, c) is Some,
        (best_in(a, c)->0).0 <= (best_in(b, c)->0).0,
{
    lemma_best_in(a, c);
    lemma_best_in(b, c);
    let i = (best_in(a, c)->0).1;
    let j = lemma_transfer(a, b, i);
    assert(category(b[j].verdict) == c);
}

/// A breach (fail, liquidate or emergency) on an evaluation always
/// terminates: a target hit, warning or gap can never win over it.
pub proof fn law_breach_beats_target_hit(reports: Seq<RuleReport>, d: Decision, i: int)
    requires
        decision_of(reports, d),
        0 <= i < reports.len(),
        category(reports[i].verdict) >= 5,
    ensures
        kind_terminating(d.kind),
        d.kind != DecisionKind::TargetHit,
{
    lemma_top_category(reports);
}

/// An emergency verdict wins over every other verdict.
pub proof fn law_emergency_wins(reports: Seq<RuleReport>, d: Decision, i: int)
    requires
        decision_of(reports, d),
        0 <= i < reports.len(),
        reports[i].verdict is Emergency,
    ensures
        d.kind == DecisionKind::Emergency,
{
    lemma_top_category(reports);
}

/// The decision kind and the winning priority do not depend on the order
/// in which rules reported: any reordering of the reports yields the same.
pub proof fn law_order_independent(s1: Seq<RuleReport>, s2: Seq<RuleReport>, d1: Decision, d2: Decision)
    requires
        s1.to_multiset() == s2.to_multiset(),
        decision_of(s1, d1),
        decision_of(s2, d2),
    ensures
        d1.kind == d2.kind,
        d1.winning_priority == d2.winning_priority,
{
    lemma_top_le(s1, s2);
    lemma_top_le(s2, s1);
    let t = top_category(s1);
    if t > 0 {
        lemma_top_category(s1);
        let i = choose|i: int| 0 <= i < s1.len() && category(#[trigger] s1[i].verdict) == t;
        lemma_best_in(s1, t);
        lemma_best_le(s1, s2, t);
        lemma_best_le(s2, s1, t);
    }
}

/// The winning priority is the highest priority among the reports of the
/// winning category, and one report of that category holds it.
pub proof fn law_winner_has_highest_priority(reports: Seq<RuleReport>, d: Decision)
    requires
        decision_of(reports, d),
        top_category(reports) > 0,
    ensures
        exists|i: int|
            0 <= i < reports.len() && category(#[trigger] reports[i].verdict) == top_category(
                reports,
            ) && reports[i].priority == d.winning_priority,
        forall|i: int|
            0 <= i < reports.len() && category(#[trigger] reports[i].verdict) == top_category(
                reports,
            ) ==> reports[i].priority <= d.winning_priority,
{
    lemma_top_category(reports);
    let t = top_category(reports);
    let i = choose|i: int| 0 <= i < reports.len() && category(#[trigger] reports[i].verdict) == t;
    lemma_best_in(reports, t);
    let b = best_in(reports, t)->0;
    assert(category(reports[b.1].verdict) == t);
}

/// When every rule passes (or is skipped) the decision is a pass.
pub proof fn law_all_pass_is_pass(reports: Seq<RuleReport>, d: Decision)
    requires
        decision_of(reports, d),
        forall|i: int| 0 <= i < reports.len() ==> category(#[trigger] reports[i].verdict) == 0,
    ensures
        d.kind == DecisionKind::Pass,
        d.winning_priority == 0,
{
    lemma_top_category(reports);
}

impl Decision {
    /// Aggregates rule reports into one decision: the highest verdict
    /// category wins, then the highest priority within it (earliest report
    /// on ties). Every violation is kept in `all_violations`.
    pub fn from_reports(reports: &Vec<RuleReport>) -> (d: Decision)
        ensures
            decision_of(reports@, d),
    {
        let n = reports.len();
        let mut all_violations: Vec<Violation> = Vec::new();
        let mut top: u8 = 0;
        let mut best: Vec<Option<(u32, usize)>> = Vec::new();
        let mut k: usize = 0;
        while k < 8
            invariant
                k <= 8,
                best@.len() == k,
                forall|j: int| 0 <= j < k ==> best@[j] is None,
            decreases 8 - k,
        {
            best.push(None);
            k = k + 1;
        }
        let mut early: Vec<Violation> = Vec::new();
        let mut warns: Vec<Violation> = Vec::new();
        let mut i: usize = 0;
        while i < n
            invariant
                n == reports@.len(),
                i <= n,
                best@.len() == 8,
                top == top_category(reports@.take(i as int)),
                all_violations@ == all_violations_of(reports@.take(i as int)),
                early@ == violations_in(reports@.take(i as int), 2),
                warns@ == violations_in(reports@.take(i as int), 1),
                forall|c: int|
                    0 <= c < 8 ==> match (#[trigger] best@[c], best_in(
                        reports@.take(i as int),
                        c as u8,
                    )) {
                        (None, None) => true,
                        (Some(x), Some(y)) => x.0 == y.0 && x.1 as int == y.1,
                        _ => false,
                    },
            decreases n - i,
        {
            let r = &reports[i];
            let ghost s1 = reports@.take(i + 1);
            assert(s1.drop_last() == reports@.take(i as int));
            assert(s1.last() == reports@[i as int]);
            let c = r.verdict.category();
            let v = r.verdict.violation();
            if let Some(x) = &v {
                all_violations.push(x.clone());
            }
            if c > top {
                top = c;
            }
            if c == 2 {
                if let Some(x) = v {
                    early.push(x);
                }
            } else if c == 1 {
                if let Some(x) = v {
                    warns.push(x);
                }
            }
            let cur = best[c as usize];
            let replace = match cur {
                None => true,
                Some((p, _)) => r.priority > p,
            };
            if replace {
                best.set(c as usize, Some((r.priority, i)));
            }
            assert forall|cc: int| 0 <= cc < 8 implies match (#[trigger] best@[cc], best_in(
                s1,
                cc as u8,
            )) {
                (None, None) => true,
                (Some(x), Some(y)) => x.0 == y.0 && x.1 as int == y.1,
                _ => false,
            } by {}
            i = i + 1;
        }
        assert(reports@.take(n as int) == reports@);
        let t = top as usize;
        proof {
            lemma_top_category(reports@);
            if t > 0 {
                let j = choose|j: int|
                    0 <= j < reports@.len() && category(#[trigger] reports@[j].verdict) == t;
                lemma_best_in(reports@, t as u8);
            }
        }
        if t >= 3 {
            let (p, idx) = best[t].unwrap();
            proof {
                lemma_best_in(reports@, t as u8);
            }
            let w = reports[idx].verdict.violation().unwrap();
            let (kind, reason) = if t == 7 {
                (DecisionKind::Emergency, DecisionReason::EmergencyStop(w))
            } else if t == 6 {
                (DecisionKind::Liquidate, DecisionReason::LiquidationRequested(w))
            } else if t == 5 {
                (DecisionKind::Fail, DecisionReason::HardViolation(w))
            } else if t == 4 {
                (DecisionKind::GapFlagged, DecisionReason::GapFlaggedReached(w))
            } else {
                (DecisionKind::TargetHit, DecisionReason::TargetHitReached(w))
            };
            return Decision { kind, reason, winning_priority: p, all_violations };
        }
        if t == 2 {
            let (p, _) = best[2].unwrap();
            return Decision {
                kind: DecisionKind::EarlyWarning,
                reason: DecisionReason::EarlyWarnings(early),
                winning_priority: p,
                all_violations,
            };
        }
        if t == 1 {
            let (p, _) = best[1].unwrap();
            return Decision {
                kind: DecisionKind::Warn,
                reason: DecisionReason::Warnings(warns),
                winning_priority: p,
                all_violations,
            };
        }
        Decision {
            kind: DecisionKind::Pass,
            reason: DecisionReason::AllRulesPassed,
            winning_priority: 0,
            all_violations,
        }
    }

    pub fn is_pass(&self) -> (r: bool)
        ensures
            r == (self.kind == DecisionKind::Pass),
    {
        self.kind.is_pass()
    }

    pub fn is_target_hit(&self) -> (r: bool)
        ensures
            r == (self.kind == DecisionKind::TargetHit),
    {
        self.kind.is_target_hit()
    }

    pub fn is_terminating(&self) -> (r: bool)
        ensures
            r == kind_terminating(self.kind),
    {
        self.kind.is_terminating()
    }

    /// Account status the decision imposes: `Failed` for fail or
    /// liquidate, `EmergencyStopped` for emergency, none otherwise.
    pub fn account_status_target(&self) -> (r: Option<AccountStatus>)
        ensures
            r == status_target_of(self.kind),
    {
        match self.kind {
            DecisionKind::Fail | DecisionKind::Liquidate => Some(AccountStatus::Failed),
            DecisionKind::Emergency => Some(AccountStatus::EmergencyStopped),
            _ => None,
        }
    }

    /// Copies of all violations of the decision.
    pub fn violations(&self) -> (r: Vec<Violation>)
        ensures
            r@ == self.all_violations@,
    {
        clone_violations(&self.all_violations)
    }

    /// Highest severity among all violations (`None` without violations).
    pub fn max_severity(&self) -> (r: Option<ViolationSeverity>)
        ensures
            self.all_violations@.len() == 0 ==> r is None,
            r matches Some(m) ==> (exists|i: int|
                0 <= i < self.all_violations@.len() && #[trigger] self.all_violations@[i].severity
                    == m) && (forall|i: int|
                0 <= i < self.all_violations@.len() ==> severity_rank(
                    #[trigger] self.all_violations@[i].severity,
                ) <= severity_rank(m)),
            self.all_violations@.len() > 0 ==> r is Some,
    {
        let mut best: Option<ViolationSeverity> = None;
        let mut i: usize = 0;
        while i < self.all_violations.len()
            invariant
                i <= self.all_violations@.len(),
                i == 0 <==> best is None,
                best matches Some(m) ==> (exists|j: int|
                    0 <= j < i && #[trigger] self.all_violations@[j].severity == m) && (forall|
                    j: int,
                |
                    0 <= j < i ==> severity_rank(#[trigger] self.all_violations@[j].severity)
                        <= severity_rank(m)),
            decreases self.all_violations@.len() - i,
        {
            let s = self.all_violations[i].severity;
            best = match best {
                None => Some(s),
                Some(m) => if s.rank() > m.rank() {
                    Some(s)
                } else {
                    Some(m)
                },
            };
            i = i + 1;
        }
        best
    }

    /// A pass decision without violations.
    pub fn default_decision() -> (r: Decision)
        ensures
            r.kind == DecisionKind::Pass,
            r.reason == DecisionReason::AllRulesPassed,
            r.winning_priority == 0,
            r.all_violations@.len() == 0,
    {
        Decision {
            kind: DecisionKind::Pass,
            reason: DecisionReason::AllRulesPassed,
            winning_priority: 0,
            all_violations: Vec::new(),
        }
    }
}

/// Two reasons agree (violation lists by their contents).
pub open spec fn same_reason(a: DecisionReason, b: DecisionReason) -> bool {
    match (a, b) {
        (DecisionReason::Warnings(x), DecisionReason::Warnings(y)) => x@ == y@,
        (DecisionReason::EarlyWarnings(x), DecisionReason::EarlyWarnings(y)) => x@ == y@,
        _ => a == b,
    }
}

/// Two decisions agree field by field.
pub open spec fn same_decision(a: Decision, b: Decision) -> bool {
    &&& a.kind == b.kind
    &&& same_reason(a.reason, b.reason)
    &&& a.winning_priority == b.winning_priority
    &&& a.all_violations@ == b.all_violations@
}

impl Clone for DecisionReason {
    fn clone(&self) -> (r: DecisionReason)
        ensures
            same_reason(r, *self),
    {
        match self {
            DecisionReason::AllRulesPassed => DecisionReason::AllRulesPassed,
            DecisionReason::Warnings(v) => DecisionReason::Warnings(clone_violations(v)),
            DecisionReason::EarlyWarnings(v) => DecisionReason::EarlyWarnings(clone_violations(v)),
            DecisionReason::TargetHitReached(v) => DecisionReason::TargetHitReached(v.clone()),
            DecisionReason::HardViolation(v) => DecisionReason::HardViolation(v.clone()),
            DecisionReason::LiquidationRequested(v) => DecisionReason::LiquidationRequested(v.clone()),
            DecisionReason::EmergencyStop(v) => DecisionReason::EmergencyStop(v.clone()),
            DecisionReason::GapFlaggedReached(v) => DecisionReason::GapFlaggedReached(v.clone()),
        }
    }
}

impl Clone for Decision {
    fn clone(&self) -> (r: Decision)
        ensures
            same_decision(r, *self),
    {
        Decision {
            kind: self.kind,
            reason: self.reason.clone(),
            winning_priority: self.winning_priority,
            all_violations: clone_violations(&self.all_violations),
        }
    }
}

/// Status a decision kind imposes on the account.
pub open spec fn status_target_of(k: DecisionKind) -> Option<AccountStatus> {
    match k {
        DecisionKind::Fail => Some(AccountStatus::Failed),
        DecisionKind::Liquidate => Some(AccountStatus::Failed),
        DecisionKind::Emergency => Some(AccountStatus::EmergencyStopped),
        _ => None,
    }
}

/// Copies a list of violations.
pub fn clone_violations(v: &Vec<Violation>) -> (r: Vec<Violation>)
    ensures
        r@ == v@,
{
    let mut r: Vec<Violation> = Vec::new();
    let mut i: usize = 0;
    while i < v.len()
        invariant
            i <= v@.len(),
            r@ == v@.take(i as int),
        decreases v@.len() - i,
    {
        r.push(v[i].clone());
        assert(v@.take(i + 1) == v@.take(i as int).push(v@[i as int]));
        i = i + 1;
    }
    assert(v@.take(v@.len() as int) == v@);
    r
}

impl Default for Decision {
    /// A pass decision without violations: [`Decision::default_decision`].
    fn default() -> (r: Decision)
        ensures
            r.kind == DecisionKind::Pass,
            r.reason == DecisionReason::AllRulesPassed,
            r.winning_priority == 0,
            r.all_violations@.len() == 0,
    {
        Decision::default_decision()
    }
}

} // verus!
