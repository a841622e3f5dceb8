//! The evaluator: the rule set registered for a plan, and the
//! aggregation of the rules' reports into one decision.
use crate::decision::{all_violations_of, decision_of, Decision, RuleReport};
use crate::error::Error;
use crate::events::{DomainEvent, DomainEventKind};
use crate::ids::{AccountId, EventId};
use crate::plan::ChallengePlan;
use crate::violation::Violation;
use vstd::prelude::*;

verus! {

/// What triggered an evaluation.
#[derive(Debug, Clone, Copy, PartialEq, Eq, Hash, Structural)]
pub enum RuleContextKind {
    OnOrderSubmit,
    OnTradeFill,
    OnTick,
    OnDayRollover,
    OnEndOfDay,
    OnDemand,
}

/// Label of a context kind, for logging.
pub open spec fn context_label_of(kind: RuleContextKind) -> Seq<char> {
    match kind {
        RuleContextKind::OnOrderSubmit => "order_submit"@,
        RuleContextKind::OnTradeFill => "trade_fill"@,
        RuleContextKind::OnTick => "tick"@,
        RuleContextKind::OnDayRollover => "day_rollover"@,
        RuleContextKind::OnEndOfDay => "end_of_day"@,
        RuleContextKind::OnDemand => "on_demand"@,
    }
}

/// Label of a context kind, for logging.
pub fn context_label(kind: RuleContextKind) -> (r: &'static str)
    ensures
        r@ == context_label_of(kind),
{
    match kind {
        RuleContextKind::OnOrderSubmit => "order_submit",
        RuleContextKind::OnTradeFill => "trade_fill",
        RuleContextKind::OnTick => "tick",
        RuleContextKind::OnDayRollover => "day_rollover",
        RuleContextKind::OnEndOfDay => "end_of_day",
        RuleContextKind::OnDemand => "on_demand",
    }
}

/// The rules registered for evaluation, by name, in evaluation order.
#[derive(Debug)]
pub struct RuleRegistry {
    pub names: Vec<String>,
}

/// Names of the rules registered for a plan: the always-on rules, with
/// the per-trade loss rule only when the plan sets a per-trade limit, the
/// HFT rule only when the ban is enabled, and the inactivity rule only
/// when the plan sets an inactivity limit.
pub open spec fn default_rule_names(plan: ChallengePlan) -> Seq<Seq<char>> {
    let base = seq![
        "daily_drawdown"@,
        "max_drawdown"@,
        "trailing_drawdown"@,
        "profit_target"@,
        "min_trading_days"@,
        "consistency"@,
        "news_trading"@,
        "overnight_holding"@,
        "weekend_holding"@,
        "hedging"@,
        "grid_trading"@,
        "copy_trading"@,
        "max_position_size"@,
        "max_open_positions"@,
        "max_daily_trades"@,
        "cooldown"@,
        "time_limit"@,
        "stop_loss_required"@,
        "take_profit_required"@,
    ];
    let a = if plan.per_trade_max_loss_pct is Some || plan.per_trade_max_loss_money is Some {
        base.push("per_trade_max_loss"@)
    } else {
        base
    };
    let b = if plan.hft_ban_enabled {
        a.push("hft_scalping"@)
    } else {
        a
    };
    if plan.inactivity_days is Some {
        b.push("inactivity"@)
    } else {
        b
    }
}

/// The names as texts.
pub open spec fn names_view(names: Seq<String>) -> Seq<Seq<char>> {
    names.map_values(|s: String| s@)
}

impl RuleRegistry {
    /// A registry without rules.
    pub fn empty() -> (r: RuleRegistry)
        ensures
            r.names@.len() == 0,
    {
        RuleRegistry { names: Vec::new() }
    }

    /// The default rule set for a plan.
    pub fn with_default_rules_for_plan(plan: &ChallengePlan) -> (r: RuleRegistry)
        ensures
            names_view(r.names@) == default_rule_names(*plan),
    {
        let mut names: Vec<String> = Vec::new();
        names.push("daily_drawdown".to_string());
        names.push("max_drawdown".to_string());
        names.push("trailing_drawdown".to_string());
        names.push("profit_target".to_string());
        names.push("min_trading_days".to_string());
        names.push("consistency".to_string());
        names.push("news_trading".to_string());
        names.push("overnight_holding".to_string());
        names.push("weekend_holding".to_string());
        names.push("hedging".to_string());
        names.push("grid_trading".to_string());
        names.push("copy_trading".to_string());
        names.push("max_position_size".to_string());
        names.push("max_open_positions".to_string());
        names.push("max_daily_trades".to_string());
        names.push("cooldown".to_string());
        names.push("time_limit".to_string());
        names.push("stop_loss_required".to_string());
        names.push("take_profit_required".to_string());
        if plan.per_trade_max_loss_pct.is_some() || plan.per_trade_max_loss_money.is_some() {
            names.push("per_trade_max_loss".to_string());
        }
        if plan.hft_ban_enabled {
            names.push("hft_scalping".to_string());
        }
        if plan.inactivity_days.is_some() {
            names.push("inactivity".to_string());
        }
        proof {
            assert(names_view(names@) =~= default_rule_names(*plan));
        }
        RuleRegistry { names }
    }

    /// Number of registered rules.
    pub fn len(&self) -> (r: usize)
        ensures
            r == self.names@.len(),
    {
        self.names.len()
    }
}

/// Evaluates the rules registered for an account.
#[derive(Debug)]
pub struct Evaluator {
    pub registry: RuleRegistry,
    account_id: AccountId,
}

/// Rule reports together with the decision they produce.
#[derive(Debug)]
pub struct EvaluationResult {
    pub reports: Vec<RuleReport>,
    pub decision: Decision,
}

impl Evaluator {
    /// The account this evaluator is bound to.
    pub closed spec fn account(&self) -> AccountId {
        self.account_id
    }

    /// The registry this evaluator runs.
    pub closed spec fn rules(&self) -> RuleRegistry {
        self.registry
    }

    /// An evaluator with the default rule set of the plan (rules the plan
    /// disables are not registered), bound to a fresh account id.
    pub fn new(plan: &ChallengePlan) -> (r: Evaluator)
        ensures
            names_view(r.rules().names@) == default_rule_names(*plan),
    {
        Evaluator {
            registry: RuleRegistry::with_default_rules_for_plan(plan),
            account_id: AccountId::new(),
        }
    }

    /// An evaluator with a custom registry, bound to a fresh account id.
    pub fn with_registry(registry: RuleRegistry) -> (r: Evaluator)
        ensures
            r.rules() == registry,
    {
        Evaluator { registry, account_id: AccountId::new() }
    }

    /// The same evaluator bound to `id`.
    pub fn for_account(self, id: AccountId) -> (r: Evaluator)
        ensures
            r.rules() == self.rules(),
            r.account() == id,
    {
        Evaluator { account_id: id, ..self }
    }

    /// Aggregates the reports of the registered rules into a decision.
    pub fn evaluate(&self, reports: Vec<RuleReport>) -> (r: Result<EvaluationResult, Error>)
        ensures
            r is Ok,
            r->Ok_0.reports == reports,
            decision_of(reports@, r->Ok_0.decision),
    {
        let decision = Decision::from_reports(&reports);
        Ok(EvaluationResult { reports, decision })
    }
}

impl EvaluationResult {
    /// Every rule passed.
    pub fn passed(&self) -> (r: bool)
        ensures
            r == (self.decision.kind == crate::decision::DecisionKind::Pass),
    {
        self.decision.is_pass()
    }

    /// The decision terminates the account.
    pub fn failed(&self) -> (r: bool)
        ensures
            r == crate::decision::kind_terminating(self.decision.kind),
    {
        self.decision.is_terminating()
    }

    /// Copies of the violations of the reports, in report order.
    pub fn violations(&self) -> (r: Vec<Violation>)
        ensures
            r@ == all_violations_of(self.reports@),
    {
        let mut out: Vec<Violation> = Vec::new();
        let mut i: usize = 0;
        while i < self.reports.len()
            invariant
                i <= self.reports@.len(),
                out@ == all_violations_of(self.reports@.take(i as int)),
            decreases self.reports@.len() - i,
        {
            let ghost next = self.reports@.take(i + 1);
            assert(next.drop_last() == self.reports@.take(i as int));
            match self.reports[i].verdict.violation() {
                Some(v) => {
                    out.push(v);
                },
                None => {},
            }
            i = i + 1;
        }
        assert(self.reports@.take(self.reports@.len() as int) == self.reports@);
        out
    }
}

/// An audit event recording a violation at its occurrence time, caused by
/// `causation` when given.
pub fn make_violation_event(account_id: AccountId, violation: &Violation, causation: Option<
    EventId,
>) -> (r: DomainEvent)
    ensures
        r.account_id == account_id,
        r.kind == (DomainEventKind::RuleViolated { violation: *violation }),
        r.occurred_at == violation.occurred_at,
        r.causation_id == causation,
{
    let ev = DomainEvent::new(
        account_id,
        DomainEventKind::RuleViolated { violation: violation.clone() },
        violation.occurred_at,
    );
    match causation {
        Some(c) => ev.with_causation(c),
        None => ev,
    }
}

} // verus!
