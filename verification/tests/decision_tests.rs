use propfirm::account::{Account, AccountType};
use propfirm::order::OrderSide;
use propfirm::instrument::InstrumentSpec;
use propfirm::plan::{ChallengePhase, ChallengePlan, LossReference, PlanMeta};
use propfirm::decision::{Decision, DecisionKind, RuleReport, RuleVerdict};
use propfirm::equity_input::EquitySource;
use propfirm::evaluator::RuleContextKind;
use propfirm::fixed::{Fixed, SCALE};
use propfirm::ids::{AccountId, RuleId, TenantId};
use propfirm::market::{Quote, Tick};
use propfirm::presets::ftmo_phase1;
use propfirm::pure::{evaluate, EvaluateInputs};
use propfirm::rulepack::{PackLifecycle, RuleEntry, RulePack};
use propfirm::types::{Money, Pct, Price, ServerTime, Symbol};
use propfirm::violation::{Violation, ViolationKind, ViolationSeverity};

fn violation(kind: ViolationKind, severity: ViolationSeverity) -> Violation {
    Violation::new(AccountId(1), RuleId::named("r"), "r".to_string(), kind, severity, "m".to_string(), 0)
}

fn report(name: &str, priority: u32, verdict: RuleVerdict) -> RuleReport {
    RuleReport { rule_name: name.to_string(), priority, verdict }
}

fn target() -> RuleVerdict {
    RuleVerdict::TargetHit(violation(ViolationKind::ProfitTargetMissed, ViolationSeverity::Info))
}

fn fail() -> RuleVerdict {
    RuleVerdict::Fail(violation(ViolationKind::MaxDrawdown, ViolationSeverity::Hard))
}

#[test]
fn breach_beats_target_hit_in_any_order() {
    let a = vec![report("target", 90, target()), report("max_dd", 10, fail())];
    let b = vec![report("max_dd", 10, fail()), report("target", 90, target())];
    let da = Decision::from_reports(&a);
    let db = Decision::from_reports(&b);
    assert_eq!(da.kind, DecisionKind::Fail);
    assert_eq!(db.kind, DecisionKind::Fail);
    assert_eq!(da.winning_priority, 10);
    assert_eq!(db.winning_priority, 10);
    assert_eq!(da.all_violations.len(), 2);
}

#[test]
fn emergency_wins_over_everything() {
    let reports = vec![
        report("max_dd", 100, fail()),
        report("stop", 1, RuleVerdict::Emergency(violation(ViolationKind::Custom, ViolationSeverity::Liquidate))),
        report("target", 50, target()),
    ];
    let d = Decision::from_reports(&reports);
    assert_eq!(d.kind, DecisionKind::Emergency);
    assert_eq!(d.winning_priority, 1);
}

#[test]
fn highest_priority_wins_within_category() {
    let reports = vec![report("a", 3, fail()), report("b", 7, fail()), report("c", 5, fail())];
    let d = Decision::from_reports(&reports);
    assert_eq!(d.kind, DecisionKind::Fail);
    assert_eq!(d.winning_priority, 7);
}

#[test]
fn all_pass_is_pass() {
    let reports = vec![report("a", 3, RuleVerdict::Pass), report("b", 9, RuleVerdict::Skipped)];
    let d = Decision::from_reports(&reports);
    assert_eq!(d.kind, DecisionKind::Pass);
    assert_eq!(d.winning_priority, 0);
    assert!(d.all_violations.is_empty());
}

#[test]
fn evaluation_is_deterministic() {
    let acc = Account::new(AccountId(4), ftmo_phase1());
    let pack = RulePack {
        id: "p".to_string(),
        version: 2,
        tenant_id: TenantId(1),
        lifecycle: PackLifecycle::Active,
        effective_from: 0,
        superseded_by: None,
        description: String::new(),
        rules: vec![RuleEntry::new("max_total_loss", "max_drawdown", Fixed(10_000_000))],
        initial_balance: Money(100_000 * SCALE),
        leverage: 100,
        profit_target_pct: Pct(10_000_000),
    };
    let tick = Tick::new(Symbol::new("EURUSD"), Quote { bid: Price(108_500_000), ask: Price(108_520_000), ts: 5 });
    let run = || {
        let inputs = EvaluateInputs::for_tick(&[], &[], &tick).with_equity_source(EquitySource::BrokerReported);
        evaluate(&acc, b"{}", &pack, RuleContextKind::OnTick, ServerTime(77), inputs, vec![report("max_dd", 10, fail())])
            .unwrap()
    };
    let v1 = run();
    let v2 = run();
    assert_eq!(v1.input_hash, v2.input_hash);
    assert_eq!(v1.decision.kind, v2.decision.kind);
    assert_eq!(v1.decision.kind, DecisionKind::Fail);
    assert!(v1.is_terminating());
    assert_eq!(v1.pack_version, v2.pack_version);
}

#[test]
fn enum_labels() {
    assert_eq!(AccountType::Demo.label(), "demo");
    assert_eq!(AccountType::Phase2.label(), "phase2");
    assert_eq!(ChallengePhase::Funded.label(), "funded");
    assert_eq!(LossReference::EodTrailing.label(), "eod_trailing");
    assert!(matches!(LossReference::parse(LossReference::EodTrailing.label()), Ok(LossReference::EodTrailing)));
    assert_eq!(OrderSide::Sell.label(), "sell");
}

#[test]
fn defaults() {
    let plan = ChallengePlan::default();
    assert_eq!(plan.phase, ChallengePhase::Phase1);
    assert_eq!(plan.initial_balance_money, Money(10_000 * SCALE));
    assert_eq!(plan.min_trading_days, 3);
    assert_eq!(plan.leverage, 100);
    assert_eq!(PlanMeta::default().currency, "USD");
    assert_eq!(InstrumentSpec::default().digits, 5);
    let d = Decision::default();
    assert_eq!(d.kind, DecisionKind::Pass);
    assert_eq!(d.winning_priority, 0);
    assert!(d.all_violations.is_empty());
}
