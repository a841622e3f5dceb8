use propfirm::auth::parse_service_token_spec;
use propfirm::error::Error;
use propfirm::fixed::{Fixed, SCALE};
use propfirm::ids::{AccountId, TenantId};
use propfirm::account::Account;
use propfirm::plan::ChallengePlan;
use propfirm::presets::ftmo_phase1;
use propfirm::risk::validate;
use propfirm::rulepack::{PackLifecycle, RuleEntry, RulePack};
use propfirm::rulepack_store::{check_transition, ensure_draft};
use propfirm::store::InMemoryStore;
use propfirm::types::{Money, Pct};

fn text(e: Error) -> String {
    match e {
        Error::InvalidConfig(m) | Error::InvalidState(m) | Error::NotFound(m) => m,
        Error::StateConflict(m, _, _) => m,
        other => panic!("unexpected error {other:?}"),
    }
}

#[test]
fn plan_validation_names_the_first_failed_check() {
    let mut p = ChallengePlan::default();
    p.max_daily_drawdown_pct = Pct(2 * SCALE);
    p.consistency_pct = Some(Pct(-1));
    assert_eq!(text(p.validate().unwrap_err()), "max_daily_drawdown_pct must be in [0, 1]");
    p.max_daily_drawdown_pct = Pct(SCALE);
    assert_eq!(text(p.validate().unwrap_err()), "consistency_pct must be in [0, 1]");
    p.consistency_pct = None;
    assert!(p.validate().is_ok());
}

#[test]
fn pack_validation_messages() {
    let mut pack = RulePack {
        id: String::new(),
        version: 1,
        tenant_id: TenantId(1),
        lifecycle: PackLifecycle::Draft,
        effective_from: 0,
        superseded_by: None,
        description: String::new(),
        rules: Vec::new(),
        initial_balance: Money(100_000 * SCALE),
        leverage: 100,
        profit_target_pct: Pct(10_000_000),
    };
    assert_eq!(text(pack.validate().unwrap_err()), "pack id cannot be empty");
    pack.id = "p".to_string();
    assert_eq!(text(pack.validate().unwrap_err()), "pack has no rules");
    pack.rules = vec![RuleEntry::new("a", "max_drawdown", Fixed(1)), RuleEntry::new("a", "daily_drawdown", Fixed(1))];
    assert_eq!(text(pack.validate().unwrap_err()), "pack has a duplicate rule id");
}

#[test]
fn lifecycle_and_curve_messages() {
    assert_eq!(
        text(check_transition(PackLifecycle::Superseded, PackLifecycle::Active).unwrap_err()),
        "illegal rule-pack lifecycle transition (allowed: draft->active, active->superseded)"
    );
    assert_eq!(text(ensure_draft(PackLifecycle::Active).unwrap_err()), "rule pack may only be edited while draft");
    assert_eq!(text(validate(&[]).unwrap_err()), "equity curve is empty");
    assert_eq!(text(validate(&[Money(5), Money(-1)]).unwrap_err()), "equity curve contains negative values");
}

#[test]
fn version_conflict_reports_both_versions() {
    let mut store = InMemoryStore::new();
    let acc = Account::new(AccountId(3), ftmo_phase1());
    assert_eq!(text(store.put_with_version(acc.clone(), 0).unwrap_err()), "account not found");
    store.put(acc.clone()).unwrap();
    store.put_with_version(acc.clone(), acc.version).unwrap();
    match store.put_with_version(acc.clone(), acc.version) {
        Err(Error::StateConflict(m, expected, found)) => {
            assert_eq!(m, "account version conflict");
            assert_eq!(expected, acc.version);
            assert_eq!(found, acc.version.wrapping_add(1));
        }
        other => panic!("expected a conflict, got {other:?}"),
    }
}

#[test]
fn service_token_spec_errors_name_the_problem() {
    let msg = |spec: &str| text(parse_service_token_spec(spec).unwrap_err());
    assert_eq!(msg(""), "no service token entries found");
    assert_eq!(msg(" , "), "no service token entries found");
    assert_eq!(msg("svc"), "service token entry is missing its kind");
    assert_eq!(msg(" :active:abc"), "service token entry has an empty service name");
    assert_eq!(msg("svc:active"), "service token entry is missing its digest");
    assert_eq!(msg("a:active:x,a:active:y"), "duplicate service name in service tokens");
    assert_eq!(msg("a:previous:x,a:previous:y"), "duplicate previous token for a service");
    assert_eq!(msg("a:primary:x"), "unknown service token kind");
}
