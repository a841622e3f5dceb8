use propfirm::account::{Account, AccountSnapshot};
use propfirm::api::{
    AccountSnapshotDto,
    evaluate_loaded, order_from_request, select_equity_source, to_ascii_lower, validate_rule_pack,
    CreateRulePackRequest, EvaluateOrderRequest, PositionDto, RuleEntryDto, TradeDto, BAD_REQUEST,
};
use propfirm::digest::fingerprint;
use propfirm::equity_input::EquitySource;
use propfirm::error::{decimal_text, Error};
use propfirm::evaluator::RuleContextKind;
use propfirm::fixed::{Fixed, SCALE};
use propfirm::ids::{AccountId, TenantId};
use propfirm::market::{PositionSide, Quote, Tick};
use propfirm::order::{OrderSide, OrderType};
use propfirm::presets::ftmo_phase1;
use propfirm::pure::{compute_input_hash, evaluate, EvaluateInputs};
use propfirm::rulepack::{PackLifecycle, RuleEntry, RulePack};
use propfirm::rulepack_store::{check_transition, ensure_draft, InMemoryRulePackStore};
use propfirm::store::InMemoryStore;
use propfirm::types::{Money, Pct, Price, Quantity, ServerTime, Symbol};

fn pack(id: &str, version: u32, tenant: TenantId) -> RulePack {
    RulePack {
        id: id.to_string(),
        version,
        tenant_id: tenant,
        lifecycle: PackLifecycle::Draft,
        effective_from: 0,
        superseded_by: None,
        description: String::new(),
        rules: vec![RuleEntry::new("max_total_loss", "max_drawdown", Fixed(10_000_000))],
        initial_balance: Money(100_000 * SCALE),
        leverage: 100,
        profit_target_pct: Pct(10_000_000),
    }
}

fn tick(ts: i64) -> Tick {
    Tick::new(Symbol::new("EURUSD"), Quote { bid: Price(108_500_000), ask: Price(108_520_000), ts })
}

#[test]
fn sha256_fingerprint_is_hex_of_digest() {
    assert_eq!(fingerprint(b"abc"), "ba7816bf8f01cfea414140de5dae2223b00361a396177a9cb410ff61f20015ad");
}

#[test]
fn content_hash_is_stable_and_tracks_version() {
    let t = TenantId(7);
    let a = pack("p", 1, t);
    let b = pack("p", 1, t);
    let c = pack("p", 2, t);
    assert_eq!(a.content_hash(), b.content_hash());
    assert_ne!(a.content_hash(), c.content_hash());
    assert_eq!(a.content_hash().len(), 64);
    let mut d = pack("p", 1, t);
    d.description = "other".to_string();
    d.lifecycle = PackLifecycle::Active;
    assert_eq!(a.content_hash(), d.content_hash());
}

#[test]
fn input_hash_is_deterministic_and_covers_server_time() {
    let acc = Account::new(AccountId(1), ftmo_phase1());
    let p = pack("p", 1, TenantId(1));
    let t = tick(1_000);
    let h = |st: i64| {
        compute_input_hash(&acc, b"{}", &p, RuleContextKind::OnTick, ServerTime(st), &[], &[], None, None, Some(&t), &[], EquitySource::Estimated)
    };
    assert_eq!(h(5), h(5));
    assert_ne!(h(5), h(6));
    let other = compute_input_hash(&acc, b"{}", &p, RuleContextKind::OnTick, ServerTime(5), &[], &[], None, None, Some(&t), &[], EquitySource::BrokerReported);
    assert_ne!(h(5), other);
}

#[test]
fn pure_evaluate_reports_pack_and_hash() {
    let acc = Account::new(AccountId(1), ftmo_phase1());
    let p = pack("p", 3, TenantId(1));
    let t = tick(1_000);
    let inputs = EvaluateInputs::for_tick(&[], &[], &t);
    let v = evaluate(&acc, b"{}", &p, RuleContextKind::OnTick, ServerTime(9), inputs, Vec::new()).unwrap();
    assert_eq!(v.pack_version, 3);
    assert_eq!(v.pack_id, "p");
    assert!(!v.is_terminating());
    let expected = compute_input_hash(&acc, b"{}", &p, RuleContextKind::OnTick, ServerTime(9), &[], &[], None, None, Some(&t), &[], EquitySource::Estimated);
    assert_eq!(v.input_hash, expected);
}

#[test]
fn equity_source_selection() {
    assert!(matches!(select_equity_source(true, Some("estimated")), Ok(EquitySource::BrokerReported)));
    assert!(matches!(select_equity_source(false, None), Ok(EquitySource::Estimated)));
    assert!(matches!(select_equity_source(false, Some("BROKER")), Ok(EquitySource::BrokerReported)));
    let e = select_equity_source(false, Some("guess")).unwrap_err();
    assert_eq!(e.status, BAD_REQUEST);
    assert!(e.message.starts_with("invalid configuration: "));
}

fn position_dto(id: &str, side: &str) -> PositionDto {
    PositionDto {
        position_id: id.to_string(),
        symbol: "eurusd".to_string(),
        side: side.to_string(),
        open_quantity: Quantity(SCALE),
        avg_entry_price: Price(SCALE),
        opened_at: 5,
    }
}

const UUID: &str = "67e55044-10b1-426f-9247-bb680e5fe0c8";

#[test]
fn position_dto_conversion() {
    let p = position_dto(UUID, "Buy").into_domain(AccountId(9)).unwrap();
    assert_eq!(p.side, PositionSide::Long);
    assert_eq!(p.symbol.0, "EURUSD");
    assert_eq!(p.account_id, AccountId(9));
    assert_eq!(p.id.0, 0x67e5504410b1426f9247bb680e5fe0c8);
    let e = position_dto(UUID, "Sideways").into_domain(AccountId(9)).unwrap_err();
    assert_eq!(e, "invalid position side 'sideways'");
    assert!(position_dto("nope", "long").into_domain(AccountId(9)).is_err());
}

fn trade_dto(side: &str, trade_side: &str) -> TradeDto {
    TradeDto {
        symbol: "EURUSD".to_string(),
        side: side.to_string(),
        trade_side: trade_side.to_string(),
        price: Price(SCALE),
        quantity: Quantity(2 * SCALE),
        executed_at: 7,
        realized_pnl: Some(Money(3 * SCALE)),
    }
}

#[test]
fn trade_dto_conversion() {
    let t = trade_dto("sell", "close").into_domain(AccountId(1)).unwrap();
    assert_eq!(t.side, OrderSide::Sell);
    assert_eq!(t.exit_info.unwrap().realized_pnl, Money(3 * SCALE));
    let t = trade_dto("long", "open").into_domain(AccountId(1)).unwrap();
    assert!(t.exit_info.is_none());
    assert_eq!(trade_dto("up", "open").into_domain(AccountId(1)).unwrap_err(), "invalid trade side 'up'");
    assert_eq!(trade_dto("buy", "hold").into_domain(AccountId(1)).unwrap_err(), "invalid trade_side 'hold'");
}

#[test]
fn evaluate_loaded_refuses_a_supplied_pack_and_a_missing_tick() {
    let acc = Account::new(AccountId(1), ftmo_phase1());
    let p = pack("p", 1, TenantId(1));
    let r = evaluate_loaded(acc.clone(), AccountId(1), b"{}", &p, true, None, Some(tick(1)), EquitySource::Estimated, vec![], vec![], vec![], vec![]);
    assert_eq!(r.unwrap_err().status, BAD_REQUEST);
    let r = evaluate_loaded(acc.clone(), AccountId(1), b"{}", &p, false, None, None, EquitySource::Estimated, vec![], vec![], vec![], vec![]);
    assert_eq!(r.unwrap_err().message, "tick is required when bridge_tick is absent");
    let r = evaluate_loaded(acc, AccountId(1), b"{}", &p, false, None, Some(tick(1)), EquitySource::Estimated, vec![position_dto(UUID, "flat")], vec![], vec![], vec![]);
    assert_eq!(r.unwrap_err().status, BAD_REQUEST);
}

#[test]
fn evaluate_loaded_passes_without_violations() {
    let acc = Account::new(AccountId(1), ftmo_phase1());
    let p = pack("p", 4, TenantId(1));
    let r = evaluate_loaded(acc, AccountId(1), b"{}", &p, false, None, Some(tick(1)), EquitySource::Estimated, vec![position_dto(UUID, "long")], vec![trade_dto("buy", "entry")], vec![], vec![]).unwrap();
    assert_eq!(r.decision_kind, "Pass");
    assert_eq!(r.pack_version, 4);
    assert!(r.violations.is_empty());
    assert_eq!(r.input_hash.len(), 64);
}

#[test]
fn order_request_sides_are_exact() {
    let mut req = EvaluateOrderRequest {
        account_id: UUID.to_string(),
        symbol: "eurusd".to_string(),
        side: "buy".to_string(),
        quantity: Quantity(SCALE),
        order_type: "limit".to_string(),
        price: None,
        stop_loss: None,
        take_profit: None,
    };
    let o = order_from_request(&req, AccountId(2), 11).unwrap();
    assert_eq!(o.order_type, OrderType::Limit { price: Price(0) });
    assert_eq!(o.symbol.0, "EURUSD");
    req.side = "BUY".to_string();
    let e = order_from_request(&req, AccountId(2), 11).unwrap_err();
    assert_eq!(e.message, "invalid side BUY");
}

fn entry_dto(id: &str, basis: &str) -> RuleEntryDto {
    RuleEntryDto {
        id: id.to_string(),
        kind: "max_drawdown".to_string(),
        basis: basis.to_string(),
        unit: "percent".to_string(),
        value: Fixed(10_000_000),
        tolerance_cents: Some(1),
        early_warning_pct: None,
        priority: 10,
        enabled: true,
        params_json: None,
        severity: None,
        failure_policy: None,
    }
}

fn create_req(rules: Vec<RuleEntryDto>) -> CreateRulePackRequest {
    CreateRulePackRequest {
        id: "pack-1".to_string(),
        version: 2,
        tenant_id: "t".to_string(),
        description: "d".to_string(),
        rules,
        initial_balance: Money(100_000 * SCALE),
        leverage: 100,
        profit_target_pct: Pct(10_000_000),
    }
}

#[test]
fn rule_pack_validation() {
    let ok = validate_rule_pack(create_req(vec![entry_dto("a", "static"), entry_dto("b", "EOD-Trailing")]), 0).unwrap();
    assert_eq!(ok.lifecycle, "draft");
    assert_eq!(ok.version, 2);
    assert_eq!(ok.content_hash.len(), 64);
    assert!(validate_rule_pack(create_req(vec![entry_dto("a", "sideways")]), 0).is_err());
    assert!(validate_rule_pack(create_req(vec![entry_dto("a", "static"), entry_dto("a", "static")]), 0).is_err());
    assert!(validate_rule_pack(create_req(vec![]), 0).is_err());
}

#[test]
fn rule_pack_store_lists_newest_first() {
    let t = TenantId(1);
    let mut s = InMemoryRulePackStore::new();
    assert!(s.insert_pack(pack("b", 1, t)).is_ok());
    assert!(s.insert_pack(pack("a", 1, t)).is_ok());
    assert!(s.insert_pack(pack("c", 2, t)).is_ok());
    assert!(s.insert_pack(pack("x", 9, TenantId(2))).is_ok());
    assert!(s.insert_pack(pack("a", 5, t)).is_err());
    let ids: Vec<String> = s.list_packs(t).unwrap().into_iter().map(|p| p.id).collect();
    assert_eq!(ids, vec!["c", "a", "b"]);
    assert!(s.get_pack(TenantId(2), &"a".to_string()).unwrap().is_none());
    assert!(matches!(s.put_pack(pack("zz", 1, t)), Err(Error::NotFound(_))));
}

#[test]
fn lifecycle_transitions() {
    assert!(check_transition(PackLifecycle::Draft, PackLifecycle::Active).is_ok());
    assert!(check_transition(PackLifecycle::Active, PackLifecycle::Superseded).is_ok());
    assert!(check_transition(PackLifecycle::Superseded, PackLifecycle::Superseded).is_ok());
    assert!(check_transition(PackLifecycle::Superseded, PackLifecycle::Active).is_err());
    assert!(check_transition(PackLifecycle::Active, PackLifecycle::Active).is_err());
    assert!(ensure_draft(PackLifecycle::Draft).is_ok());
    assert!(matches!(ensure_draft(PackLifecycle::Active), Err(Error::InvalidState(_))));
}

#[test]
fn second_writer_with_same_version_conflicts() {
    let mut store = InMemoryStore::new();
    let acc = Account::new(AccountId(5), ftmo_phase1());
    store.put(acc.clone()).unwrap();
    let v = store.get(AccountId(5)).unwrap().unwrap().version;
    assert!(store.put_with_version(acc.clone(), v).is_ok());
    match store.put_with_version(acc, v) {
        Err(Error::StateConflict(_, expected, found)) => {
            assert_eq!(expected, v);
            assert_eq!(found, v.wrapping_add(1));
        }
        other => panic!("expected a version conflict, got {:?}", other),
    }
}

#[test]
fn error_texts() {
    assert_eq!(Error::invalid_state("x").message(), "invalid state: x");
    assert_eq!(Error::StateConflict("acc".to_string(), 3, 12).message(), "state conflict on acc: expected version 3, found 12");
    assert_eq!(decimal_text(0), "0");
    assert_eq!(decimal_text(1_234_567_890), "1234567890");
    assert_eq!(to_ascii_lower("AbC-É"), "abc-É");
}

#[test]
fn account_view_carries_snapshot_figures() {
    let mut acc = Account::new(AccountId(11), ftmo_phase1());
    let initial = acc.initial_balance.0;
    acc.balance = Money(initial - 1_000 * SCALE);
    acc.equity = Money(initial - 1_500 * SCALE);
    let snap = AccountSnapshot::from_account(&acc);
    let view = AccountSnapshotDto::from(&snap);
    assert_eq!(view.balance, Money(initial - 1_000 * SCALE));
    assert_eq!(view.equity, Money(initial - 1_500 * SCALE));
    assert_eq!(view.net_profit, Money(-1_000 * SCALE));
    assert_eq!(view.total_drawdown, snap.total_drawdown);
    assert_eq!(view.max_dd_utilization, snap.max_dd_utilization);
    assert_eq!(view.active_trading_days, 0);
    assert_eq!(view.trading_day_index, snap.trading_day_index);
}

#[test]
fn chrono_millisecond_range_bounds() {
    assert!(chrono::DateTime::from_timestamp_millis(-8_334_601_228_800_000).is_some());
    assert!(chrono::DateTime::from_timestamp_millis(-8_334_601_228_800_001).is_none());
    assert!(chrono::DateTime::from_timestamp_millis(8_210_266_876_799_999).is_some());
    assert!(chrono::DateTime::from_timestamp_millis(8_210_266_876_800_000).is_none());
}
