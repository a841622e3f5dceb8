use propfirm::account::Account;
use propfirm::events::{DomainEvent, DomainEventKind, InMemoryEventStore};
use propfirm::fixed::SCALE;
use propfirm::error::Error;
use propfirm::idempotency::{IdempotencyBackend, IdempotencyOutcome, IdempotencyStore};
use propfirm::market::{Quote, Tick};
use propfirm::pipeline::{apply_event, PipelineEvent};
use propfirm::types::{Price, Symbol};
use propfirm::ids::{AccountId, TenantId};
use propfirm::presets::ftmo_phase1;
use propfirm::row::AccountRow;
use propfirm::state::AccountState;
use propfirm::types::Money;

fn state() -> AccountState {
    AccountState::new(Account::new(AccountId(21), ftmo_phase1()))
}

#[test]
fn peaks_never_fall() {
    let s = state();
    let start = s.account.initial_balance.0;
    let s = s.update_equity(Money(start + 500 * SCALE));
    let s = s.update_equity(Money(start - 300 * SCALE));
    assert_eq!(s.account.peak_equity, Money(start + 500 * SCALE));
    assert_eq!(s.account.equity, Money(start - 300 * SCALE));
    let s = s.update_balance(Money(start + 200 * SCALE)).update_balance(Money(start));
    assert_eq!(s.account.peak_balance, Money(start + 200 * SCALE));
}

#[test]
fn static_floor_and_estimate_isolation() {
    let s = state();
    let initial = s.account.initial_balance;
    let equity = s.account.equity;
    let s = s.update_equity(Money(initial.0 + 1_000 * SCALE)).set_estimated_equity(Money(1), Money(2));
    assert_eq!(s.account.initial_balance, initial);
    assert_eq!(s.account.equity, Money(initial.0 + 1_000 * SCALE));
    assert_eq!(s.account.estimated_equity, Money(1));
    assert_eq!(s.account.estimated_balance, Money(2));
    assert_ne!(s.account.equity, equity);
}

#[test]
fn target_stays_reached() {
    let s = state().mark_target_reached(1_000).mark_target_reached(2_000);
    assert_eq!(s.account.target_reached_at, Some(1_000));
    let s = s.update_equity(Money(0));
    assert_eq!(s.account.target_reached_at, Some(1_000));
}

#[test]
fn trading_day_counted_once() {
    let s = state();
    let days = s.account.active_trading_days;
    let marked = s.mark_active_trading_day().mark_active_trading_day();
    assert_eq!(marked.account.active_trading_days, days + 1);
    let rolled = marked.rollover_day(true, None);
    assert_eq!(rolled.account.active_trading_days, days + 1);
    assert!(!rolled.account.day_counted_today);
    assert_eq!(state().rollover_day(true, None).account.active_trading_days, days + 1);
}

#[test]
fn rollover_resets_the_day() {
    let s = state();
    let start = s.account.initial_balance.0;
    let s = s.apply_realized_pnl(Money(250 * SCALE), Money(5 * SCALE), Money(0), 10);
    assert_eq!(s.account.today_realized_pnl, Money(245 * SCALE));
    let idx = s.account.trading_day_index;
    let r = s.rollover_day(true, None);
    assert_eq!(r.account.today_realized_pnl, Money(0));
    assert_eq!(r.account.day_start_balance, Money(start + 245 * SCALE));
    assert_eq!(r.account.day_start_equity, r.account.equity);
    assert_eq!(r.account.trading_day_index, idx + 1);
}

#[test]
fn account_row_round_trip() {
    let mut acc = Account::new(AccountId(22), ftmo_phase1());
    acc.balance = Money(acc.initial_balance.0 + 7 * SCALE);
    acc.active_trading_days = 4;
    acc.target_reached_at = Some(123);
    let back = AccountRow::from_account(&acc).into_account();
    assert_eq!(back.id, acc.id);
    assert_eq!(back.balance, acc.balance);
    assert_eq!(back.active_trading_days, 4);
    assert_eq!(back.target_reached_at, Some(123));
    assert_eq!(back.status, acc.status);
    assert_eq!(back.version, acc.version);
}

#[test]
fn event_log_appends_and_replays() {
    let id = AccountId(23);
    let acc = Account::new(id, ftmo_phase1());
    let mut log = InMemoryEventStore::new();
    log.append(DomainEvent::new(id, DomainEventKind::AccountStarted, 5_000)).unwrap();
    log.append(DomainEvent::new(AccountId(99), DomainEventKind::AccountStarted, 6_000)).unwrap();
    let mine = log.all(id).unwrap();
    assert_eq!(mine.len(), 1);
    assert_eq!(mine[0].occurred_at, 5_000);
    let replayed = log.replay(id, acc).unwrap();
    assert_eq!(replayed.started_at, Some(5_000));
}

#[test]
fn idempotent_replay_and_conflict() {
    let mut store = IdempotencyStore::new(8, 60_000);
    assert!(matches!(store.check_at("k", "h1", 0), IdempotencyOutcome::Fresh));
    store.remember_at("k", "h1", "resp", 0);
    match store.check_at("k", "h1", 10) {
        IdempotencyOutcome::Replay(r) => assert_eq!(r, "resp"),
        other => panic!("expected a replay, got {other:?}"),
    }
    assert!(matches!(store.check_at("k", "h2", 10), IdempotencyOutcome::Conflict));
    assert!(matches!(store.check_at("k", "h1", 70_001), IdempotencyOutcome::Fresh));
}

#[test]
fn refused_events_name_their_reason() {
    let acc = Account::new(AccountId(24), ftmo_phase1());
    let tick = Tick::new(Symbol::new("EURUSD"), Quote { bid: Price(108_500_000), ask: Price(108_520_000), ts: 0 });
    let ev = PipelineEvent::Tick { tick, broker_equity: acc.equity, broker_balance: acc.balance };
    let mut events = Vec::new();
    let r = apply_event(AccountState::new(acc.clone()), &ev, Vec::new(), Vec::new(), Vec::new(), &Vec::new(), 11 * 60_000, &mut events);
    match r {
        Err(Error::TickRejected(m)) => assert_eq!(m, "tick is older than the staleness threshold"),
        other => panic!("expected a stale-tick refusal, got {:?}", other.map(|a| a.ctx_kind)),
    }
    assert!(events.is_empty());
    let r = apply_event(AccountState::new(acc), &PipelineEvent::PayoutRequest, Vec::new(), Vec::new(), Vec::new(), &Vec::new(), 0, &mut events);
    match r {
        Err(Error::InvalidState(m)) => assert_eq!(m, "plan has no payout configuration"),
        other => panic!("expected a refusal, got {:?}", other.map(|a| a.ctx_kind)),
    }
}

#[test]
fn backend_check_and_remember_scopes_by_tenant() {
    let mut store = IdempotencyStore::new(8, 60_000);
    let t1 = TenantId(1);
    let t2 = TenantId(2);
    assert!(matches!(store.check_and_remember(t1, "/orders", "k", "body", "resp"), IdempotencyOutcome::Fresh));
    match store.check_and_remember(t1, "/orders", "k", "body", "other") {
        IdempotencyOutcome::Replay(r) => assert_eq!(r, "resp"),
        other => panic!("expected a replay, got {other:?}"),
    }
    assert!(matches!(store.check_and_remember(t1, "/orders", "k", "changed", "x"), IdempotencyOutcome::Conflict));
    assert!(matches!(IdempotencyBackend::check(&mut store, t2, "/orders", "k", "body"), IdempotencyOutcome::Fresh));
    assert!(matches!(IdempotencyBackend::remember(&mut store, t2, "/orders", "k", "body", "r2"), IdempotencyOutcome::Fresh));
    match IdempotencyBackend::check(&mut store, t2, "/orders", "k", "body") {
        IdempotencyOutcome::Replay(r) => assert_eq!(r, "r2"),
        other => panic!("expected a replay, got {other:?}"),
    }
}

#[test]
fn tenant_keys_use_the_hyphenated_uuid() {
    let k = propfirm::idempotency::scoped_key_of(TenantId(0x67e5504410b1426f9247bb680e5fe0c8), "/orders", "k1");
    assert_eq!(k, "67e55044-10b1-426f-9247-bb680e5fe0c8\0/orders\0k1");
}

#[test]
fn crossed_quote_has_no_negative_spread() {
    assert_eq!(Quote { bid: Price(200), ask: Price(100), ts: 0 }.spread(), Price(0));
    assert_eq!(Quote { bid: Price(100), ask: Price(250), ts: 0 }.spread(), Price(150));
}

#[test]
fn drawdown_utilization_is_held_to_one() {
    let mut acc = Account::new(AccountId(25), ftmo_phase1());
    let limit = acc.daily_dd_limit().0;
    acc.equity = Money(acc.day_start_equity.0 - limit / 2);
    acc.balance = acc.equity;
    assert_eq!(acc.daily_dd_utilization().0, SCALE / 2);
    acc.equity = Money(acc.day_start_equity.0 - 3 * limit);
    acc.balance = acc.equity;
    assert_eq!(acc.daily_dd_utilization().0, SCALE);
    assert!(acc.max_dd_utilization().0 <= SCALE);
}
