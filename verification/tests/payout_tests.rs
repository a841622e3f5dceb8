use propfirm::account::{Account, AccountStatus};
use propfirm::fixed::{Fixed, SCALE};
use propfirm::ids::AccountId;
use propfirm::payout::{quote_payout, record_payout, PayoutConfig, PayoutCycle, PayoutError};
use propfirm::presets::ftmo_phase1;
use propfirm::types::{Money, ServerTime, MS_PER_DAY};

fn funded_account(balance_units: i64) -> Account {
    let mut acc = Account::new(AccountId::new(), ftmo_phase1());
    acc.status = AccountStatus::Funded;
    acc.initial_balance = Money(100_000 * SCALE);
    acc.balance = Money(balance_units * SCALE);
    acc.equity = Money(balance_units * SCALE);
    acc
}

#[test]
fn profit_before_first_payout_excluded_from_second_basis() {
    let config = PayoutConfig::default();
    let mut acc = funded_account(120_000);
    let now = ServerTime::now().ts();
    let q1 = quote_payout(&acc, &config, None, None, false, now);
    assert_eq!(q1.profit_basis.0, 20_000 * SCALE);
    assert_eq!(q1.trader_share, Fixed(80_000_000));
    let amount1 = q1.amount;
    assert!(record_payout(&mut acc, amount1, Money(0), now).is_ok());
    assert_eq!(acc.payout_count, 1);
    assert_eq!(acc.balance_at_last_payout.0, 120_000 * SCALE);

    acc.balance = Money(130_000 * SCALE);
    acc.equity = Money(130_000 * SCALE);
    let q2 = quote_payout(
        &acc,
        &config,
        acc.last_payout_at,
        Some(acc.balance_at_last_payout),
        false,
        ServerTime::now().ts(),
    );
    assert_eq!(
        q2.profit_basis.0,
        10_000 * SCALE,
        "second payout basis must exclude pre-first-payout profit"
    );
    assert_eq!(q2.trader_share, Fixed(90_000_000), "second payout must use tier 2 (90%)");
}

#[test]
fn scaling_tiers_apply_in_order() {
    let config = PayoutConfig::default();
    assert_eq!(config.trader_share_for(0), Fixed(80_000_000));
    assert_eq!(config.trader_share_for(1), Fixed(90_000_000));
    assert_eq!(config.trader_share_for(2), Fixed(100_000_000));
    assert_eq!(config.trader_share_for(5), Fixed(100_000_000), "last tier repeats");
}

#[test]
fn payout_below_minimum_rejected() {
    let config = PayoutConfig { minimum_payout: Money(500 * SCALE), ..PayoutConfig::default() };
    let acc = funded_account(100_100);
    let q = quote_payout(&acc, &config, None, None, false, ServerTime::now().ts());
    assert_eq!(q.rejected, Some(PayoutError::BelowMinimum { minimum: Money(500 * SCALE) }));
}

#[test]
fn cycle_blocks_early_request() {
    let config = PayoutConfig { cycle: PayoutCycle::BiWeekly, ..PayoutConfig::default() };
    let mut acc = funded_account(120_000);
    let now = ServerTime::now().ts();
    let amount = quote_payout(&acc, &config, None, None, false, now).amount;
    assert!(record_payout(&mut acc, amount, Money(0), now).is_ok());
    acc.balance = Money(130_000 * SCALE);
    acc.equity = acc.balance;
    let q = quote_payout(
        &acc,
        &config,
        acc.last_payout_at,
        Some(acc.balance_at_last_payout),
        false,
        now + 7 * MS_PER_DAY,
    );
    assert!(matches!(q.rejected, Some(PayoutError::CycleNotReached { .. })));
    let q = quote_payout(
        &acc,
        &config,
        acc.last_payout_at,
        Some(acc.balance_at_last_payout),
        false,
        now + 15 * MS_PER_DAY,
    );
    assert!(q.rejected.is_none());
}

#[test]
fn no_profit_is_rejected_first() {
    let config = PayoutConfig::default();
    let acc = funded_account(99_000);
    let q = quote_payout(&acc, &config, None, None, false, 0);
    assert_eq!(q.profit_basis.0, 0);
    assert_eq!(q.rejected, Some(PayoutError::NoProfit));
}

#[test]
fn first_payout_amount_is_share_of_basis() {
    let config = PayoutConfig::default();
    let acc = funded_account(120_000);
    let q = quote_payout(&acc, &config, None, None, false, 0);
    assert_eq!(q.amount.0, 16_000 * SCALE);
    assert!(q.rejected.is_none());
}

#[test]
fn record_payout_refuses_non_funded_account() {
    let mut acc = funded_account(120_000);
    acc.status = AccountStatus::Active;
    let before_balance = acc.balance;
    assert!(record_payout(&mut acc, Money(SCALE), Money(0), 0).is_err());
    assert_eq!(acc.balance, before_balance);
    assert_eq!(acc.payout_count, 0);
}

#[test]
fn cycle_gaps_are_fourteen_and_thirty_days() {
    assert_eq!(PayoutCycle::OnDemand.min_gap(), None);
    assert_eq!(PayoutCycle::BiWeekly.min_gap(), Some(14 * MS_PER_DAY));
    assert_eq!(PayoutCycle::Monthly.min_gap(), Some(30 * MS_PER_DAY));
}
