use propfirm::error::Error;
use propfirm::fixed::{Fixed, SCALE};
use propfirm::risk::{
    calmar_ratio, expectancy, max_drawdown, max_drawdown_duration, max_drawdown_pct, period_returns, profit_factor,
    recovery_factor, validate,
};
use propfirm::types::Money;

fn curve(units: &[i64]) -> Vec<Money> {
    units.iter().map(|u| Money(u * SCALE)).collect()
}

#[test]
fn drawdown_is_largest_peak_to_trough_drop() {
    let c = curve(&[10_000, 10_200, 10_150, 10_300, 9_900, 10_100]);
    assert_eq!(max_drawdown(&c), Fixed(400 * SCALE));
}

#[test]
fn drawdown_of_rising_curve_is_zero() {
    assert_eq!(max_drawdown(&curve(&[1, 2, 3])), Fixed(0));
    assert_eq!(max_drawdown(&[]), Fixed(0));
}

#[test]
fn drawdown_duration_counts_samples() {
    // Peak at index 1, below it at 2 and 3, recovered at 4: the drawdown
    // runs from index 1 to 4.
    assert_eq!(max_drawdown_duration(&curve(&[100, 110, 105, 108, 120])), 3);
    // A drawdown still open at the end counts up to the end.
    assert_eq!(max_drawdown_duration(&curve(&[100, 110, 105, 104])), 3);
    assert_eq!(max_drawdown_duration(&curve(&[100, 110, 120])), 0);
}

#[test]
fn drawdown_pct_is_share_of_peak() {
    let c = curve(&[100, 80, 90]);
    assert_eq!(max_drawdown_pct(&c), Fixed(20_000_000));
}

#[test]
fn returns_skip_zero_samples() {
    let c = curve(&[0, 100, 110]);
    let r = period_returns(&c);
    assert_eq!(r, vec![Fixed(10_000_000)]);
}

#[test]
fn profit_factor_and_expectancy() {
    let pnl = curve(&[100, -50, 150]);
    assert_eq!(profit_factor(&pnl), Fixed(5 * SCALE));
    assert_eq!(expectancy(&pnl), Fixed(6_666_666_666));
    assert_eq!(profit_factor(&curve(&[10, 20])), Fixed(30 * SCALE));
    assert_eq!(profit_factor(&[]), Fixed(0));
    assert_eq!(expectancy(&[]), Fixed(0));
}

#[test]
fn recovery_factor_is_net_over_drawdown() {
    let c = curve(&[100, 80, 140]);
    assert_eq!(recovery_factor(&c), Fixed(2 * SCALE));
    assert_eq!(recovery_factor(&curve(&[100])), Fixed(0));
}

#[test]
fn calmar_needs_a_drawdown() {
    assert_eq!(calmar_ratio(&curve(&[100, 110])), Fixed(0));
    let c = curve(&[100, 50, 126]);
    // total return 0.26, annualized 0.26 * 84 = 21.84, over a 50% drawdown.
    assert_eq!(calmar_ratio(&c), Fixed(4_368_000_000));
}

#[test]
fn validate_rejects_empty_and_negative_curves() {
    assert!(matches!(validate(&[]), Err(Error::InvalidState(_))));
    assert!(matches!(validate(&curve(&[1, -1])), Err(Error::InvalidState(_))));
    assert!(validate(&curve(&[0, 1])).is_ok());
}
