use propfirm::copy_trading::{
    CopyTradingDetector, CopyTradingVerdict, InMemoryMasterFeed, MasterTrade, NoOpCopyTradingDetector,
    ThresholdCopyTradingDetector,
};
use propfirm::fixed::{Fixed, SCALE};
use propfirm::ids::{AccountId, OrderId};
use propfirm::market::{Trade, TradeSide};
use propfirm::news_calendar::{BuiltinCalendar, CalendarEvent, NewsCalendarProvider, NewsImpact};
use propfirm::order::OrderSide;
use propfirm::types::{Money, Price, Quantity, Symbol};

/// 2024-01-05 (a Friday) 12:30 UTC.
const FRIDAY_1230: i64 = 1_704_457_800_000;

fn master(id: &str, qty_units: i64, at: i64) -> MasterTrade {
    MasterTrade {
        master_account_id: id.to_string(),
        symbol: "eurusd".to_string(),
        side: "BUY".to_string(),
        quantity: Fixed(qty_units * SCALE),
        executed_at: at,
    }
}

fn trade(qty_raw: i64, at: i64) -> Trade {
    Trade::new(
        OrderId::new(),
        AccountId::new(),
        Symbol::new("EURUSD"),
        OrderSide::Buy,
        TradeSide::Entry,
        Price(SCALE),
        Quantity(qty_raw),
        Money(0),
        at,
    )
}

#[test]
fn noop_detector_is_always_clean() {
    assert_eq!(NoOpCopyTradingDetector.check_trade(&trade(SCALE, 0)), CopyTradingVerdict::Clean);
}

#[test]
fn threshold_detector_counts_correlated_masters() {
    let mut d = ThresholdCopyTradingDetector::new(60, 2);
    d.add_master_trade(master("m1", 1, 1_000));
    assert_eq!(
        d.check_trade(&trade(SCALE, 30_000)),
        CopyTradingVerdict::Suspicious { correlated_count: 1, window_seconds: 60 }
    );
    d.add_master_trade(master("m2", 1, 2_000));
    assert_eq!(
        d.check_trade(&trade(105_000_000, 30_000)),
        CopyTradingVerdict::Confirmed {
            correlated_count: 2,
            window_seconds: 60,
            master_account_ids: vec!["m1".to_string(), "m2".to_string()]
        }
    );
}

#[test]
fn size_tolerance_is_ten_percent() {
    let mut d = ThresholdCopyTradingDetector::new(60, 1);
    d.add_master_trade(master("m1", 1, 0));
    assert!(matches!(d.check_trade(&trade(110_000_000, 1)), CopyTradingVerdict::Confirmed { .. }));
    assert_eq!(d.check_trade(&trade(110_000_001, 1)), CopyTradingVerdict::Clean);
    assert_eq!(d.check_trade(&trade(89_999_999, 1)), CopyTradingVerdict::Clean);
}

#[test]
fn masters_outside_the_window_are_ignored() {
    let mut d = ThresholdCopyTradingDetector::new(10, 1);
    d.add_master_trade(master("old", 1, 0));
    d.add_master_trade(master("future", 1, 50_000));
    assert_eq!(d.check_trade(&trade(SCALE, 20_000)), CopyTradingVerdict::Clean);
}

#[test]
fn feed_keeps_the_last_thousand_and_prunes_by_age() {
    let mut d = ThresholdCopyTradingDetector::new(60, 1);
    for i in 0..1005 {
        d.add_master_trade(master(&format!("m{i}"), 1, i));
    }
    let recent = d.recent_master_trades(2000);
    assert_eq!(recent.len(), 1000);
    assert_eq!(recent[0].master_account_id, "m1004");
    assert_eq!(recent[999].master_account_id, "m5");
    d.prune(1004, 0);
    assert_eq!(d.recent_master_trades(10).len(), 1);
}

#[test]
fn in_memory_feed_groups_by_master() {
    let mut f = InMemoryMasterFeed::new();
    f.add("a", master("a", 1, 1));
    f.add("b", master("b", 1, 2));
    f.add("a", master("a", 2, 3));
    assert_eq!(f.masters.len(), 2);
    let all = f.all();
    assert_eq!(all.iter().map(|m| m.executed_at).collect::<Vec<_>>(), vec![1, 3, 2]);
}

fn event(symbols: Option<Vec<&str>>, at: i64) -> CalendarEvent {
    CalendarEvent {
        name: "X".to_string(),
        currency: None,
        at,
        impact: NewsImpact::Red,
        actual: None,
        forecast: None,
        previous: None,
        affected_symbols: symbols.map(|v| v.into_iter().map(String::from).collect()),
    }
}

#[test]
fn window_is_whole_minutes_either_side() {
    let e = event(None, 600_000);
    assert!(e.within_window(600_000 + 2 * 60_000 + 59_999, 2));
    assert!(!e.within_window(600_000 + 3 * 60_000, 2));
    assert!(e.within_window(600_000 - 2 * 60_000 - 59_999, 2));
}

#[test]
fn symbols_match_ignoring_case() {
    assert!(event(None, 0).affects_symbol("anything"));
    let e = event(Some(vec!["EURUSD"]), 0);
    assert!(e.affects_symbol("eurusd"));
    assert!(!e.affects_symbol("GBPUSD"));
}

#[test]
fn builtin_calendar_finds_nfp_on_friday() {
    let cal = BuiltinCalendar::new();
    let events = cal.events_within(FRIDAY_1230, 5, NewsImpact::Gray);
    assert_eq!(events.len(), 1);
    assert_eq!(events[0].name, "NFP");
    assert_eq!(events[0].at, FRIDAY_1230);
    assert!(!cal.is_tradable("EURUSD", FRIDAY_1230, 5));
    assert!(cal.is_tradable("AUDNZD", FRIDAY_1230, 5));
    assert!(cal.is_tradable("EURUSD", FRIDAY_1230 + 3_600_000, 5));
}

#[test]
fn impact_rank_orders_levels() {
    assert!(NewsImpact::Gray.rank() < NewsImpact::Yellow.rank());
    assert!(NewsImpact::Orange.rank() < NewsImpact::Red.rank());
    assert_eq!(NewsImpact::Orange.label(), "orange");
}
