//! News calendar: scheduled high-impact releases, the window around them,
//! and the symbols they affect.
use crate::fixed::tdiv;
use crate::pipeline::{ts_in_range, TS_LIMIT};
use crate::text::{eq_ignore_ascii_case, eq_ignore_case};
use crate::types::{Timestamp, MS_PER_DAY, MS_PER_MINUTE};
use vstd::prelude::*;

verus! {

/// Impact level of a release, from gray (low) to red (critical).
#[derive(Debug, Clone, Copy, PartialEq, Eq, Hash, Structural)]
pub enum NewsImpact {
    Gray,
    Yellow,
    Orange,
    Red,
}

/// Rank of an impact level: gray < yellow < orange < red.
pub open spec fn impact_rank(i: NewsImpact) -> int {
    match i {
        NewsImpact::Gray => 0,
        NewsImpact::Yellow => 1,
        NewsImpact::Orange => 2,
        NewsImpact::Red => 3,
    }
}

impl NewsImpact {
    /// Rank of the level: gray 0, yellow 1, orange 2, red 3.
    pub fn rank(self) -> (r: u8)
        ensures
            r as int == impact_rank(self),
    {
        match self {
            NewsImpact::Gray => 0,
            NewsImpact::Yellow => 1,
            NewsImpact::Orange => 2,
            NewsImpact::Red => 3,
        }
    }

    /// Lower-case name of the level.
    pub fn label(self) -> (r: &'static str)
        ensures
            r@ == impact_label(self),
    {
        match self {
            NewsImpact::Gray => "gray",
            NewsImpact::Yellow => "yellow",
            NewsImpact::Orange => "orange",
            NewsImpact::Red => "red",
        }
    }
}

pub open spec fn impact_label(i: NewsImpact) -> Seq<char> {
    match i {
        NewsImpact::Gray => "gray"@,
        NewsImpact::Yellow => "yellow"@,
        NewsImpact::Orange => "orange"@,
        NewsImpact::Red => "red"@,
    }
}

/// One scheduled release.
#[derive(Debug)]
pub struct CalendarEvent {
    pub name: String,
    /// Currency affected; `None` for all currencies.
    pub currency: Option<String>,
    /// Scheduled release time (UTC).
    pub at: Timestamp,
    pub impact: NewsImpact,
    pub actual: Option<String>,
    pub forecast: Option<String>,
    pub previous: Option<String>,
    /// Symbols most affected; `None` for all.
    pub affected_symbols: Option<Vec<String>>,
}

/// Whole minutes between `ts` and `at`, truncated toward zero, in
/// absolute value.
pub open spec fn abs_minutes_between(ts: int, at: int) -> int {
    let m = tdiv(ts - at, MS_PER_MINUTE as int);
    if m >= 0 {
        m
    } else {
        -m
    }
}

/// The symbol is among `syms`, ignoring ASCII case.
pub open spec fn symbol_listed(syms: Seq<String>, symbol: Seq<char>) -> bool {
    exists|i: int| 0 <= i < syms.len() && eq_ignore_ascii_case(#[trigger] syms[i]@, symbol)
}

/// The event affects the symbol: it lists it, or it lists none.
pub open spec fn event_affects(e: CalendarEvent, symbol: Seq<char>) -> bool {
    match e.affected_symbols {
        None => true,
        Some(syms) => symbol_listed(syms@, symbol),
    }
}

impl CalendarEvent {
    /// The event lies within `window_minutes` whole minutes of `ts`,
    /// either side.
    pub fn within_window(&self, ts: Timestamp, window_minutes: i64) -> (r: bool)
        ensures
            r == (abs_minutes_between(ts as int, self.at as int) <= window_minutes),
    {
        let d: i128 = ts as i128 - self.at as i128;
        let m: i128 = if d >= 0 {
            d / 60_000
        } else {
            -((-d) / 60_000)
        };
        let a: i128 = if m >= 0 {
            m
        } else {
            -m
        };
        a <= window_minutes as i128
    }

    /// The event affects `symbol` (ASCII case ignored); an event that
    /// lists no symbols affects all.
    pub fn affects_symbol(&self, symbol: &str) -> (r: bool)
        ensures
            r == event_affects(*self, symbol@),
    {
        match &self.affected_symbols {
            None => true,
            Some(syms) => {
                let mut i: usize = 0;
                while i < syms.len()
                    invariant
                        i <= syms@.len(),
                        self.affected_symbols == Some(*syms),
                        forall|j: int| 0 <= j < i ==> !eq_ignore_ascii_case(#[trigger] syms@[j]@, symbol@),
                    decreases syms@.len() - i,
                {
                    if eq_ignore_case(syms[i].as_str(), symbol) {
                        assert(eq_ignore_ascii_case(syms@[i as int]@, symbol@));
                        assert(symbol_listed(syms@, symbol@));
                        return true;
                    }
                    i = i + 1;
                }
                false
            },
        }
    }
}

/// No event of `events` affects the symbol.
pub open spec fn none_affects(events: Seq<CalendarEvent>, symbol: Seq<char>) -> bool {
    forall|i: int| 0 <= i < events.len() ==> !event_affects(#[trigger] events[i], symbol)
}

/// Whether no event of the list affects the symbol.
pub fn none_affect(events: &Vec<CalendarEvent>, symbol: &str) -> (r: bool)
    ensures
        r == none_affects(events@, symbol@),
{
    let mut i: usize = 0;
    while i < events.len()
        invariant
            i <= events@.len(),
            forall|j: int| 0 <= j < i ==> !event_affects(#[trigger] events@[j], symbol@),
        decreases events@.len() - i,
    {
        if events[i].affects_symbol(symbol) {
            return false;
        }
        i = i + 1;
    }
    true
}

/// An event of a calendar, viewed (see [`event_view`]) affects the
/// symbol: it lists it (ignoring ASCII case), or it lists none.
pub open spec fn view_affects(
    v: (Seq<char>, Option<Seq<char>>, int, NewsImpact, Option<Seq<Seq<char>>>, bool),
    symbol: Seq<char>,
) -> bool {
    match v.4 {
        None => true,
        Some(syms) => exists|i: int| 0 <= i < syms.len() && eq_ignore_ascii_case(#[trigger] syms[i], symbol),
    }
}

proof fn lemma_affects_view(e: CalendarEvent, symbol: Seq<char>)
    ensures
        event_affects(e, symbol) == view_affects(event_view(e), symbol),
{
    match e.affected_symbols {
        Some(syms) => {
            let m = syms@.map_values(|x: String| x@);
            assert(event_view(e).4 == Some(m));
            if symbol_listed(syms@, symbol) {
                let i = choose|i: int| 0 <= i < syms@.len() && eq_ignore_ascii_case(#[trigger] syms@[i]@, symbol);
                assert(m[i] == syms@[i]@);
            }
            if view_affects(event_view(e), symbol) {
                let i = choose|i: int| 0 <= i < m.len() && eq_ignore_ascii_case(#[trigger] m[i], symbol);
                assert(m[i] == syms@[i]@);
            }
        },
        None => {},
    }
}

/// A source of calendar events.
pub trait NewsCalendarProvider {
    /// The events, viewed, within `window_minutes` of `ts` (either side)
    /// whose impact is at least `min_impact`, in the provider's order.
    spec fn scheduled(&self, ts: Timestamp, window_minutes: i64, min_impact: NewsImpact) -> Seq<
        (Seq<char>, Option<Seq<char>>, int, NewsImpact, Option<Seq<Seq<char>>>, bool),
    >;

    /// The events within `window_minutes` of `ts` (either side) whose
    /// impact is at least `min_impact`.
    fn events_within(&self, ts: Timestamp, window_minutes: i64, min_impact: NewsImpact) -> (r: Vec<
        CalendarEvent,
    >)
        requires
            ts_in_range(ts as int),
        ensures
            r@.map_values(|e: CalendarEvent| event_view(e)) == self.scheduled(ts, window_minutes, min_impact),
    ;

    /// The symbol is tradable at `ts`: no event of impact orange or above
    /// within the window affects it.
    fn is_tradable(&self, symbol: &str, ts: Timestamp, window_minutes: i64) -> (r: bool)
        requires
            ts_in_range(ts as int),
        ensures
            r == (forall|i: int|
                0 <= i < self.scheduled(ts, window_minutes, NewsImpact::Orange).len() ==> !view_affects(
                    #[trigger] self.scheduled(ts, window_minutes, NewsImpact::Orange)[i],
                    symbol@,
                )),
    {
        let events = self.events_within(ts, window_minutes, NewsImpact::Orange);
        let r = none_affect(&events, symbol);
        proof {
            let sched = self.scheduled(ts, window_minutes, NewsImpact::Orange);
            assert(sched.len() == events@.len());
            assert forall|i: int| 0 <= i < events@.len() implies event_affects(#[trigger] events@[i], symbol@)
                == view_affects(sched[i], symbol@) by {
                assert(sched[i] == event_view(events@[i]));
                lemma_affects_view(events@[i], symbol@);
            }
        }
        r
    }
}

/// The built-in weekly schedule (illustrative only).
#[derive(Debug, Clone, Copy)]
pub struct BuiltinCalendar;

impl BuiltinCalendar {
    pub fn new() -> (r: BuiltinCalendar) {
        BuiltinCalendar
    }
}

/// Row `k` of the weekly schedule: name, currency, weekday (Monday 0),
/// hour, minute (UTC) and affected symbols; every row is red impact.
pub open spec fn builtin_row(k: int) -> (Seq<char>, Seq<char>, int, int, int, Seq<Seq<char>>) {
    if k == 0 {
        ("NFP"@, "USD"@, 4, 12, 30, seq!["EURUSD"@, "USDJPY"@, "GBPUSD"@, "USDCAD"@])
    } else if k == 1 {
        ("CPI"@, "USD"@, 2, 12, 30, seq!["EURUSD"@, "USDJPY"@])
    } else if k == 2 {
        ("FOMC"@, "USD"@, 2, 18, 0, seq!["EURUSD"@, "USDJPY"@, "GBPUSD"@])
    } else if k == 3 {
        ("ECB Rate"@, "EUR"@, 3, 11, 45, seq!["EURUSD"@, "EURJPY"@])
    } else {
        ("BOE Rate"@, "GBP"@, 3, 11, 0, seq!["GBPUSD"@, "GBPJPY"@])
    }
}

/// Number of rows of the weekly schedule.
pub open spec fn builtin_rows() -> int {
    5
}

/// This week's instance (ms since the epoch) of a release on `weekday`
/// at `hour:minute` UTC: the next such weekday on or after the UTC day
/// of `ts` (the same day when it matches), at that time of day.
pub open spec fn instance_at(ts: int, weekday: int, hour: int, minute: int) -> int {
    let day = ts / (MS_PER_DAY as int);
    let today = (day + 3) % 7;
    let diff = (weekday - today) % 7;
    (day + diff) * (MS_PER_DAY as int) + (hour * 60 + minute) * (MS_PER_MINUTE as int)
}

/// The view of an event: name, currency, time, impact, symbols, and
/// whether actual, forecast and previous are all absent.
pub open spec fn event_view(e: CalendarEvent) -> (
    Seq<char>,
    Option<Seq<char>>,
    int,
    NewsImpact,
    Option<Seq<Seq<char>>>,
    bool,
) {
    (
        e.name@,
        match e.currency {
            Some(c) => Some(c@),
            None => None,
        },
        e.at as int,
        e.impact,
        match e.affected_symbols {
            Some(s) => Some(s@.map_values(|x: String| x@)),
            None => None,
        },
        e.actual is None && e.forecast is None && e.previous is None,
    )
}

/// The event of row `k` for the week of `ts`.
pub open spec fn row_event(k: int, ts: int) -> (
    Seq<char>,
    Option<Seq<char>>,
    int,
    NewsImpact,
    Option<Seq<Seq<char>>>,
    bool,
) {
    let row = builtin_row(k);
    (row.0, Some(row.1), instance_at(ts, row.2, row.3, row.4), NewsImpact::Red, Some(row.5), true)
}

/// The events of the first `k` rows that are due: their impact is at
/// least `min_impact` and they lie within the window of `ts`.
pub open spec fn builtin_due(k: int, ts: int, window: int, min_impact: NewsImpact) -> Seq<
    (Seq<char>, Option<Seq<char>>, int, NewsImpact, Option<Seq<Seq<char>>>, bool),
>
    decreases k,
{
    if k <= 0 {
        Seq::empty()
    } else {
        let prev = builtin_due(k - 1, ts, window, min_impact);
        let row = builtin_row(k - 1);
        if impact_rank(NewsImpact::Red) >= impact_rank(min_impact) && abs_minutes_between(
            ts,
            instance_at(ts, row.2, row.3, row.4),
        ) <= window {
            prev.push(row_event(k - 1, ts))
        } else {
            prev
        }
    }
}

fn builtin_row_exec(k: usize) -> (r: (&'static str, &'static str, i64, i64, i64, Vec<String>))
    requires
        k < 5,
    ensures
        r.0@ == builtin_row(k as int).0,
        r.1@ == builtin_row(k as int).1,
        r.2 == builtin_row(k as int).2,
        r.3 == builtin_row(k as int).3,
        r.4 == builtin_row(k as int).4,
        r.5@.map_values(|x: String| x@) == builtin_row(k as int).5,
{
    let mut syms: Vec<String> = Vec::new();
    if k == 0 {
        syms.push("EURUSD".to_string());
        syms.push("USDJPY".to_string());
        syms.push("GBPUSD".to_string());
        syms.push("USDCAD".to_string());
        assert(syms@.map_values(|x: String| x@) =~= builtin_row(k as int).5);
        ("NFP", "USD", 4, 12, 30, syms)
    } else if k == 1 {
        syms.push("EURUSD".to_string());
        syms.push("USDJPY".to_string());
        assert(syms@.map_values(|x: String| x@) =~= builtin_row(k as int).5);
        ("CPI", "USD", 2, 12, 30, syms)
    } else if k == 2 {
        syms.push("EURUSD".to_string());
        syms.push("USDJPY".to_string());
        syms.push("GBPUSD".to_string());
        assert(syms@.map_values(|x: String| x@) =~= builtin_row(k as int).5);
        ("FOMC", "USD", 2, 18, 0, syms)
    } else if k == 3 {
        syms.push("EURUSD".to_string());
        syms.push("EURJPY".to_string());
        assert(syms@.map_values(|x: String| x@) =~= builtin_row(k as int).5);
        ("ECB Rate", "EUR", 3, 11, 45, syms)
    } else {
        syms.push("GBPUSD".to_string());
        syms.push("GBPJPY".to_string());
        assert(syms@.map_values(|x: String| x@) =~= builtin_row(k as int).5);
        ("BOE Rate", "GBP", 3, 11, 0, syms)
    }
}

/// Floor of `ts / MS_PER_DAY`.
fn day_of(ts: i64) -> (r: i64)
    requires
        ts_in_range(ts as int),
    ensures
        r as int == ts as int / (MS_PER_DAY as int),
        -200_000_000 <= r <= 200_000_000,
{
    if ts >= 0 {
        ts / MS_PER_DAY
    } else {
        let q = (-ts - 1) / MS_PER_DAY;
        assert(-(q + 1) == ts as int / (MS_PER_DAY as int)) by (nonlinear_arith)
            requires
                ts < 0,
                q == (-ts - 1) / (MS_PER_DAY as int),
                MS_PER_DAY == 86_400_000,
        ;
        -q - 1
    }
}

fn instance_exec(ts: i64, weekday: i64, hour: i64, minute: i64) -> (r: i64)
    requires
        ts_in_range(ts as int),
        0 <= weekday < 7,
        0 <= hour < 24,
        0 <= minute < 60,
    ensures
        r as int == instance_at(ts as int, weekday as int, hour as int, minute as int),
        -TS_LIMIT - MS_PER_DAY <= r <= TS_LIMIT + 8 * MS_PER_DAY,
{
    let day = day_of(ts);
    let today = (day + 3) % 7;
    let today_n: i64 = if today < 0 {
        today + 7
    } else {
        today
    };
    assert(today_n as int == (day as int + 3) % 7);
    let diff0 = weekday - today_n;
    let diff: i64 = if diff0 < 0 {
        diff0 + 7
    } else {
        diff0
    };
    assert(diff as int == (weekday as int - today_n as int) % 7);
    assert(day as int * (MS_PER_DAY as int) <= ts) by (nonlinear_arith)
        requires
            day as int == ts as int / (MS_PER_DAY as int),
            MS_PER_DAY == 86_400_000,
    ;
    assert(ts < (day as int + 1) * (MS_PER_DAY as int)) by (nonlinear_arith)
        requires
            day as int == ts as int / (MS_PER_DAY as int),
            MS_PER_DAY == 86_400_000,
    ;
    (day + diff) * MS_PER_DAY + (hour * 60 + minute) * MS_PER_MINUTE
}

impl NewsCalendarProvider for BuiltinCalendar {
    open spec fn scheduled(&self, ts: Timestamp, window_minutes: i64, min_impact: NewsImpact) -> Seq<
        (Seq<char>, Option<Seq<char>>, int, NewsImpact, Option<Seq<Seq<char>>>, bool),
    > {
        builtin_due(builtin_rows(), ts as int, window_minutes as int, min_impact)
    }

    fn events_within(&self, ts: Timestamp, window_minutes: i64, min_impact: NewsImpact) -> (r: Vec<
        CalendarEvent,
    >)
        ensures
            r@.map_values(|e: CalendarEvent| event_view(e)) == builtin_due(
                builtin_rows(),
                ts as int,
                window_minutes as int,
                min_impact,
            ),
    {
        let mut out: Vec<CalendarEvent> = Vec::new();
        let mut k: usize = 0;
        while k < 5
            invariant
                k <= 5,
                ts_in_range(ts as int),
                out@.map_values(|e: CalendarEvent| event_view(e)) == builtin_due(
                    k as int,
                    ts as int,
                    window_minutes as int,
                    min_impact,
                ),
            decreases 5 - k,
        {
            let (name, ccy, weekday, hour, minute, syms) = builtin_row_exec(k);
            let at = instance_exec(ts, weekday, hour, minute);
            let ev = CalendarEvent {
                name: name.to_string(),
                currency: Some(ccy.to_string()),
                at,
                impact: NewsImpact::Red,
                actual: None,
                forecast: None,
                previous: None,
                affected_symbols: Some(syms),
            };
            let due = NewsImpact::Red.rank() >= min_impact.rank() && ev.within_window(ts, window_minutes);
            let ghost before = out@;
            if due {
                out.push(ev);
                assert(out@.map_values(|e: CalendarEvent| event_view(e)) =~= before.map_values(
                    |e: CalendarEvent| event_view(e),
                ).push(event_view(ev)));
            }
            k = k + 1;
        }
        out
    }
}

} // verus!
