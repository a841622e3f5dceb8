//! Cross-account copy-trading detection against a reference feed of
//! "master" trades: same symbol and side, similar size, close in time.
use crate::fixed::{Fixed, SCALE};
use crate::market::Trade;
use crate::order::OrderSide;
use crate::text::{eq_ignore_ascii_case, eq_ignore_case, text_eq};
use crate::types::Timestamp;
use vstd::prelude::*;

verus! {

/// A trade of the reference feed.
#[derive(Debug)]
pub struct MasterTrade {
    pub master_account_id: String,
    pub symbol: String,
    pub side: String,
    pub quantity: Fixed,
    pub executed_at: Timestamp,
}

impl Clone for MasterTrade {
    fn clone(&self) -> (r: MasterTrade)
        ensures
            r == *self,
    {
        MasterTrade {
            master_account_id: self.master_account_id.clone(),
            symbol: self.symbol.clone(),
            side: self.side.clone(),
            quantity: self.quantity,
            executed_at: self.executed_at,
        }
    }
}

/// Outcome of a copy-trading check on one trade.
#[derive(Debug, PartialEq, Eq)]
pub enum CopyTradingVerdict {
    /// No correlated master trade.
    Clean,
    /// Correlated with some master trades, fewer than the threshold.
    Suspicious { correlated_count: usize, window_seconds: i64 },
    /// Correlated with at least the threshold of master trades.
    Confirmed { correlated_count: usize, window_seconds: i64, master_account_ids: Vec<String> },
}

/// A copy-trading detector.
pub trait CopyTradingDetector {
    /// Checks one trade against the reference feed.
    fn check_trade(&self, trade: &Trade) -> CopyTradingVerdict;

    /// The most recent `n` master trades the detector holds, newest first.
    fn recent_master_trades(&self, n: usize) -> (r: Vec<MasterTrade>) {
        Vec::new()
    }
}

/// A detector that never detects anything (for deployments without a
/// reference feed).
#[derive(Debug, Clone, Copy)]
pub struct NoOpCopyTradingDetector;

impl CopyTradingDetector for NoOpCopyTradingDetector {
    fn check_trade(&self, trade: &Trade) -> (r: CopyTradingVerdict)
        ensures
            r is Clean,
    {
        CopyTradingVerdict::Clean
    }
}

/// Lower-case name of an order side.
pub open spec fn side_label(s: OrderSide) -> Seq<char> {
    match s {
        OrderSide::Buy => "buy"@,
        OrderSide::Sell => "sell"@,
    }
}

/// A master trade correlates with `trade`: executed within the
/// `window_seconds` before the trade (inclusive), on the same symbol and
/// side (ASCII case ignored), with the trade's size within
/// `quantity * (1 ± tolerance)`.
pub open spec fn correlated(m: MasterTrade, trade: Trade, window_seconds: i64, tolerance: Fixed) -> bool {
    let now = trade.executed_at as int;
    &&& now - window_seconds * 1000 <= m.executed_at <= now
    &&& eq_ignore_ascii_case(m.symbol@, trade.symbol.0@)
    &&& eq_ignore_ascii_case(m.side@, side_label(trade.side))
    &&& trade.quantity.0 * SCALE >= m.quantity.0 * (SCALE - tolerance.0)
    &&& trade.quantity.0 * SCALE <= m.quantity.0 * (SCALE + tolerance.0)
}

/// Account ids of the correlated master trades, in feed order.
pub open spec fn correlated_ids(ms: Seq<MasterTrade>, trade: Trade, window_seconds: i64, tolerance: Fixed) -> Seq<
    Seq<char>,
>
    decreases ms.len(),
{
    if ms.len() == 0 {
        Seq::empty()
    } else {
        let prev = correlated_ids(ms.drop_last(), trade, window_seconds, tolerance);
        if correlated(ms.last(), trade, window_seconds, tolerance) {
            prev.push(ms.last().master_account_id@)
        } else {
            prev
        }
    }
}

/// The verdict for `ids` correlated trades: confirmed at the threshold,
/// suspicious below it when there is at least one, clean otherwise.
pub open spec fn verdict_matches(v: CopyTradingVerdict, ids: Seq<Seq<char>>, threshold: usize, window_seconds: i64) -> bool {
    if ids.len() >= threshold {
        v matches CopyTradingVerdict::Confirmed { correlated_count, window_seconds: w, master_account_ids }
            && correlated_count == ids.len() && w == window_seconds
            && master_account_ids@.map_values(|s: String| s@) == ids
    } else if ids.len() >= 1 {
        v == CopyTradingVerdict::Suspicious { correlated_count: ids.len() as usize, window_seconds }
    } else {
        v is Clean
    }
}

/// Keeps the last `n` items.
pub open spec fn keep_last<T>(s: Seq<T>, n: int) -> Seq<T> {
    if s.len() > n {
        s.skip(s.len() - n)
    } else {
        s
    }
}

/// The master trades executed at or after `cutoff`, in order.
pub open spec fn not_before(ms: Seq<MasterTrade>, cutoff: int) -> Seq<MasterTrade>
    decreases ms.len(),
{
    if ms.len() == 0 {
        Seq::empty()
    } else if ms.last().executed_at >= cutoff {
        not_before(ms.drop_last(), cutoff).push(ms.last())
    } else {
        not_before(ms.drop_last(), cutoff)
    }
}

/// Bound on the reference feed held by a detector.
pub const MAX_MASTER_TRADES: usize = 1000;

/// Detector comparing each trade against the recent master trades.
#[derive(Debug)]
pub struct ThresholdCopyTradingDetector {
    masters: Vec<MasterTrade>,
    window_seconds: i64,
    threshold: usize,
    /// Allowed relative size deviation (`0.10` = ±10%).
    quantity_tolerance: Fixed,
}

impl ThresholdCopyTradingDetector {
    /// The size tolerance is a share between 0 and 1.
    #[verifier::type_invariant]
    spec fn tolerance_is_share(self) -> bool {
        0 <= self.quantity_tolerance.0 <= SCALE
    }

    pub closed spec fn masters(&self) -> Seq<MasterTrade> {
        self.masters@
    }

    pub closed spec fn window(&self) -> i64 {
        self.window_seconds
    }

    pub closed spec fn threshold(&self) -> usize {
        self.threshold
    }

    pub closed spec fn tolerance(&self) -> Fixed {
        self.quantity_tolerance
    }

    /// An empty feed with the given window and threshold and a ±10%
    /// size tolerance.
    pub fn new(window_seconds: i64, threshold: usize) -> (r: ThresholdCopyTradingDetector)
        ensures
            r.masters().len() == 0,
            r.window() == window_seconds,
            r.threshold() == threshold,
            r.tolerance() == Fixed(10_000_000),
    {
        ThresholdCopyTradingDetector {
            masters: Vec::new(),
            window_seconds,
            threshold,
            quantity_tolerance: Fixed(10_000_000),
        }
    }

    /// Adds a master trade; only the last [`MAX_MASTER_TRADES`] are kept.
    pub fn add_master_trade(&mut self, t: MasterTrade)
        ensures
            final(self).masters() == keep_last(old(self).masters().push(t), MAX_MASTER_TRADES as int),
            final(self).window() == old(self).window(),
            final(self).threshold() == old(self).threshold(),
            final(self).tolerance() == old(self).tolerance(),
    {
        proof {
            use_type_invariant(&*self);
        }
        let ghost s = self.masters@.push(t);
        let mut ms: Vec<MasterTrade> = Vec::new();
        std::mem::swap(&mut ms, &mut self.masters);
        ms.push(t);
        assert(ms@ == s.skip(0));
        while ms.len() > MAX_MASTER_TRADES
            invariant
                ms@.len() <= s.len(),
                ms@ == s.skip(s.len() - ms@.len()),
                ms@.len() >= MAX_MASTER_TRADES || ms@.len() == s.len(),
            decreases ms@.len(),
        {
            ms.remove(0);
            assert(ms@ =~= s.skip(s.len() - ms@.len()));
        }
        assert(ms@ =~= keep_last(s, MAX_MASTER_TRADES as int));
        std::mem::swap(&mut ms, &mut self.masters);
    }

    /// Drops the master trades older than `max_age_seconds` before `now`.
    pub fn prune(&mut self, now: Timestamp, max_age_seconds: i64)
        ensures
            final(self).masters() == not_before(old(self).masters(), now - max_age_seconds * 1000),
            final(self).window() == old(self).window(),
            final(self).threshold() == old(self).threshold(),
            final(self).tolerance() == old(self).tolerance(),
    {
        proof {
            use_type_invariant(&*self);
        }
        let cutoff: i128 = now as i128 - max_age_seconds as i128 * 1000;
        let mut kept: Vec<MasterTrade> = Vec::new();
        let mut i: usize = 0;
        while i < self.masters.len()
            invariant
                i <= self.masters@.len(),
                cutoff == now - max_age_seconds * 1000,
                kept@ == not_before(self.masters@.take(i as int), cutoff as int),
            decreases self.masters@.len() - i,
        {
            proof {
                let t = self.masters@.take(i + 1);
                assert(t.drop_last() =~= self.masters@.take(i as int));
                assert(t.last() == self.masters@[i as int]);
            }
            if self.masters[i].executed_at as i128 >= cutoff {
                kept.push(self.masters[i].clone());
            }
            i = i + 1;
        }
        assert(self.masters@.take(self.masters@.len() as int) =~= self.masters@);
        self.masters = kept;
    }
}

fn side_text(s: OrderSide) -> (r: &'static str)
    ensures
        r@ == side_label(s),
{
    match s {
        OrderSide::Buy => "buy",
        OrderSide::Sell => "sell",
    }
}

fn correlated_exec(m: &MasterTrade, trade: &Trade, window_seconds: i64, tolerance: Fixed) -> (r: bool)
    requires
        0 <= tolerance.0 <= SCALE,
    ensures
        r == correlated(*m, *trade, window_seconds, tolerance),
{
    let now = trade.executed_at as i128;
    let start = now - window_seconds as i128 * 1000;
    let at = m.executed_at as i128;
    if at < start || at > now {
        return false;
    }
    if !eq_ignore_case(m.symbol.as_str(), trade.symbol.0.as_str()) {
        return false;
    }
    if !eq_ignore_case(m.side.as_str(), side_text(trade.side)) {
        return false;
    }
    let tq = trade.quantity.0 as i128;
    let mq = m.quantity.0 as i128;
    let lo_factor = SCALE as i128 - tolerance.0 as i128;
    let hi_factor = SCALE as i128 + tolerance.0 as i128;
    assert(-0x8000_0000_0000_0000int * 200_000_000int <= tq * 100_000_000 <= 0x8000_0000_0000_0000int
        * 200_000_000int) by (nonlinear_arith)
        requires
            -0x8000_0000_0000_0000int <= tq < 0x8000_0000_0000_0000int,
    ;
    assert(-0x8000_0000_0000_0000int * 200_000_000int <= mq * lo_factor <= 0x8000_0000_0000_0000int
        * 200_000_000int) by (nonlinear_arith)
        requires
            -0x8000_0000_0000_0000int <= mq < 0x8000_0000_0000_0000int,
            0 <= lo_factor <= 200_000_000,
    ;
    assert(-0x8000_0000_0000_0000int * 200_000_000int <= mq * hi_factor <= 0x8000_0000_0000_0000int
        * 200_000_000int) by (nonlinear_arith)
        requires
            -0x8000_0000_0000_0000int <= mq < 0x8000_0000_0000_0000int,
            0 <= hi_factor <= 200_000_000,
    ;
    let q = tq * 100_000_000;
    let lower = mq * lo_factor;
    let upper = mq * hi_factor;
    q >= lower && q <= upper
}

impl CopyTradingDetector for ThresholdCopyTradingDetector {
    fn check_trade(&self, trade: &Trade) -> (r: CopyTradingVerdict)
        ensures
            verdict_matches(
                r,
                correlated_ids(self.masters(), *trade, self.window(), self.tolerance()),
                self.threshold(),
                self.window(),
            ),
    {
        proof {
            use_type_invariant(self);
        }
        let mut ids: Vec<String> = Vec::new();
        let mut i: usize = 0;
        while i < self.masters.len()
            invariant
                i <= self.masters@.len(),
                ids@.map_values(|s: String| s@) == correlated_ids(
                    self.masters@.take(i as int),
                    *trade,
                    self.window_seconds,
                    self.quantity_tolerance,
                ),
                ids@.len() <= i,
                0 <= self.quantity_tolerance.0 <= SCALE,
            decreases self.masters@.len() - i,
        {
            proof {
                let t = self.masters@.take(i + 1);
                assert(t.drop_last() =~= self.masters@.take(i as int));
                assert(t.last() == self.masters@[i as int]);
            }
            let m = &self.masters[i];
            if correlated_exec(m, trade, self.window_seconds, self.quantity_tolerance) {
                let ghost before = ids@;
                ids.push(m.master_account_id.clone());
                assert(ids@.map_values(|s: String| s@) =~= before.map_values(|s: String| s@).push(
                    m.master_account_id@,
                ));
            }
            i = i + 1;
        }
        assert(self.masters@.take(self.masters@.len() as int) =~= self.masters@);
        let count = ids.len();
        if count >= self.threshold {
            CopyTradingVerdict::Confirmed {
                correlated_count: count,
                window_seconds: self.window_seconds,
                master_account_ids: ids,
            }
        } else if count >= 1 {
            CopyTradingVerdict::Suspicious { correlated_count: count, window_seconds: self.window_seconds }
        } else {
            CopyTradingVerdict::Clean
        }
    }

    fn recent_master_trades(&self, n: usize) -> (r: Vec<MasterTrade>)
        ensures
            r@.len() == (if n < self.masters().len() {
                n as int
            } else {
                self.masters().len() as int
            }),
            forall|k: int| 0 <= k < r@.len() ==> #[trigger] r@[k] == self.masters()[self.masters().len() - 1 - k],
    {
        let len = self.masters.len();
        let mut out: Vec<MasterTrade> = Vec::new();
        let mut k: usize = 0;
        while k < n && k < len
            invariant
                len == self.masters@.len(),
                k <= len,
                k <= n,
                out@.len() == k,
                forall|j: int| 0 <= j < k ==> #[trigger] out@[j] == self.masters@[len - 1 - j],
            decreases len - k,
        {
            out.push(self.masters[len - 1 - k].clone());
            k = k + 1;
        }
        out
    }
}

/// Master trades grouped by master account, in the order the accounts
/// were first seen.
#[derive(Debug)]
pub struct InMemoryMasterFeed {
    pub masters: Vec<(String, Vec<MasterTrade>)>,
}

/// Index of the group of `id` (`-1` when absent).
pub open spec fn group_index(gs: Seq<(String, Vec<MasterTrade>)>, id: Seq<char>) -> int
    decreases gs.len(),
{
    if gs.len() == 0 {
        -1
    } else if gs.last().0@ == id {
        gs.len() - 1
    } else {
        group_index(gs.drop_last(), id)
    }
}

proof fn lemma_group_index(gs: Seq<(String, Vec<MasterTrade>)>, id: Seq<char>)
    ensures
        -1 <= group_index(gs, id) < gs.len(),
        group_index(gs, id) >= 0 ==> gs[group_index(gs, id)].0@ == id,
    decreases gs.len(),
{
    if gs.len() > 0 {
        lemma_group_index(gs.drop_last(), id);
    }
}

/// All master trades, group after group.
pub open spec fn flatten(gs: Seq<(String, Vec<MasterTrade>)>) -> Seq<MasterTrade>
    decreases gs.len(),
{
    if gs.len() == 0 {
        Seq::empty()
    } else {
        flatten(gs.drop_last()) + gs.last().1@
    }
}

impl InMemoryMasterFeed {
    /// An empty feed.
    pub fn new() -> (r: InMemoryMasterFeed)
        ensures
            r.masters@.len() == 0,
    {
        InMemoryMasterFeed { masters: Vec::new() }
    }

    fn find_group(&self, id: &str) -> (r: Option<usize>)
        ensures
            group_index(self.masters@, id@) < 0 ==> r is None,
            group_index(self.masters@, id@) >= 0 ==> r is Some && r->0 as int == group_index(self.masters@, id@),
    {
        let mut i = self.masters.len();
        assert(self.masters@.take(self.masters@.len() as int) == self.masters@);
        while i > 0
            invariant
                i <= self.masters@.len(),
                group_index(self.masters@, id@) == group_index(self.masters@.take(i as int), id@),
            decreases i,
        {
            assert(self.masters@.take(i as int).drop_last() == self.masters@.take(i - 1));
            assert(self.masters@.take(i as int).last() == self.masters@[i - 1]);
            if text_eq(self.masters[i - 1].0.as_str(), id) {
                return Some(i - 1);
            }
            i = i - 1;
        }
        None
    }

    /// Appends a trade to the group of `master_account_id`, opening the
    /// group when the account is new.
    pub fn add(&mut self, master_account_id: &str, trade: MasterTrade)
        ensures
            group_index(old(self).masters@, master_account_id@) >= 0 ==> {
                let g = group_index(old(self).masters@, master_account_id@);
                &&& final(self).masters@.len() == old(self).masters@.len()
                &&& forall|k: int| 0 <= k < old(self).masters@.len() && k != g ==> #[trigger] final(self).masters@[k] == old(self).masters@[k]
                &&& final(self).masters@[g].0 == old(self).masters@[g].0
                &&& final(self).masters@[g].1@ == old(self).masters@[g].1@.push(trade)
            },
            group_index(old(self).masters@, master_account_id@) < 0 ==> {
                &&& final(self).masters@.len() == old(self).masters@.len() + 1
                &&& final(self).masters@.drop_last() == old(self).masters@
                &&& final(self).masters@.last().0@ == master_account_id@
                &&& final(self).masters@.last().1@ == seq![trade]
            },
    {
        match self.find_group(master_account_id) {
            Some(g) => {
                proof {
                    lemma_group_index(self.masters@, master_account_id@);
                }
                let (key, mut group) = self.masters.remove(g);
                group.push(trade);
                self.masters.insert(g, (key, group));
                assert forall|k: int| 0 <= k < old(self).masters@.len() && k != g implies #[trigger] self.masters@[k] == old(self).masters@[k] by {
                    if k < g {
                    } else {
                    }
                }
            },
            None => {
                let mut group = Vec::new();
                group.push(trade);
                self.masters.push((master_account_id.to_string(), group));
                assert(self.masters@.drop_last() =~= old(self).masters@);
            },
        }
    }

    /// Copies of all master trades, group after group.
    pub fn all(&self) -> (r: Vec<MasterTrade>)
        ensures
            r@ == flatten(self.masters@),
    {
        let mut out: Vec<MasterTrade> = Vec::new();
        let mut i: usize = 0;
        while i < self.masters.len()
            invariant
                i <= self.masters@.len(),
                out@ == flatten(self.masters@.take(i as int)),
            decreases self.masters@.len() - i,
        {
            proof {
                let t = self.masters@.take(i + 1);
                assert(t.drop_last() =~= self.masters@.take(i as int));
                assert(t.last() == self.masters@[i as int]);
            }
            let group = &self.masters[i].1;
            let ghost head = out@;
            let mut j: usize = 0;
            while j < group.len()
                invariant
                    j <= group@.len(),
                    out@ == head + group@.take(j as int),
                decreases group@.len() - j,
            {
                out.push(group[j].clone());
                assert(group@.take(j + 1) == group@.take(j as int).push(group@[j as int]));
                j = j + 1;
            }
            assert(group@.take(group@.len() as int) =~= group@);
            i = i + 1;
        }
        assert(self.masters@.take(self.masters@.len() as int) =~= self.masters@);
        out
    }
}

/// Only a master trade on the trade's own side (ASCII case ignored) can
/// count: a master trade on the other side never correlates, every
/// correlated id belongs to a master trade on the trade's side, and a
/// feed with no trade on that side yields no correlated id.
pub proof fn law_side_must_match(ms: Seq<MasterTrade>, trade: Trade, window_seconds: i64, tolerance: Fixed)
    ensures
        forall|m: MasterTrade|
            #[trigger] correlated(m, trade, window_seconds, tolerance) ==> eq_ignore_ascii_case(
                m.side@,
                side_label(trade.side),
            ),
        forall|m: MasterTrade|
            trade.side == OrderSide::Sell && eq_ignore_ascii_case(m.side@, "buy"@) ==> !#[trigger] correlated(
                m,
                trade,
                window_seconds,
                tolerance,
            ),
        forall|m: MasterTrade|
            trade.side == OrderSide::Buy && eq_ignore_ascii_case(m.side@, "sell"@) ==> !#[trigger] correlated(
                m,
                trade,
                window_seconds,
                tolerance,
            ),
        forall|i: int|
            #![trigger correlated_ids(ms, trade, window_seconds, tolerance)[i]]
            0 <= i < correlated_ids(ms, trade, window_seconds, tolerance).len() ==> exists|j: int|
                0 <= j < ms.len() && (#[trigger] ms[j]).master_account_id@ == correlated_ids(
                    ms,
                    trade,
                    window_seconds,
                    tolerance,
                )[i] && eq_ignore_ascii_case(ms[j].side@, side_label(trade.side)),
        (forall|j: int| 0 <= j < ms.len() ==> !eq_ignore_ascii_case(#[trigger] ms[j].side@, side_label(trade.side)))
            ==> correlated_ids(ms, trade, window_seconds, tolerance).len() == 0,
    decreases ms.len(),
{
    reveal_strlit("buy");
    reveal_strlit("sell");
    assert forall|m: MasterTrade|
        trade.side == OrderSide::Sell && eq_ignore_ascii_case(m.side@, "buy"@) implies !#[trigger] correlated(
        m,
        trade,
        window_seconds,
        tolerance,
    ) by {
        assert(crate::text::ascii_lower_seq("buy"@).len() == 3);
        assert(crate::text::ascii_lower_seq("sell"@).len() == 4);
    }
    assert forall|m: MasterTrade|
        trade.side == OrderSide::Buy && eq_ignore_ascii_case(m.side@, "sell"@) implies !#[trigger] correlated(
        m,
        trade,
        window_seconds,
        tolerance,
    ) by {
        assert(crate::text::ascii_lower_seq("buy"@).len() == 3);
        assert(crate::text::ascii_lower_seq("sell"@).len() == 4);
    }
    if ms.len() > 0 {
        let pre = ms.drop_last();
        law_side_must_match(pre, trade, window_seconds, tolerance);
        let ids = correlated_ids(ms, trade, window_seconds, tolerance);
        let pids = correlated_ids(pre, trade, window_seconds, tolerance);
        assert forall|i: int| #![trigger ids[i]] 0 <= i < ids.len() implies exists|j: int|
            0 <= j < ms.len() && (#[trigger] ms[j]).master_account_id@ == ids[i] && eq_ignore_ascii_case(
                ms[j].side@,
                side_label(trade.side),
            ) by {
            if i < pids.len() {
                let j = choose|j: int|
                    0 <= j < pre.len() && (#[trigger] pre[j]).master_account_id@ == pids[i]
                        && eq_ignore_ascii_case(pre[j].side@, side_label(trade.side));
                assert(ms[j] == pre[j]);
            } else {
                assert(ms[ms.len() - 1] == ms.last());
            }
        }
        if forall|j: int| 0 <= j < ms.len() ==> !eq_ignore_ascii_case(#[trigger] ms[j].side@, side_label(trade.side)) {
            assert forall|j: int| 0 <= j < pre.len() implies !eq_ignore_ascii_case(#[trigger] pre[j].side@, side_label(trade.side)) by {
                assert(pre[j] == ms[j]);
            }
            assert(ms[ms.len() - 1] == ms.last());
        }
    }
}

/// A master trade counts only within the window and on the trade's
/// symbol: one executed after the trade, one executed more than the
/// window before it, or one on another symbol (ASCII case ignored) never
/// correlates.
pub proof fn law_window_and_symbol_must_match(m: MasterTrade, trade: Trade, window_seconds: i64, tolerance: Fixed)
    ensures
        m.executed_at > trade.executed_at ==> !correlated(m, trade, window_seconds, tolerance),
        m.executed_at < trade.executed_at - window_seconds * 1000 ==> !correlated(
            m,
            trade,
            window_seconds,
            tolerance,
        ),
        !eq_ignore_ascii_case(m.symbol@, trade.symbol.0@) ==> !correlated(m, trade, window_seconds, tolerance),
{
}

} // verus!
