//! Risk analytics over an equity curve (point-in-time equity samples)
//! and per-trade results: drawdowns, returns, profit factor, expectancy,
//! recovery and Calmar ratios.
use crate::error::Error;
use crate::fixed::{decimal_parts_ok, div_raw, fits, fx_div, raw_from_parts, raw_of_parts, tdiv, tdiv_i128, Fixed, SCALE};
use crate::market::{position_open, Position, PositionSide, Quote};
use crate::types::Money;
use rust_decimal::MathematicalOps;
use vstd::prelude::*;

verus! {

/// Running peak (from zero) and largest peak-to-trough drop of a curve.
pub open spec fn dd_scan(s: Seq<Money>) -> (int, int)
    decreases s.len(),
{
    if s.len() == 0 {
        (0, 0)
    } else {
        let prev = dd_scan(s.drop_last());
        let v = s.last().0 as int;
        let p = if v > prev.0 {
            v
        } else {
            prev.0
        };
        let dd = p - v;
        (p, if dd > prev.1 {
            dd
        } else {
            prev.1
        })
    }
}

proof fn lemma_dd_scan(s: Seq<Money>)
    ensures
        0 <= dd_scan(s).0 <= i64::MAX,
        0 <= dd_scan(s).1,
        dd_scan(s).1 <= dd_scan(s).0 - i64::MIN,
    decreases s.len(),
{
    if s.len() > 0 {
        lemma_dd_scan(s.drop_last());
    }
}

/// The largest peak-to-trough drawdown of the curve, in money; the peak
/// starts at zero.
pub fn max_drawdown(equity: &[Money]) -> (r: Fixed)
    requires
        fits(dd_scan(equity@).1),
    ensures
        r.0 == dd_scan(equity@).1,
        r.0 >= 0,
{
    let mut peak: i64 = 0;
    let mut mdd: i128 = 0;
    let mut i: usize = 0;
    assert(equity@.take(0) =~= Seq::<Money>::empty());
    while i < equity.len()
        invariant
            i <= equity@.len(),
            (peak as int, mdd as int) == dd_scan(equity@.take(i as int)),
        decreases equity@.len() - i,
    {
        proof {
            let t = equity@.take(i + 1);
            assert(t.drop_last() =~= equity@.take(i as int));
            assert(t.last() == equity@[i as int]);
            lemma_dd_scan(equity@.take(i as int));
        }
        let v = equity[i].0;
        if v > peak {
            peak = v;
        }
        let dd: i128 = peak as i128 - v as i128;
        if dd > mdd {
            mdd = dd;
        }
        i = i + 1;
    }
    assert(equity@.take(equity@.len() as int) =~= equity@);
    proof {
        lemma_dd_scan(equity@);
    }
    Fixed(mdd as i64)
}

/// Scan of the longest drawdown: running peak, start index of the open
/// drawdown (the sample before the first one at or below a positive
/// peak), and the longest closed drawdown so far (in samples).
pub open spec fn dur_scan(s: Seq<Money>) -> (int, Option<int>, u32)
    decreases s.len(),
{
    if s.len() == 0 {
        (0, None, 0)
    } else {
        let prev = dur_scan(s.drop_last());
        let i = s.len() - 1;
        let v = s.last().0 as int;
        if v > prev.0 {
            match prev.1 {
                Some(st) => {
                    let l = (i - st) as u32;
                    (v, None, if l > prev.2 {
                        l
                    } else {
                        prev.2
                    })
                },
                None => (v, None, prev.2),
            }
        } else if prev.1 is None && prev.0 > 0 {
            (prev.0, Some(i - 1), prev.2)
        } else {
            prev
        }
    }
}

/// Length in samples of the longest drawdown, counting a drawdown still
/// open at the end up to the end of the curve.
pub open spec fn longest_drawdown(s: Seq<Money>) -> u32 {
    let sc = dur_scan(s);
    match sc.1 {
        Some(st) => {
            let l = (s.len() - st) as u32;
            if l > sc.2 {
                l
            } else {
                sc.2
            }
        },
        None => sc.2,
    }
}

proof fn lemma_dur_scan(s: Seq<Money>)
    ensures
        0 <= dur_scan(s).0 <= i64::MAX,
        s.len() == 0 ==> dur_scan(s).0 == 0,
        dur_scan(s).1 matches Some(st) ==> 0 <= st < s.len() - 1 || (0 <= st && st + 1 == s.len()),
        dur_scan(s).0 > 0 ==> s.len() >= 1,
    decreases s.len(),
{
    if s.len() > 0 {
        lemma_dur_scan(s.drop_last());
    }
}

/// Length in samples of the longest drawdown of the curve.
pub fn max_drawdown_duration(equity: &[Money]) -> (r: u32)
    ensures
        r == longest_drawdown(equity@),
{
    let mut peak: i64 = 0;
    let mut start: Option<usize> = None;
    let mut longest: u32 = 0;
    let mut i: usize = 0;
    assert(equity@.take(0) =~= Seq::<Money>::empty());
    while i < equity.len()
        invariant
            i <= equity@.len(),
            dur_scan(equity@.take(i as int)) == (peak as int, match start {
                Some(s) => Some(s as int),
                None => None::<int>,
            }, longest),
            start matches Some(s) ==> s < i,
            peak > 0 ==> i >= 1,
            peak >= 0,
        decreases equity@.len() - i,
    {
        proof {
            let t = equity@.take(i + 1);
            assert(t.drop_last() =~= equity@.take(i as int));
            assert(t.last() == equity@[i as int]);
        }
        let v = equity[i].0;
        if v > peak {
            peak = v;
            match start {
                Some(s) => {
                    let len = (i - s) as u32;
                    if len > longest {
                        longest = len;
                    }
                    start = None;
                },
                None => {},
            }
        } else if start.is_none() && peak > 0 {
            start = Some(i - 1);
        }
        i = i + 1;
    }
    assert(equity@.take(equity@.len() as int) =~= equity@);
    match start {
        Some(s) => {
            let len = (equity.len() - s) as u32;
            if len > longest {
                longest = len;
            }
        },
        None => {},
    }
    longest
}

/// Scan of the largest relative drawdown: running peak and largest
/// `(peak - v) / peak` (fixed-point, truncated) over samples with a
/// positive peak.
pub open spec fn dd_pct_scan(s: Seq<Money>) -> (int, int)
    decreases s.len(),
{
    if s.len() == 0 {
        (0, 0)
    } else {
        let prev = dd_pct_scan(s.drop_last());
        let v = s.last().0 as int;
        let p = if v > prev.0 {
            v
        } else {
            prev.0
        };
        if p == 0 {
            (p, prev.1)
        } else {
            let d = fx_div(p - v, p);
            (p, if d > prev.1 {
                d
            } else {
                prev.1
            })
        }
    }
}

proof fn lemma_dd_pct_scan(s: Seq<Money>)
    ensures
        0 <= dd_pct_scan(s).0 <= i64::MAX,
        0 <= dd_pct_scan(s).1,
    decreases s.len(),
{
    if s.len() > 0 {
        lemma_dd_pct_scan(s.drop_last());
    }
}

/// The largest drawdown as a share of the running peak.
pub fn max_drawdown_pct(equity: &[Money]) -> (r: Fixed)
    requires
        fits(dd_pct_scan(equity@).1),
    ensures
        r.0 == dd_pct_scan(equity@).1,
        r.0 >= 0,
{
    let mut peak: i64 = 0;
    let mut best: i128 = 0;
    let mut i: usize = 0;
    assert(equity@.take(0) =~= Seq::<Money>::empty());
    while i < equity.len()
        invariant
            i <= equity@.len(),
            (peak as int, best as int) == dd_pct_scan(equity@.take(i as int)),
            0 <= best <= 0x1_0000_0000_0000_0000 * 100_000_000,
        decreases equity@.len() - i,
    {
        proof {
            let t = equity@.take(i + 1);
            assert(t.drop_last() =~= equity@.take(i as int));
            assert(t.last() == equity@[i as int]);
            lemma_dd_pct_scan(equity@.take(i as int));
        }
        let v = equity[i].0;
        if v > peak {
            peak = v;
        }
        if peak != 0 {
            let diff: i128 = peak as i128 - v as i128;
            assert(0 <= diff <= 0x1_0000_0000_0000_0000);
            let num: i128 = diff * 100_000_000;
            let d = tdiv_i128(num, peak as i128);
            assert(d as int == fx_div(peak - v, peak as int));
            assert(0 <= d <= num) by (nonlinear_arith)
                requires
                    d as int == (num as int) / (peak as int),
                    peak >= 1,
                    num >= 0,
            ;
            if d > best {
                best = d;
            }
        }
        i = i + 1;
    }
    assert(equity@.take(equity@.len() as int) =~= equity@);
    Fixed(best as i64)
}

/// Per-sample returns of a curve: `(curr - prev) / prev` for each
/// consecutive pair with a non-zero `prev`.
pub open spec fn returns_of(s: Seq<Money>) -> Seq<int>
    decreases s.len(),
{
    if s.len() < 2 {
        Seq::empty()
    } else {
        let prev = returns_of(s.drop_last());
        let a = s[s.len() - 2].0 as int;
        let b = s.last().0 as int;
        if a == 0 {
            prev
        } else {
            prev.push(fx_div(b - a, a))
        }
    }
}

/// Every return of the curve fits the fixed-point range.
pub open spec fn returns_fit(s: Seq<Money>) -> bool {
    forall|i: int|
        1 <= i < s.len() && s[i - 1].0 != 0 ==> fits(#[trigger] fx_div(s[i].0 - s[i - 1].0, s[i - 1].0 as int))
}

/// The per-sample returns of the curve.
pub fn period_returns(equity: &[Money]) -> (r: Vec<Fixed>)
    requires
        returns_fit(equity@),
    ensures
        r@.map_values(|f: Fixed| f.0 as int) == returns_of(equity@),
{
    let mut out: Vec<Fixed> = Vec::new();
    if equity.len() < 2 {
        assert(out@.map_values(|f: Fixed| f.0 as int) =~= returns_of(equity@));
        return out;
    }
    let mut i: usize = 1;
    assert(equity@.take(1).len() < 2);
    assert(out@.map_values(|f: Fixed| f.0 as int) =~= returns_of(equity@.take(1)));
    while i < equity.len()
        invariant
            1 <= i <= equity@.len(),
            returns_fit(equity@),
            out@.map_values(|f: Fixed| f.0 as int) == returns_of(equity@.take(i as int)),
        decreases equity@.len() - i,
    {
        proof {
            let t = equity@.take(i + 1);
            assert(t.drop_last() =~= equity@.take(i as int));
            assert(t.last() == equity@[i as int]);
            assert(t[t.len() - 2] == equity@[i - 1]);
        }
        let a = equity[i - 1].0;
        let b = equity[i].0;
        if a != 0 {
            let diff: i128 = b as i128 - a as i128;
            let num: i128 = diff * 100_000_000;
            let q: i128 = if a > 0 {
                tdiv_i128(num, a as i128)
            } else {
                tdiv_i128(-num, -(a as i128))
            };
            assert(q as int == fx_div(b - a, a as int));
            assert(fits(fx_div(equity@[i as int].0 - equity@[i - 1].0, equity@[i - 1].0 as int)));
            let ghost before = out@;
            out.push(Fixed(q as i64));
            assert(out@.map_values(|f: Fixed| f.0 as int) =~= before.map_values(|f: Fixed| f.0 as int).push(
                q as int,
            ));
        }
        i = i + 1;
    }
    assert(equity@.take(equity@.len() as int) =~= equity@);
    out
}

/// Sum of the positive results.
pub open spec fn gross_profit(s: Seq<Money>) -> int
    decreases s.len(),
{
    if s.len() == 0 {
        0
    } else {
        gross_profit(s.drop_last()) + if s.last().0 > 0 {
            s.last().0 as int
        } else {
            0
        }
    }
}

/// Sum of the absolute losses.
pub open spec fn gross_loss(s: Seq<Money>) -> int
    decreases s.len(),
{
    if s.len() == 0 {
        0
    } else {
        gross_loss(s.drop_last()) + if s.last().0 < 0 {
            -(s.last().0 as int)
        } else {
            0
        }
    }
}

/// Sum of all results.
pub open spec fn total_of(s: Seq<Money>) -> int
    decreases s.len(),
{
    if s.len() == 0 {
        0
    } else {
        total_of(s.drop_last()) + s.last().0
    }
}

proof fn lemma_sums(s: Seq<Money>)
    ensures
        0 <= gross_profit(s) <= s.len() * 0x7fff_ffff_ffff_ffff,
        0 <= gross_loss(s) <= s.len() * 0x8000_0000_0000_0000,
        -(s.len() * 0x8000_0000_0000_0000) <= total_of(s) <= s.len() * 0x7fff_ffff_ffff_ffff,
        total_of(s) == gross_profit(s) - gross_loss(s),
    decreases s.len(),
{
    if s.len() > 0 {
        lemma_sums(s.drop_last());
    }
}

/// Profit factor: gross profit over gross loss; with no loss, the gross
/// profit itself (zero when there is none).
pub open spec fn profit_factor_of(s: Seq<Money>) -> int {
    let gp = gross_profit(s);
    let gl = gross_loss(s);
    if gl == 0 {
        gp
    } else {
        fx_div(gp, gl)
    }
}

/// The gross profit, gross loss and profit factor fit the money range.
pub open spec fn profit_factor_fits(s: Seq<Money>) -> bool {
    fits(gross_profit(s)) && fits(gross_loss(s)) && fits(profit_factor_of(s))
}

/// Gross profit and gross loss of the results, in one pass.
fn gross_sums(trades: &[Money]) -> (r: (i128, i128))
    ensures
        r.0 == gross_profit(trades@),
        r.1 == gross_loss(trades@),
{
    let mut gp: i128 = 0;
    let mut gl: i128 = 0;
    let mut i: usize = 0;
    assert(trades@.take(0) =~= Seq::<Money>::empty());
    while i < trades.len()
        invariant
            i <= trades@.len(),
            gp == gross_profit(trades@.take(i as int)),
            gl == gross_loss(trades@.take(i as int)),
            0 <= gp <= i * 0x7fff_ffff_ffff_ffff,
            0 <= gl <= i * 0x8000_0000_0000_0000,
        decreases trades@.len() - i,
    {
        proof {
            let t = trades@.take(i + 1);
            assert(t.drop_last() =~= trades@.take(i as int));
            assert(t.last() == trades@[i as int]);
        }
        let v = trades[i].0;
        if v > 0 {
            gp = gp + v as i128;
        } else if v < 0 {
            gl = gl - v as i128;
        }
        i = i + 1;
    }
    assert(trades@.take(trades@.len() as int) =~= trades@);
    (gp, gl)
}

/// Gross profit over gross loss.
pub fn profit_factor(trades: &[Money]) -> (r: Fixed)
    requires
        profit_factor_fits(trades@),
    ensures
        r.0 == profit_factor_of(trades@),
{
    let (gp, gl) = gross_sums(trades);
    if gl == 0 {
        return Fixed(gp as i64);
    }
    Fixed(div_raw(gp as i64, gl as i64))
}

/// Mean result per trade (zero without trades).
pub open spec fn expectancy_of(s: Seq<Money>) -> int {
    if s.len() == 0 {
        0
    } else {
        tdiv(total_of(s), s.len() as int)
    }
}

/// Mean result per trade (zero without trades).
pub fn expectancy(trades: &[Money]) -> (r: Fixed)
    ensures
        r.0 == expectancy_of(trades@),
{
    if trades.len() == 0 {
        return Fixed(0);
    }
    let (gp, gl) = gross_sums(trades);
    proof {
        lemma_sums(trades@);
    }
    let total: i128 = gp - gl;
    let n = trades.len() as i128;
    let q = tdiv_i128(total, n);
    assert(-0x8000_0000_0000_0000 <= q <= 0x8000_0000_0000_0000) by (nonlinear_arith)
        requires
            q == tdiv(total as int, n as int),
            -(n * 0x8000_0000_0000_0000) <= total <= n * 0x8000_0000_0000_0000,
            n >= 1,
    {
        if total >= 0 {
            assert((total as int) / (n as int) <= 0x8000_0000_0000_0000);
        } else {
            assert((-(total as int)) / (n as int) <= 0x8000_0000_0000_0000);
        }
    }
    assert(q < 0x8000_0000_0000_0000) by (nonlinear_arith)
        requires
            q == tdiv(total as int, n as int),
            total <= n * 0x8000_0000_0000_0000 - n,
            n >= 1,
    {
        if total >= 0 {
            assert((total as int) / (n as int) <= 0x8000_0000_0000_0000 - 1);
        }
    }
    Fixed(q as i64)
}

/// Net result of the curve over its largest drawdown (zero for fewer
/// than two samples or no drawdown).
pub open spec fn recovery_factor_of(s: Seq<Money>) -> int {
    if s.len() < 2 {
        0
    } else {
        let profit = s.last().0 - s[0].0;
        let mdd = dd_scan(s).1;
        if mdd == 0 {
            0
        } else {
            fx_div(profit, mdd)
        }
    }
}

/// Net result over the largest drawdown.
pub fn recovery_factor(equity: &[Money]) -> (r: Fixed)
    requires
        equity@.len() >= 2 ==> fits(dd_scan(equity@).1) && fits(equity@.last().0 - equity@[0].0) && (dd_scan(
            equity@,
        ).1 != 0 ==> fits(recovery_factor_of(equity@))),
    ensures
        r.0 == recovery_factor_of(equity@),
{
    if equity.len() < 2 {
        return Fixed(0);
    }
    let profit = equity[equity.len() - 1].0 - equity[0].0;
    let mdd = max_drawdown(equity);
    if mdd.0 == 0 {
        return Fixed(0);
    }
    Fixed(div_raw(profit, mdd.0))
}

/// Calmar ratio: the total return, scaled to 252 periods over the sample
/// count, over the largest relative drawdown (zero when any part is
/// missing).
pub open spec fn calmar_of(s: Seq<Money>) -> int {
    let mdd = dd_pct_scan(s).1;
    if mdd == 0 || s.len() < 2 || s[0].0 == 0 {
        0
    } else {
        let total_ret = fx_div(s.last().0 - s[0].0, s[0].0 as int);
        let periods = fx_div(252 * SCALE, s.len() * SCALE);
        let annualized = tdiv(total_ret * periods, SCALE as int);
        fx_div(annualized, mdd)
    }
}

/// The intermediate values of the Calmar ratio fit the money range.
pub open spec fn calmar_fits(s: Seq<Money>) -> bool {
    &&& fits(dd_pct_scan(s).1)
    &&& s.len() >= 2 && s[0].0 != 0 ==> {
        let total_ret = fx_div(s.last().0 - s[0].0, s[0].0 as int);
        let periods = fx_div(252 * SCALE, s.len() * SCALE);
        &&& fits(total_ret)
        &&& fits(s.len() * SCALE)
        &&& fits(tdiv(total_ret * periods, SCALE as int))
        &&& fits(calmar_of(s))
    }
}

/// Annualized return over the largest relative drawdown.
pub fn calmar_ratio(equity: &[Money]) -> (r: Fixed)
    requires
        calmar_fits(equity@),
    ensures
        r.0 == calmar_of(equity@),
{
    let mdd = max_drawdown_pct(equity);
    if mdd.0 == 0 {
        return Fixed(0);
    }
    if equity.len() < 2 {
        return Fixed(0);
    }
    let first = equity[0].0;
    let last = equity[equity.len() - 1].0;
    if first == 0 {
        return Fixed(0);
    }
    let diff: i128 = last as i128 - first as i128;
    let num: i128 = diff * 100_000_000;
    let total_ret: i128 = if first > 0 {
        tdiv_i128(num, first as i128)
    } else {
        tdiv_i128(-num, -(first as i128))
    };
    assert(total_ret as int == fx_div(last - first, first as int));
    let n = equity.len() as i64;
    let n_raw = n * SCALE;
    let periods = div_raw(252 * SCALE, n_raw);
    let prod: i128 = total_ret * periods as i128;
    let annualized = tdiv_i128(prod, SCALE as i128);
    Fixed(div_raw(annualized as i64, mdd.0))
}

/// An equity curve must be non-empty and never negative.
pub fn validate(equity: &[Money]) -> (r: Result<(), Error>)
    ensures
        r is Ok <==> (equity@.len() > 0 && forall|i: int| 0 <= i < equity@.len() ==> #[trigger] equity@[i].0 >= 0),
        r is Err ==> r->Err_0 is InvalidState && r->Err_0->InvalidState_0@ == (if equity@.len() == 0 {
            "equity curve is empty"@
        } else {
            "equity curve contains negative values"@
        }),
{
    if equity.len() == 0 {
        return Err(Error::invalid_state("equity curve is empty"));
    }
    let mut i: usize = 0;
    while i < equity.len()
        invariant
            i <= equity@.len(),
            forall|k: int| 0 <= k < i ==> #[trigger] equity@[k].0 >= 0,
        decreases equity@.len() - i,
    {
        if equity[i].0 < 0 {
            return Err(Error::invalid_state("equity curve contains negative values"));
        }
        i = i + 1;
    }
    Ok(())
}


/// The mantissa and scale of the square root `rust_decimal`'s `sqrt`
/// computes for the positive raw value `x` (read as `x * 10^-8`).
pub uninterp spec fn decimal_sqrt_parts(x: i64) -> (i128, u32);

/// Square root with `rust_decimal::MathematicalOps::sqrt` (Babylonian
/// iteration) of the raw value `x`, as the result's mantissa and scale:
/// `None` for a negative argument, zero for zero, otherwise the parts
/// named by [`decimal_sqrt_parts`] (those of a `Decimal`). The iteration
/// asserts that it settles within 1000 steps; the crate's source does not
/// show for which arguments it might not, so no `requires` excludes any.
#[verifier::external_body]
fn sqrt_parts(x: i64) -> (r: Option<(i128, u32)>)
    ensures
        x < 0 ==> r is None,
        x == 0 ==> r == Some((0i128, 0u32)),
        x > 0 ==> r == Some(decimal_sqrt_parts(x)),
        r matches Some(p) ==> decimal_parts_ok(p.0, p.1),
{
    rust_decimal::Decimal::new(x, 8).sqrt().map(|d| (d.mantissa(), d.scale()))
}

/// The square root of a raw value in raw units (truncated to eight
/// decimals): `None` for a negative argument or a root out of range.
pub open spec fn sqrt_raw_of(x: i64) -> Option<i64> {
    if x < 0 {
        None
    } else if x == 0 {
        Some(0)
    } else {
        raw_of_parts(decimal_sqrt_parts(x).0, decimal_sqrt_parts(x).1)
    }
}

/// The square root of a raw value, or `d` when it has none.
pub open spec fn sqrt_or(x: i64, d: int) -> int {
    match sqrt_raw_of(x) {
        Some(v) => v as int,
        None => d,
    }
}

/// Square root of a raw value in raw units; see [`sqrt_raw_of`].
pub(crate) fn sqrt_raw(x: i64) -> (r: Option<i64>)
    ensures
        r == sqrt_raw_of(x),
{
    match sqrt_parts(x) {
        Some((m, scale)) => raw_from_parts(m, scale),
        None => None,
    }
}

/// Square root (raw), zero when it does not exist.
pub open spec fn sqrt_or_zero(x: int) -> int {
    if x > 0 && fits(x) {
        sqrt_or(x as i64, 0)
    } else {
        0
    }
}

/// The annualization factor `sqrt(252)` (raw).
pub open spec fn annualization() -> int {
    sqrt_or(25_200_000_000i64, SCALE as int)
}

/// Sum of a sequence.
pub open spec fn sum_seq(s: Seq<int>) -> int
    decreases s.len(),
{
    if s.len() == 0 {
        0
    } else {
        sum_seq(s.drop_last()) + s.last()
    }
}

/// Mean (raw, truncated) of a sequence of raws; zero when empty.
pub open spec fn mean_of(s: Seq<int>) -> int {
    if s.len() == 0 {
        0
    } else {
        tdiv(sum_seq(s), s.len() as int)
    }
}

/// Sum of the squared distances (exact, in `10^-16` units) to `m`.
pub open spec fn sq_dev(s: Seq<int>, m: int) -> int
    decreases s.len(),
{
    if s.len() == 0 {
        0
    } else {
        sq_dev(s.drop_last(), m) + (s.last() - m) * (s.last() - m)
    }
}

/// Population variance (raw, truncated once) of a sequence of raws.
pub open spec fn variance_of(s: Seq<int>) -> int {
    if s.len() == 0 {
        0
    } else {
        tdiv(sq_dev(s, mean_of(s)), s.len() * SCALE)
    }
}

/// The downside part of each return: the return when negative, zero
/// otherwise.
pub open spec fn downside(s: Seq<int>) -> Seq<int> {
    s.map_values(|r: int| if r < 0 {
        r
    } else {
        0
    })
}

/// `(mean / std) * sqrt(252)` (raw), zero without a spread.
pub open spec fn ratio_of(mean: int, std: int) -> int {
    if std == 0 {
        0
    } else {
        tdiv(fx_div(mean, std) * annualization(), SCALE as int)
    }
}

/// Sharpe ratio of a curve's returns.
pub open spec fn sharpe_of(s: Seq<Money>) -> int {
    let r = returns_of(s);
    if r.len() == 0 {
        0
    } else {
        ratio_of(mean_of(r), sqrt_or_zero(variance_of(r)))
    }
}

/// Sortino ratio of a curve's returns: the spread counts only the
/// downside, measured from zero.
pub open spec fn sortino_of(s: Seq<Money>) -> int {
    let r = returns_of(s);
    if r.len() == 0 {
        0
    } else {
        ratio_of(mean_of(r), sqrt_or_zero(tdiv(sq_dev(downside(r), 0), r.len() * SCALE)))
    }
}

proof fn lemma_sq_dev_monotone(s: Seq<int>, m: int)
    ensures
        sq_dev(s, m) >= 0,
        forall|k: int| 0 <= k <= s.len() ==> #[trigger] sq_dev(s.take(k), m) <= sq_dev(s, m),
    decreases s.len(),
{
    if s.len() > 0 {
        lemma_sq_dev_monotone(s.drop_last(), m);
        assert((s.last() - m) * (s.last() - m) >= 0) by (nonlinear_arith);
        assert forall|k: int| 0 <= k <= s.len() implies #[trigger] sq_dev(s.take(k), m) <= sq_dev(s, m) by {
            if k < s.len() {
                assert(s.take(k) == s.drop_last().take(k));
            } else {
                assert(s.take(k) == s);
            }
        }
    }
}

/// Mean and spread-sum of raws, exactly as the specs define them.
fn mean_and_sq_dev(xs: &Vec<i64>, to_zero: bool) -> (r: (i64, i128))
    requires
        xs@.len() > 0,
        sq_dev(
            if to_zero {
                downside(xs@.map_values(|x: i64| x as int))
            } else {
                xs@.map_values(|x: i64| x as int)
            },
            if to_zero {
                0
            } else {
                mean_of(xs@.map_values(|x: i64| x as int))
            },
        ) <= i128::MAX,
    ensures
        r.1 >= 0,
        r.0 as int == mean_of(xs@.map_values(|x: i64| x as int)),
        r.1 as int == sq_dev(
            if to_zero {
                downside(xs@.map_values(|x: i64| x as int))
            } else {
                xs@.map_values(|x: i64| x as int)
            },
            if to_zero {
                0
            } else {
                mean_of(xs@.map_values(|x: i64| x as int))
            },
        ),
{
    let ghost v = xs@.map_values(|x: i64| x as int);
    let n = xs.len();
    let mut sum: i128 = 0;
    let mut i: usize = 0;
    while i < n
        invariant
            n == xs@.len(),
            v == xs@.map_values(|x: i64| x as int),
            i <= n,
            sum == sum_seq(v.take(i as int)),
            -(i * 0x8000_0000_0000_0000) <= sum <= i * 0x8000_0000_0000_0000,
        decreases n - i,
    {
        assert(v.take(i + 1).drop_last() =~= v.take(i as int));
        sum = sum + xs[i] as i128;
        i = i + 1;
    }
    assert(v.take(n as int) =~= v);
    let mean = tdiv_i128(sum, n as i128);
    assert(-0x8000_0000_0000_0000 <= mean <= 0x7fff_ffff_ffff_ffff) by {
        assert(mean as int == tdiv(sum as int, n as int));
        assert(-(n * 0x8000_0000_0000_0000) <= sum <= n * 0x7fff_ffff_ffff_ffff) by {
            lemma_mean_bound(v);
        }
        lemma_tdiv_bound(sum as int, n as int);
    }
    let m: i64 = if to_zero {
        0
    } else {
        mean as i64
    };
    let ghost w = if to_zero {
        downside(v)
    } else {
        v
    };
    let mut acc: i128 = 0;
    let mut j: usize = 0;
    proof {
        lemma_sq_dev_monotone(w, m as int);
    }
    while j < n
        invariant
            n == xs@.len(),
            v == xs@.map_values(|x: i64| x as int),
            w == (if to_zero {
                downside(v)
            } else {
                v
            }),
            j <= n,
            acc == sq_dev(w.take(j as int), m as int),
            acc >= 0,
            sq_dev(w, m as int) <= i128::MAX,
            forall|k: int| 0 <= k <= w.len() ==> #[trigger] sq_dev(w.take(k), m as int) <= sq_dev(w, m as int),
            w.len() == n,
        decreases n - j,
    {
        let x = xs[j];
        let y: i64 = if to_zero && x >= 0 {
            0
        } else {
            x
        };
        assert(y as int == w[j as int]);
        assert(w.take(j + 1).drop_last() =~= w.take(j as int));
        let d: i128 = y as i128 - m as i128;
        proof {
            lemma_sq_dev_monotone(w.take(j + 1), m as int);
            assert(sq_dev(w.take(j + 1), m as int) <= i128::MAX);
            assert(w.take(j + 1).last() == w[j as int]);
            assert(sq_dev(w.take(j + 1), m as int) == acc + (y - m) * (y - m));
            assert(d * d == (y - m) * (y - m));
            assert(d * d >= 0) by (nonlinear_arith);
            lemma_sq_dev_monotone(w.take(j as int), m as int);
        }
        acc = acc + d * d;
        j = j + 1;
    }
    assert(w.take(n as int) =~= w);
    (mean as i64, acc)
}

proof fn lemma_mean_bound(v: Seq<int>)
    requires
        forall|k: int| 0 <= k < v.len() ==> -0x8000_0000_0000_0000 <= #[trigger] v[k] <= 0x7fff_ffff_ffff_ffff,
    ensures
        -(v.len() * 0x8000_0000_0000_0000) <= sum_seq(v) <= v.len() * 0x7fff_ffff_ffff_ffff,
    decreases v.len(),
{
    if v.len() > 0 {
        lemma_mean_bound(v.drop_last());
        assert(v.last() == v[v.len() - 1]);
    }
}

proof fn lemma_tdiv_bound(sum: int, n: int)
    requires
        n >= 1,
        -(n * 0x8000_0000_0000_0000) <= sum <= n * 0x7fff_ffff_ffff_ffff,
    ensures
        -0x8000_0000_0000_0000 <= tdiv(sum, n) <= 0x7fff_ffff_ffff_ffff,
{
    if sum >= 0 {
        assert(sum / n <= 0x7fff_ffff_ffff_ffff) by (nonlinear_arith)
            requires
                n >= 1,
                0 <= sum <= n * 0x7fff_ffff_ffff_ffff,
        ;
    } else {
        assert((-sum) / n <= 0x8000_0000_0000_0000) by (nonlinear_arith)
            requires
                n >= 1,
                0 < -sum <= n * 0x8000_0000_0000_0000,
        ;
    }
}


/// The intermediate values of the Sharpe and Sortino ratios fit their
/// ranges (`to_zero` selects the downside spread).
pub open spec fn spread_fits(s: Seq<Money>, to_zero: bool) -> bool {
    let r = returns_of(s);
    let w = if to_zero {
        downside(r)
    } else {
        r
    };
    let m = if to_zero {
        0
    } else {
        mean_of(r)
    };
    r.len() > 0 ==> {
        let var = tdiv(sq_dev(w, m), r.len() * SCALE);
        let std = sqrt_or_zero(var);
        &&& sq_dev(w, m) <= i128::MAX
        &&& fits(var)
        &&& fits(r.len() * SCALE)
        &&& (std != 0 ==> fits(fx_div(mean_of(r), std)) && fits(ratio_of(mean_of(r), std)))
    }
}

fn raws_of(v: &[Fixed]) -> (r: Vec<i64>)
    ensures
        r@.map_values(|x: i64| x as int) == v@.map_values(|f: Fixed| f.0 as int),
{
    let mut out: Vec<i64> = Vec::new();
    let mut i: usize = 0;
    while i < v.len()
        invariant
            i <= v@.len(),
            out@.map_values(|x: i64| x as int) == v@.take(i as int).map_values(|f: Fixed| f.0 as int),
        decreases v@.len() - i,
    {
        let ghost before = out@;
        out.push(v[i].0);
        assert(v@.take(i + 1) =~= v@.take(i as int).push(v@[i as int]));
        assert(out@.map_values(|x: i64| x as int) =~= before.map_values(|x: i64| x as int).push(v@[i as int].0 as int));
        i = i + 1;
    }
    assert(v@.take(v@.len() as int) =~= v@);
    out
}

/// `(mean / std) * sqrt(252)`, or zero for a zero spread.
fn ratio_exec(mean: i64, std: i64) -> (r: Fixed)
    requires
        std != 0 ==> fits(fx_div(mean as int, std as int)) && fits(ratio_of(mean as int, std as int)),
    ensures
        r.0 == ratio_of(mean as int, std as int),
{
    if std == 0 {
        return Fixed(0);
    }
    let ann = match sqrt_raw(25_200_000_000) {
        Some(a) => a,
        None => SCALE,
    };
    assert(ann as int == annualization());
    let q = div_raw(mean, std);
    let p: i128 = q as i128 * ann as i128;
    assert(-0x4000_0000_0000_0000_0000_0000_0000_0000 <= p <= 0x4000_0000_0000_0000_0000_0000_0000_0000) by (nonlinear_arith)
        requires
            p == (q as int) * (ann as int),
            -0x8000_0000_0000_0000 <= q <= 0x7fff_ffff_ffff_ffff,
            -0x8000_0000_0000_0000 <= ann <= 0x7fff_ffff_ffff_ffff,
    ;
    let t = tdiv_i128(p, SCALE as i128);
    Fixed(t as i64)
}

fn spread_ratio(equity: &[Money], to_zero: bool) -> (r: Fixed)
    requires
        returns_fit(equity@),
        spread_fits(equity@, to_zero),
    ensures
        r.0 == (if to_zero {
            sortino_of(equity@)
        } else {
            sharpe_of(equity@)
        }),
{
    let rets = period_returns(equity);
    if rets.len() == 0 {
        return Fixed(0);
    }
    let xs = raws_of(rets.as_slice());
    let ghost v = xs@.map_values(|x: i64| x as int);
    assert(v == returns_of(equity@));
    let (mean, sq) = mean_and_sq_dev(&xs, to_zero);
    let n = xs.len() as i128;
    let var = tdiv_i128(sq, n * 100_000_000);
    let std = match sqrt_raw(var as i64) {
        Some(x) => x,
        None => 0,
    };
    assert(std as int == sqrt_or_zero(var as int));
    ratio_exec(mean, std)
}

/// Sharpe ratio of the curve's returns, annualized by `sqrt(252)`; zero
/// without returns or spread.
pub fn sharpe_ratio(equity: &[Money]) -> (r: Fixed)
    requires
        returns_fit(equity@),
        spread_fits(equity@, false),
    ensures
        r.0 == sharpe_of(equity@),
{
    spread_ratio(equity, false)
}

/// Sortino ratio: like Sharpe, with the spread of the downside only.
pub fn sortino_ratio(equity: &[Money]) -> (r: Fixed)
    requires
        returns_fit(equity@),
        spread_fits(equity@, true),
    ensures
        r.0 == sortino_of(equity@),
{
    spread_ratio(equity, true)
}


/// Number of winning results.
pub open spec fn wins_of(s: Seq<Money>) -> int
    decreases s.len(),
{
    if s.len() == 0 {
        0
    } else {
        wins_of(s.drop_last()) + if s.last().0 > 0 {
            1int
        } else {
            0
        }
    }
}

/// Number of losing results.
pub open spec fn losses_of(s: Seq<Money>) -> int
    decreases s.len(),
{
    if s.len() == 0 {
        0
    } else {
        losses_of(s.drop_last()) + if s.last().0 < 0 {
            1int
        } else {
            0
        }
    }
}

/// Number of runs of wins and non-wins.
pub open spec fn streaks_of(s: Seq<Money>) -> int
    decreases s.len(),
{
    if s.len() == 0 {
        0
    } else if s.len() == 1 {
        1
    } else {
        streaks_of(s.drop_last()) + if (s.last().0 > 0) != (s[s.len() - 2].0 > 0) {
            1int
        } else {
            0
        }
    }
}

/// Runs-test z-score of the win/loss sequence (zero below ten trades or
/// when all or none win).
pub open spec fn z_of(s: Seq<Money>) -> int {
    let n = s.len() as int;
    let w = wins_of(s);
    if n < 10 || w == 0 || w == n {
        0
    } else {
        let e = tdiv(2 * w * (n - w) * SCALE, n) + SCALE;
        let v = tdiv(2 * w * (n - w) * (2 * n - 3) * SCALE, n * n * (n - 1));
        let sd = sqrt_or_zero(v);
        if sd == 0 {
            0
        } else {
            fx_div(streaks_of(s) * SCALE - e, sd)
        }
    }
}

proof fn lemma_counts(s: Seq<Money>)
    ensures
        0 <= wins_of(s) <= s.len(),
        0 <= losses_of(s) <= s.len(),
        wins_of(s) + losses_of(s) <= s.len(),
        0 <= streaks_of(s) <= s.len(),
    decreases s.len(),
{
    if s.len() > 0 {
        lemma_counts(s.drop_last());
    }
}

/// Runs-test z-score of the results.
pub fn z_score(trades: &[Money]) -> (r: Fixed)
    requires
        trades@.len() <= u32::MAX,
        fits(z_of(trades@)),
    ensures
        r.0 == z_of(trades@),
{
    let n = trades.len();
    if n < 10 {
        return Fixed(0);
    }
    let mut wins: u64 = 0;
    let mut streaks: u64 = 0;
    let mut i: usize = 0;
    assert(trades@.take(0) =~= Seq::<Money>::empty());
    while i < n
        invariant
            n == trades@.len(),
            n <= u32::MAX,
            i <= n,
            wins as int == wins_of(trades@.take(i as int)),
            streaks as int == streaks_of(trades@.take(i as int)),
            wins <= i,
            streaks <= i,
        decreases n - i,
    {
        proof {
            let t = trades@.take(i + 1);
            assert(t.drop_last() =~= trades@.take(i as int));
            assert(t.last() == trades@[i as int]);
            if i >= 1 {
                assert(t[t.len() - 2] == trades@[i - 1]);
            }
        }
        let win = trades[i].0 > 0;
        if win {
            wins = wins + 1;
        }
        if i == 0 || win != (trades[i - 1].0 > 0) {
            streaks = streaks + 1;
        }
        i = i + 1;
    }
    assert(trades@.take(n as int) =~= trades@);
    if wins == 0 || wins == n as u64 {
        return Fixed(0);
    }
    let w = wins as i128;
    let nn = n as i128;
    assert(0 < w < nn <= 0xffff_ffff);
    assert(0 <= 2 * w * (nn - w) <= 0x2_0000_0000 * 0x1_0000_0000) by (nonlinear_arith)
        requires
            0 < w < nn <= 0xffff_ffff,
    ;
    let a: i128 = 2 * w * (nn - w);
    let e = tdiv_i128(a * 100_000_000, nn) + 100_000_000;
    assert(0 <= a * (2 * nn - 3) * 100_000_000 <= 0x2_0000_0000_0000_0000 * 0x2_0000_0000 * 0x1000_0000) by (nonlinear_arith)
        requires
            0 <= a <= 0x2_0000_0000 * 0x1_0000_0000,
            10 <= nn <= 0xffff_ffff,
    ;
    assert(1 <= nn * nn <= 0x1_0000_0000 * 0x1_0000_0000) by (nonlinear_arith)
        requires
            10 <= nn <= 0xffff_ffff,
    ;
    assert(1 <= nn * nn * (nn - 1) <= 0x1_0000_0000 * 0x1_0000_0000 * 0x1_0000_0000) by (nonlinear_arith)
        requires
            10 <= nn <= 0xffff_ffff,
    ;
    let v = tdiv_i128(a * (2 * nn - 3) * 100_000_000, nn * nn * (nn - 1));
    assert(0 <= e <= a * 100_000_000 + 100_000_000) by (nonlinear_arith)
        requires
            e as int == (a as int * 100_000_000) / (nn as int) + 100_000_000,
            a >= 0,
            nn >= 1,
    ;
    assert(0 <= v <= a * (2 * nn - 3) * 100_000_000) by (nonlinear_arith)
        requires
            v as int == (a as int * (2 * nn as int - 3) * 100_000_000) / (nn as int * nn as int * (nn as int - 1)),
            a >= 0,
            nn * nn * (nn - 1) >= 1,
            2 * nn - 3 >= 0,
    ;
    if v > i64::MAX as i128 {
        assert(sqrt_or_zero(v as int) == 0);
        return Fixed(0);
    }
    let sd = match sqrt_raw(v as i64) {
        Some(x) => x,
        None => 0,
    };
    assert(sd as int == sqrt_or_zero(v as int));
    if sd == 0 {
        return Fixed(0);
    }
    let num: i128 = streaks as i128 * 100_000_000 - e;
    assert(-0x8000_0000_0000_0000_0000_0000_0000 <= num <= 0x8000_0000_0000_0000_0000_0000_0000);
    let q: i128 = if sd > 0 {
        tdiv_i128(num * 100_000_000, sd as i128)
    } else {
        tdiv_i128(-(num * 100_000_000), -(sd as i128))
    };
    Fixed(q as i64)
}


/// Largest winning result (zero without wins).
pub open spec fn largest_win_of(s: Seq<Money>) -> int
    decreases s.len(),
{
    if s.len() == 0 {
        0
    } else {
        let prev = largest_win_of(s.drop_last());
        if s.last().0 > prev {
            s.last().0 as int
        } else {
            prev
        }
    }
}

/// Largest loss, as a positive amount (zero without losses).
pub open spec fn largest_loss_of(s: Seq<Money>) -> int
    decreases s.len(),
{
    if s.len() == 0 {
        0
    } else {
        let prev = largest_loss_of(s.drop_last());
        if -(s.last().0 as int) > prev {
            -(s.last().0 as int)
        } else {
            prev
        }
    }
}

/// Profit factor of the trade statistics: capped at 100 when there are
/// profits and no loss.
pub open spec fn stats_profit_factor(s: Seq<Money>) -> int {
    let gp = gross_profit(s);
    let gl = gross_loss(s);
    if gl == 0 {
        if gp == 0 {
            0
        } else {
            100 * SCALE
        }
    } else {
        fx_div(gp, gl)
    }
}

/// Aggregated risk metrics.
#[derive(Debug, Clone, Copy)]
pub struct RiskMetrics {
    pub sharpe: Fixed,
    pub sortino: Fixed,
    pub calmar: Fixed,
    pub profit_factor: Fixed,
    pub max_drawdown: Fixed,
    pub max_drawdown_pct: Fixed,
    pub expectancy: Fixed,
    pub win_rate: Fixed,
    pub total_trades: usize,
    pub winning_trades: usize,
    pub losing_trades: usize,
    pub avg_win: Fixed,
    pub avg_loss: Fixed,
    pub largest_win: Fixed,
    pub largest_loss: Fixed,
    pub avg_holding_time_minutes: Fixed,
    pub z_score: Fixed,
    pub recovery_factor: Fixed,
}

/// Every metric of an equity curve and trade results fits its range.
pub open spec fn metrics_fit(equity: Seq<Money>, trades: Seq<Money>) -> bool {
    &&& returns_fit(equity)
    &&& spread_fits(equity, false)
    &&& spread_fits(equity, true)
    &&& fits(dd_scan(equity).1)
    &&& calmar_fits(equity)
    &&& (equity.len() >= 2 ==> fits(equity.last().0 - equity[0].0) && (dd_scan(equity).1 != 0 ==> fits(
        recovery_factor_of(equity),
    )))
    &&& fits(gross_profit(trades))
    &&& fits(gross_loss(trades))
    &&& fits(stats_profit_factor(trades))
    &&& trades.len() <= u32::MAX
    &&& fits(z_of(trades))
}

/// The trade statistics: profit factor, counts, average and largest win
/// and loss, expectancy, win rate and z-score.
pub open spec fn stats_match(m: RiskMetrics, s: Seq<Money>) -> bool {
    if s.len() == 0 {
        &&& m.profit_factor.0 == 0 && m.total_trades == 0 && m.winning_trades == 0 && m.losing_trades == 0
        &&& m.avg_win.0 == 0 && m.avg_loss.0 == 0 && m.largest_win.0 == 0 && m.largest_loss.0 == 0
        &&& m.expectancy.0 == 0 && m.win_rate.0 == 0 && m.z_score.0 == 0
    } else {
        let w = wins_of(s);
        let l = losses_of(s);
        &&& m.profit_factor.0 == stats_profit_factor(s)
        &&& m.total_trades == s.len() && m.winning_trades == w && m.losing_trades == l
        &&& m.avg_win.0 == (if w == 0 {
            0
        } else {
            tdiv(gross_profit(s), w)
        })
        &&& m.avg_loss.0 == (if l == 0 {
            0
        } else {
            tdiv(gross_loss(s), l)
        })
        &&& m.largest_win.0 == largest_win_of(s)
        &&& m.largest_loss.0 == largest_loss_of(s)
        &&& m.expectancy.0 == expectancy_of(s)
        &&& m.win_rate.0 == tdiv(w * SCALE, s.len() as int)
        &&& m.z_score.0 == z_of(s)
    }
}

proof fn lemma_extremes(s: Seq<Money>)
    ensures
        0 <= largest_win_of(s) <= i64::MAX,
        0 <= largest_loss_of(s) <= 0x8000_0000_0000_0000,
        largest_win_of(s) <= gross_profit(s),
        largest_loss_of(s) <= gross_loss(s),
    decreases s.len(),
{
    if s.len() > 0 {
        lemma_extremes(s.drop_last());
        lemma_sums(s.drop_last());
    }
}

impl RiskMetrics {
    /// The full risk profile of an equity curve and per-trade results.
    pub fn compute(equity_curve: &[Money], trades_pnl: &[Money]) -> (r: RiskMetrics)
        requires
            metrics_fit(equity_curve@, trades_pnl@),
        ensures
            r.sharpe.0 == sharpe_of(equity_curve@),
            r.sortino.0 == sortino_of(equity_curve@),
            r.calmar.0 == calmar_of(equity_curve@),
            r.max_drawdown.0 == dd_scan(equity_curve@).1,
            r.max_drawdown_pct.0 == dd_pct_scan(equity_curve@).1,
            r.recovery_factor.0 == recovery_factor_of(equity_curve@),
            r.avg_holding_time_minutes.0 == 0,
            stats_match(r, trades_pnl@),
    {
        let sharpe = sharpe_ratio(equity_curve);
        let sortino = sortino_ratio(equity_curve);
        let max_dd = max_drawdown(equity_curve);
        let max_dd_pct = max_drawdown_pct(equity_curve);
        let calmar = calmar_ratio(equity_curve);
        let recovery = recovery_factor(equity_curve);
        let mut m = RiskMetrics {
            sharpe,
            sortino,
            calmar,
            profit_factor: Fixed(0),
            max_drawdown: max_dd,
            max_drawdown_pct: max_dd_pct,
            expectancy: Fixed(0),
            win_rate: Fixed(0),
            total_trades: 0,
            winning_trades: 0,
            losing_trades: 0,
            avg_win: Fixed(0),
            avg_loss: Fixed(0),
            largest_win: Fixed(0),
            largest_loss: Fixed(0),
            avg_holding_time_minutes: Fixed(0),
            z_score: Fixed(0),
            recovery_factor: recovery,
        };
        if trades_pnl.len() == 0 {
            return m;
        }
        let n = trades_pnl.len();
        let mut wins: usize = 0;
        let mut losses: usize = 0;
        let mut lw: i64 = 0;
        let mut ll: i128 = 0;
        let mut i: usize = 0;
        assert(trades_pnl@.take(0) =~= Seq::<Money>::empty());
        while i < n
            invariant
                n == trades_pnl@.len(),
                i <= n,
                wins as int == wins_of(trades_pnl@.take(i as int)),
                losses as int == losses_of(trades_pnl@.take(i as int)),
                lw as int == largest_win_of(trades_pnl@.take(i as int)),
                ll as int == largest_loss_of(trades_pnl@.take(i as int)),
                wins <= i,
                losses <= i,
            decreases n - i,
        {
            proof {
                let t = trades_pnl@.take(i + 1);
                assert(t.drop_last() =~= trades_pnl@.take(i as int));
                assert(t.last() == trades_pnl@[i as int]);
            }
            let v = trades_pnl[i].0;
            if v > 0 {
                wins = wins + 1;
            }
            if v < 0 {
                losses = losses + 1;
            }
            if v > lw {
                lw = v;
            }
            if -(v as i128) > ll {
                ll = -(v as i128);
            }
            i = i + 1;
        }
        assert(trades_pnl@.take(n as int) =~= trades_pnl@);
        let (gp, gl) = gross_sums(trades_pnl);
        proof {
            lemma_extremes(trades_pnl@);
            lemma_counts(trades_pnl@);
        }
        let pf = if gl == 0 {
            if gp == 0 {
                Fixed(0)
            } else {
                Fixed(100 * SCALE)
            }
        } else {
            Fixed(div_raw(gp as i64, gl as i64))
        };
        let avg_w = if wins == 0 {
            Fixed(0)
        } else {
            Fixed(tdiv_i128(gp, wins as i128) as i64)
        };
        let avg_l = if losses == 0 {
            Fixed(0)
        } else {
            Fixed(tdiv_i128(gl, losses as i128) as i64)
        };
        assert(0 <= (wins as int) * 100_000_000 <= 0xffff_ffff * 100_000_000) by (nonlinear_arith)
            requires
                wins <= 0xffff_ffff,
        ;
        let win_rate = tdiv_i128(wins as i128 * 100_000_000, n as i128);
        assert(0 <= win_rate <= 100_000_000) by (nonlinear_arith)
            requires
                win_rate as int == (wins as int * 100_000_000) / (n as int),
                wins <= n,
                n >= 1,
        ;
        m.profit_factor = pf;
        m.total_trades = n;
        m.winning_trades = wins;
        m.losing_trades = losses;
        m.avg_win = avg_w;
        m.avg_loss = avg_l;
        m.largest_win = Fixed(lw);
        m.largest_loss = Fixed(ll as i64);
        m.expectancy = expectancy(trades_pnl);
        m.win_rate = Fixed(win_rate as i64);
        m.z_score = z_score(trades_pnl);
        m
    }
}


/// The mantissa and scale of `e^x` as `rust_decimal`'s `exp` computes it
/// for the raw value `x` (read as `x * 10^-8`).
pub uninterp spec fn decimal_exp_parts(x: i64) -> (i128, u32);

/// `e^x` with `rust_decimal::MathematicalOps::exp` of the raw value `x`,
/// as the result's mantissa and scale, named by [`decimal_exp_parts`]
/// (those of a `Decimal`). Only small non-positive arguments are admitted
/// (the call panics on underflow and overflow).
#[verifier::external_body]
fn exp_parts(x: i64) -> (r: (i128, u32))
    requires
        -1_000_000_000 <= x <= 0,
    ensures
        r == decimal_exp_parts(x),
        decimal_parts_ok(r.0, r.1),
{
    let d = rust_decimal::Decimal::new(x, 8).exp();
    (d.mantissa(), d.scale())
}

/// `e^x` in raw units (truncated to eight decimals), `None` when out of
/// range.
pub open spec fn exp_raw_of(x: i64) -> Option<i64> {
    raw_of_parts(decimal_exp_parts(x).0, decimal_exp_parts(x).1)
}

/// `e^x` in raw units, zero when out of range.
pub open spec fn exp_or_zero(x: i64) -> int {
    match exp_raw_of(x) {
        Some(v) => v as int,
        None => 0,
    }
}

/// `e^x` of a raw value in raw units; see [`exp_raw_of`].
pub(crate) fn exp_raw(x: i64) -> (r: Option<i64>)
    requires
        -1_000_000_000 <= x <= 0,
    ensures
        r == exp_raw_of(x),
{
    let (m, scale) = exp_parts(x);
    raw_from_parts(m, scale)
}

/// `rust_decimal::Decimal::PI` truncated to eight decimals.
pub const PI_RAW: i64 = 314_159_265;

/// Normal quantile used for a confidence level: 1.645 at 95%, 2.326 at
/// 99% (each within 0.001), linear between them, 2 elsewhere.
pub open spec fn z_for(c: int) -> int {
    if -100_000 < c - 95_000_000 < 100_000 {
        164_500_000
    } else if -100_000 < c - 99_000_000 < 100_000 {
        232_600_000
    } else if 95_000_000 <= c <= 99_000_000 {
        164_500_000 + fx_mul_spec(fx_div(c - 95_000_000, 4_000_000), 68_100_000)
    } else {
        200_000_000
    }
}

/// Raw product `a * b / SCALE`, truncated toward zero.
pub open spec fn fx_mul_spec(a: int, b: int) -> int {
    tdiv(a * b, SCALE as int)
}

/// Square root of the horizon in days (zero for a zero horizon).
pub open spec fn horizon_scale(h: u32) -> int {
    if h == 0 {
        0
    } else {
        sqrt_or((h * 100_000_000) as i64, 100_000_000)
    }
}

/// Parametric (Gaussian) value at risk of the returns, as an absolute
/// amount: `|mean * √h + z * std * √h|`, zero without returns or spread.
pub open spec fn var_of(rets: Seq<int>, c: int, h: u32) -> int {
    if rets.len() == 0 {
        0
    } else {
        let std = sqrt_or_zero(variance_of(rets));
        if std == 0 {
            0
        } else {
            let hs = horizon_scale(h);
            let v = fx_mul_spec(mean_of(rets), hs) + fx_mul_spec(fx_mul_spec(z_for(c), std), hs);
            if v < 0 {
                -v
            } else {
                v
            }
        }
    }
}

/// The intermediate values of the value at risk fit their ranges.
pub open spec fn var_fits(rets: Seq<int>, c: int, h: u32) -> bool {
    rets.len() > 0 ==> {
        let std = sqrt_or_zero(variance_of(rets));
        let hs = horizon_scale(h);
        &&& sq_dev(rets, mean_of(rets)) <= i128::MAX
        &&& fits(variance_of(rets))
        &&& fits(rets.len() * SCALE)
        &&& -1_000_000_000 <= c <= 1_000_000_000
        &&& fits(fx_mul_spec(mean_of(rets), hs))
        &&& fits(fx_mul_spec(z_for(c), std))
        &&& fits(fx_mul_spec(fx_mul_spec(z_for(c), std), hs))
        &&& fits(var_of(rets, c, h))
        &&& fits(fx_mul_spec(mean_of(rets), hs) + fx_mul_spec(fx_mul_spec(z_for(c), std), hs))
    }
}

fn mul_fx(a: i64, b: i64) -> (r: i64)
    requires
        fits(fx_mul_spec(a as int, b as int)),
    ensures
        r as int == fx_mul_spec(a as int, b as int),
{
    crate::fixed::mul_raw(a, b)
}

fn z_exec(c: i64) -> (r: i64)
    requires
        -1_000_000_000 <= c <= 1_000_000_000,
    ensures
        r as int == z_for(c as int),
{
    let d95 = c - 95_000_000;
    let d99 = c - 99_000_000;
    if -100_000 < d95 && d95 < 100_000 {
        164_500_000
    } else if -100_000 < d99 && d99 < 100_000 {
        232_600_000
    } else if 95_000_000 <= c && c <= 99_000_000 {
        let t = div_raw(c - 95_000_000, 4_000_000);
        assert(0 <= t <= 100_000_000);
        assert(0 <= t * 68_100_000 <= 100_000_000 * 68_100_000) by (nonlinear_arith)
            requires
                0 <= t <= 100_000_000,
        ;
        164_500_000 + mul_fx(t, 68_100_000)
    } else {
        200_000_000
    }
}

fn horizon_exec(h: u32) -> (r: i64)
    ensures
        r as int == horizon_scale(h),
{
    if h == 0 {
        0
    } else {
        match sqrt_raw(h as i64 * 100_000_000) {
            Some(x) => x,
            None => 100_000_000,
        }
    }
}

/// Mean and standard deviation of raw returns (spec values).
fn mean_std(rets: &[Fixed]) -> (r: (i64, i64))
    requires
        rets@.len() > 0,
        sq_dev(rets@.map_values(|f: Fixed| f.0 as int), mean_of(rets@.map_values(|f: Fixed| f.0 as int)))
            <= i128::MAX,
        fits(variance_of(rets@.map_values(|f: Fixed| f.0 as int))),
        fits(rets@.len() * SCALE),
    ensures
        r.0 as int == mean_of(rets@.map_values(|f: Fixed| f.0 as int)),
        r.1 as int == sqrt_or_zero(variance_of(rets@.map_values(|f: Fixed| f.0 as int))),
{
    let xs = raws_of(rets);
    assert(xs@.map_values(|x: i64| x as int) == rets@.map_values(|f: Fixed| f.0 as int));
    let (mean, sq) = mean_and_sq_dev(&xs, false);
    let n = xs.len() as i128;
    let var = tdiv_i128(sq, n * 100_000_000);
    let std = match sqrt_raw(var as i64) {
        Some(x) => x,
        None => 0,
    };
    (mean, std)
}

/// Parametric value at risk of daily returns at a confidence level over
/// a horizon in days.
pub fn parametric_var(daily: &[Fixed], confidence: Fixed, horizon_days: u32) -> (r: Money)
    requires
        var_fits(daily@.map_values(|f: Fixed| f.0 as int), confidence.0 as int, horizon_days),
    ensures
        r.0 == var_of(daily@.map_values(|f: Fixed| f.0 as int), confidence.0 as int, horizon_days),
{
    if daily.len() == 0 {
        return Money(0);
    }
    let (mean, std) = mean_std(daily);
    if std == 0 {
        return Money(0);
    }
    let z = z_exec(confidence.0);
    let hs = horizon_exec(horizon_days);
    let v = mul_fx(mean, hs) + mul_fx(mul_fx(z, std), hs);
    Money(if v < 0 {
        -v
    } else {
        v
    })
}

/// Quantile used by the expected shortfall: 1.645 at 95%, 2.326 at 99%
/// (each within 0.001), 2 otherwise.
pub open spec fn es_z_for(c: int) -> int {
    if -100_000 < c - 95_000_000 < 100_000 {
        164_500_000
    } else if -100_000 < c - 99_000_000 < 100_000 {
        232_600_000
    } else {
        200_000_000
    }
}

/// Gaussian density at `z`: `e^(-z²/2) / √(2π)` (raw).
pub open spec fn pdf_at(z: int) -> int {
    fx_div(
        exp_or_zero(fx_mul_spec(fx_mul_spec(-50_000_000, z), z) as i64),
        sqrt_or(628_318_530i64, 100_000_000),
    )
}

/// Expected shortfall (Gaussian) as an absolute amount:
/// `|mean * √h + std * √h * pdf(z) / (1 - c)|`, zero without returns or
/// spread.
pub open spec fn es_of(rets: Seq<int>, c: int, h: u32) -> int {
    if rets.len() == 0 {
        0
    } else {
        let std = sqrt_or_zero(variance_of(rets));
        if std == 0 {
            0
        } else {
            let hs = horizon_scale(h);
            let v = fx_mul_spec(mean_of(rets), hs) + fx_div(
                fx_mul_spec(fx_mul_spec(std, hs), pdf_at(es_z_for(c))),
                SCALE - c,
            );
            if v < 0 {
                -v
            } else {
                v
            }
        }
    }
}

/// The intermediate values of the expected shortfall fit their ranges.
pub open spec fn es_fits(rets: Seq<int>, c: int, h: u32) -> bool {
    rets.len() > 0 ==> {
        let std = sqrt_or_zero(variance_of(rets));
        let hs = horizon_scale(h);
        let a = fx_mul_spec(fx_mul_spec(std, hs), pdf_at(es_z_for(c)));
        &&& sq_dev(rets, mean_of(rets)) <= i128::MAX
        &&& fits(variance_of(rets))
        &&& fits(rets.len() * SCALE)
        &&& fits(SCALE - c)
        &&& sqrt_or(628_318_530i64, 100_000_000) != 0
        &&& fits(pdf_at(es_z_for(c)))
        &&& fits(fx_mul_spec(mean_of(rets), hs))
        &&& fits(fx_mul_spec(std, hs))
        &&& fits(a)
        &&& fits(fx_div(a, SCALE - c))
        &&& fits(fx_mul_spec(mean_of(rets), hs) + fx_div(a, SCALE - c))
        &&& fits(es_of(rets, c, h))
    }
}

/// Expected shortfall (Gaussian) of daily returns at a confidence level
/// over a horizon in days. A confidence of exactly 1 is a division by
/// zero and is not admitted.
pub fn expected_shortfall(daily: &[Fixed], confidence: Fixed, horizon_days: u32) -> (r: Money)
    requires
        confidence.0 != SCALE,
        es_fits(daily@.map_values(|f: Fixed| f.0 as int), confidence.0 as int, horizon_days),
    ensures
        r.0 == es_of(daily@.map_values(|f: Fixed| f.0 as int), confidence.0 as int, horizon_days),
{
    if daily.len() == 0 {
        return Money(0);
    }
    let (mean, std) = mean_std(daily);
    if std == 0 {
        return Money(0);
    }
    let c = confidence.0;
    let d95 = c as i128 - 95_000_000;
    let d99 = c as i128 - 99_000_000;
    let z: i64 = if -100_000 < d95 && d95 < 100_000 {
        164_500_000
    } else if -100_000 < d99 && d99 < 100_000 {
        232_600_000
    } else {
        200_000_000
    };
    let hs = horizon_exec(horizon_days);
    let e = match exp_raw(mul_fx(mul_fx(-50_000_000, z), z)) {
        Some(v) => v,
        None => 0,
    };
    let root = match sqrt_raw(2 * PI_RAW) {
        Some(x) => x,
        None => 100_000_000,
    };
    assert(root as int == sqrt_or(628_318_530i64, 100_000_000));
    let pdf = div_raw(e, root);
    let a = mul_fx(mul_fx(std, hs), pdf);
    let v = mul_fx(mean, hs) + div_raw(a, SCALE - c);
    Money(if v < 0 {
        -v
    } else {
        v
    })
}


/// The quote held for `symbol` (the first entry with that key).
pub open spec fn quote_for(quotes: Seq<(String, Quote)>, symbol: Seq<char>) -> Option<Quote>
    decreases quotes.len(),
{
    if quotes.len() == 0 {
        None
    } else if quotes[0].0@ == symbol {
        Some(quotes[0].1)
    } else {
        quote_for(quotes.drop_first(), symbol)
    }
}

/// Mid price of a quote (truncated toward zero).
pub open spec fn mid_of(q: Quote) -> int {
    tdiv(q.bid.0 + q.ask.0, 2)
}

/// Running exposure over positions: gross, net, long and short counts
/// and volumes, net volume.
pub open spec fn exposure_scan(ps: Seq<Position>, quotes: Seq<(String, Quote)>) -> (int, int, int, int, int, int, int)
    decreases ps.len(),
{
    if ps.len() == 0 {
        (0, 0, 0, 0, 0, 0, 0)
    } else {
        let e = exposure_scan(ps.drop_last(), quotes);
        let p = ps.last();
        if !position_open(p) || quote_for(quotes, p.symbol.0@) is None {
            e
        } else {
            let notional = fx_mul_spec(mid_of(quote_for(quotes, p.symbol.0@)->0), p.open_quantity.0 as int);
            let q = p.open_quantity.0 as int;
            if p.side == PositionSide::Long {
                (e.0 + notional, e.1 + notional, e.2 + 1, e.3, e.4 + q, e.5, e.6 + q)
            } else {
                (e.0 + notional, e.1 - notional, e.2, e.3 + 1, e.4, e.5 + q, e.6 - q)
            }
        }
    }
}

/// Every running total of the exposure, every position's notional and
/// every per-symbol total fits its range.
pub open spec fn exposure_fits(ps: Seq<Position>, quotes: Seq<(String, Quote)>) -> bool {
    &&& forall|k: int|
        0 <= k <= ps.len() ==> {
            let e = #[trigger] exposure_scan(ps.take(k), quotes);
            fits(e.0) && fits(e.1) && e.2 <= u32::MAX && e.3 <= u32::MAX && fits(e.4) && fits(e.5) && fits(
                e.6,
            )
        }
    &&& forall|k: int|
        0 <= k < ps.len() && quote_for(quotes, #[trigger] ps[k].symbol.0@) is Some ==> fits(
            fx_mul_spec(mid_of(quote_for(quotes, ps[k].symbol.0@)->0), ps[k].open_quantity.0 as int),
        )
    &&& forall|k: int, key: Seq<char>|
        0 <= k <= ps.len() && #[trigger] concentration_of(ps.take(k), quotes).contains_key(key) ==> fits(
            concentration_of(ps.take(k), quotes)[key],
        )
}

/// Notional by symbol, in the order the symbols first appear.
pub open spec fn concentration_of(ps: Seq<Position>, quotes: Seq<(String, Quote)>) -> Map<Seq<char>, int>
    decreases ps.len(),
{
    if ps.len() == 0 {
        Map::empty()
    } else {
        let m = concentration_of(ps.drop_last(), quotes);
        let p = ps.last();
        if !position_open(p) || quote_for(quotes, p.symbol.0@) is None {
            m
        } else {
            let notional = fx_mul_spec(mid_of(quote_for(quotes, p.symbol.0@)->0), p.open_quantity.0 as int);
            let prev = if m.contains_key(p.symbol.0@) {
                m[p.symbol.0@]
            } else {
                0
            };
            m.insert(p.symbol.0@, prev + notional)
        }
    }
}

/// Exposure of a portfolio of open positions.
#[derive(Debug)]
pub struct Exposure {
    pub gross: Money,
    pub net: Money,
    pub long_count: u32,
    pub short_count: u32,
    pub long_volume: Fixed,
    pub short_volume: Fixed,
    pub net_volume: Fixed,
    /// Notional per symbol, in the order the symbols first appear.
    pub symbol_concentration: Vec<(String, Fixed)>,
}

/// The concentration list as a map from symbol to notional.
pub open spec fn concentration_map(c: Seq<(String, Fixed)>) -> Map<Seq<char>, int>
    decreases c.len(),
{
    if c.len() == 0 {
        Map::empty()
    } else {
        concentration_map(c.drop_last()).insert(c.last().0@, c.last().1.0 as int)
    }
}

/// No symbol appears twice in the list.
pub open spec fn symbols_distinct(c: Seq<(String, Fixed)>) -> bool {
    forall|i: int, j: int| 0 <= i < j < c.len() ==> #[trigger] c[i].0@ != #[trigger] c[j].0@
}

fn find_quote(quotes: &Vec<(String, Quote)>, symbol: &str) -> (r: Option<Quote>)
    ensures
        r == quote_for(quotes@, symbol@),
{
    let mut i: usize = 0;
    assert(quotes@.skip(0) =~= quotes@);
    while i < quotes.len()
        invariant
            i <= quotes@.len(),
            quote_for(quotes@, symbol@) == quote_for(quotes@.skip(i as int), symbol@),
        decreases quotes@.len() - i,
    {
        assert(quotes@.skip(i as int)[0] == quotes@[i as int]);
        assert(quotes@.skip(i as int).drop_first() =~= quotes@.skip(i + 1));
        if crate::text::text_eq(quotes[i].0.as_str(), symbol) {
            return Some(quotes[i].1);
        }
        i = i + 1;
    }
    assert(quotes@.skip(i as int).len() == 0);
    None
}

proof fn lemma_concentration_update(c: Seq<(String, Fixed)>, k: int, v: Fixed)
    requires
        symbols_distinct(c),
        0 <= k < c.len(),
    ensures
        concentration_map(c.update(k, (c[k].0, v))) == concentration_map(c).insert(c[k].0@, v.0 as int),
    decreases c.len(),
{
    let c2 = c.update(k, (c[k].0, v));
    if k == c.len() - 1 {
        assert(c2.drop_last() =~= c.drop_last());
        assert(concentration_map(c2) =~= concentration_map(c).insert(c[k].0@, v.0 as int));
    } else {
        lemma_concentration_update(c.drop_last(), k, v);
        assert(c2.drop_last() =~= c.drop_last().update(k, (c[k].0, v)));
        assert(c[k].0@ != c.last().0@);
        assert(concentration_map(c2) =~= concentration_map(c).insert(c[k].0@, v.0 as int));
    }
}

proof fn lemma_concentration_keys(c: Seq<(String, Fixed)>, key: Seq<char>)
    ensures
        concentration_map(c).contains_key(key) <==> exists|i: int| 0 <= i < c.len() && #[trigger] c[i].0@ == key,
        symbols_distinct(c) ==> forall|i: int| 0 <= i < c.len() && #[trigger] c[i].0@ == key ==> concentration_map(c)[key] == c[i].1.0 as int,
    decreases c.len(),
{
    if c.len() > 0 {
        lemma_concentration_keys(c.drop_last(), key);
        if exists|i: int| 0 <= i < c.len() && #[trigger] c[i].0@ == key {
            let i = choose|i: int| 0 <= i < c.len() && #[trigger] c[i].0@ == key;
            if i < c.len() - 1 {
                assert(c.drop_last()[i].0@ == key);
            }
        }
        if exists|i: int| 0 <= i < c.len() - 1 && #[trigger] c.drop_last()[i].0@ == key {
            let i = choose|i: int| 0 <= i < c.len() - 1 && #[trigger] c.drop_last()[i].0@ == key;
            assert(c[i].0@ == key);
        }
    }
}

impl Exposure {
    /// Exposure of the open positions that have a quote: gross and net
    /// notional at the mid price, counts and volumes by side, and the
    /// notional per symbol.
    pub fn compute(positions: &[Position], quotes: &Vec<(String, Quote)>) -> (r: Exposure)
        requires
            exposure_fits(positions@, quotes@),
        ensures
            ({
                let e = exposure_scan(positions@, quotes@);
                &&& r.gross.0 == e.0 && r.net.0 == e.1
                &&& r.long_count == e.2 && r.short_count == e.3
                &&& r.long_volume.0 == e.4 && r.short_volume.0 == e.5 && r.net_volume.0 == e.6
            }),
            symbols_distinct(r.symbol_concentration@),
            concentration_map(r.symbol_concentration@) == concentration_of(positions@, quotes@),
    {
        let mut gross: i64 = 0;
        let mut net: i64 = 0;
        let mut long_count: u32 = 0;
        let mut short_count: u32 = 0;
        let mut long_volume: i64 = 0;
        let mut short_volume: i64 = 0;
        let mut net_volume: i64 = 0;
        let mut conc: Vec<(String, Fixed)> = Vec::new();
        let mut i: usize = 0;
        assert(positions@.take(0) =~= Seq::<Position>::empty());
        assert(concentration_map(conc@) =~= Map::<Seq<char>, int>::empty());
        while i < positions.len()
            invariant
                i <= positions@.len(),
                exposure_fits(positions@, quotes@),
                exposure_scan(positions@.take(i as int), quotes@) == (
                    gross as int,
                    net as int,
                    long_count as int,
                    short_count as int,
                    long_volume as int,
                    short_volume as int,
                    net_volume as int,
                ),
                symbols_distinct(conc@),
                concentration_map(conc@) == concentration_of(positions@.take(i as int), quotes@),
            decreases positions@.len() - i,
        {
            let ghost t = positions@.take(i + 1);
            proof {
                assert(t.drop_last() =~= positions@.take(i as int));
                assert(t.last() == positions@[i as int]);
                assert(positions@.take(i + 1) == t);
            }
            let p = &positions[i];
            if p.is_open() {
                match find_quote(quotes, p.symbol.0.as_str()) {
                    Some(q) => {
                        proof {
                            assert(exposure_fits(positions@, quotes@));
                            assert(0 <= i + 1 <= positions@.len());
                            let e2 = exposure_scan(positions@.take(i + 1), quotes@);
                            assert(fits(e2.0) && fits(e2.1) && e2.2 <= u32::MAX && e2.3 <= u32::MAX && fits(e2.4)
                                && fits(e2.5) && fits(e2.6));
                        }
                        let mid = q.mid();
                        assert(mid.0 as int == mid_of(q));
                        proof {
                            assert(quote_for(quotes@, positions@[i as int].symbol.0@) is Some);
                            let c2 = concentration_of(positions@.take(i + 1), quotes@);
                            assert(c2.contains_key(p.symbol.0@));
                        }
                        let notional = mul_fx(mid.0, p.open_quantity.0);
                        gross = gross + notional;
                        if p.side == PositionSide::Long {
                            net = net + notional;
                            long_count = long_count + 1;
                            long_volume = long_volume + p.open_quantity.0;
                            net_volume = net_volume + p.open_quantity.0;
                        } else {
                            net = net - notional;
                            short_count = short_count + 1;
                            short_volume = short_volume + p.open_quantity.0;
                            net_volume = net_volume - p.open_quantity.0;
                        }
                        add_concentration(&mut conc, p.symbol.0.as_str(), notional);
                    },
                    None => {},
                }
            }
            i = i + 1;
        }
        assert(positions@.take(positions@.len() as int) =~= positions@);
        Exposure {
            gross: Money(gross),
            net: Money(net),
            long_count,
            short_count,
            long_volume: Fixed(long_volume),
            short_volume: Fixed(short_volume),
            net_volume: Fixed(net_volume),
            symbol_concentration: conc,
        }
    }

    /// The symbol with the largest share of the gross notional and its
    /// share (the last one on a tie); `None` with no gross notional.
    pub fn top_symbol(&self) -> (r: Option<(String, Fixed)>)
        requires
            self.gross.0 != 0 ==> forall|i: int|
                0 <= i < self.symbol_concentration@.len() ==> fits(
                    fx_div(#[trigger] self.symbol_concentration@[i].1.0 as int, self.gross.0 as int),
                ),
        ensures
            self.gross.0 == 0 || self.symbol_concentration@.len() == 0 <==> r is None,
            r matches Some(t) ==> exists|k: int|
                0 <= k < self.symbol_concentration@.len() && #[trigger] self.symbol_concentration@[k].0@ == t.0@
                    && t.1.0 == fx_div(self.symbol_concentration@[k].1.0 as int, self.gross.0 as int)
                    && forall|j: int|
                    0 <= j < self.symbol_concentration@.len() ==> fx_div(
                        #[trigger] self.symbol_concentration@[j].1.0 as int,
                        self.gross.0 as int,
                    ) <= t.1.0 && (j > k ==> fx_div(self.symbol_concentration@[j].1.0 as int, self.gross.0 as int)
                        < t.1.0),
    {
        if self.gross.0 == 0 || self.symbol_concentration.len() == 0 {
            return None;
        }
        let c = &self.symbol_concentration;
        let g = self.gross.0;
        let mut best: usize = 0;
        let mut best_share = div_raw(c[0].1.0, g);
        let mut i: usize = 1;
        while i < c.len()
            invariant
                1 <= i <= c@.len(),
                g == self.gross.0,
                g != 0,
                c@ == self.symbol_concentration@,
                best < i,
                best_share as int == fx_div(c@[best as int].1.0 as int, g as int),
                forall|j: int| 0 <= j < c@.len() ==> fits(fx_div(#[trigger] c@[j].1.0 as int, g as int)),
                forall|j: int| 0 <= j < i ==> fx_div(#[trigger] c@[j].1.0 as int, g as int) <= best_share,
                forall|j: int| best < j < i ==> fx_div(#[trigger] c@[j].1.0 as int, g as int) < best_share,
            decreases c@.len() - i,
        {
            let share = div_raw(c[i].1.0, g);
            if share >= best_share {
                best = i;
                best_share = share;
            }
            i = i + 1;
        }
        let r = (c[best].0.clone(), Fixed(best_share));
        assert(self.symbol_concentration@[best as int].0@ == r.0@);
        Some(r)
    }
}

fn add_concentration(conc: &mut Vec<(String, Fixed)>, symbol: &str, notional: i64)
    requires
        symbols_distinct(old(conc)@),
        fits((if concentration_map(old(conc)@).contains_key(symbol@) {
            concentration_map(old(conc)@)[symbol@]
        } else {
            0
        }) + notional),
    ensures
        symbols_distinct(final(conc)@),
        concentration_map(final(conc)@) == concentration_map(old(conc)@).insert(
            symbol@,
            (if concentration_map(old(conc)@).contains_key(symbol@) {
                concentration_map(old(conc)@)[symbol@]
            } else {
                0
            }) + notional,
        ),
{
    let mut k: usize = 0;
    while k < conc.len()
        invariant
            k <= conc@.len(),
            conc@ == old(conc)@,
            symbols_distinct(conc@),
            fits((if concentration_map(conc@).contains_key(symbol@) {
                concentration_map(conc@)[symbol@]
            } else {
                0
            }) + notional),
            forall|j: int| 0 <= j < k ==> #[trigger] conc@[j].0@ != symbol@,
        decreases conc@.len() - k,
    {
        if crate::text::text_eq(conc[k].0.as_str(), symbol) {
            proof {
                lemma_concentration_keys(conc@, symbol@);
                assert(conc@[k as int].0@ == symbol@);
                assert(concentration_map(conc@)[symbol@] == conc@[k as int].1.0 as int);
            }
            let (key, v) = conc.remove(k);
            let nv = Fixed(v.0 + notional);
            conc.insert(k, (key, nv));
            proof {
                assert(conc@ =~= old(conc)@.update(k as int, (old(conc)@[k as int].0, nv)));
                lemma_concentration_update(old(conc)@, k as int, nv);
                assert forall|i: int, j: int| 0 <= i < j < conc@.len() implies #[trigger] conc@[i].0@ != #[trigger] conc@[j].0@ by {
                    assert(old(conc)@[i].0@ != old(conc)@[j].0@);
                }
            }
            return;
        }
        k = k + 1;
    }
    proof {
        lemma_concentration_keys(conc@, symbol@);
    }
    let ghost before = conc@;
    conc.push((symbol.to_string(), Fixed(notional)));
    proof {
        assert(conc@.drop_last() =~= before);
        assert(!concentration_map(before).contains_key(symbol@));
    }
}

proof fn lemma_downside_last(r: Seq<int>)
    requires
        r.len() > 0,
    ensures
        downside(r).len() == r.len(),
        downside(r).drop_last() == downside(r.drop_last()),
        downside(r).last() == (if r.last() < 0 {
            r.last()
        } else {
            0
        }),
{
    assert(downside(r).drop_last() =~= downside(r.drop_last()));
}

/// The downside spread of the Sortino ratio counts only losing returns:
/// two return series of one length that agree wherever either of them
/// loses have the same downside spread, whatever their gains are; and
/// its sum of squares is at least the square of any one loss.
pub proof fn law_downside_spread_counts_losses(r1: Seq<int>, r2: Seq<int>)
    requires
        r1.len() == r2.len(),
        forall|i: int| 0 <= i < r1.len() && (r1[i] < 0 || r2[i] < 0) ==> r1[i] == r2[i],
    ensures
        sq_dev(downside(r1), 0) == sq_dev(downside(r2), 0),
        forall|i: int| 0 <= i < r1.len() && r1[i] < 0 ==> sq_dev(downside(r1), 0) >= #[trigger] r1[i] * r1[i],
    decreases r1.len(),
{
    if r1.len() > 0 {
        lemma_downside_last(r1);
        lemma_downside_last(r2);
        law_downside_spread_counts_losses(r1.drop_last(), r2.drop_last());
        let n = r1.len() - 1;
        assert(r1.last() == r1[n] && r2.last() == r2[n]);
        assert forall|i: int| 0 <= i < r1.len() && r1[i] < 0 implies sq_dev(downside(r1), 0) >= #[trigger] r1[i] * r1[i] by {
            lemma_sq_dev_monotone(downside(r1.drop_last()), 0);
            let d = downside(r1).last();
            assert((d - 0) * (d - 0) >= 0) by (nonlinear_arith);
            if i < n {
                assert(r1.drop_last()[i] == r1[i]);
            }
        }
    }
}

/// A curve whose returns never lose has no downside spread, so its
/// Sortino ratio is zero.
pub proof fn law_sortino_without_losses_is_zero(s: Seq<Money>)
    requires
        forall|i: int| 0 <= i < returns_of(s).len() ==> #[trigger] returns_of(s)[i] >= 0,
    ensures
        sortino_of(s) == 0,
{
    let r = returns_of(s);
    let z = Seq::new(r.len(), |i: int| 0int);
    law_downside_spread_counts_losses(r, z);
    assert(downside(z) =~= z);
    lemma_sq_dev_zeros(z);
}

proof fn lemma_sq_dev_zeros(z: Seq<int>)
    requires
        forall|i: int| 0 <= i < z.len() ==> #[trigger] z[i] == 0,
    ensures
        sq_dev(z, 0) == 0,
    decreases z.len(),
{
    if z.len() > 0 {
        lemma_sq_dev_zeros(z.drop_last());
        assert(z.last() == z[z.len() - 1]);
    }
}

} // verus!
