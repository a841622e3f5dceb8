//! Fixed-point decimal arithmetic.
//!
//! Every decimal quantity of the engine (money, prices, quantities, lots,
//! percentages) is held as a signed 64-bit integer counting units of
//! `10^-8` (`SCALE`). Addition and subtraction are exact; multiplication
//! and division keep eight decimal places and truncate toward zero.
//! An operation whose exact result does not fit the 64-bit range is
//! excluded by its `requires` (the caller must stay in range).
use vstd::prelude::*;

verus! {

/// Number of raw units per whole unit (eight decimal places).
pub const SCALE: i64 = 100_000_000;

/// The exact value fits the signed 64-bit raw range.
pub open spec fn fits(x: int) -> bool {
    i64::MIN <= x <= i64::MAX
}

/// Division of `n` by a positive `d`, truncating toward zero.
pub open spec fn tdiv(n: int, d: int) -> int {
    if n >= 0 {
        n / d
    } else {
        -((-n) / d)
    }
}

/// Division truncating toward zero for any non-zero divisor.
pub open spec fn tdiv_any(n: int, d: int) -> int {
    if d > 0 {
        tdiv(n, d)
    } else {
        tdiv(-n, -d)
    }
}

/// Raw result of multiplying two fixed-point raws.
pub open spec fn fx_mul(a: int, b: int) -> int {
    tdiv(a * b, SCALE as int)
}

/// Raw result of dividing two fixed-point raws (`b != 0`).
pub open spec fn fx_div(a: int, b: int) -> int {
    tdiv_any(a * SCALE, b)
}

/// Power of ten as an integer.
pub open spec fn pow10(n: nat) -> int
    decreases n,
{
    if n == 0 {
        1
    } else {
        10 * pow10((n - 1) as nat)
    }
}

proof fn lemma_mul_bound(a: i64, b: i64)
    ensures
        -0x4000_0000_0000_0000_0000_0000_0000_0000 <= (a as int) * (b as int)
            <= 0x4000_0000_0000_0000_0000_0000_0000_0000,
{
    assert(-0x8000_0000_0000_0000 <= a <= 0x7fff_ffff_ffff_ffff);
    assert(-0x8000_0000_0000_0000 <= b <= 0x7fff_ffff_ffff_ffff);
    assert((a as int) * (b as int) <= 0x4000_0000_0000_0000_0000_0000_0000_0000) by (nonlinear_arith)
        requires
            -0x8000_0000_0000_0000 <= a <= 0x7fff_ffff_ffff_ffff,
            -0x8000_0000_0000_0000 <= b <= 0x7fff_ffff_ffff_ffff,
    ;
    assert(-0x4000_0000_0000_0000_0000_0000_0000_0000 <= (a as int) * (b as int)) by (nonlinear_arith)
        requires
            -0x8000_0000_0000_0000 <= a <= 0x7fff_ffff_ffff_ffff,
            -0x8000_0000_0000_0000 <= b <= 0x7fff_ffff_ffff_ffff,
    ;
}

/// Truncating division of a 128-bit value by a positive divisor.
pub(crate) fn tdiv_i128(n: i128, d: i128) -> (r: i128)
    requires
        d > 0,
        n > i128::MIN,
    ensures
        r == tdiv(n as int, d as int),
{
    if n >= 0 {
        n / d
    } else {
        let m: i128 = -n;
        let q: i128 = m / d;
        -q
    }
}

/// Multiplies two raws: `a * b / SCALE`, truncated toward zero.
pub fn mul_raw(a: i64, b: i64) -> (r: i64)
    requires
        fits(fx_mul(a as int, b as int)),
    ensures
        r as int == fx_mul(a as int, b as int),
{
    proof {
        lemma_mul_bound(a, b);
    }
    let p: i128 = (a as i128) * (b as i128);
    let q: i128 = tdiv_i128(p, SCALE as i128);
    q as i64
}

/// Divides two raws: `a * SCALE / b`, truncated toward zero.
pub fn div_raw(a: i64, b: i64) -> (r: i64)
    requires
        b != 0,
        fits(fx_div(a as int, b as int)),
    ensures
        r as int == fx_div(a as int, b as int),
{
    let n: i128 = (a as i128) * (SCALE as i128);
    assert(-0x8000_0000_0000_0000_0000_0000 <= n <= 0x8000_0000_0000_0000_0000_0000) by (nonlinear_arith)
        requires
            n == (a as int) * 100_000_000,
            -0x8000_0000_0000_0000 <= a <= 0x7fff_ffff_ffff_ffff,
    ;
    if b > 0 {
        let q: i128 = tdiv_i128(n, b as i128);
        q as i64
    } else {
        let q: i128 = tdiv_i128(-n, -(b as i128));
        q as i64
    }
}

/// `10^n` for `n <= 8`.
pub fn pow10_exec(n: u32) -> (r: i64)
    requires
        n <= 8,
    ensures
        r as int == pow10(n as nat),
        r >= 1,
{
    let mut r: i64 = 1;
    let mut i: u32 = 0;
    while i < n
        invariant
            i <= n <= 8,
            r as int == pow10(i as nat),
            1 <= r <= 100_000_000,
        decreases n - i,
    {
        proof {
            reveal_with_fuel(pow10, 9);
        }
        assert(pow10((i + 1) as nat) == 10 * pow10(i as nat));
        assert(r <= 10_000_000) by {
            reveal_with_fuel(pow10, 9);
        };
        r = r * 10;
        i = i + 1;
    }
    r
}

/// Raw value of `mantissa * 10^-scale` in units of `10^-8`.
pub open spec fn parts_raw(mantissa: int, scale: nat) -> int {
    mantissa * pow10((8 - scale) as nat)
}

/// A generic fixed-point decimal (ratios, contract sizes, shares).
#[derive(Debug, Clone, Copy, PartialEq, Eq, Structural)]
pub struct Fixed(pub i64);

impl Fixed {
    /// Zero.
    pub fn zero() -> (r: Fixed)
        ensures
            r.0 == 0,
    {
        Fixed(0)
    }

    /// One.
    pub fn one() -> (r: Fixed)
        ensures
            r.0 == SCALE,
    {
        Fixed(SCALE)
    }

    /// Builds `mantissa * 10^-scale` (at most eight decimal places).
    pub fn from_parts(mantissa: i64, scale: u32) -> (r: Fixed)
        requires
            scale <= 8,
            fits(parts_raw(mantissa as int, scale as nat)),
        ensures
            r.0 as int == parts_raw(mantissa as int, scale as nat),
    {
        let p = pow10_exec(8 - scale);
        Fixed(mantissa * p)
    }

    /// A whole number of units.
    pub fn from_int(v: i64) -> (r: Fixed)
        requires
            fits(v * SCALE),
        ensures
            r.0 == v * SCALE,
    {
        Fixed(v * SCALE)
    }

    /// Product, truncated to eight decimal places.
    pub fn mul(self, other: Fixed) -> (r: Fixed)
        requires
            fits(fx_mul(self.0 as int, other.0 as int)),
        ensures
            r.0 == fx_mul(self.0 as int, other.0 as int),
    {
        Fixed(mul_raw(self.0, other.0))
    }

    /// Quotient, truncated to eight decimal places.
    pub fn div(self, other: Fixed) -> (r: Fixed)
        requires
            other.0 != 0,
            fits(fx_div(self.0 as int, other.0 as int)),
        ensures
            r.0 == fx_div(self.0 as int, other.0 as int),
    {
        Fixed(div_raw(self.0, other.0))
    }
}

proof fn lemma_pow10_mono(j: nat, k: nat)
    requires
        j <= k,
    ensures
        1 <= pow10(j) <= pow10(k),
    decreases k,
{
    if k > 0 && j < k {
        lemma_pow10_mono(j, (k - 1) as nat);
    } else if k > 0 {
        lemma_pow10_mono(0, (k - 1) as nat);
    }
}

/// The exact value `m * 10^-scale` of a decimal (mantissa and scale, as
/// `rust_decimal::Decimal` holds it) in raw units, truncated toward zero
/// to eight decimal places.
pub open spec fn decimal_parts_raw(m: int, scale: nat) -> int {
    if scale >= 8 {
        tdiv(m, pow10((scale - 8) as nat))
    } else {
        m * pow10((8 - scale) as nat)
    }
}

/// The raw value of a decimal given by mantissa and scale, `None` when it
/// does not fit the raw range.
pub open spec fn raw_of_parts(m: i128, scale: u32) -> Option<i64> {
    let v = decimal_parts_raw(m as int, scale as nat);
    if fits(v) {
        Some(v as i64)
    } else {
        None
    }
}

/// A decimal's mantissa and scale as `rust_decimal` bounds them: at most
/// 28 decimal places, a mantissa below `2^96` in magnitude.
pub open spec fn decimal_parts_ok(m: i128, scale: u32) -> bool {
    scale <= 28 && -0x1_0000_0000_0000_0000_0000_0000 < m < 0x1_0000_0000_0000_0000_0000_0000
}

/// The raw value (eight decimals, truncated toward zero) of a decimal
/// given by mantissa and scale; `None` when it does not fit.
pub fn raw_from_parts(m: i128, scale: u32) -> (r: Option<i64>)
    requires
        decimal_parts_ok(m, scale),
    ensures
        r == raw_of_parts(m, scale),
{
    let e: u32 = if scale >= 8 {
        scale - 8
    } else {
        8 - scale
    };
    proof {
        assert(pow10(28) == 10_000_000_000_000_000_000_000_000_000) by {
            reveal_with_fuel(pow10, 29);
        }
    }
    let mut p: i128 = 1;
    let mut k: u32 = 0;
    while k < e
        invariant
            k <= e <= 28,
            p == pow10(k as nat),
            pow10(28) == 10_000_000_000_000_000_000_000_000_000,
        decreases e - k,
    {
        proof {
            lemma_pow10_mono((k + 1) as nat, 28);
        }
        p = p * 10;
        k = k + 1;
    }
    proof {
        lemma_pow10_mono(k as nat, 28);
        lemma_pow10_mono(0, k as nat);
    }
    let v: i128 = if scale >= 8 {
        if m >= 0 {
            m / p
        } else {
            -((-m) / p)
        }
    } else {
        proof {
            lemma_pow10_mono(k as nat, 8);
            assert(pow10(8) == 100_000_000) by {
                reveal_with_fuel(pow10, 9);
            }
            assert(-0x1_0000_0000_0000_0000_0000_0000 * 100_000_000 <= m * p <= 0x1_0000_0000_0000_0000_0000_0000
                * 100_000_000) by (nonlinear_arith)
                requires
                    -0x1_0000_0000_0000_0000_0000_0000 < m < 0x1_0000_0000_0000_0000_0000_0000,
                    1 <= p <= 100_000_000,
            ;
        }
        m * p
    };
    if i64::MIN as i128 <= v && v <= i64::MAX as i128 {
        Some(v as i64)
    } else {
        None
    }
}

} // verus!
