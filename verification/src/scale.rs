//! Scale-factor application over exact decimal values.
//!
//! A raw integer reading times a power-of-ten exponent is kept exactly as a
//! `Decimal` (mantissa and base-ten exponent) rather than as a float, so
//! every derived quantity is pinned down to the digit. Conversion to a
//! machine float happens outside the library, at the publishing edge.

use vstd::prelude::*;

verus! {

/// An exact decimal value `mantissa * 10^exponent`.
#[derive(Clone, Copy, Debug, PartialEq, Eq, Structural)]
pub struct Decimal {
    pub mantissa: i64,
    pub exponent: i32,
}

/// Ten to the `n`-th power.
pub open spec fn pow10(n: nat) -> int
    decreases n,
{
    if n == 0 {
        1
    } else {
        10 * pow10((n - 1) as nat)
    }
}

/// The integer mantissa of `d` rebased to the exponent `e`, so that the
/// value of `d` equals `val_at(d, e) * 10^e` exactly.
pub open spec fn val_at(d: Decimal, e: int) -> int
    recommends
        e <= d.exponent,
{
    d.mantissa * pow10((d.exponent - e) as nat)
}

/// The smaller of the two exponents: the base both addends rebase to.
pub open spec fn low_exp(a: Decimal, b: Decimal) -> int {
    if a.exponent <= b.exponent {
        a.exponent as int
    } else {
        b.exponent as int
    }
}

/// The exact mantissa of `a + b` rebased to the smaller exponent.
pub open spec fn sum_mantissa(a: Decimal, b: Decimal) -> int {
    val_at(a, low_exp(a, b)) + val_at(b, low_exp(a, b))
}

/// Whether the exact sum's rebased mantissa is representable.
pub open spec fn sum_fits(a: Decimal, b: Decimal) -> bool {
    i64::MIN <= sum_mantissa(a, b) <= i64::MAX
}

pub proof fn lemma_pow10_pos(n: nat)
    ensures
        pow10(n) >= 1,
    decreases n,
{
    if n > 0 {
        lemma_pow10_pos((n - 1) as nat);
    }
}

pub proof fn lemma_pow10_mono(a: nat, b: nat)
    requires
        a <= b,
    ensures
        pow10(a) <= pow10(b),
    decreases b,
{
    if a < b {
        lemma_pow10_mono(a, (b - 1) as nat);
        lemma_pow10_pos((b - 1) as nat);
    }
}

pub proof fn lemma_pow10_values()
    ensures
        pow10(14) == 100_000_000_000_000,
        pow10(19) == 10_000_000_000_000_000_000,
        pow10(20) == 100_000_000_000_000_000_000,
{
    reveal_with_fuel(pow10, 21);
}

pub proof fn lemma_mul_abs_bound(m: int, p: int, mb: int, pb: int)
    by (nonlinear_arith)
    requires
        -mb <= m <= mb,
        0 <= p <= pb,
    ensures
        -(mb * pb) <= m * p <= mb * pb,
{
}

proof fn lemma_mul_ge_one(m: int, p: int)
    by (nonlinear_arith)
    requires
        m >= 1,
        p >= 0,
    ensures
        m * p >= p,
{
}

proof fn lemma_mul_le_neg_one(m: int, p: int)
    by (nonlinear_arith)
    requires
        m <= -1,
        p >= 0,
    ensures
        m * p <= -p,
{
}

/// Scale-factor application: the raw integer reading times ten to the
/// exponent, kept exactly.
pub fn scale(raw: i64, exponent: i16) -> (r: Decimal)
    ensures
        r.mantissa == raw,
        r.exponent == exponent as int,
{
    Decimal { mantissa: raw, exponent: exponent as i32 }
}

/// The fixed unit conversion applied after scaling: division by one
/// thousand, i.e. the exponent drops by three.
pub fn per_thousand(d: Decimal) -> (r: Decimal)
    requires
        d.exponent - 3 >= i32::MIN,
    ensures
        r.mantissa == d.mantissa,
        r.exponent == d.exponent - 3,
{
    Decimal { mantissa: d.mantissa, exponent: d.exponent - 3 }
}

/// The negated value, same exponent.
pub fn negated(d: Decimal) -> (r: Decimal)
    requires
        d.mantissa > i64::MIN,
    ensures
        r.mantissa == -d.mantissa,
        r.exponent == d.exponent,
{
    Decimal { mantissa: -d.mantissa, exponent: d.exponent }
}

fn pow10_i128(n: u32) -> (r: i128)
    requires
        n <= 19,
    ensures
        r == pow10(n as nat),
{
    let mut acc: i128 = 1;
    let mut i: u32 = 0;
    while i < n
        invariant
            i <= n,
            n <= 19,
            acc == pow10(i as nat),
        decreases n - i,
    {
        proof {
            lemma_pow10_pos(i as nat);
            lemma_pow10_mono(i as nat + 1, 19);
            lemma_pow10_values();
        }
        acc = acc * 10;
        i = i + 1;
    }
    acc
}

/// Exact decimal addition: the sum rebased to the smaller exponent, or
/// `None` exactly when the rebased mantissa does not fit a 64-bit signed
/// integer.
pub fn add(a: Decimal, b: Decimal) -> (r: Option<Decimal>)
    ensures
        r is Some <==> sum_fits(a, b),
        r is Some ==> r->Some_0.exponent == low_exp(a, b),
        r is Some ==> r->Some_0.mantissa == sum_mantissa(a, b),
{
    let (hi, lo) = if a.exponent >= b.exponent {
        (a, b)
    } else {
        (b, a)
    };
    let diff: i64 = hi.exponent as i64 - lo.exponent as i64;
    proof {
        assert(low_exp(a, b) == lo.exponent as int);
        assert(val_at(lo, lo.exponent as int) == lo.mantissa * pow10(0));
        assert(lo.mantissa * 1 == lo.mantissa);
        lemma_pow10_pos((diff) as nat);
    }
    if diff >= 20 {
        proof {
            lemma_pow10_values();
            lemma_pow10_mono(20, diff as nat);
        }
        if hi.mantissa == 0 {
            proof {
                assert(val_at(hi, lo.exponent as int) == 0 * pow10(diff as nat));
                assert(0 * pow10(diff as nat) == 0);
            }
            Some(Decimal { mantissa: lo.mantissa, exponent: lo.exponent })
        } else {
            proof {
                let p = pow10(diff as nat);
                if hi.mantissa >= 1 {
                    lemma_mul_ge_one(hi.mantissa as int, p);
                } else {
                    lemma_mul_le_neg_one(hi.mantissa as int, p);
                }
            }
            None
        }
    } else {
        let p = pow10_i128(diff as u32);
        proof {
            lemma_pow10_values();
            lemma_pow10_mono(diff as nat, 19);
            lemma_mul_abs_bound(
                hi.mantissa as int,
                p as int,
                0x8000_0000_0000_0000,
                pow10(19),
            );
            assert(val_at(hi, lo.exponent as int) == hi.mantissa * pow10(diff as nat));
        }
        let prod: i128 = (hi.mantissa as i128) * p;
        let sum: i128 = prod + (lo.mantissa as i128);
        if sum >= -0x8000_0000_0000_0000i128 && sum <= 0x7FFF_FFFF_FFFF_FFFFi128 {
            Some(Decimal { mantissa: sum as i64, exponent: lo.exponent })
        } else {
            None
        }
    }
}

} // verus!
