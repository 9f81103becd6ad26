use vstd::prelude::*;
use crate::types::Error;

verus! {

/// `10^e`.
pub open spec fn pow10(e: nat) -> nat
    decreases e,
{
    if e == 0 {
        1
    } else {
        10 * pow10((e - 1) as nat)
    }
}

pub proof fn lemma_pow10_pos(e: nat)
    ensures
        pow10(e) >= 1,
    decreases e,
{
    if e > 0 {
        lemma_pow10_pos((e - 1) as nat);
    }
}

pub proof fn lemma_pow10_adds(a: nat, b: nat)
    ensures
        pow10(a) * pow10(b) == pow10((a + b) as nat),
    decreases a,
{
    if a == 0 {
        assert(pow10(a) == 1);
        assert(pow10(a) * pow10(b) == pow10(b)) by (nonlinear_arith)
            requires
                pow10(a) == 1,
        ;
    } else {
        lemma_pow10_adds((a - 1) as nat, b);
        let x = pow10((a - 1) as nat);
        let y = pow10(b);
        assert(((a - 1) as nat + b) as nat == ((a + b) as nat - 1) as nat);
        assert(pow10(a) == 10 * x);
        assert(pow10((a + b) as nat) == 10 * pow10(((a + b) as nat - 1) as nat));
        assert(x * y == pow10(((a + b) as nat - 1) as nat));
        assert(pow10(a) * y == 10 * (x * y)) by (nonlinear_arith)
            requires
                pow10(a) == 10 * x,
        ;
        assert(pow10(a) * pow10(b) == pow10((a + b) as nat));
    }
}

pub proof fn lemma_pow10_increases(a: nat, b: nat)
    requires
        a <= b,
    ensures
        pow10(a) <= pow10(b),
    decreases b,
{
    if a < b {
        lemma_pow10_increases(a, (b - 1) as nat);
        lemma_pow10_pos((b - 1) as nat);
    }
}

/// `pow10` at the two scales the rescaler needs as concrete bounds.
pub proof fn lemma_pow10_concrete()
    ensures
        pow10(8) == 100000000,
        pow10(20) == 100000000000000000000,
{
    assert(pow10(0) == 1);
    assert(pow10(1) == 10);
    assert(pow10(2) == 100);
    assert(pow10(3) == 1000);
    assert(pow10(4) == 10000);
    assert(pow10(5) == 100000);
    assert(pow10(6) == 1000000);
    assert(pow10(7) == 10000000);
    assert(pow10(8) == 100000000);
    assert(pow10(9) == 1000000000);
    assert(pow10(10) == 10000000000);
    assert(pow10(11) == 100000000000);
    assert(pow10(12) == 1000000000000);
    assert(pow10(13) == 10000000000000);
    assert(pow10(14) == 100000000000000);
    assert(pow10(15) == 1000000000000000);
    assert(pow10(16) == 10000000000000000);
    assert(pow10(17) == 100000000000000000);
    assert(pow10(18) == 1000000000000000000);
    assert(pow10(19) == 10000000000000000000);
    assert(pow10(20) == 100000000000000000000);
}

/// Largest mantissa of the fixed-point representation: `2^96 - 1`, the
/// mantissa bound of the 96-bit decimal representation the quote runs
/// through.
pub const MAX_MANTISSA: u128 = 79228162514264337593543950335;

/// Largest fractional-digit count the decimal representation can carry.
pub const MAX_SCALE: u32 = 28;

/// `n / d` rounded to the nearest integer, ties to even.
pub open spec fn rhe_div(n: nat, d: nat) -> nat
    recommends
        d > 0,
{
    let q = n / d;
    let r = n % d;
    if 2 * r < d {
        q
    } else if 2 * r > d {
        q + 1
    } else if q % 2 == 0 {
        q
    } else {
        q + 1
    }
}

/// Nearest-integer law for the rounding divider: the rounded quotient is
/// within half a divisor of the true ratio, so when scale is reduced to
/// eight digits the result is within half a unit in the last place.
pub proof fn lemma_rhe_div_nearest(n: nat, d: nat)
    requires
        d >= 1,
    ensures
        2 * n <= 2 * (rhe_div(n, d) * d) + d,
        2 * (rhe_div(n, d) * d) <= 2 * n + d,
{
    let q = n / d;
    let r = n % d;
    assert(n == q * d + r && r < d) by (nonlinear_arith)
        requires
            d >= 1,
            q == n / d,
            r == n % d,
    ;
    if 2 * r <= d {
        assert(rhe_div(n, d) == q || (2 * r == d && rhe_div(n, d) == q + 1));
        assert((q + 1) * d == q * d + d) by (nonlinear_arith);
    } else {
        assert(rhe_div(n, d) == q + 1);
        assert((q + 1) * d == q * d + d) by (nonlinear_arith);
    }
}

/// The eight-fractional-digit mantissa of the value `m · 10^(-s)`: exact
/// multiplication when `s <= 8`, rounding half to even when `s > 8`.
pub open spec fn rescale8_spec(m: nat, s: nat) -> nat {
    if s <= 8 {
        m * pow10((8 - s) as nat)
    } else {
        rhe_div(m, pow10((s - 8) as nat))
    }
}

fn pow10_u128(e: u32) -> (r: u128)
    requires
        e <= 20,
    ensures
        r as nat == pow10(e as nat),
{
    proof {
        lemma_pow10_concrete();
    }
    let mut acc: u128 = 1;
    let mut k: u32 = 0;
    while k < e
        invariant
            k <= e <= 20,
            acc as nat == pow10(k as nat),
        decreases e - k,
    {
        proof {
            lemma_pow10_concrete();
            lemma_pow10_increases((k + 1) as nat, 20);
            assert(pow10((k + 1) as nat) == 10 * pow10(k as nat));
        }
        acc = acc * 10;
        k = k + 1;
    }
    acc
}

/// Whether a decimal value, given as mantissa and scale, rescales to an
/// eight-digit mantissa inside the fixed-point range: it must be
/// non-negative, its scale within the representation's bound, and the
/// rescaled mantissa must not overflow the 96-bit range.
pub open spec fn rescalable(mantissa: int, scale: nat) -> bool {
    &&& 0 <= mantissa <= MAX_MANTISSA
    &&& scale <= MAX_SCALE
    &&& rescale8_spec(mantissa as nat, scale) <= MAX_MANTISSA
}

/// Rescales the quote value `mantissa · 10^(-scale)` to the fixed-point
/// mantissa with exactly eight fractional decimal digits, rounding half to
/// even. A negative value, an out-of-range scale, or an overflowing result
/// is rejected as an invalid parameter.
pub fn rescale_to_8(mantissa: i128, scale: u32) -> (r: Result<u128, Error>)
    ensures
        r.is_ok() <==> rescalable(mantissa as int, scale as nat),
        r matches Ok(x) ==> x as nat == rescale8_spec(mantissa as nat, scale as nat),
        r matches Err(e) ==> e == Error::InvalidParameter,
{
    proof {
        lemma_pow10_concrete();
    }
    if mantissa < 0 {
        return Err(Error::InvalidParameter);
    }
    let m = mantissa as u128;
    if m > MAX_MANTISSA {
        return Err(Error::InvalidParameter);
    }
    if scale > MAX_SCALE {
        return Err(Error::InvalidParameter);
    }
    if scale <= 8 {
        let f = pow10_u128(8 - scale);
        proof {
            lemma_pow10_increases((8 - scale) as nat, 8);
            assert(m * f <= 79228162514264337593543950335u128 * 100000000) by (nonlinear_arith)
                requires
                    m <= 79228162514264337593543950335u128,
                    f <= 100000000,
                    0 <= m,
                    0 <= f,
            ;
        }
        let x = m * f;
        if x > MAX_MANTISSA {
            Err(Error::InvalidParameter)
        } else {
            Ok(x)
        }
    } else {
        let e2 = scale - 8;
        let d = pow10_u128(e2);
        proof {
            lemma_pow10_pos(e2 as nat);
            lemma_pow10_increases(1, e2 as nat);
            lemma_pow10_increases(e2 as nat, 20);
        }
        let q = m / d;
        let rem = m % d;
        proof {
            assert(q <= m && rem < d) by (nonlinear_arith)
                requires
                    q == m / d,
                    rem == m % d,
                    d >= 1,
            ;
            assert(q + 1 <= MAX_MANTISSA) by (nonlinear_arith)
                requires
                    q == m / d,
                    d >= 10,
                    m <= 79228162514264337593543950335u128,
            ;
        }
        let x = if 2 * rem < d {
            q
        } else if 2 * rem > d {
            q + 1
        } else if q % 2 == 0 {
            q
        } else {
            q + 1
        };
        Ok(x)
    }
}

/// Rescale round-trip law: a non-negative value carrying at most eight
/// fractional decimal digits rescales to the eight-digit representation
/// without loss; dividing the rescaled mantissa by `10^8` recovers the
/// value exactly, so the error is zero, within any rounding tolerance.
pub proof fn lemma_rescale_round_trip(m: nat, s: nat)
    requires
        s <= 8,
    ensures
        rescale8_spec(m, s) == m * pow10((8 - s) as nat),
        rescale8_spec(m, s) * pow10(s) == m * pow10(8),
{
    lemma_pow10_adds((8 - s) as nat, s);
    assert((m * pow10((8 - s) as nat)) * pow10(s) == m * (pow10((8 - s) as nat) * pow10(s)))
        by (nonlinear_arith);
}

} // verus!
