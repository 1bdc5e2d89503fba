//! Sizes in decimal units, as binary64 floating point computes them.
//!
//! A byte count is shown as `bytes / 1000` in the first unit that keeps it
//! below 1000, rounded to one decimal. That quotient is taken in IEEE 754
//! binary64 arithmetic: the count is converted to the nearest double, each
//! division by 1000 gives the double nearest to the exact quotient, and the
//! final double is rounded to tenths, an exact half to the even tenth. The
//! doubles are modelled here with integers, so that the text is exactly what
//! binary64 arithmetic prints, including where a decimal half is not
//! representable in binary (10 050 bytes is 10.050000000000000711 KB as a
//! double, and prints as 10.1 KB).
//!
//! A double is held as `(m, up, down)`, standing for `m * up / down`, where
//! `m` is the significand and `up` and `down` are powers of two.

use vstd::prelude::*;

verus! {

/// 2^53: one past the largest significand.
pub const SIGNIFICAND_END: u128 = 0x20_0000_0000_0000;

/// 2^52: the smallest normalized significand.
pub const SIGNIFICAND_START: u128 = 0x10_0000_0000_0000;

/// `n / d` rounded to the nearest integer, an exact half to the even one.
pub open spec fn round_half_even(n: nat, d: nat) -> nat {
    let q = n / d;
    let r = n % d;
    if r * 2 > d || (r * 2 == d && q % 2 == 1) {
        q + 1
    } else {
        q
    }
}

/// The denominator doubled (and the scale with it) until `n / den` is below
/// 2^53.
pub open spec fn widen_denominator(n: nat, den: nat, up: nat) -> (nat, nat)
    decreases n - den,
{
    if den >= 1 && n >= 0x20_0000_0000_0000 * den {
        widen_denominator(n, den * 2, up * 2)
    } else {
        (den, up)
    }
}

/// The numerator doubled (and the scale with it) until `num / den` is at
/// least 2^52.
pub open spec fn widen_numerator(num: nat, den: nat, down: nat) -> (nat, nat)
    decreases 0x20_0000_0000_0000 * den - num,
{
    if num >= 1 && num < 0x10_0000_0000_0000 * den {
        widen_numerator(num * 2, den, down * 2)
    } else {
        (num, down)
    }
}

/// The binary64 double nearest to `n / d` (`n >= d >= 1`), an exact tie to
/// the even significand: the quotient is scaled by a power of two into
/// `[2^52, 2^53)`, rounded there, and a significand rounded up to 2^53 is
/// halved.
pub open spec fn nearest_double(n: nat, d: nat) -> (nat, nat, nat) {
    let (den, up) = widen_denominator(n, d, 1);
    let (num, down) = widen_numerator(n, den, 1);
    let m = round_half_even(num, den);
    if m == 0x20_0000_0000_0000 {
        if down > 1 {
            (0x10_0000_0000_0000 as nat, up, down / 2)
        } else {
            (0x10_0000_0000_0000 as nat, up * 2, down)
        }
    } else {
        (m, up, down)
    }
}

/// The double a byte count converts to: the count itself below 2^53, the
/// nearest double above.
pub open spec fn double_of_count(bytes: nat) -> (nat, nat, nat) {
    if bytes < 0x20_0000_0000_0000 {
        (bytes, 1, 1)
    } else {
        nearest_double(bytes, 1)
    }
}

/// The double nearest to a double divided by 1000.
pub open spec fn thousandth(v: (nat, nat, nat)) -> (nat, nat, nat) {
    nearest_double(v.0 * v.1, 1000 * v.2)
}

/// From unit `k`, divides by 1000 while the value is at least 1000 and a
/// larger unit (up to the fourth) is left.
pub open spec fn settle(v: (nat, nat, nat), k: nat) -> ((nat, nat, nat), nat)
    decreases 4 - k,
{
    if k < 4 && v.0 * v.1 >= 1000 * v.2 {
        settle(thousandth(v), k + 1)
    } else {
        (v, k)
    }
}

/// The value of a byte count in its unit, and the unit (1 for KB up to 4
/// for TB).
pub open spec fn sized(bytes: nat) -> ((nat, nat, nat), nat) {
    settle(thousandth(double_of_count(bytes)), 1)
}

/// A value in tenths: ten times the double, rounded half to even.
pub open spec fn tenths_of(v: (nat, nat, nat)) -> nat {
    round_half_even(10 * v.0 * v.1, v.2)
}

/// A double held in machine integers, as the triple of naturals it stands
/// for.
pub open spec fn as_naturals(v: (u128, u128, u128)) -> (nat, nat, nat) {
    (v.0 as nat, v.1 as nat, v.2 as nat)
}

/// What the doubles here are like: a significand below 2^53 and scales
/// from 1 to below 2^53.
pub open spec fn bounded(v: (nat, nat, nat)) -> bool {
    &&& v.0 < 0x20_0000_0000_0000
    &&& v.1 >= 1
    &&& v.2 >= 1
    &&& v.2 < 0x20_0000_0000_0000
}

/// `n / d` rounded half to even.
fn round_half_even_exec(n: u128, d: u128) -> (q: u128)
    requires
        d >= 1,
        n / d < u128::MAX,
    ensures
        q == round_half_even(n as nat, d as nat),
{
    let q = n / d;
    let r = n % d;
    proof {
        assert(r < d);
    }
    if r > d - r || (r == d - r && q % 2 == 1) {
        q + 1
    } else {
        q
    }
}

/// The double nearest to `n / d`.
fn nearest(n: u128, d: u128) -> (v: (u128, u128, u128))
    requires
        1 <= d <= n,
        n <= 0x4_0000_0000_0000_0000,
        d < 0x1_0000_0000_0000_0000,
    ensures
        as_naturals(v) == nearest_double(n as nat, d as nat),
        bounded(as_naturals(v)),
        v.1 > 1 ==> v.2 == 1 && v.0 * v.1 * d <= 2 * n,
        v.1 == 1 ==> v.0 * v.1 <= 0x20_0000_0000_0000,
        n >= 0x10_0000_0000_0000 * d ==> v.2 == 1 && v.0 >= 0x10_0000_0000_0000,
{
    let mut den: u128 = d;
    let mut up: u128 = 1;
    while n >= 0x20_0000_0000_0000 * den
        invariant
            1 <= d <= n,
            n <= 0x4_0000_0000_0000_0000,
            d < 0x1_0000_0000_0000_0000,
            1 <= den,
            1 <= up,
            den == d * up,
            den <= d || den <= 0x8000,
            up > 1 ==> n >= 0x10_0000_0000_0000 * den,
            up > 1 ==> up <= den && d < den,
            widen_denominator(n as nat, den as nat, up as nat) == widen_denominator(n as nat, d as nat, 1),
        decreases n - den,
    {
        proof {
            assert(den * 2 == d * (up * 2)) by (nonlinear_arith)
                requires
                    den == d * up,
            ;
        }
        den = den * 2;
        up = up * 2;
    }
    let mut num: u128 = n;
    let mut down: u128 = 1;
    while num < 0x10_0000_0000_0000 * den
        invariant
            1 <= d <= n,
            n <= 0x4_0000_0000_0000_0000,
            1 <= den,
            den == d * up,
            den <= d || den <= 0x8000,
            up > 1 ==> up <= den && d < den,
            up > 1 ==> num >= 0x10_0000_0000_0000 * den && down == 1,
            n <= num,
            down <= num,
            num < 0x20_0000_0000_0000 * den,
            1 <= down,
            num == n * down,
            widen_numerator(num as nat, den as nat, down as nat) == widen_numerator(n as nat, den as nat, 1),
        decreases 0x20_0000_0000_0000 * den - num,
    {
        proof {
            assert(num * 2 == n * (down * 2)) by (nonlinear_arith)
                requires
                    num == n * down,
            ;
        }
        num = num * 2;
        down = down * 2;
    }
    proof {
        assert(num / den < 0x20_0000_0000_0000) by (nonlinear_arith)
            requires
                num < 0x20_0000_0000_0000 * den,
                den >= 1,
        ;
        assert(num / den >= 0x10_0000_0000_0000) by (nonlinear_arith)
            requires
                num >= 0x10_0000_0000_0000 * den,
                den >= 1,
        ;
        // A numerator that had to grow came from a quotient below 2^52, with
        // the denominator still `d` and so at most `n`.
        if down > 1 {
            assert(up == 1);
            assert(down < 0x20_0000_0000_0000) by (nonlinear_arith)
                requires
                    num == n * down,
                    num < 0x20_0000_0000_0000 * den,
                    den == d,
                    d <= n,
                    n >= 1,
            ;
        }
    }
    let m = round_half_even_exec(num, den);
    proof {
        assert(m <= 0x20_0000_0000_0000);
        if up > 1 {
            assert(m * up * d <= 2 * n) by (nonlinear_arith)
                requires
                    m <= 0x20_0000_0000_0000,
                    den == d * up,
                    n >= 0x10_0000_0000_0000 * den,
            ;
        }
    }
    if m == 0x20_0000_0000_0000 {
        if down > 1 {
            (0x10_0000_0000_0000, up, down / 2)
        } else {
            proof {
                assert(0x10_0000_0000_0000 * (up * 2) == 0x20_0000_0000_0000 * up);
                if up > 1 {
                    assert(0x10_0000_0000_0000 * (up * 2) * d <= 2 * n) by (nonlinear_arith)
                        requires
                            0x10_0000_0000_0000 * (up * 2) == 0x20_0000_0000_0000 * up,
                            m == 0x20_0000_0000_0000,
                            m * up * d <= 2 * n,
                    ;
                }
            }
            (0x10_0000_0000_0000, up * 2, down)
        }
    } else {
        proof {
            if up == 1 {
                assert(m * up <= 0x20_0000_0000_0000);
            }
        }
        (m, up, down)
    }
}


/// A double divided by 1000, given a value of at least 1000 and a size the
/// arithmetic here can hold.
fn thousandth_exec(v: (u128, u128, u128)) -> (w: (u128, u128, u128))
    requires
        bounded(as_naturals(v)),
        v.0 * v.1 <= 0x2_0000_0000_0000_0000,
        v.0 * v.1 >= 1000 * v.2,
    ensures
        as_naturals(w) == thousandth(as_naturals(v)),
        bounded(as_naturals(w)),
        w.0 * w.1 <= 0x200_0000_0000_0000,
{
    let n = v.0 * v.1;
    let d = 1000 * v.2;
    let w = nearest(n, d);
    proof {
        if w.1 > 1 {
            assert(w.0 * w.1 <= 0x200_0000_0000_0000) by (nonlinear_arith)
                requires
                    w.0 * w.1 * d <= 2 * n,
                    d >= 1000,
                    n <= 0x2_0000_0000_0000_0000,
            ;
        }
    }
    w
}

/// The value of a byte count of at least 10 000 in its unit, and the unit
/// (1 for KB up to 4 for TB).
pub fn size_in_unit(bytes: u64) -> (result: ((u128, u128, u128), u64))
    requires
        bytes >= 10_000,
    ensures
        (as_naturals(result.0), result.1 as nat) == sized(bytes as nat),
        bounded(as_naturals(result.0)),
        result.0.0 * result.0.1 <= 0x200_0000_0000_0000,
{
    let count = bytes as u128;
    let converted: (u128, u128, u128) = if count < 0x20_0000_0000_0000 {
        (count, 1, 1)
    } else {
        let c = nearest(count, 1);
        proof {
            if c.1 > 1 {
                assert(c.0 * c.1 <= 0x2_0000_0000_0000_0000) by (nonlinear_arith)
                    requires
                        c.0 * c.1 * 1 <= 2 * count,
                        count < 0x1_0000_0000_0000_0000,
                ;
            }
            assert(c.0 * c.1 >= 1000 * c.2) by (nonlinear_arith)
                requires
                    c.2 == 1,
                    c.0 >= 0x10_0000_0000_0000,
                    c.1 >= 1,
            ;
        }
        c
    };
    let mut value = thousandth_exec(converted);
    let mut unit: u64 = 1;
    while unit < 4 && value.0 * value.1 >= 1000 * value.2
        invariant
            1 <= unit <= 4,
            bounded(as_naturals(value)),
            value.0 * value.1 <= 0x200_0000_0000_0000,
            settle(as_naturals(value), unit as nat) == sized(bytes as nat),
        decreases 4 - unit,
    {
        value = thousandth_exec(value);
        unit = unit + 1;
    }
    (value, unit)
}

/// A value in tenths.
pub fn tenths_exec(v: (u128, u128, u128)) -> (t: u128)
    requires
        bounded(as_naturals(v)),
        v.0 * v.1 <= 0x200_0000_0000_0000,
    ensures
        t == tenths_of(as_naturals(v)),
        t <= 0x1400_0000_0000_0001,
{
    proof {
        assert(10 * (v.0 * v.1) == 10 * v.0 * v.1) by (nonlinear_arith);
        let product: int = 10 * (v.0 * v.1);
        let scale: int = v.2 as int;
        assert(product / scale <= product) by (nonlinear_arith)
            requires
                scale >= 1,
                product >= 0,
        ;
    }
    round_half_even_exec(10 * (v.0 * v.1), v.2)
}

} // verus!
