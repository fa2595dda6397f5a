//! Random numbers scaled to a bound.
//!
//! `rand` scales 32 random bits (on the PC, what the RDRAND instruction
//! gives) and `srand` the next word of the seeded LFSR table: from 0 to the
//! bound for unsigned types, from the bound to its opposite for signed
//! ones. The scaling is that of binary floating point: single precision
//! for `u8`, `u16`, `i8` and `i16`, double precision for `u32`, `usize`,
//! `i32` and `isize`. Each operand, quotient and product is rounded to the
//! significand of the format, to the nearest, ties to even; the result is
//! then rounded to the nearest integer, halves away from zero, and
//! saturated to the type.
use crate::math::{MathError, MathResult};
use vstd::prelude::*;

pub mod lfsr16;

use lfsr16::{lfsr16_get_pseudo_number, lfsr16_set_seed, LfsrFibonnaci};

verus! {

/// `n / d` rounded to the nearest integer, halves away from zero (`d > 0`).
pub open spec fn round_div(n: int, d: int) -> int {
    if n >= 0 {
        (2 * n + d) / (2 * d)
    } else {
        -((2 * (-n) + d) / (2 * d))
    }
}

/// `x` brought into `lo..=hi`.
pub open spec fn clamp(x: int, lo: int, hi: int) -> int {
    if x < lo {
        lo
    } else if x > hi {
        hi
    } else {
        x
    }
}

/// `n` rounded to a multiple of `unit`, to the nearest, ties to an even
/// multiple.
pub open spec fn round_to_unit(n: nat, unit: nat) -> nat {
    let q = n / unit;
    let rem = n % unit;
    if 2 * rem > unit || (2 * rem == unit && q % 2 == 1) {
        (q + 1) * unit
    } else {
        q * unit
    }
}

/// `n` rounded as `round_significand` does, the unit of rounding being
/// `unit` or, while the quotient of `n` by it is `lim` or more (and at most
/// `fuel` times), twice as large.
pub open spec fn round_significand_from(n: nat, lim: nat, unit: nat, fuel: nat) -> nat
    decreases fuel,
{
    if fuel == 0 || n / unit < lim {
        round_to_unit(n, unit)
    } else {
        round_significand_from(n, lim, unit * 2, (fuel - 1) as nat)
    }
}

/// `n` as a binary floating-point number whose significand is below `lim`
/// (`2^24` in single precision, `2^53` in double precision) holds it:
/// rounded to the nearest, ties to an even significand.
pub open spec fn round_significand(n: nat, lim: nat) -> nat {
    round_significand_from(n, lim, 1, 128)
}

/// `round_significand(n, lim)`, for `n` up to `2^126`.
fn round_significand_u128(n: u128, lim: u128) -> (r: u128)
    requires
        lim >= 2,
        n <= 0x4000_0000_0000_0000_0000_0000_0000_0000,
    ensures
        r == round_significand(n as nat, lim as nat),
{
    let mut unit: u128 = 1;
    let mut fuel: u128 = 128;
    while fuel > 0 && n / unit >= lim
        invariant
            lim >= 2,
            n <= 0x4000_0000_0000_0000_0000_0000_0000_0000,
            1 <= unit <= n || unit == 1,
            fuel <= 128,
            round_significand_from(n as nat, lim as nat, unit as nat, fuel as nat) == round_significand(
                n as nat,
                lim as nat,
            ),
        decreases fuel,
    {
        proof {
            assert(2 * unit <= n) by (nonlinear_arith)
                requires
                    n / unit >= lim,
                    lim >= 2,
                    unit >= 1,
            ;
        }
        unit = unit * 2;
        fuel = fuel - 1;
    }
    let q = n / unit;
    let rem = n % unit;
    proof {
        assert(q * unit + rem == n && rem < unit) by (nonlinear_arith)
            requires
                unit >= 1,
                q == n / unit,
                rem == n % unit,
        ;
        assert((q + 1) * unit == q * unit + unit) by (nonlinear_arith);
    }
    if 2 * rem > unit || (2 * rem == unit && q % 2 == 1) {
        (q + 1) * unit
    } else {
        q * unit
    }
}

/// Rounding `n` to a significand below `lim` adds at most `n / lim`.
pub proof fn lemma_round_significand_from_bound(n: nat, lim: nat, unit: nat, fuel: nat)
    requires
        lim >= 2,
        unit >= 1,
        unit == 1 || unit * lim <= 2 * n,
    ensures
        lim * round_significand_from(n, lim, unit, fuel) <= n * (lim + 1),
    decreases fuel,
{
    if fuel == 0 || n / unit < lim {
        let q = n / unit;
        let rem = n % unit;
        assert(q * unit + rem == n && rem < unit) by (nonlinear_arith)
            requires
                unit >= 1,
                q == n / unit,
                rem == n % unit,
        ;
        let r = round_to_unit(n, unit);
        if unit == 1 {
            assert(rem == 0);
            assert(r == n);
            assert(lim * n <= n * (lim + 1)) by (nonlinear_arith);
        } else {
            assert((q + 1) * unit == q * unit + unit) by (nonlinear_arith);
            assert(2 * r <= 2 * n + unit);
            assert(lim * r <= n * (lim + 1)) by (nonlinear_arith)
                requires
                    2 * r <= 2 * n + unit,
                    unit * lim <= 2 * n,
            ;
        }
    } else {
        assert(2 * unit * lim <= 2 * n) by (nonlinear_arith)
            requires
                n / unit >= lim,
                unit >= 1,
        ;
        lemma_round_significand_from_bound(n, lim, unit * 2, (fuel - 1) as nat);
    }
}

/// Rounding `n` to a significand below `lim` adds at most `n / lim`.
pub proof fn lemma_round_significand_bound(n: nat, lim: nat)
    requires
        lim >= 2,
    ensures
        lim * round_significand(n, lim) <= n * (lim + 1),
{
    lemma_round_significand_from_bound(n, lim, 1, 128);
}

/// Rounding `n` to a significand below `lim` takes off at most `n / lim`.
pub proof fn lemma_round_significand_from_lower(n: nat, lim: nat, unit: nat, fuel: nat)
    requires
        lim >= 2,
        unit >= 1,
        unit == 1 || unit * lim <= 2 * n,
    ensures
        lim * round_significand_from(n, lim, unit, fuel) >= n * (lim - 1),
    decreases fuel,
{
    if fuel == 0 || n / unit < lim {
        let q = n / unit;
        let rem = n % unit;
        assert(q * unit + rem == n && rem < unit) by (nonlinear_arith)
            requires
                unit >= 1,
                q == n / unit,
                rem == n % unit,
        ;
        let r = round_to_unit(n, unit);
        assert((q + 1) * unit == q * unit + unit) by (nonlinear_arith);
        if unit == 1 {
            assert(rem == 0);
            assert(r == n);
            assert(lim * n >= n * (lim - 1)) by (nonlinear_arith);
        } else {
            assert(2 * r >= 2 * n - unit);
            assert(lim * r >= n * (lim - 1)) by (nonlinear_arith)
                requires
                    2 * r >= 2 * n - unit,
                    unit * lim <= 2 * n,
                    r >= 0,
            ;
        }
    } else {
        assert(2 * unit * lim <= 2 * n) by (nonlinear_arith)
            requires
                n / unit >= lim,
                unit >= 1,
        ;
        lemma_round_significand_from_lower(n, lim, unit * 2, (fuel - 1) as nat);
    }
}

/// A number below `lim` is its own significand.
pub proof fn lemma_round_significand_small(n: nat, lim: nat)
    requires
        lim >= 2,
        n < lim,
    ensures
        round_significand(n, lim) == n,
{
    lemma_round_significand_bound(n, lim);
    lemma_round_significand_from_lower(n, lim, 1, 128);
    let r = round_significand(n, lim);
    assert(r == n) by (nonlinear_arith)
        requires
            lim * r <= n * (lim + 1),
            lim * r >= n * (lim - 1),
            n < lim,
            lim >= 2,
    ;
}

/// The power of two by which `n / d` is scaled to hold its significand:
/// from `unit`, doubled until `n / d` times it is at least `lim / 2` (or
/// it reaches `2^119`, far beyond what a quotient of 32-bit numbers
/// needs).
pub open spec fn quotient_unit_from(n: nat, d: nat, lim: nat, unit: nat) -> nat
    decreases 0x100_0000_0000_0000_0000_0000_0000_0000 - unit,
{
    if unit == 0 || n == 0 || unit >= 0x80_0000_0000_0000_0000_0000_0000_0000 || 2 * n * unit >= d * lim {
        unit
    } else {
        quotient_unit_from(n, d, lim, unit * 2)
    }
}

/// `n / d` rounded to the nearest integer, ties to an even one.
pub open spec fn round_quotient(n: nat, d: nat) -> nat {
    let q = n / d;
    let rem = n % d;
    if 2 * rem > d || (2 * rem == d && q % 2 == 1) {
        q + 1
    } else {
        q
    }
}

/// `t / d * x` in double precision, rounded to the nearest integer, halves
/// away from zero: `d` and `x` rounded to 53-bit significands, their
/// quotient `q / s` and the product too.
pub open spec fn scale_double_quotient(t: nat, d: nat, x: nat) -> int {
    let lim: nat = 0x20_0000_0000_0000;
    let dd = round_significand(d, lim);
    let s = quotient_unit_from(t, dd, lim, 1);
    let q = round_quotient(t * s, dd);
    round_div(round_significand(q * round_significand(x, lim), lim) as int, s as int)
}

/// The quotient of `t` by `d` (rounded to `dd`), as `q / s`, times `x`
/// (rounded to `xx`), rounded to `g`, then over `s` and rounded, is at most
/// `x`: for `d` the largest `u32` (`dd` and `xx` exact) or `u64`.
pub proof fn lemma_quotient_product_within(t: int, d: int, x: int, dd: int, xx: int, s: int, q: int, g: int)
    requires
        0 <= t <= 0xffff_ffff,
        0 <= x,
        0 <= q,
        0 <= g,
        (d == 0xffff_ffff && dd == d && xx == x && x <= 0xffff_ffff) || (d == 0xffff_ffff_ffff_ffff && dd
            >= 0x8000_0000_0000_0000 && 0 <= xx <= 2 * x),
        s >= 1,
        (t == 0 && s == 1) || 2 * t * s >= dd * 0x20_0000_0000_0000,
        2 * q * dd <= 2 * t * s + dd,
        0x20_0000_0000_0000 * g <= q * xx * (0x20_0000_0000_0000 + 1),
    ensures
        0 <= (2 * g + s) / (2 * s) <= x,
{
    let lim: int = 0x20_0000_0000_0000;
    if t == 0 {
        assert(2 * q * dd <= dd) by (nonlinear_arith)
            requires
                2 * q * dd <= 2 * t * s + dd,
                t == 0,
        ;
        assert(q == 0) by (nonlinear_arith)
            requires
                2 * q * dd <= dd,
                dd >= 1,
                q >= 0,
        ;
        assert(g == 0) by (nonlinear_arith)
            requires
                lim * g <= q * xx * (lim + 1),
                q == 0,
                lim > 0,
                g >= 0,
        ;
        assert((2 * g + s) / (2 * s) == 0) by (nonlinear_arith)
            requires
                g == 0,
                s >= 1,
        ;
    } else {
        assert(2 * dd * lim * g <= (2 * t * s + dd) * xx * (lim + 1)) by (nonlinear_arith)
            requires
                lim * g <= q * xx * (lim + 1),
                2 * q * dd <= 2 * t * s + dd,
                xx >= 0,
                dd >= 1,
                lim > 0,
        ;
        if d == 0xffff_ffff {
            assert(2 * s >= lim) by (nonlinear_arith)
                requires
                    2 * t * s >= dd * lim,
                    1 <= t <= dd,
                    s >= 1,
            ;
            assert(2 * lim * g <= x * (2 * s + 1) * (lim + 1)) by (nonlinear_arith)
                requires
                    2 * dd * lim * g <= (2 * t * s + dd) * x * (lim + 1),
                    1 <= t <= dd,
                    x >= 0,
                    s >= 1,
                    lim > 0,
            ;
            assert(2 * g + s < 2 * s * (x + 1)) by (nonlinear_arith)
                requires
                    2 * lim * g <= x * (2 * s + 1) * (lim + 1),
                    2 * s >= lim,
                    0 <= x <= 0xffff_ffff,
                    lim == 0x20_0000_0000_0000,
            ;
        } else {
            assert(s * 0x2_0000_0000 >= lim * 0x8000_0000_0000_0000) by (nonlinear_arith)
                requires
                    2 * t * s >= dd * lim,
                    1 <= t <= 0xffff_ffff,
                    dd >= 0x8000_0000_0000_0000,
                    s >= 1,
            ;
            assert(2 * dd * lim * g <= (2 * t * s + dd) * 2 * x * (lim + 1)) by (nonlinear_arith)
                requires
                    2 * dd * lim * g <= (2 * t * s + dd) * xx * (lim + 1),
                    0 <= xx <= 2 * x,
                    2 * t * s + dd >= 0,
                    lim > 0,
            ;
            assert(dd * lim * g <= (2 * t * s + dd) * x * (lim + 1)) by (nonlinear_arith)
                requires
                    2 * dd * lim * g <= (2 * t * s + dd) * 2 * x * (lim + 1),
            ;
            assert(2 * t * s * 0x8000_0000 <= dd * s * 2) by (nonlinear_arith)
                requires
                    t <= 0xffff_ffff,
                    dd >= 0x8000_0000_0000_0000,
                    s >= 1,
            ;
            assert(2 * g + s < 2 * s * (x + 1)) by (nonlinear_arith)
                requires
                    dd * lim * g <= (2 * t * s + dd) * x * (lim + 1),
                    2 * t * s * 0x8000_0000 <= dd * s * 2,
                    s * 0x2_0000_0000 >= lim * 0x8000_0000_0000_0000,
                    dd >= 0x8000_0000_0000_0000,
                    x >= 0,
                    g >= 0,
                    lim == 0x20_0000_0000_0000,
            ;
        }
        assert(0 <= (2 * g + s) / (2 * s) <= x) by (nonlinear_arith)
            requires
                2 * g + s < 2 * s * (x + 1),
                g >= 0,
                s >= 1,
        ;
    }
}

/// What `quotient_unit_from` gives: a power of two `s` from `unit` up,
/// with `n * s` still below `d * lim` and, for `n > 0`, `2 * n * s` at
/// least `d * lim`.
pub proof fn lemma_quotient_unit(n: nat, d: nat, lim: nat, unit: nat)
    requires
        unit >= 1,
        n * unit < d * lim,
        d * lim <= 0x40_0000_0000_0000_0000_0000_0000_0000,
    ensures
        ({
            let s = quotient_unit_from(n, d, lim, unit);
            &&& s >= 1
            &&& n * s < d * lim
            &&& n == 0 ==> s == unit
            &&& n > 0 ==> 2 * n * s >= d * lim
        }),
    decreases 0x100_0000_0000_0000_0000_0000_0000_0000 - unit,
{
    if n > 0 {
        assert(unit <= n * unit) by (nonlinear_arith)
            requires
                n >= 1,
                unit >= 1,
        ;
        if 2 * n * unit < d * lim {
            assert(n * (unit * 2) < d * lim) by (nonlinear_arith)
                requires
                    2 * n * unit < d * lim,
            ;
            lemma_quotient_unit(n, d, lim, unit * 2);
        }
    }
}

/// A random number scaled in double precision by the quotient by `d`, the
/// largest `u32` (with a bound of 32 bits) or `u64`, is at most its bound.
pub proof fn lemma_scale_double_quotient_bound(t: u32, d: u64, x: u64)
    requires
        (d == 0xffff_ffff && x <= 0xffff_ffff) || d == 0xffff_ffff_ffff_ffff,
    ensures
        0 <= scale_double_quotient(t as nat, d as nat, x as nat) <= x,
{
    let lim: nat = 0x20_0000_0000_0000;
    let dd = round_significand(d as nat, lim);
    let xx = round_significand(x as nat, lim);
    lemma_round_significand_bound(d as nat, lim);
    lemma_round_significand_from_lower(d as nat, lim, 1, 128);
    lemma_round_significand_bound(x as nat, lim);
    if d == 0xffff_ffff {
        lemma_round_significand_small(d as nat, lim);
        lemma_round_significand_small(x as nat, lim);
    } else {
        assert(dd >= 0x8000_0000_0000_0000 && dd <= 0x1_0000_0000_0000_0800) by (nonlinear_arith)
            requires
                lim * dd >= d * (lim - 1),
                lim * dd <= d * (lim + 1),
                d == 0xffff_ffff_ffff_ffff,
                lim == 0x20_0000_0000_0000,
        ;
        assert(xx <= 2 * x) by (nonlinear_arith)
            requires
                lim * xx <= x * (lim + 1),
                lim == 0x20_0000_0000_0000,
        ;
    }
    assert(dd * lim <= 0x40_0000_0000_0000_0000_0000_0000_0000 && t * 1 < dd * lim) by (nonlinear_arith)
        requires
            0xffff_ffff <= dd <= 0x1_0000_0000_0000_0800,
            t <= 0xffff_ffff,
            lim == 0x20_0000_0000_0000,
    ;
    lemma_quotient_unit(t as nat, dd, lim, 1);
    let s = quotient_unit_from(t as nat, dd, lim, 1);
    let n: nat = (t * s) as nat;
    let q0 = n / dd;
    let rem = n % dd;
    let q = round_quotient(n, dd);
    assert(q0 * dd + rem == n && 0 <= rem < dd) by (nonlinear_arith)
        requires
            dd >= 1,
            q0 == n / dd,
            rem == n % dd,
    ;
    if 2 * rem > dd || (2 * rem == dd && q0 % 2 == 1) {
        assert(2 * q * dd <= 2 * n + dd) by (nonlinear_arith)
            requires
                q0 * dd + rem == n,
                2 * rem >= dd,
                q == q0 + 1,
        ;
    } else {
        assert(2 * q * dd <= 2 * n + dd) by (nonlinear_arith)
            requires
                q0 * dd + rem == n,
                rem >= 0,
                dd >= 1,
                q == q0,
        ;
    }
    assert(2 * n == 2 * t * s) by (nonlinear_arith)
        requires
            n == t * s,
    ;
    let g = round_significand(q * xx, lim);
    lemma_round_significand_bound(q * xx, lim);
    lemma_quotient_product_within(t as int, d as int, x as int, dd as int, xx as int, s as int, q as int, g as int);
}

/// `scale_double_quotient(t, d, x)` for `d` the largest `u32` or `u64`;
/// it is at most `x`.
fn scale_double_quotient_u64(t: u32, d: u64, x: u64) -> (r: u64)
    requires
        (d == 0xffff_ffff && x <= 0xffff_ffff) || d == 0xffff_ffff_ffff_ffff,
    ensures
        r == scale_double_quotient(t as nat, d as nat, x as nat),
        r <= x,
{
    let lim: u128 = 0x20_0000_0000_0000;
    let dd = round_significand_u128(d as u128, lim);
    let xx = round_significand_u128(x as u128, lim);
    proof {
        lemma_round_significand_bound(d as nat, lim as nat);
        lemma_round_significand_from_lower(d as nat, lim as nat, 1, 128);
        lemma_round_significand_bound(x as nat, lim as nat);
        if d == 0xffff_ffff {
            lemma_round_significand_small(d as nat, lim as nat);
            lemma_round_significand_small(x as nat, lim as nat);
        } else {
            assert(dd >= 0x8000_0000_0000_0000 && dd <= 0x1_0000_0000_0000_0800) by (nonlinear_arith)
                requires
                    lim * dd >= d * (lim - 1),
                    lim * dd <= d * (lim + 1),
                    d == 0xffff_ffff_ffff_ffff,
                    lim == 0x20_0000_0000_0000,
            ;
            assert(xx <= 2 * x) by (nonlinear_arith)
                requires
                    lim * xx <= x * (lim + 1),
                    lim == 0x20_0000_0000_0000,
            ;
        }
    }
    let tt = t as u128;
    let mut s: u128 = 1;
    proof {
        assert(dd * lim <= 0x40_0000_0000_0000_0000_0000_0000_0000) by (nonlinear_arith)
            requires
                dd <= 0x1_0000_0000_0000_0800,
                lim == 0x20_0000_0000_0000,
        ;
        assert(2 * tt * s <= 0x80_0000_0000_0000_0000_0000_0000_0000) by (nonlinear_arith)
            requires
                tt <= 0xffff_ffff,
                s == 1,
        ;
    }
    while s < 0x80_0000_0000_0000_0000_0000_0000_0000 && tt > 0 && 2 * tt * s < dd * lim
        invariant
            1 <= s,
            tt * s < dd * lim,
            dd * lim <= 0x40_0000_0000_0000_0000_0000_0000_0000,
            2 * tt * s <= 0x80_0000_0000_0000_0000_0000_0000_0000,
            tt == 0 ==> s == 1,
            dd >= 0xffff_ffff,
            dd <= 0x1_0000_0000_0000_0800,
            lim == 0x20_0000_0000_0000,
            tt == t,
            quotient_unit_from(t as nat, dd as nat, lim as nat, s as nat) == quotient_unit_from(
                t as nat,
                dd as nat,
                lim as nat,
                1,
            ),
        decreases 0x100_0000_0000_0000_0000_0000_0000_0000 - s,
    {
        proof {
            assert(2 * tt * (s * 2) <= 0x80_0000_0000_0000_0000_0000_0000_0000 && tt * (s * 2) < dd * lim) by (nonlinear_arith)
                requires
                    2 * tt * s < dd * lim,
                    dd * lim <= 0x40_0000_0000_0000_0000_0000_0000_0000,
            ;
        }
        s = s * 2;
    }
    proof {
        if tt > 0 {
            assert(s <= tt * s) by (nonlinear_arith)
                requires
                    tt >= 1,
                    s >= 1,
            ;
        }
    }
    let n = tt * s;
    let q0 = n / dd;
    let rem = n % dd;
    proof {
        assert(q0 * dd + rem == n && rem < dd) by (nonlinear_arith)
            requires
                dd >= 1,
                q0 == n / dd,
                rem == n % dd,
        ;
        assert(q0 < lim) by (nonlinear_arith)
            requires
                q0 * dd <= n,
                n < dd * lim,
                dd >= 1,
        ;
    }
    let q = if 2 * rem > dd || (2 * rem == dd && q0 % 2 == 1) {
        proof {
            assert(2 * (q0 + 1) * dd <= 2 * n + dd) by (nonlinear_arith)
                requires
                    q0 * dd + rem == n,
                    2 * rem >= dd,
            ;
        }
        q0 + 1
    } else {
        proof {
            assert(2 * q0 * dd <= 2 * n + dd) by (nonlinear_arith)
                requires
                    q0 * dd + rem == n,
                    rem >= 0,
                    dd >= 1,
            ;
        }
        q0
    };
    proof {
        assert(q * xx <= 0x20_0000_0000_0000 * 0x2_0000_0000_0000_1000) by (nonlinear_arith)
            requires
                q <= lim,
                lim == 0x20_0000_0000_0000,
                xx <= 0x2_0000_0000_0000_1000,
        ;
    }
    let g = round_significand_u128(q * xx, lim);
    proof {
        lemma_round_significand_bound((q * xx) as nat, lim as nat);
        assert(2 * n == 2 * t * s) by (nonlinear_arith)
            requires
                n == tt * s,
                tt == t,
        ;
        assert(2 * g + 2 * s <= 0x1000_0000_0000_0000_0000_0000_0000_0000) by (nonlinear_arith)
            requires
                lim * g <= (q * xx) * (lim + 1),
                q * xx <= 0x20_0000_0000_0000 * 0x2_0000_0000_0000_1000,
                lim == 0x20_0000_0000_0000,
                s < 0x80_0000_0000_0000_0000_0000_0000_0000,
        ;
        lemma_quotient_product_within(t as int, d as int, x as int, dd as int, xx as int, s as int, q as int, g as int);
    }
    ((2 * g + s) / (2 * s)) as u64
}

/// `t` times `x` in binary floating point whose significands are below
/// `lim`: `t` rounded to such a significand, times `x` (which it holds
/// exactly), the product rounded the same way.
pub open spec fn float_product(t: nat, x: nat, lim: nat) -> nat {
    round_significand(round_significand(t, lim) * x, lim)
}

/// `float_product(t, x, lim)`; it is at most `t * x * (1 + 1 / lim)^2`.
fn float_product_u128(t: u128, x: u128, lim: u128) -> (a: u128)
    requires
        lim >= 2,
        t <= 0x1_0000_0000_0000_0000,
        (t + t / lim) * x <= 0x4000_0000_0000_0000_0000_0000_0000_0000,
    ensures
        a == float_product(t as nat, x as nat, lim as nat),
        a * (lim * lim) <= t * x * ((lim + 1) * (lim + 1)),
{
    let f = round_significand_u128(t, lim);
    proof {
        lemma_round_significand_bound(t as nat, lim as nat);
        assert(f <= t + t / lim) by (nonlinear_arith)
            requires
                lim * f <= t * (lim + 1),
                lim >= 2,
        ;
        assert(f * x <= (t + t / lim) * x) by (nonlinear_arith)
            requires
                f <= t + t / lim,
        ;
    }
    let a = round_significand_u128(f * x, lim);
    proof {
        lemma_round_significand_bound((f * x) as nat, lim as nat);
        assert(a * (lim * lim) <= t * x * ((lim + 1) * (lim + 1))) by (nonlinear_arith)
            requires
                lim * f <= t * (lim + 1),
                lim * a <= (f * x) * (lim + 1),
                lim >= 2,
        ;
    }
    a
}

/// `float_product(t, x, lim)` is at most `t * x * (1 + 1 / lim)^2`.
pub proof fn lemma_float_product_bound(t: nat, x: nat, lim: nat)
    requires
        lim >= 2,
    ensures
        float_product(t, x, lim) * (lim * lim) <= t * x * ((lim + 1) * (lim + 1)),
{
    let f = round_significand(t, lim);
    let a = round_significand(f * x, lim);
    lemma_round_significand_bound(t, lim);
    lemma_round_significand_bound(f * x, lim);
    assert(a * (lim * lim) <= t * x * ((lim + 1) * (lim + 1))) by (nonlinear_arith)
        requires
            lim * f <= t * (lim + 1),
            lim * a <= (f * x) * (lim + 1),
            lim >= 2,
    ;
}

/// A random number scaled to `bound` in single precision is at most
/// `bound`.
pub proof fn lemma_scale_single_bound(raw: u32, bound: u16)
    ensures
        0 <= scale_single(raw as nat, bound as nat) <= bound,
{
    let a = float_product(raw as nat, bound as nat, 0x100_0000);
    lemma_float_product_bound(raw as nat, bound as nat, 0x100_0000);
    assert(4 * raw * bound * (2 * 0x100_0000 + 1) <= 0x1_0000_0000 * (0x100_0000 * 0x100_0000)) by (nonlinear_arith)
        requires
            raw <= 0xffff_ffff,
            bound <= 0xffff,
    ;
    lemma_float_product_rounds_within(a as int, raw as int, bound as int, 0x100_0000, 0x1_0000_0000);
}

/// A random number scaled to `bound` in single precision (a bound of 16
/// bits) or double precision (one of 32 bits) lies between `-|bound|` and
/// `|bound|`.
pub proof fn lemma_scale_signed_float_bound(raw: i32, bound: int, lim: nat)
    requires
        (lim == 0x100_0000 && -0x8000 <= bound <= 0x8000) || (lim == 0x20_0000_0000_0000 && -0x8000_0000
            <= bound <= 0x8000_0000),
    ensures
        -magnitude(bound) <= scale_signed_float(raw as int, bound, lim) <= magnitude(bound),
{
    let t = magnitude(raw as int);
    let x = magnitude(bound);
    let a = float_product(t, x, lim);
    lemma_float_product_bound(t, x, lim);
    assert(4 * t * x * (2 * lim + 1) <= 0x8000_0000 * (lim * lim)) by (nonlinear_arith)
        requires
            t <= 0x8000_0000,
            (lim == 0x100_0000 && x <= 0x8000) || (lim == 0x20_0000_0000_0000 && x <= 0x8000_0000),
    ;
    lemma_float_product_rounds_within(a as int, t as int, x as int, lim as int, 0x8000_0000);
}

/// A product bounded as `float_product`'s is, with a small enough `x`,
/// over `2^e` and rounded, is at most `x`.
pub proof fn lemma_float_product_rounds_within(a: int, t: int, x: int, lim: int, e: int)
    requires
        lim >= 2,
        e >= 4,
        0 <= t <= e,
        0 <= x,
        0 <= a,
        a * (lim * lim) <= t * x * ((lim + 1) * (lim + 1)),
        4 * t * x * (2 * lim + 1) <= e * (lim * lim),
    ensures
        0 <= round_div(a, e) <= x,
        4 * a <= 4 * e * x + e,
{
    assert(t * x * ((lim + 1) * (lim + 1)) <= e * x * (lim * lim) + e * (lim * lim) / 4) by (nonlinear_arith)
        requires
            0 <= t <= e,
            0 <= x,
            4 * t * x * (2 * lim + 1) <= e * (lim * lim),
    ;
    assert(4 * a <= 4 * e * x + e) by (nonlinear_arith)
        requires
            a * (lim * lim) <= e * x * (lim * lim) + e * (lim * lim) / 4,
            lim >= 2,
    ;
    assert(0 <= (2 * a + e) / (2 * e) <= x) by (nonlinear_arith)
        requires
            4 * a <= 4 * e * x + e,
            e >= 4,
            a >= 0,
    ;
}

/// `raw / u32::MAX * bound` in single precision (where `u32::MAX` is
/// `2^32`), rounded to the nearest integer, halves away from zero.
pub open spec fn scale_single(raw: nat, bound: nat) -> int {
    round_div(float_product(raw, bound, 0x100_0000) as int, 0x1_0000_0000)
}

/// `scale_single(raw, bound)`; it is at most `bound`.
fn scale_single_u64(raw: u32, bound: u64) -> (r: u64)
    requires
        bound <= 0xffff,
    ensures
        r == scale_single(raw as nat, bound as nat),
        r <= bound,
{
    proof {
        assert((raw + raw / 0x100_0000) * bound <= 0x4000_0000_0000_0000_0000_0000_0000_0000) by (nonlinear_arith)
            requires
                raw <= 0xffff_ffff,
                bound <= 0xffff,
        ;
    }
    let a = float_product_u128(raw as u128, bound as u128, 0x100_0000);
    proof {
        assert(4 * raw * bound * (2 * 0x100_0000 + 1) <= 0x1_0000_0000 * (0x100_0000 * 0x100_0000)) by (nonlinear_arith)
            requires
                raw <= 0xffff_ffff,
                bound <= 0xffff,
        ;
        lemma_float_product_rounds_within(a as int, raw as int, bound as int, 0x100_0000, 0x1_0000_0000);
    }
    ((2 * a + 0x1_0000_0000) / 0x2_0000_0000) as u64
}

/// `|v|`.
pub open spec fn magnitude(v: int) -> nat {
    if v < 0 {
        (-v) as nat
    } else {
        v as nat
    }
}

/// `raw / i32::MIN * bound` in binary floating point whose significands
/// are below `lim` (`i32::MIN` is `-2^31` there), rounded to the nearest
/// integer, halves away from zero.
pub open spec fn scale_signed_float(raw: int, bound: int, lim: nat) -> int {
    let a = float_product(magnitude(raw), magnitude(bound), lim) as int;
    round_div(
        if raw * bound > 0 {
            -a
        } else {
            a
        },
        0x8000_0000,
    )
}

/// `scale_signed_float(raw, bound, lim)` saturated to `lo..=hi`: in single
/// precision (`lim` is `2^24`) for a bound of 16 bits, in double
/// precision (`2^53`) for one of 32 bits.
fn scale_signed_float_i64(raw: i32, bound: i64, lim: u64, lo: i64, hi: i64) -> (r: i64)
    requires
        lo <= hi,
        (lim == 0x100_0000 && -0x8000 <= bound <= 0x8000) || (lim == 0x20_0000_0000_0000 && -0x8000_0000
            <= bound <= 0x8000_0000),
    ensures
        r == clamp(scale_signed_float(raw as int, bound as int, lim as nat), lo as int, hi as int),
{
    let t: u64 = if raw < 0 {
        (-(raw as i64)) as u64
    } else {
        raw as u64
    };
    let x: u64 = if bound < 0 {
        (-bound) as u64
    } else {
        bound as u64
    };
    proof {
        assert((t + t / lim) * x <= 0x4000_0000_0000_0000_0000_0000_0000_0000) by (nonlinear_arith)
            requires
                t <= 0x8000_0000,
                (lim == 0x100_0000 && x <= 0x8000) || (lim == 0x20_0000_0000_0000 && x <= 0x8000_0000),
        ;
    }
    let a = float_product_u128(t as u128, x as u128, lim as u128);
    proof {
        assert(4 * t * x * (2 * lim + 1) <= 0x8000_0000 * (lim * lim)) by (nonlinear_arith)
            requires
                t <= 0x8000_0000,
                (lim == 0x100_0000 && x <= 0x8000) || (lim == 0x20_0000_0000_0000 && x <= 0x8000_0000),
        ;
        lemma_float_product_rounds_within(a as int, t as int, x as int, lim as int, 0x8000_0000);
    }
    let m: i64 = ((2 * a + 0x8000_0000) / 0x1_0000_0000) as i64;
    let v: i64 = if (raw < 0 && bound < 0) || (raw > 0 && bound > 0) {
        -m
    } else {
        m
    };
    proof {
        assert((raw * bound > 0) == ((raw < 0 && bound < 0) || (raw > 0 && bound > 0))) by (nonlinear_arith);
    }
    if v < lo {
        lo
    } else if v > hi {
        hi
    } else {
        v
    }
}

/// `raw / isize::MIN * bound` in double precision (`isize::MIN` is a
/// power of two there, and `bound` is rounded to a 53-bit significand),
/// rounded to the nearest integer, halves away from zero.
pub open spec fn scale_isize(raw: int, bound: int) -> int {
    let a = float_product(magnitude(bound), magnitude(raw), 0x20_0000_0000_0000) as int;
    round_div(
        if raw * bound > 0 {
            -a
        } else {
            a
        },
        isize::MAX + 1,
    )
}

/// A product of a bound of `isize` and at most `2^31` in double
/// precision, over `isize::MIN` and rounded, is at most the bound.
pub proof fn lemma_isize_product_rounds_within(a: int, t: int, x: int)
    requires
        0 <= t <= 0x8000_0000,
        0 <= x <= isize::MAX + 1,
        0 <= a,
        a * (0x20_0000_0000_0000 * 0x20_0000_0000_0000) <= x * t * ((0x20_0000_0000_0000 + 1) * (
        0x20_0000_0000_0000 + 1)),
    ensures
        0 <= round_div(a, isize::MAX + 1) <= x,
        4 * a <= 4 * (isize::MAX + 1) * x + (isize::MAX + 1),
{
    let lim: int = 0x20_0000_0000_0000;
    let e: int = isize::MAX + 1;
    assert(e == 0x8000_0000 || e == 0x8000_0000_0000_0000);
    assert(4 * t * x * (2 * lim + 1) <= e * (lim * lim)) by (nonlinear_arith)
        requires
            0 <= t <= 0x8000_0000,
            0 <= x <= e,
            lim == 0x20_0000_0000_0000,
    ;
    assert(x * t == t * x) by (nonlinear_arith);
    lemma_float_product_rounds_within(a, t, x, lim, e);
}

/// The methods of randomness: the RDRAND instruction, or the seeded LFSR
/// table.
#[derive(Debug, Copy, Clone, PartialEq, Eq, Structural)]
pub enum Methods {
    Rdrand,
    Lfsr16,
}

/// Scaling of 32 random bits to a bound, for each type.
pub trait Rand: Sized {
    /// What `randup` gives.
    spec fn randup_spec(self, raw: u32) -> Self;

    /// The 32 random bits `raw`, scaled to the bound `self`.
    fn randup(self, raw: u32) -> (r: Self)
        ensures
            r == self.randup_spec(raw),
    ;
}

impl Rand for u32 {
    open spec fn randup_spec(self, raw: u32) -> Self {
        scale_double_quotient(raw as nat, u32::MAX as nat, self as nat) as u32
    }

    /// `raw / `u32::MAX` * self` in double precision, rounded: from 0 to
    /// `self`.
    fn randup(self, raw: u32) -> (r: Self) {
        let v = scale_double_quotient_u64(raw, u32::MAX as u64, self as u64);
        v as u32
    }
}

impl Rand for u16 {
    open spec fn randup_spec(self, raw: u32) -> Self {
        scale_single(raw as nat, self as nat) as u16
    }

    /// `raw / `u32::MAX` * self` in single precision, rounded: from 0 to
    /// `self`.
    fn randup(self, raw: u32) -> (r: Self) {
        let v = scale_single_u64(raw, self as u64);
        v as u16
    }
}

impl Rand for u8 {
    open spec fn randup_spec(self, raw: u32) -> Self {
        scale_single(raw as nat, self as nat) as u8
    }

    /// `raw / `u32::MAX` * self` in single precision, rounded: from 0 to
    /// `self`.
    fn randup(self, raw: u32) -> (r: Self) {
        let v = scale_single_u64(raw, self as u64);
        v as u8
    }
}

impl Rand for usize {
    open spec fn randup_spec(self, raw: u32) -> Self {
        scale_double_quotient(raw as nat, usize::MAX as nat, self as nat) as usize
    }

    /// `raw / `usize::MAX` * self` in double precision, rounded: from 0 to
    /// `self`.
    fn randup(self, raw: u32) -> (r: Self) {
        let v = scale_double_quotient_u64(raw, usize::MAX as u64, self as u64);
        v as usize
    }
}

impl Rand for i32 {
    open spec fn randup_spec(self, raw: u32) -> Self {
        clamp(scale_signed_float((raw as i32) as int, self as int, 0x20_0000_0000_0000), i32::MIN as int, i32::MAX as int) as i32
    }

    /// `raw` read as an `i32`, over `i32::MIN`, times `self`, in double
    /// precision, rounded and saturated to the type: from `self` to `-self`.
    fn randup(self, raw: u32) -> (r: Self) {
        let v = scale_signed_float_i64(raw as i32, self as i64, 0x20_0000_0000_0000, i32::MIN as i64, i32::MAX as i64);
        v as i32
    }
}

impl Rand for i16 {
    open spec fn randup_spec(self, raw: u32) -> Self {
        clamp(scale_signed_float((raw as i32) as int, self as int, 0x100_0000), i16::MIN as int, i16::MAX as int) as i16
    }

    /// `raw` read as an `i32`, over `i32::MIN`, times `self`, in single
    /// precision, rounded and saturated to the type: from `self` to `-self`.
    fn randup(self, raw: u32) -> (r: Self) {
        let v = scale_signed_float_i64(raw as i32, self as i64, 0x100_0000, i16::MIN as i64, i16::MAX as i64);
        v as i16
    }
}

impl Rand for i8 {
    open spec fn randup_spec(self, raw: u32) -> Self {
        clamp(scale_signed_float((raw as i32) as int, self as int, 0x100_0000), i8::MIN as int, i8::MAX as int) as i8
    }

    /// `raw` read as an `i32`, over `i32::MIN`, times `self`, in single
    /// precision, rounded and saturated to the type: from `self` to `-self`.
    fn randup(self, raw: u32) -> (r: Self) {
        let v = scale_signed_float_i64(raw as i32, self as i64, 0x100_0000, i8::MIN as i64, i8::MAX as i64);
        v as i8
    }
}

impl Rand for isize {
    open spec fn randup_spec(self, raw: u32) -> Self {
        clamp(scale_isize((raw as i32) as int, self as int), isize::MIN as int, isize::MAX as int) as isize
    }

    /// `raw` read as an `i32`, over `isize::MIN`, times `self`, in double
    /// precision, rounded and saturated to the type.
    fn randup(self, raw: u32) -> (r: Self) {
        let t = raw as i32;
        let tm: u128 = if t < 0 {
            (-(t as i64)) as u128
        } else {
            t as u128
        };
        let xm: u128 = if self < 0 {
            (-(self as i128)) as u128
        } else {
            self as u128
        };
        let lim: u128 = 0x20_0000_0000_0000;
        let e: u128 = isize::MAX as u128 + 1;
        proof {
            assert((xm + xm / lim) * tm <= 0x4000_0000_0000_0000_0000_0000_0000_0000) by (nonlinear_arith)
                requires
                    tm <= 0x8000_0000,
                    xm <= 0x8000_0000_0000_0000,
                    lim == 0x20_0000_0000_0000,
            ;
        }
        let a = float_product_u128(xm, tm, lim);
        proof {
            lemma_isize_product_rounds_within(a as int, tm as int, xm as int);
            assert(2 * a + 2 * e <= 0xffff_ffff_ffff_ffff_ffff_ffff_ffff_ffff) by (nonlinear_arith)
                requires
                    4 * a <= 4 * e * xm + e,
                    e <= 0x8000_0000_0000_0000,
                    xm <= 0x8000_0000_0000_0000,
            ;
        }
        let m: i128 = ((2 * a + e) / (2 * e)) as i128;
        let v: i128 = if (t < 0 && self < 0) || (t > 0 && self > 0) {
            -m
        } else {
            m
        };
        proof {
            assert((t * self > 0) == ((t < 0 && self < 0) || (t > 0 && self > 0))) by (nonlinear_arith);
        }
        if v < isize::MIN as i128 {
            isize::MIN
        } else if v > isize::MAX as i128 {
            isize::MAX
        } else {
            v as isize
        }
    }
}

impl Rand for bool {
    open spec fn randup_spec(self, raw: u32) -> Self {
        crate::bits::bit_of_u32(raw, 0)
    }

    /// Bit 0 of `raw`.
    fn randup(self, raw: u32) -> (r: Self) {
        crate::bits::get_bit_u32(raw, 0)
    }
}


/// A random `u32` scaled to `bound` is at most `bound`.
pub proof fn lemma_rand_u32_bound(bound: u32, raw: u32)
    ensures
        bound.randup_spec(raw) <= bound,
{
    lemma_scale_double_quotient_bound(raw, u32::MAX as u64, bound as u64);
}

/// A random `u16` scaled to `bound` is at most `bound`.
pub proof fn lemma_rand_u16_bound(bound: u16, raw: u32)
    ensures
        bound.randup_spec(raw) <= bound,
{
    lemma_scale_single_bound(raw, bound);
}

/// A random `u8` scaled to `bound` is at most `bound`.
pub proof fn lemma_rand_u8_bound(bound: u8, raw: u32)
    ensures
        bound.randup_spec(raw) <= bound,
{
    lemma_scale_single_bound(raw, bound as u16);
}

/// A random `usize` scaled to `bound` is at most `bound`.
pub proof fn lemma_rand_usize_bound(bound: usize, raw: u32)
    ensures
        bound.randup_spec(raw) <= bound,
{
    lemma_scale_double_quotient_bound(raw, usize::MAX as u64, bound as u64);
}

/// A random `i8` scaled to `bound` lies between `-|bound|` and `|bound|`
/// (saturated to `i8::MAX` for `bound == i8::MIN`).
pub proof fn lemma_rand_i8_bound(bound: i8, raw: u32)
    ensures
        bound <= 0 ==> bound <= bound.randup_spec(raw) <= -bound,
        bound >= 0 ==> -bound <= bound.randup_spec(raw) <= bound,
{
    lemma_scale_signed_float_bound(raw as i32, bound as int, 0x100_0000);
}

/// A random `isize` scaled to `bound` lies between `-|bound|` and
/// `|bound|`.
pub proof fn lemma_rand_isize_bound(bound: isize, raw: u32)
    ensures
        bound <= 0 ==> bound <= bound.randup_spec(raw) <= -bound,
        bound >= 0 ==> -bound <= bound.randup_spec(raw) <= bound,
{
    let t = magnitude((raw as i32) as int);
    let x = magnitude(bound as int);
    let lim: nat = 0x20_0000_0000_0000;
    let a = float_product(x, t, lim);
    lemma_float_product_bound(x, t, lim);
    lemma_isize_product_rounds_within(a as int, t as int, x as int);
}

/// A random `i32` scaled to `bound` lies between `-|bound|` and `|bound|`
/// (saturated to `i32::MAX` for `bound == i32::MIN`).
pub proof fn lemma_rand_i32_bound(bound: i32, raw: u32)
    ensures
        bound <= 0 ==> bound <= bound.randup_spec(raw) <= -bound,
        bound >= 0 ==> -bound <= bound.randup_spec(raw) <= bound,
{
    lemma_scale_signed_float_bound(raw as i32, bound as int, 0x20_0000_0000_0000);
}

/// A random `i16` scaled to `bound` lies between `-|bound|` and `|bound|`
/// (saturated to `i16::MAX` for `bound == i16::MIN`).
pub proof fn lemma_rand_i16_bound(bound: i16, raw: u32)
    ensures
        bound <= 0 ==> bound <= bound.randup_spec(raw) <= -bound,
        bound >= 0 ==> -bound <= bound.randup_spec(raw) <= bound,
{
    lemma_scale_signed_float_bound(raw as i32, bound as int, 0x100_0000);
}


/// `rand` and `srand`: a number scaled to a bound, from 32 random bits or
/// from the next word of the seeded LFSR table.
pub trait Random: Sized {
    /// What `rand` and `srand` give for the 32 bits `raw`.
    spec fn random_spec(self, raw: u32) -> Self;

    /// The 32 random bits `raw` (RDRAND's), scaled to `self`.
    fn rand(self, raw: u32) -> (r: Self)
        ensures
            r == self.random_spec(raw),
    ;

    /// The next word of the LFSR table, which must be seeded, scaled to
    /// `self`.
    fn srand(self, lfsr: &mut LfsrFibonnaci) -> (r: Self)
        requires
            old(lfsr).wf(),
            old(lfsr).seed() is Some,
        ensures
            final(lfsr).wf(),
            final(lfsr).seed() == old(lfsr).seed(),
            final(lfsr).registers_view() == old(lfsr).registers_view(),
            final(lfsr).offset() == lfsr16::next_offset(old(lfsr).offset()),
            r == self.random_spec(old(lfsr).registers_view()[old(lfsr).offset() as int]),
    ;
}

impl<T: Rand> Random for T {
    open spec fn random_spec(self, raw: u32) -> Self {
        self.randup_spec(raw)
    }

    fn rand(self, raw: u32) -> (r: Self) {
        self.randup(raw)
    }

    fn srand(self, lfsr: &mut LfsrFibonnaci) -> (r: Self) {
        let raw = match lfsr16_get_pseudo_number(lfsr) {
            Ok(raw) => raw,
            Err(_) => 0,
        };
        self.randup(raw)
    }
}

/// `x.rand(raw)`.
pub fn rand<T: Random>(x: T, raw: u32) -> (r: T)
    ensures
        r == x.random_spec(raw),
{
    x.rand(raw)
}

/// `x.srand(lfsr)`.
pub fn srand<T: Random>(x: T, lfsr: &mut LfsrFibonnaci) -> (r: T)
    requires
        old(lfsr).wf(),
        old(lfsr).seed() is Some,
    ensures
        final(lfsr).wf(),
        final(lfsr).seed() == old(lfsr).seed(),
        final(lfsr).registers_view() == old(lfsr).registers_view(),
        final(lfsr).offset() == lfsr16::next_offset(old(lfsr).offset()),
        r == x.random_spec(old(lfsr).registers_view()[old(lfsr).offset() as int]),
{
    x.srand(lfsr)
}

/// Seeds the LFSR table with `seed`, which must not be 0.
pub fn srand_init(lfsr: &mut LfsrFibonnaci, seed: u16) -> (r: MathResult<()>)
    requires
        old(lfsr).wf(),
    ensures
        final(lfsr).wf(),
        r == (if seed == 0 {
            Err::<(), MathError>(MathError::OutOfBound)
        } else {
            Ok(())
        }),
        seed != 0 ==> final(lfsr).seed() == Some(seed),
        seed == 0 ==> *final(lfsr) == *old(lfsr),
{
    lfsr16_set_seed(lfsr, seed)
}

} // verus!
