//! Milliseconds as seconds with one decimal.
//!
//! A duration is divided as a binary fraction of 53 bits, the nearest one to the
//! true quotient, and that fraction is then rounded to a tenth. Both roundings go
//! to the nearest value and to the even one of two that are equally near.

use vstd::prelude::*;

use crate::strings::{cat3, dec, decimal};

verus! {

/// `n / d` rounded to the nearest integer, to the even one on a tie.
pub open spec fn half_even(n: nat, d: nat) -> nat {
    let q = n / d;
    let r = n % d;
    if 2 * r > d || (2 * r == d && q % 2 == 1) {
        q + 1
    } else {
        q
    }
}

/// Two to the 53: every smaller integer is a binary fraction of 53 bits.
pub const LIMIT: u128 = 0x20_0000_0000_0000;

/// Two to the 62: by it even a thousandth comes to a fraction of 53 bits.
pub const FINEST: u128 = 0x4000_0000_0000_0000;

/// The power of two by which `n` is divided to come below `bound`.
pub open spec fn excess(n: nat, bound: nat) -> nat
    decreases n,
{
    if n < bound || bound == 0 {
        1
    } else {
        2 * excess(n / 2, bound)
    }
}

/// The largest of `p`, `p / 2`, `p / 4`.. by which `x` stays below `bound`, or one.
pub open spec fn headroom(x: nat, bound: nat, p: nat) -> nat
    decreases p,
{
    if p <= 1 || x * p < bound {
        p
    } else {
        headroom(x, bound, p / 2)
    }
}

/// The integer of 53 significant bits nearest to `n`.
pub open spec fn nearest_integer(n: nat) -> nat {
    let k = excess(n, LIMIT as nat);
    half_even(n, k) * k
}

/// The tenths in the binary fraction of 53 bits nearest to `x / 1000`. The scale is the
/// largest one at which the quotient stays below two to the 53.
pub open spec fn tenths_of(x: nat) -> nat {
    let bound = 1000 * LIMIT as nat;
    if x < bound {
        let p = headroom(x, bound, FINEST as nat);
        half_even(10 * half_even(x * p, 1000), p)
    } else {
        let k = excess(x, bound);
        10 * (half_even(x, 1000 * k) * k)
    }
}

/// A duration in seconds with one decimal.
pub open spec fn seconds(ms: nat) -> Seq<char> {
    let t = tenths_of(nearest_integer(ms));
    decimal(t / 10) + "."@ + decimal(t % 10)
}

pub fn rounded(n: u128, d: u128) -> (r: u128)
    requires
        0 < d < 0x1_0000_0000_0000_0000_0000_0000_0000,
        n < 0x1_0000_0000_0000_0000_0000_0000_0000_0000 - 1,
    ensures
        r == half_even(n as nat, d as nat),
        d * r <= n + d,
{
    let q: u128 = n / d;
    let m: u128 = n % d;
    assert(q <= n && d * q + m == n) by (nonlinear_arith)
        requires
            q == n / d,
            m == n % d,
            d > 0,
            n >= 0,
    ;
    let up: bool = 2 * m > d || (2 * m == d && q % 2 == 1);
    let r: u128 = if up {
        q + 1
    } else {
        q
    };
    assert(d * r <= n + d) by (nonlinear_arith)
        requires
            d * q <= n,
            r == q || r == q + 1,
            d > 0,
            n >= 0,
            q >= 0,
    ;
    r
}

pub fn excess_of(n: u128, bound: u128) -> (r: u128)
    requires
        0 < bound,
        n <= 0x4_0000_0000_0000_0000,
    ensures
        r == excess(n as nat, bound as nat),
        1 <= r,
        r <= 2 * n + 1,
        bound * r <= 2 * n + bound,
{
    let mut m: u128 = n;
    let mut k: u128 = 1;
    while m >= bound
        invariant
            0 < bound,
            n <= 0x4_0000_0000_0000_0000,
            m <= n,
            1 <= k,
            k * m <= n,
            k == 1 || bound * k <= 2 * n,
            k <= 2 * n + 1,
            excess(n as nat, bound as nat) == k * excess(m as nat, bound as nat),
        decreases m,
    {
        let h: u128 = m / 2;
        assert(k <= n && 2 * k * h <= n && bound * (2 * k) <= 2 * n) by (nonlinear_arith)
            requires
                k * m <= n,
                m >= bound,
                bound >= 1,
                h == m / 2,
                k >= 1,
        ;
        proof {
            let e = excess(h as nat, bound as nat);
            assert(k * (2 * e) == (2 * k) * e) by (nonlinear_arith);
        }
        m = h;
        k = 2 * k;
    }
    proof {
        assert(k * 1 == k);
    }
    k
}

fn headroom_of(x: u128, bound: u128) -> (p: u128)
    requires
        x < bound,
        bound == 1000 * LIMIT,
    ensures
        p == headroom(x as nat, bound as nat, FINEST as nat),
        1 <= p <= FINEST,
        x * p < bound,
{
    let mut p: u128 = FINEST;
    while p > 1
        invariant
            x < bound,
            bound == 1000 * LIMIT,
            1 <= p <= FINEST,
            headroom(x as nat, bound as nat, FINEST as nat) == headroom(
                x as nat,
                bound as nat,
                p as nat,
            ),
        decreases p,
    {
        assert(x * p <= 0x4000_0000_0000_0000 * bound) by (nonlinear_arith)
            requires
                0 <= x < bound,
                1 <= p <= 0x4000_0000_0000_0000,
        ;
        if x * p < bound {
            return p;
        }
        p = p / 2;
    }
    assert(x * p < bound) by (nonlinear_arith)
        requires
            p == 1,
            0 <= x < bound,
    ;
    p
}

/// Seconds with one decimal, as in `13.0`.
pub fn seconds_text(ms: u64) -> (r: String)
    ensures
        r@ == seconds(ms as nat),
{
    let n: u128 = ms as u128;
    let k: u128 = excess_of(n, LIMIT);
    let whole: u128 = rounded(n, k);
    assert(k * whole == whole * k) by (nonlinear_arith);
    let x: u128 = k * whole;
    let bound: u128 = 1000 * LIMIT;
    assert(k <= 0x1000) by (nonlinear_arith)
        requires
            LIMIT * k <= 2 * n + LIMIT,
            n <= 0xffff_ffff_ffff_ffff,
            LIMIT == 0x20_0000_0000_0000,
    ;
    let t: u128 = if x < bound {
        let p: u128 = headroom_of(x, bound);
        let m: u128 = rounded(x * p, 1000);
        let t: u128 = rounded(10 * m, p);
        assert(100 * t <= x + 1100) by (nonlinear_arith)
            requires
                p >= 1,
                1000 * m <= x * p + 1000,
                p * t <= 10 * m + p,
                t >= 0,
                x >= 0,
        ;
        t
    } else {
        let j: u128 = excess_of(x, bound);
        assert(j <= 0x10) by (nonlinear_arith)
            requires
                bound * j <= 2 * x + bound,
                x <= 0x1_0000_0000_0001_0000,
                bound == 1000 * 0x20_0000_0000_0000,
        ;
        let m: u128 = rounded(x, 1000 * j);
        assert(j * m == m * j && 1000 * (j * m) <= x + 1000 * j) by (nonlinear_arith)
            requires
                (1000 * j) * m <= x + 1000 * j,
        ;
        10 * (j * m)
    };
    cat3(dec((t / 10) as u64).as_str(), ".", dec((t % 10) as u64).as_str())
}

} // verus!
