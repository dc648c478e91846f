use vstd::arithmetic::div_mod::{
    lemma_fundamental_div_mod, lemma_fundamental_div_mod_converse, lemma_mod_multiples_basic,
    lemma_mod_pos_bound,
};
use vstd::prelude::*;

verus! {

/// The largest multiple of `m` that is at most `x`, for `m > 0`.
pub open spec fn floor_multiple(x: int, m: int) -> int {
    (x / m) * m
}

/// What `MathHelper::round` gives: `x / (10 * n)` rounded down, times
/// `10 * n`. For `n > 0` that rounds `x` down to a multiple of `10 * n`; for
/// `n < 0` it rounds `x` up to a multiple of `10 * |n|`.
pub open spec fn round_to(x: int, n: int) -> int {
    if n > 0 {
        floor_multiple(x, 10 * n)
    } else {
        -floor_multiple(-x, -10 * n)
    }
}

/// Rounds `v` down to a multiple of `m`.
fn floor_to_multiple(v: i64, m: i64) -> (r: i64)
    requires
        0 < m <= 0x10_0000_0000,
        -0x1_0000_0000 <= v <= 0x1_0000_0000,
    ensures
        r == floor_multiple(v as int, m as int),
        r <= v < r + m,
        (r as int) % (m as int) == 0,
{
    let r: i64 = if v >= 0 {
        let q: i64 = v / m;
        assert(0 <= q * m <= v) by (nonlinear_arith)
            requires
                q == v / m,
                v >= 0,
                m > 0,
        ;
        q * m
    } else {
        let w: i64 = -v + m - 1;
        let q: i64 = w / m;
        assert(0 <= q * m <= w) by (nonlinear_arith)
            requires
                q == w / m,
                w >= 0,
                m > 0,
        ;
        -(q * m)
    };
    proof {
        let d = m as int;
        let q = (v as int) / d;
        if v < 0 {
            let w = -(v as int) + d - 1;
            lemma_fundamental_div_mod(w, d);
            lemma_mod_pos_bound(w, d);
            assert(v as int == (-(w / d)) * d + (d - 1 - w % d)) by (nonlinear_arith)
                requires
                    w == -(v as int) + d - 1,
                    w == d * (w / d) + (w % d),
            ;
            lemma_fundamental_div_mod_converse(v as int, d, -(w / d), d - 1 - w % d);
            assert(q == -(w / d));
            assert(r as int == -((w / d) * d));
            assert(r as int == q * d) by (nonlinear_arith)
                requires
                    r as int == -((w / d) * d),
                    q == -(w / d),
            ;
        } else {
            assert(r as int == q * d);
        }
        lemma_fundamental_div_mod(v as int, d);
        assert(0 <= (v as int) % d < d);
        assert(q * d <= v < q * d + d) by (nonlinear_arith)
            requires
                v as int == d * q + (v as int) % d,
                0 <= (v as int) % d < d,
        ;
        lemma_mod_multiples_basic(q, d);
    }
    r
}

/// The absolute value of `n`.
pub open spec fn abs(n: int) -> int {
    if n < 0 {
        -n
    } else {
        n
    }
}

/// Small numeric helpers.
pub struct MathHelper;

impl MathHelper {
    /// Rounds `x` to a multiple of `10 * |n|`: down when `n` is positive, up
    /// when it is negative.
    pub fn round(x: i32, n: i32) -> (r: i64)
        requires
            n != 0,
        ensures
            r == round_to(x as int, n as int),
            n > 0 ==> r <= x < r + 10 * n,
            n < 0 ==> r + 10 * n < x <= r,
            (r as int) % (10 * abs(n as int)) == 0,
    {
        if n > 0 {
            floor_to_multiple(x as i64, 10 * (n as i64))
        } else {
            let negated: i64 = -(n as i64);
            let m: i64 = 10 * negated;
            let f = floor_to_multiple(-(x as i64), m);
            proof {
                let k = (f as int) / (m as int);
                lemma_fundamental_div_mod(f as int, m as int);
                assert(-(f as int) == (-k) * (m as int)) by (nonlinear_arith)
                    requires
                        f as int == m * k + 0,
                ;
                lemma_mod_multiples_basic(-k, m as int);
            }
            -f
        }
    }
}

} // verus!
