//! The interval mapper: an affine rescaling of one interval onto another.
use vstd::prelude::*;
use vstd::arithmetic::div_mod::lemma_div_multiples_vanish;

verus! {

/// `n / d` rounded towards negative infinity, for either sign of `d`.
pub open spec fn floor_div(n: int, d: int) -> int {
    if d > 0 {
        n / d
    } else {
        (-n) / (-d)
    }
}

/// The value of `input` carried from the interval `a_lo..a_hi` onto
/// `b_lo..b_hi`: `(input - a_lo) * (b_hi - b_lo) / (a_hi - a_lo) + b_lo`,
/// with the quotient rounded down.
pub open spec fn map_spec(input: int, a_lo: int, a_hi: int, b_lo: int, b_hi: int) -> int {
    floor_div((input - a_lo) * (b_hi - b_lo), a_hi - a_lo) + b_lo
}

/// Rounded-down quotient of `n` by a nonzero `d`, on values that fit in `i128`.
fn floor_div_exec(n: i128, d: i128) -> (q: i128)
    requires
        d != 0,
        -0x1_0000_0000_0000_0000 <= n <= 0x1_0000_0000_0000_0000,
        -0x1_0000_0000 <= d <= 0x1_0000_0000,
    ensures
        q == floor_div(n as int, d as int),
{
    let (num, den): (i128, i128) = if d > 0 { (n, d) } else { (-n, -d) };
    if num >= 0 {
        ((num as u128) / (den as u128)) as i128
    } else {
        let up: u128 = ((-num) as u128 + (den as u128) - 1) / (den as u128);
        proof {
            lemma_floor_of_negative((-num) as int, den as int);
        }
        -(up as i128)
    }
}

/// Rounding a negative quotient down is rounding its size up.
proof fn lemma_floor_of_negative(p: int, e: int)
    requires
        p > 0,
        e > 0,
    ensures
        (-p) / e == -((p + e - 1) / e),
{
    let q = (p + e - 1) / e;
    let r = (p + e - 1) % e;
    vstd::arithmetic::div_mod::lemma_fundamental_div_mod(p + e - 1, e);
    assert(e * q + r == p + e - 1);
    assert((-q) * e + (e - 1 - r) == -p) by (nonlinear_arith)
        requires
            e * q + r == p + e - 1,
    ;
    vstd::arithmetic::div_mod::lemma_fundamental_div_mod_converse(-p, e, -q, e - 1 - r);
}

/// Rescales `input` from the interval `a` onto the interval `b`.
///
/// No clamping is done: an `input` outside `a` lands outside `b`. The caller
/// keeps `a.0 != a.1`.
pub fn map(input: i32, a: (i32, i32), b: (i32, i32)) -> (r: i32)
    requires
        a.1 != a.0,
        i32::MIN <= map_spec(input as int, a.0 as int, a.1 as int, b.0 as int, b.1 as int)
            <= i32::MAX,
    ensures
        r == map_spec(input as int, a.0 as int, a.1 as int, b.0 as int, b.1 as int),
{
    let x: i128 = input as i128 - a.0 as i128;
    let y: i128 = b.1 as i128 - b.0 as i128;
    let d: i128 = a.1 as i128 - a.0 as i128;
    assert(-0x1_0000_0000_0000_0000 <= x * y <= 0x1_0000_0000_0000_0000) by (nonlinear_arith)
        requires
            -0x1_0000_0000 <= x <= 0x1_0000_0000,
            -0x1_0000_0000 <= y <= 0x1_0000_0000,
    ;
    let q: i128 = floor_div_exec(x * y, d);
    (q + b.0 as i128) as i32
}

/// The mapper is the affine map `(input - a_lo) * (b_hi - b_lo) / (a_hi -
/// a_lo) + b_lo` rounded down: the exact quotient lies in `[r - b_lo, r -
/// b_lo + 1)`, and when `a_hi - a_lo` divides the product the result is the
/// exact value.
pub proof fn lemma_map_is_rounded_affine(input: int, a_lo: int, a_hi: int, b_lo: int, b_hi: int, k: int)
    requires
        a_hi != a_lo,
    ensures
        ({
            let d = a_hi - a_lo;
            let n = (input - a_lo) * (b_hi - b_lo);
            let q = map_spec(input, a_lo, a_hi, b_lo, b_hi) - b_lo;
            &&& d > 0 ==> q * d <= n < (q + 1) * d
            &&& d < 0 ==> q * d >= n > (q + 1) * d
            &&& n == k * d ==> map_spec(input, a_lo, a_hi, b_lo, b_hi) == k + b_lo
        }),
{
    let d = a_hi - a_lo;
    let n = (input - a_lo) * (b_hi - b_lo);
    let q = floor_div(n, d);
    if d > 0 {
        vstd::arithmetic::div_mod::lemma_fundamental_div_mod(n, d);
        let r = n % d;
        assert(q * d <= n < (q + 1) * d) by (nonlinear_arith)
            requires
                n == d * q + r,
                0 <= r < d,
        ;
        if n == k * d {
            lemma_div_multiples_vanish(k, d);
            assert(d * k == k * d) by (nonlinear_arith);
        }
    } else {
        vstd::arithmetic::div_mod::lemma_fundamental_div_mod(-n, -d);
        let r = (-n) % (-d);
        assert(q * d >= n > (q + 1) * d) by (nonlinear_arith)
            requires
                -n == (-d) * q + r,
                0 <= r < -d,
        ;
        if n == k * d {
            lemma_div_multiples_vanish(k, -d);
            assert(-n == (-d) * k) by (nonlinear_arith)
                requires
                    n == k * d,
            ;
        }
    }
}

/// The mapper is exact at both ends of the source interval: `a.0` lands on
/// `b.0` and `a.1` lands on `b.1`, whatever the two intervals are.
pub proof fn lemma_map_exact_at_endpoints(a_lo: int, a_hi: int, b_lo: int, b_hi: int)
    requires
        a_hi != a_lo,
    ensures
        map_spec(a_lo, a_lo, a_hi, b_lo, b_hi) == b_lo,
        map_spec(a_hi, a_lo, a_hi, b_lo, b_hi) == b_hi,
{
    let d = a_hi - a_lo;
    let k = b_hi - b_lo;
    assert((a_lo - a_lo) * k == 0);
    if d > 0 {
        lemma_div_multiples_vanish(k, d);
        assert((a_hi - a_lo) * k == d * k);
    } else {
        lemma_div_multiples_vanish(k, -d);
        assert(-((a_hi - a_lo) * k) == (-d) * k) by (nonlinear_arith)
            requires
                d == a_hi - a_lo,
        ;
    }
}

} // verus!
