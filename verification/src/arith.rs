//! Mathematical model of division, remainder and rounding by a power of two.
//!
//! Every operation of the library is specified against these functions over
//! unbounded integers. Division is Euclidean, so for the positive divisors used
//! here `x / p2(e)` is the floor of the quotient and `x % p2(e)` lies in
//! `[0, 2^e)` for every sign of `x`.
use vstd::prelude::*;
use vstd::arithmetic::power2::{pow2, lemma_pow2_pos, lemma_pow2_adds, lemma_pow2_unfold};
use vstd::arithmetic::div_mod::{
    lemma_fundamental_div_mod, lemma_fundamental_div_mod_converse, lemma_mod_bound,
};

verus! {

/// `2^e` as an integer.
pub open spec fn p2(e: nat) -> int {
    pow2(e) as int
}

/// `x / 2^e`, rounded towards negative infinity.
pub open spec fn floor_div(x: int, e: nat) -> int {
    x / p2(e)
}

/// The remainder of `floor_div`; always in `[0, 2^e)`.
pub open spec fn floor_rem(x: int, e: nat) -> int {
    x % p2(e)
}

/// `x / 2^e`, rounded towards positive infinity.
pub open spec fn ceil_div(x: int, e: nat) -> int {
    if x % p2(e) == 0 {
        x / p2(e)
    } else {
        x / p2(e) + 1
    }
}

/// `x / 2^e`, rounded towards zero (the semantics of Rust's `/`).
pub open spec fn trunc_div(x: int, e: nat) -> int {
    if x >= 0 {
        x / p2(e)
    } else {
        -((-x) / p2(e))
    }
}

/// The remainder of `trunc_div`; it has the sign of `x` (the semantics of Rust's `%`).
pub open spec fn trunc_rem(x: int, e: nat) -> int {
    x - trunc_div(x, e) * p2(e)
}

/// `x / 2^e`, rounded to the nearest integer, ties away from zero.
pub open spec fn round_div(x: int, e: nat) -> int {
    if x >= 0 {
        (x + p2(e) / 2) / p2(e)
    } else {
        -((-x + p2(e) / 2) / p2(e))
    }
}

/// Whether `x` is a multiple of `2^e`.
pub open spec fn is_multiple(x: int, e: nat) -> bool {
    x % p2(e) == 0
}

/// Whether `n` is a power of two.
pub open spec fn is_pow2_int(n: int) -> bool {
    exists|e: nat| n == #[trigger] p2(e)
}

pub proof fn lemma_p2_pos(e: nat)
    ensures
        p2(e) > 0,
{
    lemma_pow2_pos(e);
}

/// `2^(a + b) == 2^a * 2^b`.
pub proof fn lemma_p2_add(a: nat, b: nat)
    ensures
        p2(a + b) == p2(a) * p2(b),
{
    lemma_pow2_adds(a, b);
}

/// `2^(e + 1) == 2 * 2^e`.
pub proof fn lemma_p2_succ(e: nat)
    ensures
        p2(e + 1) == 2 * p2(e),
{
    lemma_pow2_unfold(e + 1);
}

/// Powers of two are strictly increasing, and a smaller one divides a larger one.
pub proof fn lemma_p2_le(a: nat, b: nat)
    requires
        a <= b,
    ensures
        p2(a) <= p2(b),
        p2(b) % p2(a) == 0,
        p2(b) == p2(a) * p2((b - a) as nat),
{
    lemma_p2_add(a, (b - a) as nat);
    lemma_p2_pos(a);
    lemma_p2_pos((b - a) as nat);
    assert(p2(a) * p2((b - a) as nat) >= p2(a) * 1) by (nonlinear_arith)
        requires
            p2((b - a) as nat) >= 1,
            p2(a) > 0,
    ;
    lemma_fundamental_div_mod_converse(p2(b), p2(a), p2((b - a) as nat), 0);
}

pub proof fn lemma_p2_lt(a: nat, b: nat)
    requires
        a < b,
    ensures
        p2(a) < p2(b),
        p2(a) <= p2(b) / 2,
{
    lemma_p2_le(a + 1, b);
    lemma_p2_succ(a);
    lemma_p2_pos(a);
    lemma_p2_le(1, b);
    lemma_p2_succ(0);
    lemma_p2_zero();
    lemma_div_exact(p2(b), 2, p2((b - 1) as nat));
    lemma_p2_le(a, (b - 1) as nat);
}

pub proof fn lemma_p2_zero()
    ensures
        p2(0) == 1,
{
    assert(pow2(0) == 1) by {
        vstd::arithmetic::power2::lemma2_to64();
    }
}

/// Division of an exact product.
pub proof fn lemma_div_exact(n: int, d: int, q: int)
    requires
        d > 0,
        n == d * q,
    ensures
        n / d == q,
        n % d == 0,
{
    assert(n == q * d) by (nonlinear_arith)
        requires
            n == d * q,
    ;
    lemma_fundamental_div_mod_converse(n, d, q, 0);
}

/// Floor division by `a` then by `b` is floor division by `a * b`, for every sign of `x`.
pub proof fn lemma_div_div(x: int, a: int, b: int)
    requires
        a > 0,
        b > 0,
    ensures
        (x / a) / b == x / (a * b),
        a * b > 0,
{
    let q = x / a;
    let r = x % a;
    let q2 = q / b;
    let r2 = q % b;
    lemma_fundamental_div_mod(x, a);
    lemma_fundamental_div_mod(q, b);
    lemma_mod_bound(x, a);
    lemma_mod_bound(q, b);
    assert(a * b > 0) by (nonlinear_arith)
        requires
            a > 0,
            b > 0,
    ;
    assert(x == q2 * (a * b) + (a * r2 + r) && 0 <= a * r2 + r < a * b) by (nonlinear_arith)
        requires
            x == a * q + r,
            q == b * q2 + r2,
            0 <= r < a,
            0 <= r2 < b,
            a > 0,
            b > 0,
    ;
    lemma_fundamental_div_mod_converse(x, a * b, q2, a * r2 + r);
}

/// If `y == 2q + r` with `r` a bit, then `q` is the floor of `y / 2`.
pub proof fn lemma_halve(y: int, q: int, r: int)
    requires
        y == 2 * q + r,
        r == 0 || r == 1,
    ensures
        q == y / 2,
        r == y % 2,
{
    lemma_fundamental_div_mod_converse(y, 2, q, r);
}

/// `x - floor(x / d) * d` is the floor remainder.
pub proof fn lemma_sub_floor(x: int, d: int)
    requires
        d > 0,
    ensures
        x - (x / d) * d == x % d,
        0 <= x % d < d,
{
    lemma_fundamental_div_mod(x, d);
    lemma_mod_bound(x, d);
    assert((x / d) * d == d * (x / d)) by (nonlinear_arith);
}

/// Reducing modulo `2^a` after reducing modulo `2^b`, with `a <= b`.
pub proof fn lemma_mod_mod_p2(x: int, a: nat, b: nat)
    requires
        a <= b,
    ensures
        (x % p2(b)) % p2(a) == x % p2(a),
{
    lemma_p2_le(a, b);
    lemma_p2_pos(a);
    let k = p2((b - a) as nat);
    lemma_p2_pos((b - a) as nat);
    let q = x / p2(b);
    let r = x % p2(b);
    lemma_fundamental_div_mod(x, p2(b));
    let q1 = r / p2(a);
    let r1 = r % p2(a);
    lemma_fundamental_div_mod(r, p2(a));
    lemma_mod_bound(r, p2(a));
    assert(x == (q * k + q1) * p2(a) + r1) by (nonlinear_arith)
        requires
            x == p2(b) * q + r,
            r == p2(a) * q1 + r1,
            p2(b) == p2(a) * k,
    ;
    lemma_fundamental_div_mod_converse(x, p2(a), q * k + q1, r1);
}

/// Adding a multiple of `d` does not change the floor remainder.
pub proof fn lemma_mod_add_multiple(x: int, d: int, k: int)
    requires
        d > 0,
    ensures
        (x + k * d) % d == x % d,
        (x + k * d) / d == x / d + k,
{
    lemma_fundamental_div_mod(x, d);
    lemma_mod_bound(x, d);
    assert(x + k * d == (x / d + k) * d + x % d) by (nonlinear_arith)
        requires
            x == d * (x / d) + x % d,
    ;
    lemma_fundamental_div_mod_converse(x + k * d, d, x / d + k, x % d);
}

/// Adding `2^b` does not change the remainder modulo `2^a` when `a <= b`.
pub proof fn lemma_mod_add_p2(x: int, a: nat, b: nat)
    requires
        a <= b,
    ensures
        (x + p2(b)) % p2(a) == x % p2(a),
{
    lemma_p2_le(a, b);
    lemma_p2_pos(a);
    let k = p2((b - a) as nat);
    assert(k * p2(a) == p2(b)) by (nonlinear_arith)
        requires
            p2(b) == p2(a) * k,
    ;
    lemma_mod_add_multiple(x, p2(a), k);
}

/// The powers of two at the widths of the primitive integers.
pub proof fn lemma_pow2_values()
    ensures
        p2(6) == 0x40,
        p2(7) == 0x80,
        p2(8) == 0x100,
        p2(14) == 0x4000,
        p2(15) == 0x8000,
        p2(16) == 0x1_0000,
        p2(30) == 0x4000_0000,
        p2(31) == 0x8000_0000,
        p2(32) == 0x1_0000_0000,
        p2(62) == 0x4000_0000_0000_0000,
        p2(63) == 0x8000_0000_0000_0000,
        p2(64) == 0x1_0000_0000_0000_0000,
        p2(126) == 0x4000_0000_0000_0000_0000_0000_0000_0000,
        p2(127) == 0x8000_0000_0000_0000_0000_0000_0000_0000,
        p2(128) == 0x1_0000_0000_0000_0000_0000_0000_0000_0000,
{
    vstd::arithmetic::power2::lemma2_to64();
    vstd::arithmetic::power2::lemma2_to64_rest();
    lemma_p2_add(62, 64);
    lemma_p2_add(63, 64);
    lemma_p2_add(64, 64);
    assert(p2(126) == 0x4000_0000_0000_0000 * 0x1_0000_0000_0000_0000);
    assert(p2(127) == 0x8000_0000_0000_0000 * 0x1_0000_0000_0000_0000);
    assert(p2(128) == 0x1_0000_0000_0000_0000 * 0x1_0000_0000_0000_0000);
}

/// The floor quotient and remainder of `-y` in terms of those of `y`.
pub proof fn lemma_neg_div(y: int, d: int)
    requires
        d > 0,
    ensures
        y % d == 0 ==> (-y) / d == -(y / d) && (-y) % d == 0,
        y % d != 0 ==> (-y) / d == -(y / d) - 1 && (-y) % d == d - y % d,
{
    lemma_fundamental_div_mod(y, d);
    lemma_mod_bound(y, d);
    let q = y / d;
    let r = y % d;
    if r == 0 {
        assert(-y == (-q) * d + 0) by (nonlinear_arith)
            requires
                y == d * q + r,
                r == 0,
        ;
        lemma_fundamental_div_mod_converse(-y, d, -q, 0);
    } else {
        assert(-y == (-q - 1) * d + (d - r)) by (nonlinear_arith)
            requires
                y == d * q + r,
        ;
        lemma_fundamental_div_mod_converse(-y, d, -q - 1, d - r);
    }
}

/// Adding `c` to `x` moves the floor quotient up by one exactly when the remainder
/// overflows past `d`.
pub proof fn lemma_div_add_small(x: int, d: int, c: int)
    requires
        d > 0,
        0 <= x % d + c < 2 * d,
    ensures
        (x + c) / d == x / d + (if x % d + c >= d {
            1int
        } else {
            0int
        }),
        (x + c) % d == (if x % d + c >= d {
            x % d + c - d
        } else {
            x % d + c
        }),
{
    lemma_fundamental_div_mod(x, d);
    lemma_mod_bound(x, d);
    let q = x / d;
    let r = x % d;
    if r + c >= d {
        assert(x + c == (q + 1) * d + (r + c - d)) by (nonlinear_arith)
            requires
                x == d * q + r,
        ;
        lemma_fundamental_div_mod_converse(x + c, d, q + 1, r + c - d);
    } else {
        assert(x + c == q * d + (r + c)) by (nonlinear_arith)
            requires
                x == d * q + r,
        ;
        lemma_fundamental_div_mod_converse(x + c, d, q, r + c);
    }
}

/// When `d` divides `m + 1`, a value rounded down to a multiple of `d` is at most `m`
/// exactly when the value itself is.
pub proof fn lemma_floor_multiple_le(y: int, d: int, m: int)
    requires
        d > 0,
        (m + 1) % d == 0,
    ensures
        ((y / d) * d <= m) == (y <= m),
{
    lemma_sub_floor(y, d);
    if y > m {
        let k = (m + 1) / d;
        lemma_fundamental_div_mod(m + 1, d);
        vstd::arithmetic::div_mod::lemma_div_is_ordered(m + 1, y, d);
        assert((y / d) * d >= k * d) by (nonlinear_arith)
            requires
                y / d >= k,
                d > 0,
        ;
        assert(k * d == d * k) by (nonlinear_arith);
    }
}

/// Values with `0 <= x < d` have quotient zero and are their own remainder.
pub proof fn lemma_div_small(x: int, d: int)
    requires
        0 <= x < d,
    ensures
        x / d == 0,
        x % d == x,
{
    lemma_fundamental_div_mod_converse(x, d, 0, x);
}

/// Values with `-d <= x < 0` have quotient minus one.
pub proof fn lemma_div_small_neg(x: int, d: int)
    requires
        -d <= x < 0,
    ensures
        x / d == -1,
        x % d == x + d,
{
    lemma_fundamental_div_mod_converse(x, d, -1, x + d);
}

/// Multiples of `2^b` are multiples of `2^a` for `a <= b`.
pub proof fn lemma_multiple_p2_le(x: int, a: nat, b: nat)
    requires
        a <= b,
        x % p2(b) == 0,
    ensures
        x % p2(a) == 0,
{
    lemma_mod_mod_p2(x, a, b);
    lemma_p2_pos(a);
    assert(0int % p2(a) == 0);
}

/// A quotient by `d` of a value in `[0, 2d)` is a single bit.
pub proof fn lemma_div_bit(y: int, d: int)
    requires
        0 <= y < 2 * d,
    ensures
        y / d == (if y >= d {
            1int
        } else {
            0int
        }),
{
    if y >= d {
        lemma_fundamental_div_mod_converse(y, d, 1, y - d);
    } else {
        lemma_fundamental_div_mod_converse(y, d, 0, y);
    }
}

/// Rounding a negative `x` to the nearest multiple of `2h`, ties away from zero:
/// the floor quotient goes up exactly when the remainder is above one half.
pub proof fn lemma_round_neg(x: int, h: int)
    requires
        x < 0,
        h >= 1,
    ensures
        -((-x + h) / (2 * h)) == x / (2 * h) + (if x % (2 * h) > h {
            1int
        } else {
            0int
        }),
        (x + (h - 1)) / (2 * h) == x / (2 * h) + (if x % (2 * h) > h {
            1int
        } else {
            0int
        }),
{
    let d = 2 * h;
    let y = -x;
    lemma_mod_bound(y, d);
    lemma_mod_bound(x, d);
    lemma_div_add_small(y, d, h);
    lemma_div_add_small(x, d, h - 1);
    lemma_neg_div(y, d);
}

/// Rounding a non-negative `x` to the nearest multiple of `2h`, ties away from zero:
/// the floor quotient goes up exactly when the remainder is at least one half.
pub proof fn lemma_round_nonneg(x: int, h: int)
    requires
        h >= 1,
    ensures
        (x + h) / (2 * h) == x / (2 * h) + (if x % (2 * h) >= h {
            1int
        } else {
            0int
        }),
{
    lemma_mod_bound(x, 2 * h);
    lemma_div_add_small(x, 2 * h, h);
}

/// Dividing a negative value by a positive divisor moves it towards zero
/// without crossing it.
pub proof fn lemma_div_neg_bounds(x: int, d: int)
    requires
        x < 0,
        d >= 1,
    ensures
        x <= x / d < 0,
{
    lemma_fundamental_div_mod(x, d);
    lemma_mod_bound(x, d);
    let q = x / d;
    let r = x % d;
    assert(x <= q < 0) by (nonlinear_arith)
        requires
            x == d * q + r,
            0 <= r < d,
            d >= 1,
            x < 0,
    ;
}

/// Products with a quotient of zero or one in absolute value.
pub proof fn lemma_mul_unit(q: int, d: int)
    ensures
        q == 0 ==> q * d == 0,
        q == 1 ==> q * d == d,
        q == -1 ==> q * d == -d,
{
}

/// An exponent whose power lies below `2^w` is below `w`.
pub proof fn lemma_p2_below(r: nat, x: int, w: nat)
    requires
        p2(r) <= x < p2(w),
    ensures
        r < w,
{
    if r >= w {
        lemma_p2_le(w, r);
    }
}

/// One halving step of splitting `x` into an odd factor and a power of two.
pub proof fn lemma_odd_part_step(x: int, y: int, r: nat, w: nat)
    requires
        x == y * p2(r),
        y > 0,
        y % 2 == 0,
        x < p2(w),
    ensures
        x == (y / 2) * p2(r + 1),
        0 < y / 2 < y,
        r + 1 < w,
{
    lemma_p2_succ(r);
    lemma_p2_pos(r);
    assert(x == (y / 2) * p2(r + 1) && x >= p2(r + 1)) by (nonlinear_arith)
        requires
            x == y * p2(r),
            y == 2 * (y / 2),
            y / 2 >= 1,
            p2(r + 1) == 2 * p2(r),
            p2(r) > 0,
    ;
    lemma_p2_below(r + 1, x, w);
}

/// A non-zero value's power-of-two factor is below the width.
pub proof fn lemma_odd_part_bound(x: int, y: int, r: nat, w: nat)
    requires
        x == y * p2(r),
        y > 0,
        x < p2(w),
    ensures
        r < w,
{
    lemma_p2_pos(r);
    assert(x >= p2(r)) by (nonlinear_arith)
        requires
            x == y * p2(r),
            y >= 1,
            p2(r) > 0,
    ;
    lemma_p2_below(r, x, w);
}

/// With `x == y * 2^r` and `y` odd, `2^r` divides `x` and `2^(r + 1)` does not.
pub proof fn lemma_odd_part_trailing(x: int, y: int, r: nat)
    requires
        x == y * p2(r),
        y % 2 == 1,
        y > 0,
    ensures
        x % p2(r) == 0,
        x % p2(r + 1) != 0,
{
    lemma_p2_pos(r);
    lemma_p2_succ(r);
    assert(x == p2(r) * y) by (nonlinear_arith)
        requires
            x == y * p2(r),
    ;
    lemma_div_exact(x, p2(r), y);
    assert(x == (y / 2) * p2(r + 1) + p2(r)) by (nonlinear_arith)
        requires
            x == y * p2(r),
            y == 2 * (y / 2) + 1,
            p2(r + 1) == 2 * p2(r),
    ;
    lemma_fundamental_div_mod_converse(x, p2(r + 1), y / 2, p2(r));
}

/// With `x == y * 2^r` and `y` odd, `x` is a power of two exactly when `y == 1`.
pub proof fn lemma_odd_part_pow2(x: int, y: int, r: nat)
    requires
        x == y * p2(r),
        y % 2 == 1,
        y > 0,
    ensures
        is_pow2_int(x) == (y == 1),
{
    lemma_p2_pos(r);
    if y == 1 {
        assert(x == p2(r));
    } else if is_pow2_int(x) {
        let e = choose|e: nat| x == #[trigger] p2(e);
        assert(x > p2(r)) by (nonlinear_arith)
            requires
                x == y * p2(r),
                y >= 2,
                p2(r) > 0,
        ;
        if e <= r {
            lemma_p2_le(e, r);
        }
        lemma_p2_le(r, e);
        let k = p2((e - r) as nat);
        assert(y == k) by (nonlinear_arith)
            requires
                y * p2(r) == p2(r) * k,
                p2(r) > 0,
        ;
        lemma_p2_succ((e - r - 1) as nat);
        assert(false);
    }
}

/// One halving step of the base 2 logarithm: `2^r * y <= x < 2^r * (y + 1)` is kept
/// when `y` is halved and `r` grows by one.
pub proof fn lemma_ilog2_step(x: int, y: int, r: nat, w: nat)
    requires
        y >= 2,
        p2(r) * y <= x < p2(r) * (y + 1),
        x < p2(w),
    ensures
        p2(r + 1) * (y / 2) <= x < p2(r + 1) * (y / 2 + 1),
        1 <= y / 2 < y,
        r + 1 < w,
{
    lemma_p2_succ(r);
    lemma_p2_pos(r);
    assert(p2(r + 1) * (y / 2) <= x < p2(r + 1) * (y / 2 + 1) && p2(r + 1) <= x)
        by (nonlinear_arith)
        requires
            p2(r) * y <= x < p2(r) * (y + 1),
            y == 2 * (y / 2) + y % 2,
            0 <= y % 2 <= 1,
            y / 2 >= 1,
            p2(r + 1) == 2 * p2(r),
            p2(r) > 0,
    ;
    lemma_p2_below(r + 1, x, w);
}

} // verus!
