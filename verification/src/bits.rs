//! The arithmetic meaning of the bit-level operators of [`Int`], proved once for
//! every width from the facts that each primitive states about itself.
use vstd::prelude::*;
use crate::arith::{
    p2, lemma_p2_pos, lemma_p2_succ, lemma_p2_zero, lemma_p2_le, lemma_div_div, lemma_halve,
    lemma_sub_floor,
};
use crate::integer::{Int, fits};
use vstd::arithmetic::div_mod::{
    lemma_fundamental_div_mod_converse, lemma_fundamental_div_mod, lemma_mod_bound,
};

verus! {

/// The exponent of the largest power of two above `MAX`: `MAX + 1 == 2^top_exp()`.
pub open spec fn top_exp<T: Int>() -> nat {
    if T::signed_int() {
        (T::width() - 1) as nat
    } else {
        T::width()
    }
}

/// `MIN` and `MAX` in terms of powers of two.
pub proof fn lemma_limits<T: Int>()
    ensures
        T::max_val() + 1 == p2(top_exp::<T>()),
        T::min_val() == (if T::signed_int() {
            -p2(top_exp::<T>())
        } else {
            0
        }),
        T::width() >= 8,
        top_exp::<T>() >= 7,
        top_exp::<T>() + 1 >= T::width(),
{
    T::lemma_model();
}

/// Shift right is floor division by a power of two.
pub proof fn lemma_shr<T: Int>(x: T, s: u32)
    requires
        s < T::width(),
    ensures
        x.shr_spec(s).val() == x.val() / p2(s as nat),
    decreases s,
{
    T::lemma_bits(x, x, 0);
    if s == 0 {
        lemma_p2_zero();
    } else {
        let t = (s - 1) as u32;
        lemma_shr::<T>(x, t);
        T::lemma_bits(x, x, t);
        let y = x.shr_spec(t);
        T::lemma_bits(y, y, 0);
        lemma_halve(y.val(), y.shr_spec(1).val(), y.and_spec(T::ONE).val());
        lemma_p2_pos(t as nat);
        lemma_div_div(x.val(), p2(t as nat), 2);
        lemma_p2_succ(t as nat);
        assert(p2(t as nat) * 2 == p2(s as nat));
    }
}

/// Shift left is multiplication by a power of two when the product is in range.
pub proof fn lemma_shl<T: Int>(x: T, s: u32)
    requires
        s < T::width(),
        fits::<T>(x.val() * p2(s as nat)),
    ensures
        x.shl_spec(s).val() == x.val() * p2(s as nat),
    decreases s,
{
    T::lemma_bits(x, x, 0);
    if s == 0 {
        lemma_p2_zero();
    } else {
        let t = (s - 1) as u32;
        lemma_p2_succ(t as nat);
        lemma_p2_pos(t as nat);
        let y = x.val() * p2(t as nat);
        assert(x.val() * p2(s as nat) == 2 * y) by (nonlinear_arith)
            requires
                p2(s as nat) == 2 * p2(t as nat),
                y == x.val() * p2(t as nat),
        ;
        T::lemma_model();
        assert(fits::<T>(y));
        lemma_shl::<T>(x, t);
        T::lemma_bits(x, x, t);
        T::lemma_bits(x.shl_spec(t), x, 0);
    }
}

/// `floor(x / 2^s) * 2^s` is in range.
pub proof fn lemma_floor_multiple_fits<T: Int>(x: T, s: u32)
    requires
        s < T::width(),
    ensures
        fits::<T>((x.val() / p2(s as nat)) * p2(s as nat)),
{
    let p = p2(s as nat);
    lemma_p2_pos(s as nat);
    lemma_sub_floor(x.val(), p);
    T::lemma_val(x);
    lemma_limits::<T>();
    let q = x.val() / p;
    if T::signed_int() {
        lemma_p2_le(s as nat, top_exp::<T>());
        let k = p2((top_exp::<T>() - s) as nat);
        // MIN is a multiple of 2^s, so rounding down cannot pass it.
        assert(T::min_val() == (-k) * p) by (nonlinear_arith)
            requires
                T::min_val() == -p2(top_exp::<T>()),
                p2(top_exp::<T>()) == p * k,
        ;
        lemma_fundamental_div_mod_converse(T::min_val(), p, -k, 0);
        vstd::arithmetic::div_mod::lemma_div_is_ordered(T::min_val(), x.val(), p);
        assert(q * p >= (-k) * p) by (nonlinear_arith)
            requires
                q >= -k,
                p > 0,
        ;
    } else {
        vstd::arithmetic::div_mod::lemma_div_pos_is_pos(x.val(), p);
        assert(q * p >= 0) by (nonlinear_arith)
            requires
                q >= 0,
                p > 0,
        ;
    }
}

/// `x.shr(s).shl(s)` clears the low `s` bits: it is `floor(x / 2^s) * 2^s`.
pub proof fn lemma_shr_shl<T: Int>(x: T, s: u32)
    requires
        s < T::width(),
    ensures
        x.shr_spec(s).shl_spec(s).val() == (x.val() / p2(s as nat)) * p2(s as nat),
        x.shr_spec(s).shl_spec(s).val() == x.val() - x.val() % p2(s as nat),
{
    lemma_shr::<T>(x, s);
    lemma_floor_multiple_fits::<T>(x, s);
    lemma_shl::<T>(x.shr_spec(s), s);
    lemma_p2_pos(s as nat);
    lemma_sub_floor(x.val(), p2(s as nat));
}

/// Masking with `mask(s)` is the floor remainder modulo `2^s`.
pub proof fn lemma_and_mask<T: Int>(x: T, s: u32)
    requires
        s < T::width(),
    ensures
        x.and_spec(T::mask_spec(s)).val() == x.val() % p2(s as nat),
        x.and_spec(T::mask_spec(s).not_spec()).val() == x.val() - x.val() % p2(s as nat),
{
    T::lemma_bits(x, x, s);
    lemma_shr_shl::<T>(x, s);
}

/// The value of `mask(s)`.
pub proof fn lemma_mask<T: Int>(s: u32)
    requires
        s < T::width(),
    ensures
        T::mask_spec(s).val() == p2(s as nat) - 1,
{
    T::lemma_bits(T::MAX, T::MAX, s);
    lemma_and_mask::<T>(T::MAX, s);
    lemma_limits::<T>();
    T::lemma_model();
    let p = p2(s as nat);
    lemma_p2_pos(s as nat);
    lemma_p2_le(s as nat, top_exp::<T>());
    let k = p2((top_exp::<T>() - s) as nat);
    lemma_p2_pos((top_exp::<T>() - s) as nat);
    assert(T::max_val() == (k - 1) * p + (p - 1)) by (nonlinear_arith)
        requires
            T::max_val() + 1 == p * k,
    ;
    lemma_fundamental_div_mod_converse(T::max_val(), p, k - 1, p - 1);
}

/// The value of `highest_mask_bit(s)`.
pub proof fn lemma_high_bit<T: Int>(s: u32)
    requires
        s < T::width(),
    ensures
        T::high_bit_spec(s).val() == p2(s as nat) / 2,
        s >= 1 ==> T::high_bit_spec(s).val() == p2((s - 1) as nat),
{
    T::lemma_bits(T::MAX, T::MAX, s);
    if s == 0 {
        lemma_p2_zero();
    } else {
        let t = (s - 1) as nat;
        lemma_mask::<T>(s);
        lemma_shr::<T>(T::mask_spec(s), 1);
        lemma_p2_succ(t);
        lemma_p2_zero();
        lemma_p2_succ(0);
        lemma_p2_pos(t);
        assert(p2(s as nat) - 1 == 2 * (p2(t) - 1) + 1);
        lemma_halve(p2(s as nat) - 1, p2(t) - 1, 1);
        lemma_halve(p2(s as nat), p2(t), 0);
    }
}

/// The bit below `2^s` is set exactly when the remainder modulo `2^s` is at least `2^(s-1)`.
pub proof fn lemma_parity_of_half(x: int, s: nat)
    requires
        s >= 1,
    ensures
        ((x / p2((s - 1) as nat)) % 2 == 1) == (x % p2(s) >= p2((s - 1) as nat)),
{
    let h = p2((s - 1) as nat);
    lemma_p2_pos((s - 1) as nat);
    lemma_p2_succ((s - 1) as nat);
    let p = p2(s);
    assert(p == 2 * h);
    let a = x / p;
    let r = x % p;
    lemma_fundamental_div_mod(x, p);
    lemma_mod_bound(x, p);
    if r >= h {
        assert(x == (2 * a + 1) * h + (r - h)) by (nonlinear_arith)
            requires
                x == p * a + r,
                p == 2 * h,
        ;
        lemma_fundamental_div_mod_converse(x, h, 2 * a + 1, r - h);
        lemma_halve(2 * a + 1, a, 1);
    } else {
        assert(x == (2 * a) * h + r) by (nonlinear_arith)
            requires
                x == p * a + r,
                p == 2 * h,
        ;
        lemma_fundamental_div_mod_converse(x, h, 2 * a, r);
        lemma_halve(2 * a, a, 0);
    }
}

/// Testing the highest bit of `mask(s)`.
pub proof fn lemma_and_high_bit<T: Int>(x: T, s: u32)
    requires
        1 <= s < T::width(),
    ensures
        (x.and_spec(T::high_bit_spec(s)).val() != 0) == (x.val() % p2(s as nat) >= p2(
            (s - 1) as nat,
        )),
{
    T::lemma_bits(x, x, s);
    let t = (s - 1) as u32;
    lemma_shr::<T>(x, t);
    let y = x.shr_spec(t);
    T::lemma_bits(y, y, 0);
    lemma_halve(y.val(), y.shr_spec(1).val(), y.and_spec(T::ONE).val());
    lemma_parity_of_half(x.val(), s as nat);
}

/// A shift left that shifts back to the value it started from did not overflow, and conversely.
pub proof fn lemma_shl_roundtrip<T: Int>(x: T, s: u32)
    requires
        s < T::width(),
    ensures
        (x.shl_spec(s).shr_spec(s) == x) == fits::<T>(x.val() * p2(s as nat)),
{
    T::lemma_bits(x, x, s);
    T::lemma_model();
    lemma_limits::<T>();
    lemma_shr::<T>(T::MIN, s);
    lemma_shr::<T>(T::MAX, s);
    let p = p2(s as nat);
    lemma_p2_pos(s as nat);
    lemma_p2_le(s as nat, top_exp::<T>());
    let k = p2((top_exp::<T>() - s) as nat);
    lemma_p2_pos((top_exp::<T>() - s) as nat);
    let v = x.val();
    // MAX / 2^s == k - 1
    assert(T::max_val() == (k - 1) * p + (p - 1)) by (nonlinear_arith)
        requires
            T::max_val() + 1 == p * k,
    ;
    lemma_fundamental_div_mod_converse(T::max_val(), p, k - 1, p - 1);
    assert((v <= k - 1) == (v * p <= T::max_val())) by (nonlinear_arith)
        requires
            T::max_val() + 1 == p * k,
            p > 0,
    ;
    if T::signed_int() {
        assert(T::min_val() == (-k) * p + 0) by (nonlinear_arith)
            requires
                T::min_val() == -p2(top_exp::<T>()),
                p2(top_exp::<T>()) == p * k,
        ;
        lemma_fundamental_div_mod_converse(T::min_val(), p, -k, 0);
        assert((-k <= v) == (T::min_val() <= v * p)) by (nonlinear_arith)
            requires
                T::min_val() == (-k) * p,
                p > 0,
        ;
    } else {
        lemma_fundamental_div_mod_converse(0, p, 0, 0);
        assert((0 <= v) == (0 <= v * p)) by (nonlinear_arith)
            requires
                p > 0,
        ;
    }
}

} // verus!
