//! The bit-level algorithms behind every operation, generic over the integer type
//! and over the exponent `s` of the power of two, each proved against the
//! mathematical model of `arith`.
//!
//! The dispatch traits and the operators only choose an exponent that is in range
//! for the left-hand side and call into this module.
use vstd::prelude::*;
use vstd::arithmetic::div_mod::{lemma_div_is_ordered, lemma_div_is_ordered_by_denominator};
use crate::arith::{
    p2, floor_div, floor_rem, ceil_div, trunc_div, trunc_rem, round_div, is_multiple,
    lemma_p2_pos, lemma_p2_le, lemma_p2_zero, lemma_sub_floor, lemma_neg_div,
    lemma_div_add_small, lemma_floor_multiple_le, lemma_div_small, lemma_div_small_neg,
    lemma_p2_succ, lemma_div_bit, lemma_round_neg, lemma_round_nonneg,
};
use crate::integer::{Int, fits};
use crate::bits::{
    top_exp, lemma_limits, lemma_shr, lemma_shl, lemma_and_mask, lemma_shl_roundtrip, lemma_mask,
    lemma_high_bit, lemma_and_high_bit,
};

verus! {

/// Facts about `2^s` for an exponent that is in range for `T`: it is positive, at
/// most `2^top`, and divides `T::MAX + 1`.
pub(crate) proof fn lemma_exponent_in_range<T: Int>(s: nat)
    requires
        s < T::width(),
    ensures
        p2(s) > 0,
        s <= top_exp::<T>(),
        p2(s) <= T::max_val() + 1,
        (T::max_val() + 1) % p2(s) == 0,
        T::max_val() >= 127,
        T::min_val() <= 0,
{
    T::lemma_model();
    lemma_limits::<T>();
    lemma_p2_pos(s);
    lemma_p2_le(s, top_exp::<T>());
    lemma_p2_le(7, top_exp::<T>());
    crate::arith::lemma_pow2_values();
}

/// The floor quotient by `2^s`, for `s >= 1`, leaves room for adding one.
pub(crate) proof fn lemma_quotient_room<T: Int>(x: T, s: nat)
    requires
        1 <= s < T::width(),
    ensures
        T::min_val() <= x.val() / p2(s) < T::max_val(),
{
    if x.val() < 0 {
        lemma_exponent_in_range::<T>(s);
        crate::arith::lemma_div_neg_bounds(x.val(), p2(s));
    } else {
        lemma_exponent_in_range::<T>(s);
        lemma_div_is_ordered(0, x.val(), p2(s));
        lemma_div_small(0, p2(s));
    }
    lemma_exponent_in_range::<T>(s);
    T::lemma_val(x);
    lemma_p2_le(1, s);
    crate::arith::lemma_p2_succ(0);
    lemma_p2_zero();
    if x.val() < 0 {
        lemma_div_is_ordered(x.val(), -1, p2(s));
        lemma_div_small_neg(-1, p2(s));
    } else {
        lemma_div_is_ordered(x.val(), T::max_val(), p2(s));
        lemma_div_is_ordered_by_denominator(T::max_val(), 2, p2(s));
    }
}

/// `x >> s`: division by `2^s` rounded towards negative infinity.
pub(crate) fn floor_div_by<T: Int>(x: T, s: u32) -> (r: T)
    requires
        s < T::width(),
    ensures
        r.val() == floor_div(x.val(), s as nat),
{
    proof {
        lemma_shr::<T>(x, s);
    }
    x.unchecked_shr(s)
}

/// `x & (2^s - 1)`: the remainder of the floor division by `2^s`.
pub(crate) fn floor_rem_by<T: Int>(x: T, s: u32) -> (r: T)
    requires
        s < T::width(),
    ensures
        r.val() == floor_rem(x.val(), s as nat),
{
    proof {
        lemma_and_mask::<T>(x, s);
    }
    x.bit_and(T::unchecked_mask(s))
}

/// `x & !(2^s - 1)`: `x` rounded down to a multiple of `2^s`.
pub(crate) fn floor_multiple_by<T: Int>(x: T, s: u32) -> (r: T)
    requires
        s < T::width(),
    ensures
        r.val() == floor_div(x.val(), s as nat) * p2(s as nat),
{
    proof {
        lemma_and_mask::<T>(x, s);
        lemma_p2_pos(s as nat);
        lemma_sub_floor(x.val(), p2(s as nat));
    }
    x.bit_and(T::unchecked_mask(s).bit_not())
}

/// Whether the low `s` bits of `x` are clear.
pub(crate) fn is_multiple_by<T: Int>(x: T, s: u32) -> (r: bool)
    requires
        s < T::width(),
    ensures
        r == is_multiple(x.val(), s as nat),
{
    proof {
        lemma_and_mask::<T>(x, s);
    }
    x.bit_and(T::unchecked_mask(s)).is_zero()
}

/// The floor quotient plus one when any of the low `s` bits is set.
pub(crate) fn ceil_div_by<T: Int>(x: T, s: u32) -> (r: T)
    requires
        s < T::width(),
    ensures
        r.val() == ceil_div(x.val(), s as nat),
{
    let mask = T::unchecked_mask(s);
    let floored = floor_div_by(x, s);
    proof {
        lemma_and_mask::<T>(x, s);
        lemma_exponent_in_range::<T>(s as nat);
        T::lemma_model();
        if s == 0 {
            lemma_p2_zero();
        } else {
            lemma_quotient_room::<T>(x, s as nat);
        }
        T::lemma_val(floored);
    }
    floored.add_exact(T::from_bool(x.bit_and(mask).is_not_zero()))
}

/// The multiple of `2^s` that `ceil_div` scales to: `(x + 2^s - 1)` rounded down.
proof fn lemma_ceil_multiple<T: Int>(x: T, s: nat)
    requires
        s < T::width(),
    ensures
        (x.val() + (p2(s) - 1)) / p2(s) == ceil_div(x.val(), s),
        fits::<T>(ceil_div(x.val(), s) * p2(s)) == fits::<T>(x.val() + (p2(s) - 1)),
{
    lemma_exponent_in_range::<T>(s);
    T::lemma_val(x);
    let p = p2(s);
    vstd::arithmetic::div_mod::lemma_mod_bound(x.val(), p);
    lemma_div_add_small(x.val(), p, p - 1);
    lemma_floor_multiple_le(x.val() + (p - 1), p, T::max_val());
    lemma_sub_floor(x.val(), p);
    lemma_sub_floor(x.val() + (p - 1), p);
}

/// `(x + (2^s - 1)) & !(2^s - 1)`: `x` rounded up to a multiple of `2^s`.
pub(crate) fn ceil_multiple_by<T: Int>(x: T, s: u32) -> (r: T)
    requires
        s < T::width(),
        fits::<T>(ceil_div(x.val(), s as nat) * p2(s as nat)),
    ensures
        r.val() == ceil_div(x.val(), s as nat) * p2(s as nat),
{
    let mask = T::unchecked_mask(s);
    proof {
        lemma_ceil_multiple::<T>(x, s as nat);
        crate::bits::lemma_mask::<T>(s);
        lemma_p2_pos(s as nat);
    }
    let y = x.add_exact(mask);
    proof {
        lemma_and_mask::<T>(y, s);
        lemma_sub_floor(y.val(), p2(s as nat));
    }
    y.bit_and(mask.bit_not())
}

/// `x` rounded up to a multiple of `2^s`, or `None` when that is not representable.
pub(crate) fn checked_ceil_multiple_by<T: Int>(x: T, s: u32) -> (r: Option<T>)
    requires
        s < T::width(),
    ensures
        match r {
            Some(v) => fits::<T>(ceil_div(x.val(), s as nat) * p2(s as nat)) && v.val()
                == ceil_div(x.val(), s as nat) * p2(s as nat),
            None => !fits::<T>(ceil_div(x.val(), s as nat) * p2(s as nat)),
        },
{
    let mask = T::unchecked_mask(s);
    proof {
        lemma_ceil_multiple::<T>(x, s as nat);
        crate::bits::lemma_mask::<T>(s);
        lemma_p2_pos(s as nat);
    }
    match x.checked_add(mask) {
        Some(y) => {
            proof {
                lemma_and_mask::<T>(y, s);
                lemma_sub_floor(y.val(), p2(s as nat));
            }
            Some(y.bit_and(mask.bit_not()))
        },
        None => None,
    }
}

/// `x << s`, for a product that is representable.
pub(crate) fn mul_by<T: Int>(x: T, s: u32) -> (r: T)
    requires
        s < T::width(),
        fits::<T>(x.val() * p2(s as nat)),
    ensures
        r.val() == x.val() * p2(s as nat),
{
    proof {
        lemma_shl::<T>(x, s);
    }
    x.unchecked_shl(s)
}

/// `x << s` when shifting back gives `x` (the product is representable), else `None`.
pub(crate) fn checked_mul_by<T: Int>(x: T, s: u32) -> (r: Option<T>)
    requires
        s < T::width(),
    ensures
        match r {
            Some(v) => fits::<T>(x.val() * p2(s as nat)) && v.val() == x.val() * p2(s as nat),
            None => !fits::<T>(x.val() * p2(s as nat)),
        },
{
    let result = x.unchecked_shl(s);
    let back = result.unchecked_shr(s);
    proof {
        lemma_shl_roundtrip::<T>(x, s);
        T::lemma_val(x);
        T::lemma_val(back);
        if fits::<T>(x.val() * p2(s as nat)) {
            lemma_shl::<T>(x, s);
        }
    }
    if x.same_as(back) {
        Some(result)
    } else {
        None
    }
}

/// Division by `2^s` rounded towards zero: negative values are biased by
/// `2^s - 1` (selected by the sign mask) before the arithmetic shift.
pub(crate) fn trunc_div_by<T: Int>(x: T, s: u32) -> (r: T)
    requires
        s < T::width(),
    ensures
        r.val() == trunc_div(x.val(), s as nat),
{
    proof {
        T::lemma_model();
        T::lemma_val(x);
        lemma_exponent_in_range::<T>(s as nat);
        lemma_limits::<T>();
        lemma_shr::<T>(x, s);
    }
    if T::IS_SIGNED {
        let top = T::BITS - 1;
        let sgn = x.unchecked_shr(top);
        let msk = T::unchecked_mask(s);
        let ghost p = p2(s as nat);
        proof {
            lemma_shr::<T>(x, top);
            crate::bits::lemma_mask::<T>(s);
            T::lemma_bits(x, msk, s);
            T::lemma_val(sgn);
            T::lemma_val(T::MINUS_ONE);
            T::lemma_val(T::ZERO);
            if x.val() < 0 {
                lemma_div_small_neg(x.val(), p2(top as nat));
                assert(sgn == T::MINUS_ONE);
                vstd::arithmetic::div_mod::lemma_mod_bound(x.val(), p);
                lemma_div_add_small(x.val(), p, p - 1);
                lemma_neg_div(-x.val(), p);
            } else {
                lemma_div_small(x.val(), p2(top as nat));
                assert(sgn == T::ZERO);
            }
        }
        let biased = x.add_exact(sgn.bit_and(msk));
        proof {
            lemma_shr::<T>(biased, s);
        }
        biased.unchecked_shr(s)
    } else {
        x.unchecked_shr(s)
    }
}

/// `x - (x / 2^s) * 2^s`, with the division rounded towards zero.
pub(crate) fn trunc_rem_by<T: Int>(x: T, s: u32) -> (r: T)
    requires
        s < T::width(),
    ensures
        r.val() == trunc_rem(x.val(), s as nat),
{
    let q = trunc_div_by(x, s);
    let ghost p = p2(s as nat);
    proof {
        T::lemma_val(x);
        lemma_exponent_in_range::<T>(s as nat);
        if x.val() >= 0 {
            lemma_sub_floor(x.val(), p);
            lemma_div_is_ordered(0, x.val(), p);
        } else {
            lemma_sub_floor(-x.val(), p);
            lemma_div_is_ordered(0, -x.val(), p);
            assert(q.val() * p == -((-x.val()) / p * p)) by (nonlinear_arith)
                requires
                    q.val() == -((-x.val()) / p),
            ;
        }
    }
    let qp = mul_by(q, s);
    x.sub_exact(qp)
}

/// `T::Unsigned` is `U`, the unsigned integer of the same width, and the
/// reinterpreting conversions of `T` read a `U` by its value.
pub open spec fn unsigned_pair<T: Int<Unsigned = U>, U: Int>() -> bool {
    &&& U::width() == T::width()
    &&& !U::signed_int()
    &&& forall|u: U| #[trigger] T::unsigned_val(u) == u.val()
}

/// The amount added before rounding down to a multiple of `2^s` so that the
/// result is rounded to the nearest multiple, ties away from zero: half of
/// `2^s`, one less for negative values.
pub open spec fn round_bias(x: int, s: nat) -> int {
    if s == 0 {
        0
    } else if x < 0 {
        p2(s) / 2 - 1
    } else {
        p2(s) / 2
    }
}

/// Rounding to the nearest is rounding down after adding `round_bias`, and it
/// moves the floor quotient up by at most one.
pub(crate) proof fn lemma_round_via_bias(x: int, s: nat)
    ensures
        (x + round_bias(x, s)) / p2(s) == round_div(x, s),
        s >= 1 ==> p2(s) / 2 == p2((s - 1) as nat) && p2(s) == 2 * p2((s - 1) as nat),
        round_div(x, s) == x / p2(s) + (if s >= 1 && (if x >= 0 {
            x % p2(s) >= p2(s) / 2
        } else {
            x % p2(s) > p2(s) / 2
        }) {
            1int
        } else {
            0int
        }),
{
    if s == 0 {
        lemma_p2_zero();
        vstd::arithmetic::div_mod::lemma_fundamental_div_mod_converse(x, 1, x, 0);
        vstd::arithmetic::div_mod::lemma_fundamental_div_mod_converse(-x, 1, -x, 0);
    } else {
        let h = p2((s - 1) as nat);
        lemma_p2_succ((s - 1) as nat);
        lemma_p2_pos((s - 1) as nat);
        assert(p2(s) == 2 * h);
        if x >= 0 {
            lemma_round_nonneg(x, h);
        } else {
            lemma_round_neg(x, h);
        }
    }
}

/// Division by `2^s` rounded to the nearest integer, ties away from zero: the floor
/// quotient, plus one when the dropped bits are at least one half (more than one
/// half for negative values, which the saturating decrement accounts for).
pub(crate) fn div_round_by<T: Int<Unsigned = U>, U: Int>(x: T, s: u32) -> (r: T)
    requires
        s < T::width(),
        unsigned_pair::<T, U>(),
    ensures
        r.val() == round_div(x.val(), s as nat),
{
    let ghost p = p2(s as nat);
    proof {
        T::lemma_model();
        T::lemma_val(x);
        lemma_exponent_in_range::<T>(s as nat);
        lemma_round_via_bias(x.val(), s as nat);
        vstd::arithmetic::div_mod::lemma_mod_bound(x.val(), p);
        lemma_p2_zero();
        if s >= 1 {
            lemma_quotient_room::<T>(x, s as nat);
        }
    }
    if T::IS_UNSIGNED {
        let bit = T::unchecked_highest_mask_bit(s);
        let floored = floor_div_by(x, s);
        proof {
            lemma_high_bit::<T>(s);
            if s == 0 {
                lemma_mask::<T>(s);
                lemma_and_mask::<T>(x, s);
                T::lemma_val(bit);
                T::lemma_val(T::mask_spec(s));
            } else {
                lemma_and_high_bit::<T>(x, s);
            }
        }
        floored.add_exact(T::from_bool(x.bit_and(bit).is_not_zero()))
    } else {
        let mask = T::unchecked_mask(s);
        let floored = floor_div_by(x, s);
        proof {
            U::lemma_model();
            lemma_and_mask::<T>(x, s);
            lemma_exponent_in_range::<U>(s as nat);
            lemma_p2_le(s as nat, (T::width() - 1) as nat);
            lemma_limits::<T>();
            lemma_limits::<U>();
        }
        let low = x.bit_and(mask).cast_unsigned();
        let rem = low.saturating_sub(U::from_bool(x.less_than(T::ZERO)));
        proof {
            lemma_p2_succ((T::width() - 1) as nat);
            lemma_p2_succ(0);
            assert(T::unsigned_val(low) == low.val());
            lemma_shl::<U>(rem, 1);
        }
        let doubled = rem.unchecked_shl(1);
        let rems = doubled.unchecked_shr(s);
        proof {
            lemma_shr::<U>(doubled, s);
            lemma_div_bit(doubled.val(), p);
            lemma_shr::<U>(rems, 1);
            U::lemma_bits(rems, rems, 1);
            lemma_div_small(rems.val(), 2);
        }
        let bit = rems.bit_and(U::ONE);
        let bump = T::self_from_unsigned(bit);
        proof {
            assert(T::unsigned_val(bit) == bit.val());
        }
        floored.add_exact(bump)
    }
}

/// `x + round_bias` is representable exactly when the rounded multiple is, and
/// rounding it down gives the rounded multiple.
proof fn lemma_round_multiple<T: Int>(x: T, s: u32)
    requires
        s < T::width(),
    ensures
        fits::<T>(x.val() + round_bias(x.val(), s as nat)) == fits::<T>(
            round_div(x.val(), s as nat) * p2(s as nat),
        ),
        (x.val() + round_bias(x.val(), s as nat)) / p2(s as nat) == round_div(x.val(), s as nat),
        0 <= round_bias(x.val(), s as nat) < p2(s as nat),
{
    lemma_exponent_in_range::<T>(s as nat);
    T::lemma_val(x);
    lemma_round_via_bias(x.val(), s as nat);
    lemma_floor_multiple_le(x.val() + round_bias(x.val(), s as nat), p2(s as nat), T::max_val());
    lemma_sub_floor(x.val() + round_bias(x.val(), s as nat), p2(s as nat));
    if s >= 1 {
        lemma_p2_pos((s - 1) as nat);
    }
    crate::bits::lemma_floor_multiple_fits::<T>(x, s);
    lemma_div_is_ordered(x.val(), x.val() + round_bias(x.val(), s as nat), p2(s as nat));
    let a = x.val() / p2(s as nat);
    let b = (x.val() + round_bias(x.val(), s as nat)) / p2(s as nat);
    assert(a * p2(s as nat) <= b * p2(s as nat)) by (nonlinear_arith)
        requires
            a <= b,
            p2(s as nat) > 0,
    ;
}

/// The bias `round_bias(x, s)` as a value of `T`.
fn round_bias_of<T: Int<Unsigned = U>, U: Int>(x: T, s: u32) -> (r: T)
    requires
        s < T::width(),
        unsigned_pair::<T, U>(),
    ensures
        r.val() == round_bias(x.val(), s as nat),
{
    proof {
        T::lemma_model();
        T::lemma_val(x);
        lemma_exponent_in_range::<T>(s as nat);
        lemma_round_via_bias(x.val(), s as nat);
        lemma_p2_zero();
    }
    if T::IS_UNSIGNED {
        proof {
            lemma_high_bit::<T>(s);
        }
        T::unchecked_highest_mask_bit(s)
    } else {
        proof {
            U::lemma_model();
            lemma_limits::<U>();
            lemma_limits::<T>();
            lemma_high_bit::<U>(s);
            lemma_exponent_in_range::<U>(s as nat);
            lemma_p2_le(s as nat, (T::width() - 1) as nat);
            if s >= 1 {
                lemma_p2_pos((s - 1) as nat);
            }
        }
        let half = U::unchecked_highest_mask_bit(s);
        let bias = half.saturating_sub(U::from_bool(x.less_than(T::ZERO)));
        proof {
            assert(T::unsigned_val(bias) == bias.val());
        }
        T::self_from_unsigned(bias)
    }
}

/// `(x + bias) & !(2^s - 1)`: `x` rounded to the nearest multiple of `2^s`,
/// ties away from zero, for a result that is representable.
pub(crate) fn round_multiple_by<T: Int<Unsigned = U>, U: Int>(x: T, s: u32) -> (r: T)
    requires
        s < T::width(),
        unsigned_pair::<T, U>(),
        fits::<T>(round_div(x.val(), s as nat) * p2(s as nat)),
    ensures
        r.val() == round_div(x.val(), s as nat) * p2(s as nat),
{
    let mask = T::unchecked_mask(s);
    let bit = round_bias_of::<T, U>(x, s);
    proof {
        lemma_round_multiple::<T>(x, s);
    }
    let y = x.add_exact(bit);
    proof {
        lemma_and_mask::<T>(y, s);
        lemma_sub_floor(y.val(), p2(s as nat));
    }
    y.bit_and(mask.bit_not())
}

/// `x` rounded to the nearest multiple of `2^s`, ties away from zero, or `None`
/// when that multiple is not representable.
pub(crate) fn checked_round_multiple_by<T: Int<Unsigned = U>, U: Int>(x: T, s: u32) -> (r: Option<
    T,
>)
    requires
        s < T::width(),
        unsigned_pair::<T, U>(),
    ensures
        match r {
            Some(v) => fits::<T>(round_div(x.val(), s as nat) * p2(s as nat)) && v.val()
                == round_div(x.val(), s as nat) * p2(s as nat),
            None => !fits::<T>(round_div(x.val(), s as nat) * p2(s as nat)),
        },
{
    let mask = T::unchecked_mask(s);
    let bit = round_bias_of::<T, U>(x, s);
    proof {
        lemma_round_multiple::<T>(x, s);
    }
    match x.checked_add(bit) {
        Some(y) => {
            proof {
                lemma_and_mask::<T>(y, s);
                lemma_sub_floor(y.val(), p2(s as nat));
            }
            Some(y.bit_and(mask.bit_not()))
        },
        None => None,
    }
}

/// Facts about `2^e` for an exponent that is too large for `T`: every value of `T`
/// lies strictly between `-2^e` and `2^e`, with room to spare but at the widths
/// where the bounds are attained.
proof fn lemma_exponent_too_large<T: Int>(e: nat)
    requires
        e >= T::width(),
    ensures
        T::max_val() >= 127,
        T::signed_int() ==> T::min_val() == -(T::max_val() + 1),
        !T::signed_int() ==> T::min_val() == 0,
        p2(e) == 2 * (p2(e) / 2),
        T::signed_int() && e == T::width() ==> p2(e) / 2 == T::max_val() + 1,
        T::signed_int() && e > T::width() ==> p2(e) / 2 >= 2 * (T::max_val() + 1),
        !T::signed_int() && e == T::width() ==> p2(e) / 2 == (T::max_val() + 1) / 2 && (
        T::max_val() + 1) == 2 * ((T::max_val() + 1) / 2),
        !T::signed_int() && e > T::width() ==> p2(e) / 2 >= T::max_val() + 1,
{
    T::lemma_model();
    lemma_limits::<T>();
    lemma_exponent_in_range::<T>((T::width() - 1) as nat);
    lemma_p2_succ((e - 1) as nat);
    lemma_p2_succ((T::width() - 1) as nat);
    lemma_p2_le((T::width() - 1) as nat, (e - 1) as nat);
    if e > T::width() {
        lemma_p2_le(T::width(), (e - 1) as nat);
    }
}

/// Division rounded towards zero, for every exponent: zero once `2^e` exceeds
/// every value of `T`.
pub(crate) fn unbounded_trunc_div_by<T: Int>(x: T, e: u8) -> (r: T)
    ensures
        r.val() == trunc_div(x.val(), e as nat),
{
    proof {
        T::lemma_model();
        T::lemma_val(x);
    }
    if (e as u32) < T::BITS {
        trunc_div_by(x, e as u32)
    } else {
        proof {
            lemma_exponent_too_large::<T>(e as nat);
            crate::arith::lemma_mul_unit(floor_div(x.val(), e as nat), p2(e as nat));
            crate::arith::lemma_mul_unit(ceil_div(x.val(), e as nat), p2(e as nat));
            crate::arith::lemma_mul_unit(round_div(x.val(), e as nat), p2(e as nat));
            crate::arith::lemma_mul_unit(trunc_div(x.val(), e as nat), p2(e as nat));
            if x.val() >= 0 {
                lemma_div_small(x.val(), p2(e as nat));
            } else {
                lemma_div_small(-x.val(), p2(e as nat));
            }
        }
        T::ZERO
    }
}

/// The remainder of the division rounded towards zero, for every exponent: the
/// value itself once `2^e` exceeds every value of `T`.
pub(crate) fn unbounded_trunc_rem_by<T: Int>(x: T, e: u8) -> (r: T)
    ensures
        r.val() == trunc_rem(x.val(), e as nat),
{
    proof {
        T::lemma_model();
        T::lemma_val(x);
    }
    if (e as u32) < T::BITS {
        trunc_rem_by(x, e as u32)
    } else {
        proof {
            lemma_exponent_too_large::<T>(e as nat);
            crate::arith::lemma_mul_unit(floor_div(x.val(), e as nat), p2(e as nat));
            crate::arith::lemma_mul_unit(ceil_div(x.val(), e as nat), p2(e as nat));
            crate::arith::lemma_mul_unit(round_div(x.val(), e as nat), p2(e as nat));
            crate::arith::lemma_mul_unit(trunc_div(x.val(), e as nat), p2(e as nat));
            if x.val() >= 0 {
                lemma_div_small(x.val(), p2(e as nat));
            } else {
                lemma_div_small(-x.val(), p2(e as nat));
            }
        }
        x
    }
}

/// Division rounded towards negative infinity, for every exponent: zero or minus
/// one, by the sign, once `2^e` exceeds every value of `T`.
pub(crate) fn unbounded_floor_div_by<T: Int>(x: T, e: u8) -> (r: T)
    ensures
        r.val() == floor_div(x.val(), e as nat),
{
    proof {
        T::lemma_model();
        T::lemma_val(x);
    }
    if (e as u32) < T::BITS {
        floor_div_by(x, e as u32)
    } else {
        proof {
            lemma_exponent_too_large::<T>(e as nat);
            crate::arith::lemma_mul_unit(floor_div(x.val(), e as nat), p2(e as nat));
            crate::arith::lemma_mul_unit(ceil_div(x.val(), e as nat), p2(e as nat));
            crate::arith::lemma_mul_unit(round_div(x.val(), e as nat), p2(e as nat));
            crate::arith::lemma_mul_unit(trunc_div(x.val(), e as nat), p2(e as nat));
            if x.val() >= 0 {
                lemma_div_small(x.val(), p2(e as nat));
            } else {
                lemma_div_small_neg(x.val(), p2(e as nat));
            }
        }
        if T::IS_UNSIGNED || !x.less_than(T::ZERO) {
            T::ZERO
        } else {
            T::MINUS_ONE
        }
    }
}

/// Division rounded towards positive infinity, for every exponent: one for
/// positive values and zero otherwise, once `2^e` exceeds every value of `T`.
pub(crate) fn unbounded_ceil_div_by<T: Int>(x: T, e: u8) -> (r: T)
    ensures
        r.val() == ceil_div(x.val(), e as nat),
{
    proof {
        T::lemma_model();
        T::lemma_val(x);
    }
    if (e as u32) < T::BITS {
        ceil_div_by(x, e as u32)
    } else {
        proof {
            lemma_exponent_too_large::<T>(e as nat);
            crate::arith::lemma_mul_unit(floor_div(x.val(), e as nat), p2(e as nat));
            crate::arith::lemma_mul_unit(ceil_div(x.val(), e as nat), p2(e as nat));
            crate::arith::lemma_mul_unit(round_div(x.val(), e as nat), p2(e as nat));
            crate::arith::lemma_mul_unit(trunc_div(x.val(), e as nat), p2(e as nat));
            if x.val() >= 0 {
                lemma_div_small(x.val(), p2(e as nat));
            } else {
                lemma_div_small_neg(x.val(), p2(e as nat));
            }
        }
        if !T::ZERO.less_than(x) {
            T::ZERO
        } else {
            T::ONE
        }
    }
}

/// Division rounded to the nearest integer, ties away from zero, for every
/// exponent. Once `2^e` exceeds every value of `T` the result is zero, but at
/// `e == T::BITS` for `T::MIN` (exactly minus one half) and for unsigned values
/// of at least one half.
pub(crate) fn unbounded_round_div_by<T: Int<Unsigned = U>, U: Int>(x: T, e: u8) -> (r: T)
    requires
        unsigned_pair::<T, U>(),
    ensures
        r.val() == round_div(x.val(), e as nat),
{
    proof {
        T::lemma_model();
        T::lemma_val(x);
        T::lemma_val(T::MIN);
    }
    if (e as u32) < T::BITS {
        div_round_by::<T, U>(x, e as u32)
    } else {
        let ghost p = p2(e as nat);
        proof {
            lemma_exponent_too_large::<T>(e as nat);
            crate::arith::lemma_mul_unit(floor_div(x.val(), e as nat), p2(e as nat));
            crate::arith::lemma_mul_unit(ceil_div(x.val(), e as nat), p2(e as nat));
            crate::arith::lemma_mul_unit(round_div(x.val(), e as nat), p2(e as nat));
            crate::arith::lemma_mul_unit(trunc_div(x.val(), e as nat), p2(e as nat));
            lemma_shr::<T>(T::MAX, 1);
            lemma_p2_succ(0);
            lemma_p2_zero();
            if x.val() >= 0 {
                lemma_div_bit(x.val() + p / 2, p);
            } else {
                lemma_div_bit(-x.val() + p / 2, p);
            }
        }
        let half = T::MAX.unchecked_shr(1);
        proof {
            assert(p2(1) == 2);
            assert(half.val() == T::max_val() / 2);
        }
        let half_up = half.add_exact(T::ONE);
        if T::IS_SIGNED && x.same_as(T::MIN) && e as u32 == T::BITS {
            T::MINUS_ONE
        } else if T::IS_UNSIGNED && !x.less_than(half_up) && e as u32 == T::BITS {
            T::ONE
        } else {
            T::ZERO
        }
    }
}

/// Whether `x` is a multiple of `2^e`, for every exponent: zero is a multiple of
/// everything, and otherwise the trailing zero bits decide.
pub(crate) fn unbounded_is_multiple_by<T: Int>(x: T, e: u8) -> (r: bool)
    ensures
        r == is_multiple(x.val(), e as nat),
{
    proof {
        lemma_p2_pos(e as nat);
    }
    if x.is_zero() {
        true
    } else {
        let tz = x.trailing_zeros();
        proof {
            if tz >= e {
                crate::arith::lemma_multiple_p2_le(x.val(), e as nat, tz as nat);
            } else if x.val() % p2(e as nat) == 0 {
                crate::arith::lemma_multiple_p2_le(x.val(), tz as nat + 1, e as nat);
            }
        }
        tz >= e as u32
    }
}

/// Rounding an unsigned value down to a multiple of `2^e`, for every exponent:
/// zero once `2^e` exceeds every value of `T`.
pub(crate) fn unbounded_floor_multiple_unsigned_by<T: Int>(x: T, e: u8) -> (r: T)
    requires
        !T::signed_int(),
    ensures
        r.val() == floor_div(x.val(), e as nat) * p2(e as nat),
{
    proof {
        T::lemma_model();
        T::lemma_val(x);
    }
    if (e as u32) < T::BITS {
        floor_multiple_by(x, e as u32)
    } else {
        proof {
            lemma_exponent_too_large::<T>(e as nat);
            crate::arith::lemma_mul_unit(floor_div(x.val(), e as nat), p2(e as nat));
            crate::arith::lemma_mul_unit(ceil_div(x.val(), e as nat), p2(e as nat));
            crate::arith::lemma_mul_unit(round_div(x.val(), e as nat), p2(e as nat));
            crate::arith::lemma_mul_unit(trunc_div(x.val(), e as nat), p2(e as nat));
            lemma_div_small(x.val(), p2(e as nat));
        }
        T::ZERO
    }
}

/// Rounding down to a multiple of `2^e`, for every exponent, or `None` when the
/// multiple is not representable (a negative value and a too large exponent).
pub(crate) fn unbounded_floor_multiple_by<T: Int>(x: T, e: u8) -> (r: Option<T>)
    ensures
        match r {
            Some(v) => fits::<T>(floor_div(x.val(), e as nat) * p2(e as nat)) && v.val()
                == floor_div(x.val(), e as nat) * p2(e as nat),
            None => !fits::<T>(floor_div(x.val(), e as nat) * p2(e as nat)),
        },
{
    proof {
        T::lemma_model();
        T::lemma_val(x);
    }
    if (e as u32) < T::BITS {
        proof {
            crate::bits::lemma_floor_multiple_fits::<T>(x, e as u32);
        }
        Some(floor_multiple_by(x, e as u32))
    } else {
        proof {
            lemma_exponent_too_large::<T>(e as nat);
            crate::arith::lemma_mul_unit(floor_div(x.val(), e as nat), p2(e as nat));
            crate::arith::lemma_mul_unit(ceil_div(x.val(), e as nat), p2(e as nat));
            crate::arith::lemma_mul_unit(round_div(x.val(), e as nat), p2(e as nat));
            crate::arith::lemma_mul_unit(trunc_div(x.val(), e as nat), p2(e as nat));
            if x.val() >= 0 {
                lemma_div_small(x.val(), p2(e as nat));
            } else {
                lemma_div_small_neg(x.val(), p2(e as nat));
            }
        }
        if !x.less_than(T::ZERO) {
            Some(T::ZERO)
        } else {
            None
        }
    }
}

/// Rounding up to a multiple of `2^e`, for every exponent, or `None` when the
/// multiple is not representable.
pub(crate) fn unbounded_ceil_multiple_by<T: Int>(x: T, e: u8) -> (r: Option<T>)
    ensures
        match r {
            Some(v) => fits::<T>(ceil_div(x.val(), e as nat) * p2(e as nat)) && v.val()
                == ceil_div(x.val(), e as nat) * p2(e as nat),
            None => !fits::<T>(ceil_div(x.val(), e as nat) * p2(e as nat)),
        },
{
    proof {
        T::lemma_model();
        T::lemma_val(x);
    }
    if (e as u32) < T::BITS {
        checked_ceil_multiple_by(x, e as u32)
    } else {
        proof {
            lemma_exponent_too_large::<T>(e as nat);
            crate::arith::lemma_mul_unit(floor_div(x.val(), e as nat), p2(e as nat));
            crate::arith::lemma_mul_unit(ceil_div(x.val(), e as nat), p2(e as nat));
            crate::arith::lemma_mul_unit(round_div(x.val(), e as nat), p2(e as nat));
            crate::arith::lemma_mul_unit(trunc_div(x.val(), e as nat), p2(e as nat));
            if x.val() >= 0 {
                lemma_div_small(x.val(), p2(e as nat));
            } else {
                lemma_div_small_neg(x.val(), p2(e as nat));
            }
        }
        if !T::ZERO.less_than(x) {
            Some(T::ZERO)
        } else {
            None
        }
    }
}

/// Rounding to the nearest multiple of `2^e`, ties away from zero, for every
/// exponent, or `None` when the multiple is not representable.
pub(crate) fn unbounded_round_multiple_by<T: Int<Unsigned = U>, U: Int>(x: T, e: u8) -> (r:
    Option<T>)
    requires
        unsigned_pair::<T, U>(),
    ensures
        match r {
            Some(v) => fits::<T>(round_div(x.val(), e as nat) * p2(e as nat)) && v.val()
                == round_div(x.val(), e as nat) * p2(e as nat),
            None => !fits::<T>(round_div(x.val(), e as nat) * p2(e as nat)),
        },
{
    proof {
        T::lemma_model();
        T::lemma_val(x);
        T::lemma_val(T::MIN);
    }
    if (e as u32) < T::BITS {
        checked_round_multiple_by::<T, U>(x, e as u32)
    } else {
        let ghost p = p2(e as nat);
        proof {
            lemma_exponent_too_large::<T>(e as nat);
            crate::arith::lemma_mul_unit(floor_div(x.val(), e as nat), p2(e as nat));
            crate::arith::lemma_mul_unit(ceil_div(x.val(), e as nat), p2(e as nat));
            crate::arith::lemma_mul_unit(round_div(x.val(), e as nat), p2(e as nat));
            crate::arith::lemma_mul_unit(trunc_div(x.val(), e as nat), p2(e as nat));
            lemma_shr::<T>(T::MAX, 1);
            lemma_p2_succ(0);
            lemma_p2_zero();
            if x.val() >= 0 {
                lemma_div_bit(x.val() + p / 2, p);
            } else {
                lemma_div_bit(-x.val() + p / 2, p);
            }
        }
        let half = T::MAX.unchecked_shr(1);
        proof {
            assert(p2(1) == 2);
            assert(half.val() == T::max_val() / 2);
        }
        let half_up = half.add_exact(T::ONE);
        if T::IS_SIGNED && x.same_as(T::MIN) && e as u32 == T::BITS {
            None
        } else if T::IS_UNSIGNED && !x.less_than(half_up) && e as u32 == T::BITS {
            None
        } else {
            Some(T::ZERO)
        }
    }
}

/// `x * 2^e` when it is representable and the shift is in range, else `None`.
pub(crate) fn unbounded_checked_mul_by<T: Int>(x: T, e: u8) -> (r: Option<T>)
    ensures
        match r {
            Some(v) => (e as nat) < T::width() && fits::<T>(x.val() * p2(e as nat)) && v.val()
                == x.val() * p2(e as nat),
            None => (e as nat) >= T::width() || !fits::<T>(x.val() * p2(e as nat)),
        },
{
    match x.checked_shl(e as u32) {
        Some(result) => {
            let back = result.unchecked_shr(e as u32);
            proof {
                lemma_shl_roundtrip::<T>(x, e as u32);
                T::lemma_val(x);
                T::lemma_val(back);
                if fits::<T>(x.val() * p2(e as nat)) {
                    lemma_shl::<T>(x, e as u32);
                }
            }
            if x.same_as(back) {
                Some(result)
            } else {
                None
            }
        },
        None => None,
    }
}

} // verus!
