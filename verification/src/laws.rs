//! The laws that relate the operations to one another, stated over the spec
//! functions of the dispatch traits and proved for every integer type and exponent.
use vstd::prelude::*;
use crate::arith::{
    p2, floor_div, floor_rem, ceil_div, round_div, trunc_div, trunc_rem, is_multiple,
    lemma_p2_pos, lemma_p2_zero, lemma_sub_floor, lemma_round_nonneg, lemma_p2_le, is_pow2_int,
    lemma_pow2_values,
};
use crate::integer::{Int, IntRounding, UnsignedInt, IntAtLeastAsWide};
use crate::pow2::{
    Pow2, Pow2OutOfRange, UnboundedPow2, NotPow2, Pow2TryFromIntError, unbounded_of_int,
    pow2_of_int, log2_exact, lemma_p2_injective,
};
use vstd::std_specs::convert::{FromSpec, TryFromSpec};
use vstd::std_specs::ops::{MulSpec, DivSpec};
use crate::functions::{
    DivFloor, RemFloor, DivCeil, DivRound, IsMultipleOf, FloorToMultiple, CeilToMultiple,
    CheckedCeilToMultiple, RoundToMultiple, CheckedRoundToMultiple, CheckedDivFloor,
    UnboundedDivFloor, CheckedRemFloor, CheckedDivCeil, UnboundedDivCeil, CheckedDivRound,
    UnboundedDivRound, CheckedFloorToMultiple, UnboundedIsMultipleOf, CheckedMul,
};
use crate::bits::{lemma_and_mask, lemma_shr, lemma_shr_shl, lemma_floor_multiple_fits};
use crate::ops::{lemma_exponent_in_range, lemma_quotient_room, lemma_round_via_bias};

verus! {

/// The quotients and multiples of the model are representable in `T` for an
/// exponent in range, and reading them back through `T::from_val` gives them.
proof fn lemma_results_fit<T: Int>(x: T, e: nat)
    requires
        e < T::width(),
    ensures
        T::from_val(floor_div(x.val(), e)).val() == floor_div(x.val(), e),
        T::from_val(floor_rem(x.val(), e)).val() == floor_rem(x.val(), e),
        T::from_val(ceil_div(x.val(), e)).val() == ceil_div(x.val(), e),
        T::from_val(round_div(x.val(), e)).val() == round_div(x.val(), e),
        T::from_val(floor_div(x.val(), e) * p2(e)).val() == floor_div(x.val(), e) * p2(e),
        0 <= floor_rem(x.val(), e) < p2(e),
        floor_div(x.val(), e) <= round_div(x.val(), e) <= ceil_div(x.val(), e) <= floor_div(
            x.val(),
            e,
        ) + 1,
{
    lemma_exponent_in_range::<T>(e);
    T::lemma_val(x);
    T::lemma_model();
    vstd::arithmetic::div_mod::lemma_mod_bound(x.val(), p2(e));
    lemma_round_via_bias(x.val(), e);
    if e == 0 {
        lemma_p2_zero();
        vstd::arithmetic::div_mod::lemma_fundamental_div_mod_converse(x.val(), 1, x.val(), 0);
    } else {
        lemma_quotient_room::<T>(x, e);
    }
    lemma_floor_multiple_fits::<T>(x, e as u32);
    T::lemma_from_val(floor_div(x.val(), e));
    T::lemma_from_val(floor_rem(x.val(), e));
    T::lemma_from_val(ceil_div(x.val(), e));
    T::lemma_from_val(round_div(x.val(), e));
    T::lemma_from_val(floor_div(x.val(), e) * p2(e));
}

/// Rounding down to a multiple of a power of two and the floor remainder add up to
/// the value, and the remainder lies in `[0, 2^e)`, for every integer, signed
/// values included.
pub proof fn law_floor_reconstruction<L: IntAtLeastAsWide<T>, T: UnsignedInt>(x: L, p: Pow2<T>)
    requires
        p.exp() < T::width(),
    ensures
        x.floor_to_multiple_spec(p).val() + x.rem_floor_spec(p).val() == x.val(),
        0 <= x.rem_floor_spec(p).val() < p2(p.exp()),
{
    L::lemma_at_least_as_wide();
    lemma_results_fit::<L>(x, p.exp());
    lemma_sub_floor(x.val(), p2(p.exp()));
}

/// The same reconstruction with an [`UnboundedPow2`] whose exponent is in range for
/// the value's type.
pub proof fn law_floor_reconstruction_unbounded<L: Int>(x: L, u: UnboundedPow2)
    requires
        x.floor_to_multiple_req(u),
    ensures
        x.rem_floor_req(u),
        x.floor_to_multiple_spec(u).val() + x.rem_floor_spec(u).val() == x.val(),
        0 <= x.rem_floor_spec(u).val() < p2(u.exp()),
{
    lemma_results_fit::<L>(x, u.exp());
    lemma_sub_floor(x.val(), p2(u.exp()));
}

/// A value is a multiple of a power of two exactly when its floor remainder is zero.
pub proof fn law_multiple_iff_zero_remainder<L: IntAtLeastAsWide<T>, T: UnsignedInt>(
    x: L,
    p: Pow2<T>,
)
    requires
        p.exp() < T::width(),
    ensures
        x.is_multiple_of_spec(p) == (x.rem_floor_spec(p).val() == 0),
{
    L::lemma_at_least_as_wide();
    lemma_results_fit::<L>(x, p.exp());
}

/// The floor quotient, scaled back up by the power of two (shifted left by the
/// exponent), is the value rounded down to a multiple.
pub proof fn law_quotient_scales_to_multiple<L: IntAtLeastAsWide<T>, T: UnsignedInt>(
    x: L,
    p: Pow2<T>,
)
    requires
        p.exp() < T::width(),
    ensures
        x.floor_to_multiple_spec(p).val() == x.div_floor_spec(p).val() * p2(p.exp()),
        x.floor_to_multiple_spec(p) == x.div_floor_spec(p).shl_spec(p.exp() as u32),
{
    L::lemma_at_least_as_wide();
    lemma_results_fit::<L>(x, p.exp());
    L::lemma_model();
    let s = p.exp() as u32;
    lemma_shr::<L>(x, s);
    lemma_shr_shl::<L>(x, s);
    L::lemma_val(x.shr_spec(s));
    L::lemma_val(x.shr_spec(s).shl_spec(s));
}

/// The quotients rounded down, to the nearest and up are ordered, and rounding up
/// exceeds rounding down by at most one.
pub proof fn law_rounding_is_ordered<L: IntAtLeastAsWide<T> + IntRounding, T: UnsignedInt>(
    x: L,
    p: Pow2<T>,
)
    requires
        p.exp() < T::width(),
    ensures
        x.div_floor_spec(p).val() <= x.div_round_spec(p).val() <= x.div_ceil_spec(p).val(),
        x.div_ceil_spec(p).val() - x.div_floor_spec(p).val() == 0 || x.div_ceil_spec(p).val()
            - x.div_floor_spec(p).val() == 1,
{
    L::lemma_at_least_as_wide();
    lemma_results_fit::<L>(x, p.exp());
}

/// A [`Pow2`] and an [`UnboundedPow2`] with the same exponent give the same results,
/// and the exponent is in range for the latter.
pub proof fn law_pow2_agrees_with_unbounded<L: IntAtLeastAsWide<T> + IntRounding, T: UnsignedInt>(
    x: L,
    p: Pow2<T>,
    u: UnboundedPow2,
)
    requires
        p.exp() < T::width(),
        u.exp() == p.exp(),
    ensures
        x.div_floor_req(u),
        x.rem_floor_req(u),
        x.div_ceil_req(u),
        x.div_round_req(u),
        x.floor_to_multiple_req(u),
        x.is_multiple_of_req(u),
        x.div_floor_spec(p) == x.div_floor_spec(u),
        x.rem_floor_spec(p) == x.rem_floor_spec(u),
        x.div_ceil_spec(p) == x.div_ceil_spec(u),
        x.div_round_spec(p) == x.div_round_spec(u),
        x.floor_to_multiple_spec(p) == x.floor_to_multiple_spec(u),
        x.is_multiple_of_spec(p) == x.is_multiple_of_spec(u),
{
    L::lemma_at_least_as_wide();
}

/// Rounding up to a multiple with the checked variant agrees with the plain one
/// whenever the checked variant returns a value, and then the plain one is defined.
pub proof fn law_checked_ceil_matches<L: IntAtLeastAsWide<T>, T: UnsignedInt>(x: L, p: Pow2<T>)
    requires
        p.exp() < T::width(),
    ensures
        x.checked_ceil_to_multiple_spec(p) is Some ==> x.ceil_to_multiple_req(p)
            && x.checked_ceil_to_multiple_spec(p) == Some(x.ceil_to_multiple_spec(p)),
{
}

/// Rounding to the nearest multiple with the checked variant agrees with the plain
/// one whenever the checked variant returns a value, and then the plain one is defined.
pub proof fn law_checked_round_matches<L: IntAtLeastAsWide<T> + IntRounding, T: UnsignedInt>(
    x: L,
    p: Pow2<T>,
)
    ensures
        x.checked_round_to_multiple_spec(p) is Some ==> x.round_to_multiple_req(p)
            && x.checked_round_to_multiple_spec(p) == Some(x.round_to_multiple_spec(p)),
{
}

/// The operations with a power of two are the bit operations: the arithmetic shift
/// right for the floor quotient, the low bits for the floor remainder, the high bits
/// for the floored multiple, and low bits all clear for a multiple.
pub proof fn law_bit_identities<L: IntAtLeastAsWide<T>, T: UnsignedInt>(x: L, p: Pow2<T>)
    requires
        p.exp() < T::width(),
    ensures
        x.div_floor_spec(p) == x.shr_spec(p.exp() as u32),
        x.rem_floor_spec(p) == x.and_spec(L::mask_spec(p.exp() as u32)),
        x.floor_to_multiple_spec(p) == x.and_spec(L::mask_spec(p.exp() as u32).not_spec()),
        x.is_multiple_of_spec(p) == (x.and_spec(L::mask_spec(p.exp() as u32)).val() == 0),
{
    L::lemma_at_least_as_wide();
    lemma_results_fit::<L>(x, p.exp());
    L::lemma_model();
    let s = p.exp() as u32;
    lemma_shr::<L>(x, s);
    lemma_and_mask::<L>(x, s);
    lemma_p2_pos(s as nat);
    lemma_sub_floor(x.val(), p2(s as nat));
    L::lemma_val(x.shr_spec(s));
    L::lemma_val(x.and_spec(L::mask_spec(s)));
    L::lemma_val(x.and_spec(L::mask_spec(s).not_spec()));
}

/// Rounding half away from zero, computed from the quotient and remainder of the
/// division rounded towards zero: the quotient moves one step away from zero when
/// the remainder is at least half of the divisor.
pub open spec fn half_away_reference(x: int, e: nat) -> int {
    let q = trunc_div(x, e);
    let r = trunc_rem(x, e);
    let abs_r = if r < 0 {
        -r
    } else {
        r
    };
    let sign = if x > 0 {
        1int
    } else if x < 0 {
        -1int
    } else {
        0int
    };
    if abs_r * 2 >= p2(e) {
        q + sign
    } else {
        q
    }
}

/// Division rounded to the nearest integer agrees with rounding half away from zero
/// computed from the division rounded towards zero.
pub proof fn law_div_round_half_away<L: IntAtLeastAsWide<T> + IntRounding, T: UnsignedInt>(
    x: L,
    p: Pow2<T>,
)
    requires
        p.exp() < T::width(),
    ensures
        x.div_round_spec(p).val() == half_away_reference(x.val(), p.exp()),
{
    L::lemma_at_least_as_wide();
    lemma_results_fit::<L>(x, p.exp());
    lemma_round_half_away(x.val(), p.exp());
}

/// `round_div` is rounding half away from zero.
proof fn lemma_round_half_away(x: int, e: nat)
    ensures
        round_div(x, e) == half_away_reference(x, e),
{
    let d = p2(e);
    lemma_p2_pos(e);
    lemma_round_via_bias(x, e);
    let y = if x >= 0 {
        x
    } else {
        -x
    };
    lemma_sub_floor(y, d);
    if e == 0 {
        lemma_p2_zero();
        vstd::arithmetic::div_mod::lemma_fundamental_div_mod_converse(y, 1, y, 0);
    } else {
        let h = p2((e - 1) as nat);
        lemma_p2_pos((e - 1) as nat);
        lemma_round_nonneg(y, h);
    }
    assert(trunc_div(x, e) * d == if x >= 0 {
        (y / d) * d
    } else {
        -((y / d) * d)
    }) by (nonlinear_arith)
        requires
            trunc_div(x, e) == (if x >= 0 {
                y / d
            } else {
                -(y / d)
            }),
    ;
}

/// Converting a [`Pow2`] to an [`UnboundedPow2`] and back gives the same value.
pub proof fn law_unbounded_round_trip<T: UnsignedInt>(p: Pow2<T>)
    requires
        p.exp() < T::width(),
    ensures
        <Pow2<T> as TryFromSpec<UnboundedPow2>>::try_from_spec(
            <UnboundedPow2 as FromSpec<Pow2<T>>>::from_spec(p),
        ) == Ok::<Pow2<T>, Pow2OutOfRange>(p),
{
    T::lemma_model();
    UnboundedPow2::lemma_with_exp(p.exp(), UnboundedPow2::with_exp(p.exp()));
    Pow2::<T>::lemma_with_exp(p.exp(), p);
    Pow2::<T>::lemma_exp(p, p);
}

/// Converting an [`UnboundedPow2`] whose exponent is in range to a [`Pow2`] and back
/// gives the same value, and an exponent out of range is refused.
pub proof fn law_pow2_round_trip<T: UnsignedInt>(u: UnboundedPow2)
    ensures
        u.exp() < T::width() ==> (<Pow2<T> as TryFromSpec<UnboundedPow2>>::try_from_spec(u)
            matches Ok(p) && <UnboundedPow2 as FromSpec<Pow2<T>>>::from_spec(p) == u),
        u.exp() >= T::width() ==> <Pow2<T> as TryFromSpec<UnboundedPow2>>::try_from_spec(u)
            == Err::<Pow2<T>, Pow2OutOfRange>(Pow2OutOfRange),
{
    UnboundedPow2::lemma_exp(u, u);
    Pow2::<T>::lemma_with_exp(u.exp(), Pow2::<T>::with_exp(u.exp()));
    UnboundedPow2::lemma_with_exp(u.exp(), u);
}

/// Dividing a product of powers of two by one factor gives the other.
pub proof fn law_unbounded_mul_div(a: UnboundedPow2, b: UnboundedPow2)
    requires
        a.mul_req(b),
    ensures
        a.mul_spec(b).div_req(b),
        a.mul_spec(b).div_spec(b) == a,
{
    UnboundedPow2::lemma_exp(a, a);
    UnboundedPow2::lemma_with_exp(a.exp() + b.exp(), a);
    UnboundedPow2::lemma_with_exp(a.exp(), a);
}

/// Rounding down to a multiple gives the largest multiple of the power of two that
/// is not above the value.
pub proof fn law_floor_to_multiple_is_largest<L: IntAtLeastAsWide<T>, T: UnsignedInt>(
    x: L,
    p: Pow2<T>,
)
    requires
        p.exp() < T::width(),
    ensures
        x.floor_to_multiple_spec(p).val() <= x.val(),
        is_multiple(x.floor_to_multiple_spec(p).val(), p.exp()),
        forall|m: int|
            #![trigger is_multiple(m, p.exp())]
            is_multiple(m, p.exp()) && m <= x.val() ==> m <= x.floor_to_multiple_spec(p).val(),
{
    L::lemma_at_least_as_wide();
    lemma_results_fit::<L>(x, p.exp());
    let d = p2(p.exp());
    lemma_p2_pos(p.exp());
    lemma_sub_floor(x.val(), d);
    crate::arith::lemma_div_exact((x.val() / d) * d, d, x.val() / d);
    assert((x.val() / d) * d == d * (x.val() / d)) by (nonlinear_arith);
    assert forall|m: int| is_multiple(m, p.exp()) && m <= x.val() implies m <= (x.val() / d)
        * d by {
        lemma_multiple_below(m, x.val(), d);
    }
}

/// Rounding up to a multiple gives the smallest multiple of the power of two that is
/// not below the value.
pub proof fn law_ceil_to_multiple_is_smallest<L: IntAtLeastAsWide<T>, T: UnsignedInt>(
    x: L,
    p: Pow2<T>,
)
    requires
        p.exp() < T::width(),
        x.ceil_to_multiple_req(p),
    ensures
        x.ceil_to_multiple_spec(p).val() >= x.val(),
        is_multiple(x.ceil_to_multiple_spec(p).val(), p.exp()),
        forall|m: int|
            #![trigger is_multiple(m, p.exp())]
            is_multiple(m, p.exp()) && m >= x.val() ==> m >= x.ceil_to_multiple_spec(p).val(),
{
    L::lemma_at_least_as_wide();
    let d = p2(p.exp());
    let c = ceil_div(x.val(), p.exp());
    lemma_p2_pos(p.exp());
    L::lemma_from_val(c * d);
    lemma_sub_floor(x.val(), d);
    crate::arith::lemma_div_exact(c * d, d, c);
    assert(c * d == d * c) by (nonlinear_arith);
    assert(c * d == (x.val() / d) * d + (c - x.val() / d) * d) by (nonlinear_arith);
    crate::arith::lemma_mul_unit(c - x.val() / d, d);
    assert forall|m: int| is_multiple(m, p.exp()) && m >= x.val() implies m >= c * d by {
        lemma_multiple_above(m, x.val(), d);
    }
}

/// A multiple `m` of `d` that is at most `x` is at most `x` rounded down.
proof fn lemma_multiple_below(m: int, x: int, d: int)
    requires
        d > 0,
        m % d == 0,
        m <= x,
    ensures
        m <= (x / d) * d,
{
    vstd::arithmetic::div_mod::lemma_fundamental_div_mod(m, d);
    vstd::arithmetic::div_mod::lemma_div_is_ordered(m, x, d);
    assert(m == (m / d) * d) by (nonlinear_arith)
        requires
            m == d * (m / d) + m % d,
            m % d == 0,
    ;
    assert((m / d) * d <= (x / d) * d) by (nonlinear_arith)
        requires
            m / d <= x / d,
            d > 0,
    ;
}

/// A multiple `m` of `d` that is at least `x` is at least `x` rounded up.
proof fn lemma_multiple_above(m: int, x: int, d: int)
    requires
        d > 0,
        m % d == 0,
        m >= x,
    ensures
        m >= (if x % d == 0 {
            x / d
        } else {
            x / d + 1
        }) * d,
{
    vstd::arithmetic::div_mod::lemma_fundamental_div_mod(m, d);
    vstd::arithmetic::div_mod::lemma_fundamental_div_mod(x, d);
    vstd::arithmetic::div_mod::lemma_mod_bound(x, d);
    let k = m / d;
    let q = x / d;
    assert(m == k * d) by (nonlinear_arith)
        requires
            m == d * k + m % d,
            m % d == 0,
    ;
    if x % d == 0 {
        assert(k >= q) by (nonlinear_arith)
            requires
                k * d >= d * q,
                d > 0,
        ;
        assert(k * d >= q * d) by (nonlinear_arith)
            requires
                k >= q,
                d > 0,
        ;
    } else {
        assert(k > q) by (nonlinear_arith)
            requires
                k * d >= d * q + x % d,
                x % d > 0,
                d > 0,
        ;
        assert(k * d >= (q + 1) * d) by (nonlinear_arith)
            requires
                k >= q + 1,
                d > 0,
        ;
    }
}

/// The distance between two integers.
pub open spec fn dist(a: int, b: int) -> int {
    if a >= b {
        a - b
    } else {
        b - a
    }
}

/// Rounding to a multiple gives a multiple of the power of two nearest to the value,
/// and on a tie the one farther from zero.
pub proof fn law_round_to_multiple_is_nearest<L: IntAtLeastAsWide<T> + IntRounding, T: UnsignedInt>(
    x: L,
    p: Pow2<T>,
)
    requires
        p.exp() < T::width(),
        x.round_to_multiple_req(p),
    ensures
        is_multiple(x.round_to_multiple_spec(p).val(), p.exp()),
        forall|m: int|
            #![trigger is_multiple(m, p.exp())]
            is_multiple(m, p.exp()) ==> dist(m, x.val()) >= dist(
                x.round_to_multiple_spec(p).val(),
                x.val(),
            ),
        dist(x.round_to_multiple_spec(p).val(), x.val()) * 2 == p2(p.exp()) ==> (x.val() > 0
            ==> x.round_to_multiple_spec(p).val() > x.val()) && (x.val() < 0
            ==> x.round_to_multiple_spec(p).val() < x.val()),
{
    L::lemma_at_least_as_wide();
    let e = p.exp();
    let d = p2(e);
    let xv = x.val();
    let q = round_div(xv, e);
    L::lemma_from_val(q * d);
    lemma_round_nearest(xv, e);
}

/// `round_div(x, e) * 2^e` is a multiple of `2^e` nearest to `x`, the one farther
/// from zero on a tie.
proof fn lemma_round_nearest(x: int, e: nat)
    ensures
        is_multiple(round_div(x, e) * p2(e), e),
        forall|m: int|
            #![trigger is_multiple(m, e)]
            is_multiple(m, e) ==> dist(m, x) >= dist(round_div(x, e) * p2(e), x),
        dist(round_div(x, e) * p2(e), x) * 2 == p2(e) ==> (x > 0 ==> round_div(x, e) * p2(e) > x)
            && (x < 0 ==> round_div(x, e) * p2(e) < x),
{
    let d = p2(e);
    lemma_p2_pos(e);
    lemma_round_via_bias(x, e);
    lemma_sub_floor(x, d);
    let f = x / d;
    let rem = x % d;
    let q = round_div(x, e);
    crate::arith::lemma_div_exact(q * d, d, q);
    assert(q * d == d * q) by (nonlinear_arith);
    assert(q * d == f * d + (q - f) * d) by (nonlinear_arith);
    crate::arith::lemma_mul_unit(q - f, d);
    if e == 0 {
        lemma_p2_zero();
    } else {
        crate::arith::lemma_p2_succ((e - 1) as nat);
        lemma_p2_pos((e - 1) as nat);
    }
    assert forall|m: int| #![trigger is_multiple(m, e)]
        is_multiple(m, e) implies dist(m, x) >= dist(q * d, x) by {
        if m <= x {
            lemma_multiple_below(m, x, d);
        } else {
            lemma_multiple_above(m, x, d);
            crate::arith::lemma_mul_unit(if rem == 0 {
                0int
            } else {
                1int
            }, d);
            assert((if rem == 0 {
                f
            } else {
                f + 1
            }) * d == f * d + (if rem == 0 {
                0int
            } else {
                1int
            }) * d) by (nonlinear_arith);
        }
    }
}

/// The `checked_*` variants with an [`UnboundedPow2`] give the plain operation's
/// result exactly when its exponent is in range for the value's type and `None`
/// otherwise, and the `unbounded_*` variants agree with the plain operation
/// wherever that one is defined.
pub proof fn law_checked_and_unbounded_extend_plain<L: IntRounding>(x: L, u: UnboundedPow2)
    ensures
        x.checked_div_floor_spec(u) == (if x.div_floor_req(u) {
            Some(x.div_floor_spec(u))
        } else {
            None
        }),
        x.checked_rem_floor_spec(u) == (if x.rem_floor_req(u) {
            Some(x.rem_floor_spec(u))
        } else {
            None
        }),
        x.checked_div_ceil_spec(u) == (if x.div_ceil_req(u) {
            Some(x.div_ceil_spec(u))
        } else {
            None
        }),
        x.checked_div_round_spec(u) == (if x.div_round_req(u) {
            Some(x.div_round_spec(u))
        } else {
            None
        }),
        x.checked_floor_to_multiple_spec(u) == (if x.floor_to_multiple_req(u) {
            Some(x.floor_to_multiple_spec(u))
        } else {
            None
        }),
        x.div_floor_req(u) ==> x.unbounded_div_floor_spec(u) == x.div_floor_spec(u),
        x.div_ceil_req(u) ==> x.unbounded_div_ceil_spec(u) == x.div_ceil_spec(u),
        x.div_round_req(u) ==> x.unbounded_div_round_spec(u) == x.div_round_spec(u),
        x.is_multiple_of_req(u) ==> x.unbounded_is_multiple_of_spec(u) == x.is_multiple_of_spec(
            u,
        ),
        x.checked_mul_spec(u) is Some ==> x.div_floor_req(u),
{
}

/// A value is a multiple of `2^e` in the sense of `unbounded_is_multiple_of`
/// exactly when it is `k * 2^e` for some integer `k`, for every exponent; and a
/// multiple of a power of two is a multiple of every smaller one.
pub proof fn law_unbounded_is_multiple_of_divides<L: Int>(x: L, u: UnboundedPow2, w: UnboundedPow2)
    ensures
        x.unbounded_is_multiple_of_spec(u) == exists|k: int| x.val() == #[trigger] (k * p2(u.exp())),
        w.exp() <= u.exp() && x.unbounded_is_multiple_of_spec(u) ==> x.unbounded_is_multiple_of_spec(w),
        x.val() == 0 ==> x.unbounded_is_multiple_of_spec(u),
{
    let d = p2(u.exp());
    lemma_p2_pos(u.exp());
    vstd::arithmetic::div_mod::lemma_fundamental_div_mod(x.val(), d);
    if x.val() % d == 0 {
        let k = x.val() / d;
        assert(x.val() == k * d) by (nonlinear_arith)
            requires
                x.val() == d * (x.val() / d) + x.val() % d,
                x.val() % d == 0,
                k == x.val() / d,
        ;
    }
    if exists|k: int| x.val() == #[trigger] (k * d) {
        let k = choose|k: int| x.val() == #[trigger] (k * d);
        assert(x.val() == d * k) by (nonlinear_arith)
            requires
                x.val() == k * d,
        ;
        crate::arith::lemma_div_exact(x.val(), d, k);
    }
    if w.exp() <= u.exp() && x.val() % d == 0 {
        crate::arith::lemma_multiple_p2_le(x.val(), w.exp(), u.exp());
    }
    if x.val() == 0 {
        assert(0int % d == 0);
    }
}

/// A power of two of at most 128 bits is found back with its exponent, and any other
/// value is refused.
proof fn lemma_power_of_two_from_int(v: int, e: nat)
    requires
        0 <= v < p2(128),
    ensures
        (v == p2(e)) == (unbounded_of_int(v) matches Ok(u) && u.exp() == e),
        unbounded_of_int(v) is Err == !is_pow2_int(v),
        unbounded_of_int(v) matches Ok(u) ==> p2(u.exp()) == v && u.exp() < 128,
{
    if is_pow2_int(v) {
        let l = log2_exact(v);
        if l >= 128 {
            lemma_p2_le(128, l);
        }
        UnboundedPow2::lemma_with_exp(l, UnboundedPow2::with_exp(l));
        if v == p2(e) {
            lemma_p2_injective(l, e);
        }
    }
}

/// Converting a `usize` to an [`UnboundedPow2`] succeeds exactly on the powers of two,
/// at every exponent the width holds, and gives back that exponent.
pub proof fn law_unbounded_from_usize(v: usize, e: nat)
    ensures
        (v as int == p2(e)) == (<UnboundedPow2 as TryFromSpec<usize>>::try_from_spec(v) matches Ok(
            u,
        ) && u.exp() == e),
        <UnboundedPow2 as TryFromSpec<usize>>::try_from_spec(v) == Err::<UnboundedPow2, NotPow2>(
            NotPow2,
        ) <==> !is_pow2_int(v as int),
{
    usize::lemma_model();
    crate::bits::lemma_limits::<usize>();
    lemma_pow2_values();
    lemma_p2_le(usize::width(), 128);
    lemma_power_of_two_from_int(v as int, e);
}

/// Converting an `isize` to an [`UnboundedPow2`] succeeds exactly on the (positive)
/// powers of two and gives back the exponent.
pub proof fn law_unbounded_from_isize(v: isize, e: nat)
    ensures
        (v as int == p2(e)) == (<UnboundedPow2 as TryFromSpec<isize>>::try_from_spec(v) matches Ok(
            u,
        ) && u.exp() == e),
        <UnboundedPow2 as TryFromSpec<isize>>::try_from_spec(v) == Err::<UnboundedPow2, NotPow2>(
            NotPow2,
        ) <==> !is_pow2_int(v as int),
{
    isize::lemma_model();
    crate::bits::lemma_limits::<isize>();
    lemma_pow2_values();
    lemma_p2_le(crate::bits::top_exp::<isize>(), 128);
    if v < 0 {
        if v as int == p2(e) {
            lemma_p2_pos(e);
        }
        if is_pow2_int(v as int) {
            let k = choose|k: nat| v as int == #[trigger] p2(k);
            lemma_p2_pos(k);
        }
    } else {
        lemma_power_of_two_from_int(v as int, e);
    }
}

/// Converting a `u128` to an [`UnboundedPow2`] succeeds exactly on the powers of two,
/// at every exponent up to 127, and gives back that exponent.
pub proof fn law_unbounded_from_u128(v: u128, e: nat)
    ensures
        (v as int == p2(e)) == (<UnboundedPow2 as TryFromSpec<u128>>::try_from_spec(v) matches Ok(
            u,
        ) && u.exp() == e),
        <UnboundedPow2 as TryFromSpec<u128>>::try_from_spec(v) == Err::<UnboundedPow2, NotPow2>(
            NotPow2,
        ) <==> !is_pow2_int(v as int),
{
    lemma_pow2_values();
    lemma_power_of_two_from_int(v as int, e);
}

/// Converting a `usize` to a [`Pow2<T>`] succeeds exactly on the powers of two whose
/// exponent `T` holds, gives back that exponent, and tells a value that is not a
/// power of two from one that is out of range.
pub proof fn law_pow2_from_usize<T: UnsignedInt>(v: usize, e: nat)
    ensures
        (v as int == p2(e) && e < T::width()) == (<Pow2<T> as TryFromSpec<usize>>::try_from_spec(
            v,
        ) matches Ok(p) && p.exp() == e),
        <Pow2<T> as TryFromSpec<usize>>::try_from_spec(v) == Err::<Pow2<T>, Pow2TryFromIntError>(
            Pow2TryFromIntError::NotPow2,
        ) <==> !is_pow2_int(v as int),
        (v as int == p2(e) && e >= T::width()) ==> <Pow2<T> as TryFromSpec<usize>>::try_from_spec(v)
            == Err::<Pow2<T>, Pow2TryFromIntError>(Pow2TryFromIntError::Pow2OutOfRange),
{
    usize::lemma_model();
    crate::bits::lemma_limits::<usize>();
    lemma_pow2_values();
    lemma_p2_le(usize::width(), 128);
    T::lemma_model();
    if is_pow2_int(v as int) {
        let l = log2_exact(v as int);
        if l >= 128 {
            lemma_p2_le(128, l);
        }
        Pow2::<T>::lemma_with_exp(l, Pow2::<T>::with_exp(l));
        if v as int == p2(e) {
            lemma_p2_injective(l, e);
        }
        if let Ok(p) = <Pow2<T> as TryFromSpec<usize>>::try_from_spec(v) {
            Pow2::<T>::lemma_with_exp(l, p);
        }
    }
}

} // verus!
