//! The sealed integer abstraction that the arithmetic is written against.
//!
//! [`Int`] describes a primitive integer by a mathematical model: its width, its
//! signedness, its value as an unbounded integer, and the bit-level operators as
//! spec functions. Each primitive proves a small set of bit-level facts about
//! itself (`lemma_bits`); the generic lemmas of `bits` turn those facts into
//! arithmetic (shift right is floor division, masking is the floor remainder, and
//! so on), once for all widths.
use vstd::prelude::*;
use crate::arith::{p2, is_pow2_int, round_div};

verus! {

/// Marks the primitive integer types; implemented for them alone.
pub trait SealedInt {
}

/// Internal generics utility trait. While it is publicly exposed for the purpose
/// of specifying generic bounds it is highly discouraged to use it in any other way.
pub trait Int: SealedInt + Sized + Copy {
    type Signed: Copy;

    type Unsigned: Copy;

    const BITS: u32;

    const ZERO: Self;

    const ONE: Self;

    const MINUS_ONE: Self;

    const MIN: Self;

    const MAX: Self;

    const IS_SIGNED: bool;

    const IS_UNSIGNED: bool;

    const SAFE_SHIFT: u32;

    /// The bit width.
    spec fn width() -> nat;

    spec fn signed_int() -> bool;

    spec fn min_val() -> int;

    spec fn max_val() -> int;

    /// The value as an unbounded integer.
    spec fn val(self) -> int;

    /// The integer of this type with value `v` (meaningful when `v` is in range).
    spec fn from_val(v: int) -> Self;

    spec fn signed_val(v: Self::Signed) -> int;

    spec fn unsigned_val(v: Self::Unsigned) -> int;

    spec fn shr_spec(self, s: u32) -> Self;

    spec fn shl_spec(self, s: u32) -> Self;

    spec fn and_spec(self, rhs: Self) -> Self;

    spec fn not_spec(self) -> Self;

    /// `2^bits - 1`, computed in the unsigned domain.
    spec fn mask_spec(bits: u32) -> Self;

    /// `2^bits >> 1`, computed in the unsigned domain.
    spec fn high_bit_spec(bits: u32) -> Self;

    proof fn lemma_model()
        ensures
            Self::width() == 8 || Self::width() == 16 || Self::width() == 32 || Self::width()
                == 64 || Self::width() == 128,
            Self::BITS == Self::width(),
            Self::IS_SIGNED == Self::signed_int(),
            Self::IS_UNSIGNED == !Self::signed_int(),
            Self::SAFE_SHIFT == (if Self::signed_int() {
                Self::width() - 2
            } else {
                Self::width() - 1
            }),
            Self::min_val() == (if Self::signed_int() {
                -p2((Self::width() - 1) as nat)
            } else {
                0
            }),
            Self::max_val() == (if Self::signed_int() {
                p2((Self::width() - 1) as nat) - 1
            } else {
                p2(Self::width()) - 1
            }),
            Self::ZERO.val() == 0,
            Self::ONE.val() == 1,
            Self::MINUS_ONE.val() == (if Self::signed_int() {
                -1
            } else {
                Self::max_val()
            }),
            Self::MIN.val() == Self::min_val(),
            Self::MAX.val() == Self::max_val(),
    ;

    proof fn lemma_val(x: Self)
        ensures
            Self::min_val() <= x.val() <= Self::max_val(),
            Self::from_val(x.val()) == x,
    ;

    proof fn lemma_from_val(v: int)
        requires
            Self::min_val() <= v <= Self::max_val(),
        ensures
            Self::from_val(v).val() == v,
    ;

    /// The bit-level facts from which the arithmetic meaning of the operators follows.
    proof fn lemma_bits(x: Self, y: Self, s: u32)
        requires
            s < Self::width(),
        ensures
            x.shr_spec(0) == x,
            x.shl_spec(0) == x,
            s + 1 < Self::width() ==> x.shr_spec((s + 1) as u32) == x.shr_spec(s).shr_spec(1),
            s + 1 < Self::width() ==> x.shl_spec((s + 1) as u32) == x.shl_spec(s).shl_spec(1),
            x.val() == 2 * x.shr_spec(1).val() + x.and_spec(Self::ONE).val(),
            x.and_spec(Self::ONE).val() == 0 || x.and_spec(Self::ONE).val() == 1,
            Self::min_val() <= 2 * x.val() <= Self::max_val() ==> x.shl_spec(1).val() == 2
                * x.val(),
            x.and_spec(Self::mask_spec(s)).val() == x.val() - x.shr_spec(s).shl_spec(s).val(),
            x.and_spec(Self::mask_spec(s).not_spec()) == x.shr_spec(s).shl_spec(s),
            x.not_spec().val() == Self::min_val() + Self::max_val() - x.val(),
            Self::MAX.and_spec(Self::mask_spec(s)) == Self::mask_spec(s),
            s == 0 ==> Self::high_bit_spec(s).val() == 0,
            s >= 1 ==> Self::high_bit_spec(s).val() == Self::mask_spec(s).val() - Self::mask_spec(
                s,
            ).shr_spec(1).val(),
            s >= 1 ==> ((x.and_spec(Self::high_bit_spec(s)).val() == 0) == (x.shr_spec(
                (s - 1) as u32,
            ).and_spec(Self::ONE).val() == 0)),
            (x.shl_spec(s).shr_spec(s) == x) == (Self::MIN.shr_spec(s).val() <= x.val()
                <= Self::MAX.shr_spec(s).val()),
            Self::ZERO.and_spec(y) == Self::ZERO,
            Self::MINUS_ONE.and_spec(y) == y,
    ;

    /// Returns whether the value is a power of two (never for zero or negative values).
    fn is_power_of_two(self) -> (r: bool)
        ensures
            r == is_pow2_int(self.val()),
    ;

    /// The base 2 logarithm, rounded down.
    fn ilog2(self) -> (r: u32)
        requires
            self.val() > 0,
        ensures
            p2(r as nat) <= self.val() < p2(r as nat + 1),
    ;

    /// Reinterprets the bits as the signed integer of the same width.
    fn cast_signed(self) -> (r: Self::Signed)
        ensures
            Self::signed_val(r) == (if self.val() >= p2((Self::width() - 1) as nat) {
                self.val() - p2(Self::width())
            } else {
                self.val()
            }),
    ;

    /// Reinterprets the bits as the unsigned integer of the same width.
    fn cast_unsigned(self) -> (r: Self::Unsigned)
        ensures
            Self::unsigned_val(r) == (if self.val() < 0 {
                self.val() + p2(Self::width())
            } else {
                self.val()
            }),
    ;

    fn from_bool(b: bool) -> (r: Self)
        ensures
            r.val() == (if b {
                1int
            } else {
                0int
            }),
    ;

    fn is_zero(self) -> (r: bool)
        ensures
            r == (self.val() == 0),
    ;

    fn is_not_zero(self) -> (r: bool)
        ensures
            r == (self.val() != 0),
    ;

    /// Shift left, `None` when the shift amount is not below the width.
    fn checked_shl(self, rhs: u32) -> (r: Option<Self>)
        ensures
            rhs >= Self::width() ==> r is None,
            rhs < Self::width() ==> r == Some(self.shl_spec(rhs)),
    ;

    /// Addition, `None` on overflow.
    fn checked_add(self, rhs: Self) -> (r: Option<Self>)
        ensures
            match r {
                Some(v) => Self::min_val() <= self.val() + rhs.val() <= Self::max_val() && v.val()
                    == self.val() + rhs.val(),
                None => !(Self::min_val() <= self.val() + rhs.val() <= Self::max_val()),
            },
    ;

    /// `2^bits - 1`.
    fn mask(bits: u32) -> (r: Self)
        requires
            bits < Self::width(),
        ensures
            r == Self::mask_spec(bits),
    ;

    /// `2^bits >> 1`: the highest bit of `mask(bits)`, or zero.
    fn highest_mask_bit(bits: u32) -> (r: Self)
        requires
            bits < Self::width(),
        ensures
            r == Self::high_bit_spec(bits),
    ;

    fn unchecked_mask(bits: u32) -> (r: Self)
        requires
            bits < Self::width(),
        ensures
            r == Self::mask_spec(bits),
    ;

    fn unchecked_highest_mask_bit(bits: u32) -> (r: Self)
        requires
            bits < Self::width(),
        ensures
            r == Self::high_bit_spec(bits),
    ;

    /// The number of trailing zero bits; the width for zero.
    fn trailing_zeros(self) -> (r: u32)
        ensures
            r <= Self::width(),
            self.val() == 0 ==> r == Self::width(),
            self.val() != 0 ==> r < Self::width() && self.val() % p2(r as nat) == 0 && self.val()
                % p2(r as nat + 1) != 0,
    ;

    fn unchecked_shr(self, rhs: u32) -> (r: Self)
        requires
            rhs < Self::width(),
        ensures
            r == self.shr_spec(rhs),
    ;

    fn unchecked_shl(self, rhs: u32) -> (r: Self)
        requires
            rhs < Self::width(),
        ensures
            r == self.shl_spec(rhs),
    ;

    /// Subtraction clamped to the range of the type.
    fn saturating_sub(self, rhs: Self) -> (r: Self)
        ensures
            r.val() == (if self.val() - rhs.val() < Self::min_val() {
                Self::min_val()
            } else if self.val() - rhs.val() > Self::max_val() {
                Self::max_val()
            } else {
                self.val() - rhs.val()
            }),
    ;

    /// Reinterprets the bits of the signed integer of the same width.
    fn self_from_signed(rhs: Self::Signed) -> (r: Self)
        ensures
            r.val() == (if Self::signed_int() || Self::signed_val(rhs) >= 0 {
                Self::signed_val(rhs)
            } else {
                Self::signed_val(rhs) + p2(Self::width())
            }),
    ;

    /// Reinterprets the bits of the unsigned integer of the same width.
    fn self_from_unsigned(rhs: Self::Unsigned) -> (r: Self)
        ensures
            r.val() == (if !Self::signed_int() || Self::unsigned_val(rhs) < p2(
                (Self::width() - 1) as nat,
            ) {
                Self::unsigned_val(rhs)
            } else {
                Self::unsigned_val(rhs) - p2(Self::width())
            }),
    ;

    /// Bitwise and (the `&` operator).
    fn bit_and(self, rhs: Self) -> (r: Self)
        ensures
            r == self.and_spec(rhs),
    ;

    /// Bitwise complement (the `!` operator).
    fn bit_not(self) -> (r: Self)
        ensures
            r == self.not_spec(),
    ;

    /// Addition that does not overflow (the `+` operator).
    fn add_exact(self, rhs: Self) -> (r: Self)
        requires
            Self::min_val() <= self.val() + rhs.val() <= Self::max_val(),
        ensures
            r.val() == self.val() + rhs.val(),
    ;

    /// Subtraction that does not overflow (the `-` operator).
    fn sub_exact(self, rhs: Self) -> (r: Self)
        requires
            Self::min_val() <= self.val() - rhs.val() <= Self::max_val(),
        ensures
            r.val() == self.val() - rhs.val(),
    ;

    /// The `<` operator.
    fn less_than(self, rhs: Self) -> (r: bool)
        ensures
            r == (self.val() < rhs.val()),
    ;

    /// The `==` operator.
    fn same_as(self, rhs: Self) -> (r: bool)
        ensures
            r == (self.val() == rhs.val()),
    ;
}

/// The rounding operations of a primitive integer, whose algorithm for signed
/// integers works on the bits of the unsigned integer of the same width.
pub trait IntRounding: Int {
    /// Division by `2^s` rounded to the nearest integer, ties away from zero.
    fn div_round_by(self, s: u32) -> (r: Self)
        requires
            s < Self::width(),
        ensures
            r.val() == round_div(self.val(), s as nat),
    ;

    /// The value rounded to the nearest multiple of `2^s`, ties away from zero, when
    /// that multiple is representable.
    fn round_to_multiple_by(self, s: u32) -> (r: Self)
        requires
            s < Self::width(),
            fits::<Self>(round_div(self.val(), s as nat) * p2(s as nat)),
        ensures
            r.val() == round_div(self.val(), s as nat) * p2(s as nat),
    ;

    /// The value rounded to the nearest multiple of `2^s`, ties away from zero, or
    /// `None` when that multiple is not representable.
    fn checked_round_to_multiple_by(self, s: u32) -> (r: Option<Self>)
        requires
            s < Self::width(),
        ensures
            match r {
                Some(v) => fits::<Self>(round_div(self.val(), s as nat) * p2(s as nat))
                    && v.val() == round_div(self.val(), s as nat) * p2(s as nat),
                None => !fits::<Self>(round_div(self.val(), s as nat) * p2(s as nat)),
            },
    ;

    /// Division by `2^e` rounded to the nearest integer, ties away from zero, for
    /// every exponent.
    fn unbounded_div_round_by(self, e: u8) -> (r: Self)
        ensures
            r.val() == round_div(self.val(), e as nat),
    ;

    /// The value rounded to the nearest multiple of `2^e`, ties away from zero, for
    /// every exponent, or `None` when that multiple is not representable.
    fn unbounded_round_to_multiple_by(self, e: u8) -> (r: Option<Self>)
        ensures
            match r {
                Some(v) => fits::<Self>(round_div(self.val(), e as nat) * p2(e as nat))
                    && v.val() == round_div(self.val(), e as nat) * p2(e as nat),
                None => !fits::<Self>(round_div(self.val(), e as nat) * p2(e as nat)),
            },
    ;
}

/// Internal generics utility trait. While it is publicly exposed for the purpose
/// of specifying generic bounds it is highly discouraged to use it in any other way.
pub trait UnsignedInt: Int<Unsigned = Self> {
    proof fn lemma_unsigned()
        ensures
            !Self::signed_int(),
    ;
}

/// Internal generics utility trait. While it is publicly exposed for the purpose
/// of specifying generic bounds it is highly discouraged to use it in any other way.
pub trait SignedInt: Int<Signed = Self> {
    proof fn lemma_signed()
        ensures
            Self::signed_int(),
    ;
}

/// Internal generics utility trait. While it is publicly exposed for the purpose
/// of specifying generic bounds it is highly discouraged to use it in any other way.
///
/// Implemented for `Self` only when `Self` is at least as wide as `T`.
pub trait IntAtLeastAsWide<T: UnsignedInt>: Int {
    proof fn lemma_at_least_as_wide()
        ensures
            Self::width() >= T::width(),
    ;
}

/// The value is representable in `T`.
pub open spec fn fits<T: Int>(v: int) -> bool {
    T::min_val() <= v <= T::max_val()
}

} // verus!
