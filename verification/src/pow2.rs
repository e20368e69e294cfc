//! The two power-of-two types, their constructors, accessors and conversions.
use vstd::prelude::*;
use vstd::std_specs::convert::{FromSpecImpl, TryFromSpecImpl};
use vstd::std_specs::ops::{MulSpecImpl, DivSpecImpl};
use core::marker::PhantomData;
use core::convert::TryFrom;
use core::ops::{Div, DivAssign, Mul, MulAssign};
use crate::arith::{p2, is_pow2_int, lemma_p2_pos, lemma_p2_le, lemma_p2_lt, lemma_pow2_values};
use crate::integer::{Int, UnsignedInt, fits};
use crate::bits::{lemma_shl, lemma_limits, top_exp};

verus! {

/// The largest exponent `e` for which `2^e` is representable in `T`
/// (`BITS - 1` for unsigned and `BITS - 2` for signed integers).
pub open spec fn safe_shift<T: Int>() -> nat {
    (top_exp::<T>() - 1) as nat
}

/// Models a power of two integer by storing the exponent.
/// The exponent is stored as a `u8` so the available values are 0..=255.
///
/// It is strongly recommended to use [`Pow2`] whenever possible instead due to
/// stronger guarantees and higher performance in some cases.
///
/// Some operations involving [`UnboundedPow2`] are faster on unsigned integers,
/// so they should be preferred, unless required otherwise.
#[derive(Debug, Hash, Eq, PartialEq, Ord, PartialOrd, Copy, Clone)]
pub struct UnboundedPow2 {
    exponent: u8,
}

/// Error type for when a value is not a power of two.
#[derive(Debug, Eq, PartialEq, Copy, Clone)]
pub struct NotPow2;

/// Error type for when a power of two value cannot be represented.
#[derive(Debug, Eq, PartialEq, Copy, Clone)]
pub struct Pow2OutOfRange;

impl NotPow2 {
    /// The message that describes the error.
    pub fn message(&self) -> (r: &'static str)
        ensures
            r@ == "Not a power of two"@,
    {
        "Not a power of two"
    }
}

impl Pow2OutOfRange {
    /// The message that describes the error.
    pub fn message(&self) -> (r: &'static str)
        ensures
            r@ == "Out of range"@,
    {
        "Out of range"
    }
}

/// Returns the ABI-required alignment of the value's type, which is a power of two.
///
/// Calls `core::mem::align_of_val`. Besides the result that vstd specifies for it,
/// this claims that the alignment is a power of two, which the language guarantees
/// for every type layout (vstd gives that fact only through a layout lemma whose
/// argument form this crate does not use).
#[verifier::external_body]
fn alignment_of_val<U: ?Sized>(val: &U) -> (r: usize)
    ensures
        r == vstd::layout::spec_align_of_val::<U>(val),
        is_pow2_int(r as int),
{
    core::mem::align_of_val(val)
}

/// The exponent of the power of two `align_of::<U>()`.
fn alignment_exponent_of<U>() -> (r: u32)
    ensures
        p2(r as nat) == vstd::layout::align_of::<U>(),
        r < 64,
{
    vstd::layout::layout_for_type_is_valid::<U>();
    let align = core::mem::align_of::<U>();
    proof {
        vstd::arithmetic::power2::is_pow2_equiv(align as int);
        let i = choose|i: nat| vstd::arithmetic::power::pow(2, i) == align as int;
        vstd::arithmetic::power2::lemma_pow2(i);
        assert(align as int == p2(i));
    }
    let r = <usize as Int>::ilog2(align);
    proof {
        lemma_usize_below_p2_64(align);
        lemma_pow2_exponent(align as int, r as nat, 64);
    }
    r
}

/// The exponent of the power of two `align_of_val(val)`.
fn alignment_exponent_of_val<U: ?Sized>(val: &U) -> (r: u32)
    ensures
        p2(r as nat) == vstd::layout::spec_align_of_val::<U>(val),
        r < 64,
{
    let align = alignment_of_val(val);
    let ghost e = choose|e: nat| align as int == #[trigger] p2(e);
    proof {
        lemma_p2_pos(e);
    }
    let r = <usize as Int>::ilog2(align);
    proof {
        lemma_usize_below_p2_64(align);
        lemma_pow2_exponent(align as int, r as nat, 64);
    }
    r
}

proof fn lemma_usize_below_p2_64(x: usize)
    ensures
        (x as int) < p2(64),
{
    usize::lemma_model();
    lemma_limits::<usize>();
    lemma_pow2_values();
    assert(usize::BITS == 32 || usize::BITS == 64);
    if usize::BITS == 32 {
        lemma_p2_le(32, 64);
    }
}

/// `Ok(2^e)` as a `Pow2<T>` when `e < T::BITS`.
pub open spec fn pow2_of_exp<T: UnsignedInt>(e: nat) -> Result<Pow2<T>, Pow2OutOfRange> {
    if e < T::width() {
        Ok(Pow2::<T>::with_exp(e))
    } else {
        Err(Pow2OutOfRange)
    }
}

/// The power of two equal to `v`, if `v` is one.
pub open spec fn unbounded_of_int(v: int) -> Result<UnboundedPow2, NotPow2> {
    if is_pow2_int(v) {
        Ok(UnboundedPow2::with_exp(log2_exact(v)))
    } else {
        Err(NotPow2)
    }
}

/// `2^e` as an integer of type `V`, when representable.
pub open spec fn int_of_unbounded<V: Int>(u: UnboundedPow2) -> Result<V, Pow2OutOfRange> {
    if u.exp() <= safe_shift::<V>() {
        Ok(V::from_val(p2(u.exp())))
    } else {
        Err(Pow2OutOfRange)
    }
}

/// The `Pow2<T>` equal to `v`, if `v` is a power of two that `T` can hold.
pub open spec fn pow2_of_int<T: UnsignedInt>(v: int) -> Result<Pow2<T>, Pow2TryFromIntError> {
    if !is_pow2_int(v) {
        Err(Pow2TryFromIntError::NotPow2)
    } else if log2_exact(v) < T::width() {
        Ok(Pow2::<T>::with_exp(log2_exact(v)))
    } else {
        Err(Pow2TryFromIntError::Pow2OutOfRange)
    }
}

/// The exponent of a power of two.
pub open spec fn log2_exact(v: int) -> nat {
    choose|e: nat| v == #[trigger] p2(e)
}

/// The exponent of a power of two is unique.
pub(crate) proof fn lemma_p2_injective(a: nat, b: nat)
    requires
        p2(a) == p2(b),
    ensures
        a == b,
{
    if a < b {
        lemma_p2_lt(a, b);
    } else if b < a {
        lemma_p2_lt(b, a);
    }
}

/// For a power of two, the rounded-down logarithm is exact, and the exponent
/// of a value that fits in 128 bits is below 128.
proof fn lemma_pow2_exponent(v: int, r: nat, bound: nat)
    requires
        is_pow2_int(v),
        p2(r) <= v < p2(r + 1),
        v < p2(bound),
    ensures
        p2(r) == v,
        r < bound,
        r == log2_exact(v),
{
    let e = choose|e: nat| v == #[trigger] p2(e);
    lemma_p2_injective(e, log2_exact(v));
    if e < r {
        lemma_p2_le(e + 1, r);
        crate::arith::lemma_p2_succ(e);
        lemma_p2_pos(e);
    } else if e > r {
        lemma_p2_le(r + 1, e);
    }
    if r >= bound {
        lemma_p2_le(bound, r);
    }
}

impl UnboundedPow2 {
    /// The exponent: this value is `2^exp()`.
    pub closed spec fn exp(self) -> nat {
        self.exponent as nat
    }

    /// Two values with the same exponent are the same value, and every exponent fits a `u8`.
    pub proof fn lemma_exp(a: Self, b: Self)
        ensures
            (a == b) == (a.exp() == b.exp()),
            a.exp() <= 255,
    {
    }

    /// The value with exponent `e` (for `e <= 255`).
    pub closed spec fn with_exp(e: nat) -> UnboundedPow2 {
        UnboundedPow2 { exponent: e as u8 }
    }

    pub proof fn lemma_with_exp(e: nat, u: UnboundedPow2)
        ensures
            e <= 255 ==> Self::with_exp(e).exp() == e,
            Self::with_exp(u.exp()) == u,
            u.exp() == e ==> u == Self::with_exp(e),
    {
    }

    /// Creates a new [`UnboundedPow2`] from a given power of two exponent.
    pub fn from_exponent(exponent: u8) -> (r: UnboundedPow2)
        ensures
            r.exp() == exponent,
    {
        UnboundedPow2 { exponent }
    }

    /// Creates a new [`UnboundedPow2`] equal to the memory alignment of type `T`
    pub fn align_of<T>() -> (r: UnboundedPow2)
        ensures
            p2(r.exp()) == vstd::layout::align_of::<T>(),
    {
        UnboundedPow2 { exponent: alignment_exponent_of::<T>() as u8 }
    }

    /// Creates a new [`UnboundedPow2`] equal to the memory alignment of value `val`
    pub fn align_of_val<T: ?Sized>(val: &T) -> (r: UnboundedPow2)
        ensures
            p2(r.exp()) == vstd::layout::spec_align_of_val::<T>(val),
    {
        UnboundedPow2 { exponent: alignment_exponent_of_val(val) as u8 }
    }

    pub fn exponent(self) -> (r: u8)
        ensures
            r == self.exp(),
    {
        self.exponent
    }

    /// Whether `2^exponent` is representable in `T`.
    pub fn is_safe<T: Int>(self) -> (r: bool)
        ensures
            r == (self.exp() <= safe_shift::<T>()),
    {
        proof {
            T::lemma_model();
        }
        self.exponent as u32 <= T::SAFE_SHIFT
    }

    /// Attempts to multiply two [`UnboundedPow2`] together, producing a new [`UnboundedPow2`].
    ///
    /// Returns `None` if the result exponent is not representable, `Some(result)` otherwise.
    pub fn checked_mul(self, other: UnboundedPow2) -> (r: Option<UnboundedPow2>)
        ensures
            match r {
                Some(v) => self.exp() + other.exp() <= 255 && v.exp() == self.exp() + other.exp(),
                None => self.exp() + other.exp() > 255,
            },
    {
        match self.exponent.checked_add(other.exponent) {
            Some(e) => Some(UnboundedPow2::from_exponent(e)),
            None => None,
        }
    }

    /// Multiplies two [`UnboundedPow2`] with saturation together, producing a new
    /// [`UnboundedPow2`].
    /// Effectively saturated addition of exponents.
    pub fn saturating_mul(self, other: UnboundedPow2) -> (r: UnboundedPow2)
        ensures
            r.exp() == (if self.exp() + other.exp() > 255 {
                255
            } else {
                self.exp() + other.exp()
            }),
    {
        UnboundedPow2::from_exponent(self.exponent.saturating_add(other.exponent))
    }

    /// Attempts to divide two [`UnboundedPow2`] together, producing a new [`UnboundedPow2`].
    ///
    /// Returns `None` if the result exponent is not representable, `Some(result)` otherwise.
    pub fn checked_div(self, other: UnboundedPow2) -> (r: Option<UnboundedPow2>)
        ensures
            match r {
                Some(v) => other.exp() <= self.exp() && v.exp() == self.exp() - other.exp(),
                None => other.exp() > self.exp(),
            },
    {
        match self.exponent.checked_sub(other.exponent) {
            Some(e) => Some(UnboundedPow2::from_exponent(e)),
            None => None,
        }
    }

    /// Divides two [`UnboundedPow2`] with saturation together, producing a new [`UnboundedPow2`].
    /// Effectively saturated division of exponents.
    pub fn saturating_div(self, other: UnboundedPow2) -> (r: UnboundedPow2)
        ensures
            r.exp() == (if other.exp() > self.exp() {
                0
            } else {
                self.exp() - other.exp()
            }),
    {
        UnboundedPow2::from_exponent(self.exponent.saturating_sub(other.exponent))
    }

    /// The modelled power-of-two value as an integer of type `T`.
    fn as_int<T: Int>(self) -> (r: T)
        requires
            self.exp() <= safe_shift::<T>(),
        ensures
            r.val() == p2(self.exp()),
    {
        proof {
            T::lemma_model();
            lemma_limits::<T>();
            lemma_p2_lt(self.exp(), top_exp::<T>());
            lemma_shl::<T>(T::ONE, self.exponent as u32);
        }
        T::ONE.unchecked_shl(self.exponent as u32)
    }
}

impl UnboundedPow2 {
    /// Returns the modelled power-of-two value as u8.
    ///
    /// The value must be representable (`exponent <= 7`).
    pub fn as_u8(self) -> (r: u8)
        requires
            self.exp() <= 7,
        ensures
            r == p2(self.exp()),
    {
        proof {
            u8::lemma_model();
        }
        self.as_int::<u8>()
    }
}

impl UnboundedPow2 {
    /// Returns the modelled power-of-two value as u16.
    ///
    /// The value must be representable (`exponent <= 15`).
    pub fn as_u16(self) -> (r: u16)
        requires
            self.exp() <= 15,
        ensures
            r == p2(self.exp()),
    {
        proof {
            u16::lemma_model();
        }
        self.as_int::<u16>()
    }
}

impl UnboundedPow2 {
    /// Returns the modelled power-of-two value as u32.
    ///
    /// The value must be representable (`exponent <= 31`).
    pub fn as_u32(self) -> (r: u32)
        requires
            self.exp() <= 31,
        ensures
            r == p2(self.exp()),
    {
        proof {
            u32::lemma_model();
        }
        self.as_int::<u32>()
    }
}

impl UnboundedPow2 {
    /// Returns the modelled power-of-two value as u64.
    ///
    /// The value must be representable (`exponent <= 63`).
    pub fn as_u64(self) -> (r: u64)
        requires
            self.exp() <= 63,
        ensures
            r == p2(self.exp()),
    {
        proof {
            u64::lemma_model();
        }
        self.as_int::<u64>()
    }
}

impl UnboundedPow2 {
    /// Returns the modelled power-of-two value as u128.
    ///
    /// The value must be representable (`exponent <= 127`).
    pub fn as_u128(self) -> (r: u128)
        requires
            self.exp() <= 127,
        ensures
            r == p2(self.exp()),
    {
        proof {
            u128::lemma_model();
        }
        self.as_int::<u128>()
    }
}

impl UnboundedPow2 {
    /// Returns the modelled power-of-two value as usize.
    ///
    /// The value must be representable (`exponent <= usize::BITS - 1`).
    pub fn as_usize(self) -> (r: usize)
        requires
            self.exp() <= usize::BITS - 1,
        ensures
            r == p2(self.exp()),
    {
        proof {
            usize::lemma_model();
        }
        self.as_int::<usize>()
    }
}

impl UnboundedPow2 {
    /// Returns the modelled power-of-two value as i8.
    ///
    /// The value must be representable (`exponent <= 6`).
    pub fn as_i8(self) -> (r: i8)
        requires
            self.exp() <= 6,
        ensures
            r == p2(self.exp()),
    {
        proof {
            i8::lemma_model();
        }
        self.as_int::<i8>()
    }
}

impl UnboundedPow2 {
    /// Returns the modelled power-of-two value as i16.
    ///
    /// The value must be representable (`exponent <= 14`).
    pub fn as_i16(self) -> (r: i16)
        requires
            self.exp() <= 14,
        ensures
            r == p2(self.exp()),
    {
        proof {
            i16::lemma_model();
        }
        self.as_int::<i16>()
    }
}

impl UnboundedPow2 {
    /// Returns the modelled power-of-two value as i32.
    ///
    /// The value must be representable (`exponent <= 30`).
    pub fn as_i32(self) -> (r: i32)
        requires
            self.exp() <= 30,
        ensures
            r == p2(self.exp()),
    {
        proof {
            i32::lemma_model();
        }
        self.as_int::<i32>()
    }
}

impl UnboundedPow2 {
    /// Returns the modelled power-of-two value as i64.
    ///
    /// The value must be representable (`exponent <= 62`).
    pub fn as_i64(self) -> (r: i64)
        requires
            self.exp() <= 62,
        ensures
            r == p2(self.exp()),
    {
        proof {
            i64::lemma_model();
        }
        self.as_int::<i64>()
    }
}

impl UnboundedPow2 {
    /// Returns the modelled power-of-two value as i128.
    ///
    /// The value must be representable (`exponent <= 126`).
    pub fn as_i128(self) -> (r: i128)
        requires
            self.exp() <= 126,
        ensures
            r == p2(self.exp()),
    {
        proof {
            i128::lemma_model();
        }
        self.as_int::<i128>()
    }
}

impl UnboundedPow2 {
    /// Returns the modelled power-of-two value as isize.
    ///
    /// The value must be representable (`exponent <= usize::BITS - 2`).
    pub fn as_isize(self) -> (r: isize)
        requires
            self.exp() <= usize::BITS - 2,
        ensures
            r == p2(self.exp()),
    {
        proof {
            isize::lemma_model();
        }
        self.as_int::<isize>()
    }
}

#[allow(non_snake_case)]
impl UnboundedPow2 {
    /// `2^0`.
    pub fn VAL_1() -> (r: UnboundedPow2)
        ensures
            r.exp() == 0,
    {
        UnboundedPow2 { exponent: 0 }
    }
    /// `2^1`.
    pub fn VAL_2() -> (r: UnboundedPow2)
        ensures
            r.exp() == 1,
    {
        UnboundedPow2 { exponent: 1 }
    }
    /// `2^2`.
    pub fn VAL_4() -> (r: UnboundedPow2)
        ensures
            r.exp() == 2,
    {
        UnboundedPow2 { exponent: 2 }
    }
    /// `2^3`.
    pub fn VAL_8() -> (r: UnboundedPow2)
        ensures
            r.exp() == 3,
    {
        UnboundedPow2 { exponent: 3 }
    }
    /// `2^4`.
    pub fn VAL_16() -> (r: UnboundedPow2)
        ensures
            r.exp() == 4,
    {
        UnboundedPow2 { exponent: 4 }
    }
    /// `2^5`.
    pub fn VAL_32() -> (r: UnboundedPow2)
        ensures
            r.exp() == 5,
    {
        UnboundedPow2 { exponent: 5 }
    }
    /// `2^6`.
    pub fn VAL_64() -> (r: UnboundedPow2)
        ensures
            r.exp() == 6,
    {
        UnboundedPow2 { exponent: 6 }
    }
    /// `2^7`.
    pub fn VAL_128() -> (r: UnboundedPow2)
        ensures
            r.exp() == 7,
    {
        UnboundedPow2 { exponent: 7 }
    }
    /// `2^8`.
    pub fn VAL_256() -> (r: UnboundedPow2)
        ensures
            r.exp() == 8,
    {
        UnboundedPow2 { exponent: 8 }
    }
    /// `2^9`.
    pub fn VAL_512() -> (r: UnboundedPow2)
        ensures
            r.exp() == 9,
    {
        UnboundedPow2 { exponent: 9 }
    }
    /// `2^10`.
    pub fn KIBI() -> (r: UnboundedPow2)
        ensures
            r.exp() == 10,
    {
        UnboundedPow2 { exponent: 10 }
    }
    /// `2^20`.
    pub fn MEBI() -> (r: UnboundedPow2)
        ensures
            r.exp() == 20,
    {
        UnboundedPow2 { exponent: 20 }
    }
    /// `2^30`.
    pub fn GIBI() -> (r: UnboundedPow2)
        ensures
            r.exp() == 30,
    {
        UnboundedPow2 { exponent: 30 }
    }
    /// `2^40`.
    pub fn TEBI() -> (r: UnboundedPow2)
        ensures
            r.exp() == 40,
    {
        UnboundedPow2 { exponent: 40 }
    }
    /// `2^50`.
    pub fn PEBI() -> (r: UnboundedPow2)
        ensures
            r.exp() == 50,
    {
        UnboundedPow2 { exponent: 50 }
    }
    /// `2^60`.
    pub fn EXBI() -> (r: UnboundedPow2)
        ensures
            r.exp() == 60,
    {
        UnboundedPow2 { exponent: 60 }
    }
    /// `2^70`.
    pub fn ZEBI() -> (r: UnboundedPow2)
        ensures
            r.exp() == 70,
    {
        UnboundedPow2 { exponent: 70 }
    }
    /// `2^80`.
    pub fn YOBI() -> (r: UnboundedPow2)
        ensures
            r.exp() == 80,
    {
        UnboundedPow2 { exponent: 80 }
    }
    /// `2^90`.
    pub fn ROBI() -> (r: UnboundedPow2)
        ensures
            r.exp() == 90,
    {
        UnboundedPow2 { exponent: 90 }
    }
    /// `2^100`.
    pub fn QUEBI() -> (r: UnboundedPow2)
        ensures
            r.exp() == 100,
    {
        UnboundedPow2 { exponent: 100 }
    }
}

impl Mul for UnboundedPow2 {
    type Output = UnboundedPow2;

    /// Multiplies the powers of two (adds the exponents); the sum must fit a `u8`.
    fn mul(self, other: UnboundedPow2) -> (r: UnboundedPow2)
        ensures
            r.exp() == self.exp() + other.exp(),
    {
        UnboundedPow2::from_exponent(self.exponent + other.exponent)
    }
}

impl MulSpecImpl for UnboundedPow2 {
    open spec fn obeys_mul_spec() -> bool {
        true
    }

    open spec fn mul_req(self, rhs: UnboundedPow2) -> bool {
        self.exp() + rhs.exp() <= 255
    }

    open spec fn mul_spec(self, rhs: UnboundedPow2) -> UnboundedPow2 {
        UnboundedPow2::with_exp(self.exp() + rhs.exp())
    }
}

impl MulAssign for UnboundedPow2 {
    fn mul_assign(&mut self, other: UnboundedPow2)
        requires
            old(self).exp() + other.exp() <= 255,
        ensures
            final(self).exp() == old(self).exp() + other.exp(),
    {
        self.exponent = self.exponent + other.exponent;
    }
}

impl Div for UnboundedPow2 {
    type Output = UnboundedPow2;

    /// Divides the powers of two (subtracts the exponents); the divisor must not be larger.
    fn div(self, other: UnboundedPow2) -> (r: UnboundedPow2)
        ensures
            r.exp() == self.exp() - other.exp(),
    {
        UnboundedPow2::from_exponent(self.exponent - other.exponent)
    }
}

impl DivSpecImpl for UnboundedPow2 {
    open spec fn obeys_div_spec() -> bool {
        true
    }

    open spec fn div_req(self, rhs: UnboundedPow2) -> bool {
        rhs.exp() <= self.exp()
    }

    open spec fn div_spec(self, rhs: UnboundedPow2) -> UnboundedPow2 {
        UnboundedPow2::with_exp((self.exp() - rhs.exp()) as nat)
    }
}

impl DivAssign for UnboundedPow2 {
    fn div_assign(&mut self, other: UnboundedPow2)
        requires
            other.exp() <= old(self).exp(),
        ensures
            final(self).exp() == old(self).exp() - other.exp(),
    {
        self.exponent = self.exponent - other.exponent;
    }
}

/// Models a power of two integer by storing the exponent.
/// The exponent is guaranteed to be in the range valid for bitshift operations
/// on `T`. `T` is restricted to unsigned integers because it's mostly used for modeling bit-width.
///
/// It is strongly recommended to use this struct instead of [`UnboundedPow2`] due to
/// stronger guarantees and higher performance in some cases.
#[derive(Debug, Hash, Eq, PartialEq, Ord, PartialOrd, Copy)]
pub struct Pow2<T: UnsignedInt> {
    exponent: u8,
    _marker: PhantomData<T>,
}

impl<T: UnsignedInt> Clone for Pow2<T> {
    fn clone(&self) -> (r: Self)
        ensures
            r == *self,
    {
        *self
    }
}

impl<T: UnsignedInt> Pow2<T> {
    #[verifier::type_invariant]
    spec fn exponent_in_range(self) -> bool {
        self.exponent < T::width()
    }

    /// The exponent: this value is `2^exp()`, with `exp() < T::BITS`.
    pub closed spec fn exp(self) -> nat {
        self.exponent as nat
    }

    /// Two values with the same exponent are the same value.
    pub proof fn lemma_exp(a: Self, b: Self)
        ensures
            (a == b) == (a.exp() == b.exp()),
    {
    }

    /// The value with exponent `e` (for `e < T::BITS`).
    pub closed spec fn with_exp(e: nat) -> Pow2<T> {
        Pow2 { exponent: e as u8, _marker: PhantomData }
    }

    pub proof fn lemma_with_exp(e: nat, p: Pow2<T>)
        ensures
            e <= 255 ==> Self::with_exp(e).exp() == e,
            p.exp() == e ==> p == Self::with_exp(e),
    {
    }

    /// The value with exponent `e`, for an `e` known to be in range.
    fn new_unchecked(exponent: u8) -> (r: Self)
        requires
            exponent < T::width(),
        ensures
            r.exp() == exponent,
    {
        Pow2 { exponent, _marker: PhantomData }
    }

    /// Attempts to create a new [`Pow2`] from a given power of two exponent.
    ///
    /// Returns `Err(Pow2OutOfRange)` if the exponent is too high for this integer width,
    /// `Ok(result)` otherwise.
    pub fn from_exponent(exponent: u8) -> (r: Result<Self, Pow2OutOfRange>)
        ensures
            r == pow2_of_exp::<T>(exponent as nat),
            match r {
                Ok(v) => exponent < T::width() && v.exp() == exponent,
                Err(_) => exponent >= T::width(),
            },
    {
        proof {
            T::lemma_model();
        }
        if exponent as u32 >= T::BITS {
            Err(Pow2OutOfRange)
        } else {
            Ok(Pow2 { exponent, _marker: PhantomData })
        }
    }

    /// Attempts to create a new [`Pow2`] equal to the memory alignment of type `U`.
    ///
    /// Returns `Err(Pow2OutOfRange)` if the exponent is too high for this integer width,
    /// `Ok(result)` otherwise.
    pub fn align_of<U>() -> (r: Result<Self, Pow2OutOfRange>)
        ensures
            match r {
                Ok(v) => p2(v.exp()) == vstd::layout::align_of::<U>(),
                Err(_) => exists|e: nat|
                    #![trigger p2(e)]
                    p2(e) == vstd::layout::align_of::<U>() && e >= T::width(),
            },
    {
        let e = alignment_exponent_of::<U>();
        Self::from_exponent(e as u8)
    }

    /// Attempts to create a new [`Pow2`] equal to the memory alignment of value `val`.
    ///
    /// Returns `Err(Pow2OutOfRange)` if the exponent is too high for this integer width,
    /// `Ok(result)` otherwise.
    pub fn align_of_val<U: ?Sized>(val: &U) -> (r: Result<Self, Pow2OutOfRange>)
        ensures
            match r {
                Ok(v) => p2(v.exp()) == vstd::layout::spec_align_of_val::<U>(val),
                Err(_) => exists|e: nat|
                    #![trigger p2(e)]
                    p2(e) == vstd::layout::spec_align_of_val::<U>(val) && e >= T::width(),
            },
    {
        let e = alignment_exponent_of_val(val);
        Self::from_exponent(e as u8)
    }

    pub fn exponent(self) -> (r: u8)
        ensures
            r == self.exp(),
            r < T::width(),
    {
        proof {
            use_type_invariant(&self);
        }
        self.exponent
    }

    /// Returns the actual value modeled by this object.
    pub fn value(self) -> (r: T)
        ensures
            r.val() == p2(self.exp()),
    {
        proof {
            use_type_invariant(&self);
            T::lemma_model();
            T::lemma_unsigned();
            lemma_limits::<T>();
            lemma_p2_lt(self.exp(), T::width());
            lemma_shl::<T>(T::ONE, self.exponent as u32);
        }
        T::ONE.unchecked_shl(self.exponent as u32)
    }

    /// Returns a mask with `self.exponent` of lowest bits set. Effectively `self.value() - 1`.
    pub fn mask(self) -> (r: T)
        ensures
            r.val() == p2(self.exp()) - 1,
    {
        proof {
            use_type_invariant(&self);
            crate::bits::lemma_mask::<T>(self.exponent as u32);
        }
        T::unchecked_mask(self.exponent as u32)
    }

    /// Attempts to multiply two [`Pow2`] together, producing a new [`Pow2`].
    ///
    /// Returns `None` if the result exponent is too high for this integer width,
    /// `Some(result)` otherwise.
    pub fn checked_mul(self, other: Self) -> (r: Option<Self>)
        ensures
            match r {
                Some(v) => self.exp() + other.exp() < T::width() && v.exp() == self.exp()
                    + other.exp(),
                None => self.exp() + other.exp() >= T::width(),
            },
    {
        proof {
            use_type_invariant(&self);
            use_type_invariant(&other);
            T::lemma_model();
        }
        // The addition does not overflow because it's at most 127+127<=255 for u128
        match Self::from_exponent(self.exponent + other.exponent) {
            Ok(v) => Some(v),
            Err(_) => None,
        }
    }

    /// Multiplies two [`Pow2`] with saturation together, producing a new [`Pow2`].
    /// Effectively saturated addition of exponents.
    ///
    /// NOTE: The saturation upper bound is defined by the current integer width.
    pub fn saturating_mul(self, other: Self) -> (r: Self)
        ensures
            r.exp() == (if self.exp() + other.exp() > T::width() - 1 {
                (T::width() - 1) as nat
            } else {
                self.exp() + other.exp()
            }),
    {
        proof {
            use_type_invariant(&self);
            use_type_invariant(&other);
            T::lemma_model();
        }
        let sum = self.exponent + other.exponent;
        let top = (T::BITS - 1) as u8;
        Pow2 { exponent: if sum < top { sum } else { top }, _marker: PhantomData }
    }

    /// Attempts to divide two [`Pow2`] together, producing a new [`Pow2`].
    ///
    /// Returns `None` if the result exponent would be negative, `Some(result)` otherwise.
    pub fn checked_div(self, other: Self) -> (r: Option<Self>)
        ensures
            match r {
                Some(v) => other.exp() <= self.exp() && v.exp() == self.exp() - other.exp(),
                None => other.exp() > self.exp(),
            },
    {
        proof {
            use_type_invariant(&self);
        }
        match self.exponent.checked_sub(other.exponent) {
            Some(e) => Some(Pow2 { exponent: e, _marker: PhantomData }),
            None => None,
        }
    }

    /// Divides two [`Pow2`] with saturation together, producing a new [`Pow2`].
    /// Effectively saturated division of exponents.
    pub fn saturating_div(self, other: Self) -> (r: Self)
        ensures
            r.exp() == (if other.exp() > self.exp() {
                0
            } else {
                self.exp() - other.exp()
            }),
    {
        proof {
            use_type_invariant(&self);
            T::lemma_model();
        }
        Pow2 { exponent: self.exponent.saturating_sub(other.exponent), _marker: PhantomData }
    }
}

impl<T: UnsignedInt> From<Pow2<T>> for UnboundedPow2 {
    fn from(value: Pow2<T>) -> (r: Self)
        ensures
            r.exp() == value.exp(),
    {
        UnboundedPow2 { exponent: value.exponent }
    }
}

impl<T: UnsignedInt> FromSpecImpl<Pow2<T>> for UnboundedPow2 {
    open spec fn obeys_from_spec() -> bool {
        true
    }

    open spec fn from_spec(v: Pow2<T>) -> UnboundedPow2 {
        UnboundedPow2::with_exp(v.exp())
    }
}

impl<T: UnsignedInt> TryFromSpecImpl<UnboundedPow2> for Pow2<T> {
    open spec fn obeys_try_from_spec() -> bool {
        true
    }

    open spec fn try_from_spec(v: UnboundedPow2) -> Result<Pow2<T>, Pow2OutOfRange> {
        pow2_of_exp::<T>(v.exp())
    }
}

impl<T: UnsignedInt> TryFrom<UnboundedPow2> for Pow2<T> {
    type Error = Pow2OutOfRange;

    fn try_from(value: UnboundedPow2) -> (r: Result<Self, Pow2OutOfRange>)
        ensures
            match r {
                Ok(v) => value.exp() < T::width() && v.exp() == value.exp(),
                Err(_) => value.exp() >= T::width(),
            },
    {
        Self::from_exponent(value.exponent)
    }
}

/// Error type for when a Pow2 cannot be constructed from an integer.
#[derive(Debug, Eq, PartialEq, Copy, Clone)]
pub enum Pow2TryFromIntError {
    Pow2OutOfRange,
    NotPow2,
}

impl Pow2TryFromIntError {
    /// The message that describes the error.
    pub fn message(&self) -> (r: &'static str)
        ensures
            r@ == (match self {
                Pow2TryFromIntError::Pow2OutOfRange => "Out of range"@,
                Pow2TryFromIntError::NotPow2 => "Not a power of two"@,
            }),
    {
        match self {
            Pow2TryFromIntError::Pow2OutOfRange => "Out of range",
            Pow2TryFromIntError::NotPow2 => "Not a power of two",
        }
    }
}

impl From<NotPow2> for Pow2TryFromIntError {
    fn from(value: NotPow2) -> (r: Self)
        ensures
            r == Pow2TryFromIntError::NotPow2,
    {
        Pow2TryFromIntError::NotPow2
    }
}

impl FromSpecImpl<NotPow2> for Pow2TryFromIntError {
    open spec fn obeys_from_spec() -> bool {
        true
    }

    open spec fn from_spec(v: NotPow2) -> Pow2TryFromIntError {
        Pow2TryFromIntError::NotPow2
    }
}

impl From<Pow2OutOfRange> for Pow2TryFromIntError {
    fn from(value: Pow2OutOfRange) -> (r: Self)
        ensures
            r == Pow2TryFromIntError::Pow2OutOfRange,
    {
        Pow2TryFromIntError::Pow2OutOfRange
    }
}

impl FromSpecImpl<Pow2OutOfRange> for Pow2TryFromIntError {
    open spec fn obeys_from_spec() -> bool {
        true
    }

    open spec fn from_spec(v: Pow2OutOfRange) -> Pow2TryFromIntError {
        Pow2TryFromIntError::Pow2OutOfRange
    }
}

/// A power of two from an integer: `Err(NotPow2)` unless the value is `2^e` for some `e`.
fn unbounded_from_int<V: Int>(value: V) -> (r: Result<UnboundedPow2, NotPow2>)
    ensures
        r == unbounded_of_int(value.val()),
        match r {
            Ok(p) => p2(p.exp()) == value.val(),
            Err(_) => !is_pow2_int(value.val()),
        },
{
    if !value.is_power_of_two() {
        Err(NotPow2)
    } else {
        proof {
            let e = choose|e: nat| value.val() == #[trigger] p2(e);
            lemma_p2_pos(e);
            V::lemma_val(value);
            lemma_limits::<V>();
            V::lemma_model();
            lemma_pow2_values();
            lemma_p2_le(top_exp::<V>(), 128);
        }
        let l = value.ilog2();
        proof {
            lemma_pow2_exponent(value.val(), l as nat, 128);
        }
        let r = UnboundedPow2::from_exponent(l as u8);
        proof {
            UnboundedPow2::lemma_with_exp(l as nat, r);
        }
        Ok(r)
    }
}

/// `2^exponent` as an integer: `Err(Pow2OutOfRange)` unless it is representable.
fn int_from_unbounded<V: Int>(value: UnboundedPow2) -> (r: Result<V, Pow2OutOfRange>)
    ensures
        r == int_of_unbounded::<V>(value),
        match r {
            Ok(v) => value.exp() <= safe_shift::<V>() && v.val() == p2(value.exp()),
            Err(_) => value.exp() > safe_shift::<V>(),
        },
{
    if value.is_safe::<V>() {
        let v = value.as_int::<V>();
        proof {
            V::lemma_val(v);
        }
        Ok(v)
    } else {
        Err(Pow2OutOfRange)
    }
}

/// A `Pow2<T>` from an integer.
fn pow2_from_int<T: UnsignedInt, V: Int>(value: V) -> (r: Result<Pow2<T>, Pow2TryFromIntError>)
    ensures
        r == pow2_of_int::<T>(value.val()),
        match r {
            Ok(p) => p2(p.exp()) == value.val(),
            Err(Pow2TryFromIntError::NotPow2) => !is_pow2_int(value.val()),
            Err(Pow2TryFromIntError::Pow2OutOfRange) => exists|e: nat|
                #![trigger p2(e)]
                p2(e) == value.val() && e >= T::width(),
        },
{
    if !value.is_power_of_two() {
        Err(Pow2TryFromIntError::NotPow2)
    } else {
        proof {
            let e = choose|e: nat| value.val() == #[trigger] p2(e);
            lemma_p2_pos(e);
            V::lemma_val(value);
            lemma_limits::<V>();
            V::lemma_model();
            lemma_pow2_values();
            lemma_p2_le(top_exp::<V>(), 128);
        }
        let l = value.ilog2();
        proof {
            lemma_pow2_exponent(value.val(), l as nat, 128);
        }
        match Pow2::<T>::from_exponent(l as u8) {
            Ok(p) => {
                proof {
                    Pow2::<T>::lemma_with_exp(l as nat, p);
                }
                Ok(p)
            },
            Err(e) => Err(Pow2TryFromIntError::from(e)),
        }
    }
}

/// A `Pow2` of a wider type with the same exponent.
fn pow2_widen<S: UnsignedInt, D: UnsignedInt>(value: Pow2<S>) -> (r: Pow2<D>)
    requires
        S::width() <= D::width(),
    ensures
        r.exp() == value.exp(),
{
    proof {
        use_type_invariant(&value);
    }
    Pow2 { exponent: value.exponent, _marker: PhantomData }
}

#[allow(non_snake_case)]
impl Pow2<u8> {
    /// `2^0`.
    pub fn VAL_1() -> (r: Pow2<u8>)
        ensures
            r.exp() == 0,
    {
        Pow2 { exponent: 0, _marker: PhantomData }
    }
    /// `2^1`.
    pub fn VAL_2() -> (r: Pow2<u8>)
        ensures
            r.exp() == 1,
    {
        Pow2 { exponent: 1, _marker: PhantomData }
    }
    /// `2^2`.
    pub fn VAL_4() -> (r: Pow2<u8>)
        ensures
            r.exp() == 2,
    {
        Pow2 { exponent: 2, _marker: PhantomData }
    }
    /// `2^3`.
    pub fn VAL_8() -> (r: Pow2<u8>)
        ensures
            r.exp() == 3,
    {
        Pow2 { exponent: 3, _marker: PhantomData }
    }
    /// `2^4`.
    pub fn VAL_16() -> (r: Pow2<u8>)
        ensures
            r.exp() == 4,
    {
        Pow2 { exponent: 4, _marker: PhantomData }
    }
    /// `2^5`.
    pub fn VAL_32() -> (r: Pow2<u8>)
        ensures
            r.exp() == 5,
    {
        Pow2 { exponent: 5, _marker: PhantomData }
    }
    /// `2^6`.
    pub fn VAL_64() -> (r: Pow2<u8>)
        ensures
            r.exp() == 6,
    {
        Pow2 { exponent: 6, _marker: PhantomData }
    }
    /// `2^7`.
    pub fn VAL_128() -> (r: Pow2<u8>)
        ensures
            r.exp() == 7,
    {
        Pow2 { exponent: 7, _marker: PhantomData }
    }
}

#[allow(non_snake_case)]
impl Pow2<u16> {
    /// `2^0`.
    pub fn VAL_1() -> (r: Pow2<u16>)
        ensures
            r.exp() == 0,
    {
        Pow2 { exponent: 0, _marker: PhantomData }
    }
    /// `2^1`.
    pub fn VAL_2() -> (r: Pow2<u16>)
        ensures
            r.exp() == 1,
    {
        Pow2 { exponent: 1, _marker: PhantomData }
    }
    /// `2^2`.
    pub fn VAL_4() -> (r: Pow2<u16>)
        ensures
            r.exp() == 2,
    {
        Pow2 { exponent: 2, _marker: PhantomData }
    }
    /// `2^3`.
    pub fn VAL_8() -> (r: Pow2<u16>)
        ensures
            r.exp() == 3,
    {
        Pow2 { exponent: 3, _marker: PhantomData }
    }
    /// `2^4`.
    pub fn VAL_16() -> (r: Pow2<u16>)
        ensures
            r.exp() == 4,
    {
        Pow2 { exponent: 4, _marker: PhantomData }
    }
    /// `2^5`.
    pub fn VAL_32() -> (r: Pow2<u16>)
        ensures
            r.exp() == 5,
    {
        Pow2 { exponent: 5, _marker: PhantomData }
    }
    /// `2^6`.
    pub fn VAL_64() -> (r: Pow2<u16>)
        ensures
            r.exp() == 6,
    {
        Pow2 { exponent: 6, _marker: PhantomData }
    }
    /// `2^7`.
    pub fn VAL_128() -> (r: Pow2<u16>)
        ensures
            r.exp() == 7,
    {
        Pow2 { exponent: 7, _marker: PhantomData }
    }
    /// `2^8`.
    pub fn VAL_256() -> (r: Pow2<u16>)
        ensures
            r.exp() == 8,
    {
        Pow2 { exponent: 8, _marker: PhantomData }
    }
    /// `2^9`.
    pub fn VAL_512() -> (r: Pow2<u16>)
        ensures
            r.exp() == 9,
    {
        Pow2 { exponent: 9, _marker: PhantomData }
    }
    /// `2^10`.
    pub fn KIBI() -> (r: Pow2<u16>)
        ensures
            r.exp() == 10,
    {
        Pow2 { exponent: 10, _marker: PhantomData }
    }
}

#[allow(non_snake_case)]
impl Pow2<u32> {
    /// `2^0`.
    pub fn VAL_1() -> (r: Pow2<u32>)
        ensures
            r.exp() == 0,
    {
        Pow2 { exponent: 0, _marker: PhantomData }
    }
    /// `2^1`.
    pub fn VAL_2() -> (r: Pow2<u32>)
        ensures
            r.exp() == 1,
    {
        Pow2 { exponent: 1, _marker: PhantomData }
    }
    /// `2^2`.
    pub fn VAL_4() -> (r: Pow2<u32>)
        ensures
            r.exp() == 2,
    {
        Pow2 { exponent: 2, _marker: PhantomData }
    }
    /// `2^3`.
    pub fn VAL_8() -> (r: Pow2<u32>)
        ensures
            r.exp() == 3,
    {
        Pow2 { exponent: 3, _marker: PhantomData }
    }
    /// `2^4`.
    pub fn VAL_16() -> (r: Pow2<u32>)
        ensures
            r.exp() == 4,
    {
        Pow2 { exponent: 4, _marker: PhantomData }
    }
    /// `2^5`.
    pub fn VAL_32() -> (r: Pow2<u32>)
        ensures
            r.exp() == 5,
    {
        Pow2 { exponent: 5, _marker: PhantomData }
    }
    /// `2^6`.
    pub fn VAL_64() -> (r: Pow2<u32>)
        ensures
            r.exp() == 6,
    {
        Pow2 { exponent: 6, _marker: PhantomData }
    }
    /// `2^7`.
    pub fn VAL_128() -> (r: Pow2<u32>)
        ensures
            r.exp() == 7,
    {
        Pow2 { exponent: 7, _marker: PhantomData }
    }
    /// `2^8`.
    pub fn VAL_256() -> (r: Pow2<u32>)
        ensures
            r.exp() == 8,
    {
        Pow2 { exponent: 8, _marker: PhantomData }
    }
    /// `2^9`.
    pub fn VAL_512() -> (r: Pow2<u32>)
        ensures
            r.exp() == 9,
    {
        Pow2 { exponent: 9, _marker: PhantomData }
    }
    /// `2^10`.
    pub fn KIBI() -> (r: Pow2<u32>)
        ensures
            r.exp() == 10,
    {
        Pow2 { exponent: 10, _marker: PhantomData }
    }
    /// `2^20`.
    pub fn MEBI() -> (r: Pow2<u32>)
        ensures
            r.exp() == 20,
    {
        Pow2 { exponent: 20, _marker: PhantomData }
    }
    /// `2^30`.
    pub fn GIBI() -> (r: Pow2<u32>)
        ensures
            r.exp() == 30,
    {
        Pow2 { exponent: 30, _marker: PhantomData }
    }
}

#[allow(non_snake_case)]
impl Pow2<u64> {
    /// `2^0`.
    pub fn VAL_1() -> (r: Pow2<u64>)
        ensures
            r.exp() == 0,
    {
        Pow2 { exponent: 0, _marker: PhantomData }
    }
    /// `2^1`.
    pub fn VAL_2() -> (r: Pow2<u64>)
        ensures
            r.exp() == 1,
    {
        Pow2 { exponent: 1, _marker: PhantomData }
    }
    /// `2^2`.
    pub fn VAL_4() -> (r: Pow2<u64>)
        ensures
            r.exp() == 2,
    {
        Pow2 { exponent: 2, _marker: PhantomData }
    }
    /// `2^3`.
    pub fn VAL_8() -> (r: Pow2<u64>)
        ensures
            r.exp() == 3,
    {
        Pow2 { exponent: 3, _marker: PhantomData }
    }
    /// `2^4`.
    pub fn VAL_16() -> (r: Pow2<u64>)
        ensures
            r.exp() == 4,
    {
        Pow2 { exponent: 4, _marker: PhantomData }
    }
    /// `2^5`.
    pub fn VAL_32() -> (r: Pow2<u64>)
        ensures
            r.exp() == 5,
    {
        Pow2 { exponent: 5, _marker: PhantomData }
    }
    /// `2^6`.
    pub fn VAL_64() -> (r: Pow2<u64>)
        ensures
            r.exp() == 6,
    {
        Pow2 { exponent: 6, _marker: PhantomData }
    }
    /// `2^7`.
    pub fn VAL_128() -> (r: Pow2<u64>)
        ensures
            r.exp() == 7,
    {
        Pow2 { exponent: 7, _marker: PhantomData }
    }
    /// `2^8`.
    pub fn VAL_256() -> (r: Pow2<u64>)
        ensures
            r.exp() == 8,
    {
        Pow2 { exponent: 8, _marker: PhantomData }
    }
    /// `2^9`.
    pub fn VAL_512() -> (r: Pow2<u64>)
        ensures
            r.exp() == 9,
    {
        Pow2 { exponent: 9, _marker: PhantomData }
    }
    /// `2^10`.
    pub fn KIBI() -> (r: Pow2<u64>)
        ensures
            r.exp() == 10,
    {
        Pow2 { exponent: 10, _marker: PhantomData }
    }
    /// `2^20`.
    pub fn MEBI() -> (r: Pow2<u64>)
        ensures
            r.exp() == 20,
    {
        Pow2 { exponent: 20, _marker: PhantomData }
    }
    /// `2^30`.
    pub fn GIBI() -> (r: Pow2<u64>)
        ensures
            r.exp() == 30,
    {
        Pow2 { exponent: 30, _marker: PhantomData }
    }
    /// `2^40`.
    pub fn TEBI() -> (r: Pow2<u64>)
        ensures
            r.exp() == 40,
    {
        Pow2 { exponent: 40, _marker: PhantomData }
    }
    /// `2^50`.
    pub fn PEBI() -> (r: Pow2<u64>)
        ensures
            r.exp() == 50,
    {
        Pow2 { exponent: 50, _marker: PhantomData }
    }
    /// `2^60`.
    pub fn EXBI() -> (r: Pow2<u64>)
        ensures
            r.exp() == 60,
    {
        Pow2 { exponent: 60, _marker: PhantomData }
    }
}

#[allow(non_snake_case)]
impl Pow2<u128> {
    /// `2^0`.
    pub fn VAL_1() -> (r: Pow2<u128>)
        ensures
            r.exp() == 0,
    {
        Pow2 { exponent: 0, _marker: PhantomData }
    }
    /// `2^1`.
    pub fn VAL_2() -> (r: Pow2<u128>)
        ensures
            r.exp() == 1,
    {
        Pow2 { exponent: 1, _marker: PhantomData }
    }
    /// `2^2`.
    pub fn VAL_4() -> (r: Pow2<u128>)
        ensures
            r.exp() == 2,
    {
        Pow2 { exponent: 2, _marker: PhantomData }
    }
    /// `2^3`.
    pub fn VAL_8() -> (r: Pow2<u128>)
        ensures
            r.exp() == 3,
    {
        Pow2 { exponent: 3, _marker: PhantomData }
    }
    /// `2^4`.
    pub fn VAL_16() -> (r: Pow2<u128>)
        ensures
            r.exp() == 4,
    {
        Pow2 { exponent: 4, _marker: PhantomData }
    }
    /// `2^5`.
    pub fn VAL_32() -> (r: Pow2<u128>)
        ensures
            r.exp() == 5,
    {
        Pow2 { exponent: 5, _marker: PhantomData }
    }
    /// `2^6`.
    pub fn VAL_64() -> (r: Pow2<u128>)
        ensures
            r.exp() == 6,
    {
        Pow2 { exponent: 6, _marker: PhantomData }
    }
    /// `2^7`.
    pub fn VAL_128() -> (r: Pow2<u128>)
        ensures
            r.exp() == 7,
    {
        Pow2 { exponent: 7, _marker: PhantomData }
    }
    /// `2^8`.
    pub fn VAL_256() -> (r: Pow2<u128>)
        ensures
            r.exp() == 8,
    {
        Pow2 { exponent: 8, _marker: PhantomData }
    }
    /// `2^9`.
    pub fn VAL_512() -> (r: Pow2<u128>)
        ensures
            r.exp() == 9,
    {
        Pow2 { exponent: 9, _marker: PhantomData }
    }
    /// `2^10`.
    pub fn KIBI() -> (r: Pow2<u128>)
        ensures
            r.exp() == 10,
    {
        Pow2 { exponent: 10, _marker: PhantomData }
    }
    /// `2^20`.
    pub fn MEBI() -> (r: Pow2<u128>)
        ensures
            r.exp() == 20,
    {
        Pow2 { exponent: 20, _marker: PhantomData }
    }
    /// `2^30`.
    pub fn GIBI() -> (r: Pow2<u128>)
        ensures
            r.exp() == 30,
    {
        Pow2 { exponent: 30, _marker: PhantomData }
    }
    /// `2^40`.
    pub fn TEBI() -> (r: Pow2<u128>)
        ensures
            r.exp() == 40,
    {
        Pow2 { exponent: 40, _marker: PhantomData }
    }
    /// `2^50`.
    pub fn PEBI() -> (r: Pow2<u128>)
        ensures
            r.exp() == 50,
    {
        Pow2 { exponent: 50, _marker: PhantomData }
    }
    /// `2^60`.
    pub fn EXBI() -> (r: Pow2<u128>)
        ensures
            r.exp() == 60,
    {
        Pow2 { exponent: 60, _marker: PhantomData }
    }
    /// `2^70`.
    pub fn ZEBI() -> (r: Pow2<u128>)
        ensures
            r.exp() == 70,
    {
        Pow2 { exponent: 70, _marker: PhantomData }
    }
    /// `2^80`.
    pub fn YOBI() -> (r: Pow2<u128>)
        ensures
            r.exp() == 80,
    {
        Pow2 { exponent: 80, _marker: PhantomData }
    }
    /// `2^90`.
    pub fn ROBI() -> (r: Pow2<u128>)
        ensures
            r.exp() == 90,
    {
        Pow2 { exponent: 90, _marker: PhantomData }
    }
    /// `2^100`.
    pub fn QUEBI() -> (r: Pow2<u128>)
        ensures
            r.exp() == 100,
    {
        Pow2 { exponent: 100, _marker: PhantomData }
    }
}

#[allow(non_snake_case)]
impl Pow2<usize> {
    /// `2^0`.
    pub fn VAL_1() -> (r: Pow2<usize>)
        ensures
            r.exp() == 0,
    {
        Pow2 { exponent: 0, _marker: PhantomData }
    }
    /// `2^1`.
    pub fn VAL_2() -> (r: Pow2<usize>)
        ensures
            r.exp() == 1,
    {
        Pow2 { exponent: 1, _marker: PhantomData }
    }
    /// `2^2`.
    pub fn VAL_4() -> (r: Pow2<usize>)
        ensures
            r.exp() == 2,
    {
        Pow2 { exponent: 2, _marker: PhantomData }
    }
    /// `2^3`.
    pub fn VAL_8() -> (r: Pow2<usize>)
        ensures
            r.exp() == 3,
    {
        Pow2 { exponent: 3, _marker: PhantomData }
    }
    /// `2^4`.
    pub fn VAL_16() -> (r: Pow2<usize>)
        ensures
            r.exp() == 4,
    {
        Pow2 { exponent: 4, _marker: PhantomData }
    }
    /// `2^5`.
    pub fn VAL_32() -> (r: Pow2<usize>)
        ensures
            r.exp() == 5,
    {
        Pow2 { exponent: 5, _marker: PhantomData }
    }
    /// `2^6`.
    pub fn VAL_64() -> (r: Pow2<usize>)
        ensures
            r.exp() == 6,
    {
        Pow2 { exponent: 6, _marker: PhantomData }
    }
    /// `2^7`.
    pub fn VAL_128() -> (r: Pow2<usize>)
        ensures
            r.exp() == 7,
    {
        Pow2 { exponent: 7, _marker: PhantomData }
    }
    /// `2^8`.
    pub fn VAL_256() -> (r: Pow2<usize>)
        ensures
            r.exp() == 8,
    {
        Pow2 { exponent: 8, _marker: PhantomData }
    }
    /// `2^9`.
    pub fn VAL_512() -> (r: Pow2<usize>)
        ensures
            r.exp() == 9,
    {
        Pow2 { exponent: 9, _marker: PhantomData }
    }
    /// `2^10`.
    pub fn KIBI() -> (r: Pow2<usize>)
        ensures
            r.exp() == 10,
    {
        Pow2 { exponent: 10, _marker: PhantomData }
    }
    /// `2^20`.
    pub fn MEBI() -> (r: Pow2<usize>)
        ensures
            r.exp() == 20,
    {
        Pow2 { exponent: 20, _marker: PhantomData }
    }
    /// `2^30`.
    pub fn GIBI() -> (r: Pow2<usize>)
        ensures
            r.exp() == 30,
    {
        Pow2 { exponent: 30, _marker: PhantomData }
    }
    /// `2^40`, which `usize` holds where it is 64 bits wide.
    pub fn TEBI() -> (r: Pow2<usize>)
        requires
            usize::BITS == 64,
        ensures
            r.exp() == 40,
    {
        Pow2 { exponent: 40, _marker: PhantomData }
    }
    /// `2^50`, which `usize` holds where it is 64 bits wide.
    pub fn PEBI() -> (r: Pow2<usize>)
        requires
            usize::BITS == 64,
        ensures
            r.exp() == 50,
    {
        Pow2 { exponent: 50, _marker: PhantomData }
    }
    /// `2^60`, which `usize` holds where it is 64 bits wide.
    pub fn EXBI() -> (r: Pow2<usize>)
        requires
            usize::BITS == 64,
        ensures
            r.exp() == 60,
    {
        Pow2 { exponent: 60, _marker: PhantomData }
    }
}

impl TryFromSpecImpl<u8> for UnboundedPow2 {
    open spec fn obeys_try_from_spec() -> bool {
        true
    }

    open spec fn try_from_spec(v: u8) -> Result<UnboundedPow2, NotPow2> {
        unbounded_of_int(v as int)
    }
}

impl TryFromSpecImpl<UnboundedPow2> for u8 {
    open spec fn obeys_try_from_spec() -> bool {
        true
    }

    open spec fn try_from_spec(v: UnboundedPow2) -> Result<u8, Pow2OutOfRange> {
        int_of_unbounded::<u8>(v)
    }
}

impl<T: UnsignedInt> TryFromSpecImpl<u8> for Pow2<T> {
    open spec fn obeys_try_from_spec() -> bool {
        true
    }

    open spec fn try_from_spec(v: u8) -> Result<Pow2<T>, Pow2TryFromIntError> {
        pow2_of_int::<T>(v as int)
    }
}

impl TryFrom<u8> for UnboundedPow2 {
    type Error = NotPow2;

    fn try_from(value: u8) -> (r: Result<Self, NotPow2>)
        ensures
            match r {
                Ok(p) => p2(p.exp()) == value,
                Err(_) => !is_pow2_int(value as int),
            },
    {
        unbounded_from_int(value)
    }
}

impl TryFrom<UnboundedPow2> for u8 {
    type Error = Pow2OutOfRange;

    fn try_from(value: UnboundedPow2) -> (r: Result<Self, Pow2OutOfRange>)
        ensures
            match r {
                Ok(v) => value.exp() <= 7 && v == p2(value.exp()),
                Err(_) => value.exp() > 7,
            },
    {
        proof {
            u8::lemma_model();
        }
        int_from_unbounded(value)
    }
}

impl<T: UnsignedInt> TryFrom<u8> for Pow2<T> {
    type Error = Pow2TryFromIntError;

    fn try_from(value: u8) -> (r: Result<Self, Pow2TryFromIntError>)
        ensures
            match r {
                Ok(p) => p2(p.exp()) == value,
                Err(Pow2TryFromIntError::NotPow2) => !is_pow2_int(value as int),
                Err(Pow2TryFromIntError::Pow2OutOfRange) => exists|e: nat|
                    #![trigger p2(e)]
                    p2(e) == value && e >= T::width(),
            },
    {
        pow2_from_int(value)
    }
}

impl TryFromSpecImpl<u16> for UnboundedPow2 {
    open spec fn obeys_try_from_spec() -> bool {
        true
    }

    open spec fn try_from_spec(v: u16) -> Result<UnboundedPow2, NotPow2> {
        unbounded_of_int(v as int)
    }
}

impl TryFromSpecImpl<UnboundedPow2> for u16 {
    open spec fn obeys_try_from_spec() -> bool {
        true
    }

    open spec fn try_from_spec(v: UnboundedPow2) -> Result<u16, Pow2OutOfRange> {
        int_of_unbounded::<u16>(v)
    }
}

impl<T: UnsignedInt> TryFromSpecImpl<u16> for Pow2<T> {
    open spec fn obeys_try_from_spec() -> bool {
        true
    }

    open spec fn try_from_spec(v: u16) -> Result<Pow2<T>, Pow2TryFromIntError> {
        pow2_of_int::<T>(v as int)
    }
}

impl TryFrom<u16> for UnboundedPow2 {
    type Error = NotPow2;

    fn try_from(value: u16) -> (r: Result<Self, NotPow2>)
        ensures
            match r {
                Ok(p) => p2(p.exp()) == value,
                Err(_) => !is_pow2_int(value as int),
            },
    {
        unbounded_from_int(value)
    }
}

impl TryFrom<UnboundedPow2> for u16 {
    type Error = Pow2OutOfRange;

    fn try_from(value: UnboundedPow2) -> (r: Result<Self, Pow2OutOfRange>)
        ensures
            match r {
                Ok(v) => value.exp() <= 15 && v == p2(value.exp()),
                Err(_) => value.exp() > 15,
            },
    {
        proof {
            u16::lemma_model();
        }
        int_from_unbounded(value)
    }
}

impl<T: UnsignedInt> TryFrom<u16> for Pow2<T> {
    type Error = Pow2TryFromIntError;

    fn try_from(value: u16) -> (r: Result<Self, Pow2TryFromIntError>)
        ensures
            match r {
                Ok(p) => p2(p.exp()) == value,
                Err(Pow2TryFromIntError::NotPow2) => !is_pow2_int(value as int),
                Err(Pow2TryFromIntError::Pow2OutOfRange) => exists|e: nat|
                    #![trigger p2(e)]
                    p2(e) == value && e >= T::width(),
            },
    {
        pow2_from_int(value)
    }
}

impl TryFromSpecImpl<u32> for UnboundedPow2 {
    open spec fn obeys_try_from_spec() -> bool {
        true
    }

    open spec fn try_from_spec(v: u32) -> Result<UnboundedPow2, NotPow2> {
        unbounded_of_int(v as int)
    }
}

impl TryFromSpecImpl<UnboundedPow2> for u32 {
    open spec fn obeys_try_from_spec() -> bool {
        true
    }

    open spec fn try_from_spec(v: UnboundedPow2) -> Result<u32, Pow2OutOfRange> {
        int_of_unbounded::<u32>(v)
    }
}

impl<T: UnsignedInt> TryFromSpecImpl<u32> for Pow2<T> {
    open spec fn obeys_try_from_spec() -> bool {
        true
    }

    open spec fn try_from_spec(v: u32) -> Result<Pow2<T>, Pow2TryFromIntError> {
        pow2_of_int::<T>(v as int)
    }
}

impl TryFrom<u32> for UnboundedPow2 {
    type Error = NotPow2;

    fn try_from(value: u32) -> (r: Result<Self, NotPow2>)
        ensures
            match r {
                Ok(p) => p2(p.exp()) == value,
                Err(_) => !is_pow2_int(value as int),
            },
    {
        unbounded_from_int(value)
    }
}

impl TryFrom<UnboundedPow2> for u32 {
    type Error = Pow2OutOfRange;

    fn try_from(value: UnboundedPow2) -> (r: Result<Self, Pow2OutOfRange>)
        ensures
            match r {
                Ok(v) => value.exp() <= 31 && v == p2(value.exp()),
                Err(_) => value.exp() > 31,
            },
    {
        proof {
            u32::lemma_model();
        }
        int_from_unbounded(value)
    }
}

impl<T: UnsignedInt> TryFrom<u32> for Pow2<T> {
    type Error = Pow2TryFromIntError;

    fn try_from(value: u32) -> (r: Result<Self, Pow2TryFromIntError>)
        ensures
            match r {
                Ok(p) => p2(p.exp()) == value,
                Err(Pow2TryFromIntError::NotPow2) => !is_pow2_int(value as int),
                Err(Pow2TryFromIntError::Pow2OutOfRange) => exists|e: nat|
                    #![trigger p2(e)]
                    p2(e) == value && e >= T::width(),
            },
    {
        pow2_from_int(value)
    }
}

impl TryFromSpecImpl<u64> for UnboundedPow2 {
    open spec fn obeys_try_from_spec() -> bool {
        true
    }

    open spec fn try_from_spec(v: u64) -> Result<UnboundedPow2, NotPow2> {
        unbounded_of_int(v as int)
    }
}

impl TryFromSpecImpl<UnboundedPow2> for u64 {
    open spec fn obeys_try_from_spec() -> bool {
        true
    }

    open spec fn try_from_spec(v: UnboundedPow2) -> Result<u64, Pow2OutOfRange> {
        int_of_unbounded::<u64>(v)
    }
}

impl<T: UnsignedInt> TryFromSpecImpl<u64> for Pow2<T> {
    open spec fn obeys_try_from_spec() -> bool {
        true
    }

    open spec fn try_from_spec(v: u64) -> Result<Pow2<T>, Pow2TryFromIntError> {
        pow2_of_int::<T>(v as int)
    }
}

impl TryFrom<u64> for UnboundedPow2 {
    type Error = NotPow2;

    fn try_from(value: u64) -> (r: Result<Self, NotPow2>)
        ensures
            match r {
                Ok(p) => p2(p.exp()) == value,
                Err(_) => !is_pow2_int(value as int),
            },
    {
        unbounded_from_int(value)
    }
}

impl TryFrom<UnboundedPow2> for u64 {
    type Error = Pow2OutOfRange;

    fn try_from(value: UnboundedPow2) -> (r: Result<Self, Pow2OutOfRange>)
        ensures
            match r {
                Ok(v) => value.exp() <= 63 && v == p2(value.exp()),
                Err(_) => value.exp() > 63,
            },
    {
        proof {
            u64::lemma_model();
        }
        int_from_unbounded(value)
    }
}

impl<T: UnsignedInt> TryFrom<u64> for Pow2<T> {
    type Error = Pow2TryFromIntError;

    fn try_from(value: u64) -> (r: Result<Self, Pow2TryFromIntError>)
        ensures
            match r {
                Ok(p) => p2(p.exp()) == value,
                Err(Pow2TryFromIntError::NotPow2) => !is_pow2_int(value as int),
                Err(Pow2TryFromIntError::Pow2OutOfRange) => exists|e: nat|
                    #![trigger p2(e)]
                    p2(e) == value && e >= T::width(),
            },
    {
        pow2_from_int(value)
    }
}

impl TryFromSpecImpl<u128> for UnboundedPow2 {
    open spec fn obeys_try_from_spec() -> bool {
        true
    }

    open spec fn try_from_spec(v: u128) -> Result<UnboundedPow2, NotPow2> {
        unbounded_of_int(v as int)
    }
}

impl TryFromSpecImpl<UnboundedPow2> for u128 {
    open spec fn obeys_try_from_spec() -> bool {
        true
    }

    open spec fn try_from_spec(v: UnboundedPow2) -> Result<u128, Pow2OutOfRange> {
        int_of_unbounded::<u128>(v)
    }
}

impl<T: UnsignedInt> TryFromSpecImpl<u128> for Pow2<T> {
    open spec fn obeys_try_from_spec() -> bool {
        true
    }

    open spec fn try_from_spec(v: u128) -> Result<Pow2<T>, Pow2TryFromIntError> {
        pow2_of_int::<T>(v as int)
    }
}

impl TryFrom<u128> for UnboundedPow2 {
    type Error = NotPow2;

    fn try_from(value: u128) -> (r: Result<Self, NotPow2>)
        ensures
            match r {
                Ok(p) => p2(p.exp()) == value,
                Err(_) => !is_pow2_int(value as int),
            },
    {
        unbounded_from_int(value)
    }
}

impl TryFrom<UnboundedPow2> for u128 {
    type Error = Pow2OutOfRange;

    fn try_from(value: UnboundedPow2) -> (r: Result<Self, Pow2OutOfRange>)
        ensures
            match r {
                Ok(v) => value.exp() <= 127 && v == p2(value.exp()),
                Err(_) => value.exp() > 127,
            },
    {
        proof {
            u128::lemma_model();
        }
        int_from_unbounded(value)
    }
}

impl<T: UnsignedInt> TryFrom<u128> for Pow2<T> {
    type Error = Pow2TryFromIntError;

    fn try_from(value: u128) -> (r: Result<Self, Pow2TryFromIntError>)
        ensures
            match r {
                Ok(p) => p2(p.exp()) == value,
                Err(Pow2TryFromIntError::NotPow2) => !is_pow2_int(value as int),
                Err(Pow2TryFromIntError::Pow2OutOfRange) => exists|e: nat|
                    #![trigger p2(e)]
                    p2(e) == value && e >= T::width(),
            },
    {
        pow2_from_int(value)
    }
}

impl TryFromSpecImpl<usize> for UnboundedPow2 {
    open spec fn obeys_try_from_spec() -> bool {
        true
    }

    open spec fn try_from_spec(v: usize) -> Result<UnboundedPow2, NotPow2> {
        unbounded_of_int(v as int)
    }
}

impl TryFromSpecImpl<UnboundedPow2> for usize {
    open spec fn obeys_try_from_spec() -> bool {
        true
    }

    open spec fn try_from_spec(v: UnboundedPow2) -> Result<usize, Pow2OutOfRange> {
        int_of_unbounded::<usize>(v)
    }
}

impl<T: UnsignedInt> TryFromSpecImpl<usize> for Pow2<T> {
    open spec fn obeys_try_from_spec() -> bool {
        true
    }

    open spec fn try_from_spec(v: usize) -> Result<Pow2<T>, Pow2TryFromIntError> {
        pow2_of_int::<T>(v as int)
    }
}

impl TryFrom<usize> for UnboundedPow2 {
    type Error = NotPow2;

    fn try_from(value: usize) -> (r: Result<Self, NotPow2>)
        ensures
            match r {
                Ok(p) => p2(p.exp()) == value,
                Err(_) => !is_pow2_int(value as int),
            },
    {
        unbounded_from_int(value)
    }
}

impl TryFrom<UnboundedPow2> for usize {
    type Error = Pow2OutOfRange;

    fn try_from(value: UnboundedPow2) -> (r: Result<Self, Pow2OutOfRange>)
        ensures
            match r {
                Ok(v) => value.exp() <= usize::BITS - 1 && v == p2(value.exp()),
                Err(_) => value.exp() > usize::BITS - 1,
            },
    {
        proof {
            usize::lemma_model();
        }
        int_from_unbounded(value)
    }
}

impl<T: UnsignedInt> TryFrom<usize> for Pow2<T> {
    type Error = Pow2TryFromIntError;

    fn try_from(value: usize) -> (r: Result<Self, Pow2TryFromIntError>)
        ensures
            match r {
                Ok(p) => p2(p.exp()) == value,
                Err(Pow2TryFromIntError::NotPow2) => !is_pow2_int(value as int),
                Err(Pow2TryFromIntError::Pow2OutOfRange) => exists|e: nat|
                    #![trigger p2(e)]
                    p2(e) == value && e >= T::width(),
            },
    {
        pow2_from_int(value)
    }
}

impl TryFromSpecImpl<i8> for UnboundedPow2 {
    open spec fn obeys_try_from_spec() -> bool {
        true
    }

    open spec fn try_from_spec(v: i8) -> Result<UnboundedPow2, NotPow2> {
        unbounded_of_int(v as int)
    }
}

impl TryFromSpecImpl<UnboundedPow2> for i8 {
    open spec fn obeys_try_from_spec() -> bool {
        true
    }

    open spec fn try_from_spec(v: UnboundedPow2) -> Result<i8, Pow2OutOfRange> {
        int_of_unbounded::<i8>(v)
    }
}

impl<T: UnsignedInt> TryFromSpecImpl<i8> for Pow2<T> {
    open spec fn obeys_try_from_spec() -> bool {
        true
    }

    open spec fn try_from_spec(v: i8) -> Result<Pow2<T>, Pow2TryFromIntError> {
        pow2_of_int::<T>(v as int)
    }
}

impl TryFrom<i8> for UnboundedPow2 {
    type Error = NotPow2;

    fn try_from(value: i8) -> (r: Result<Self, NotPow2>)
        ensures
            match r {
                Ok(p) => p2(p.exp()) == value,
                Err(_) => !is_pow2_int(value as int),
            },
    {
        unbounded_from_int(value)
    }
}

impl TryFrom<UnboundedPow2> for i8 {
    type Error = Pow2OutOfRange;

    fn try_from(value: UnboundedPow2) -> (r: Result<Self, Pow2OutOfRange>)
        ensures
            match r {
                Ok(v) => value.exp() <= 6 && v == p2(value.exp()),
                Err(_) => value.exp() > 6,
            },
    {
        proof {
            i8::lemma_model();
        }
        int_from_unbounded(value)
    }
}

impl<T: UnsignedInt> TryFrom<i8> for Pow2<T> {
    type Error = Pow2TryFromIntError;

    fn try_from(value: i8) -> (r: Result<Self, Pow2TryFromIntError>)
        ensures
            match r {
                Ok(p) => p2(p.exp()) == value,
                Err(Pow2TryFromIntError::NotPow2) => !is_pow2_int(value as int),
                Err(Pow2TryFromIntError::Pow2OutOfRange) => exists|e: nat|
                    #![trigger p2(e)]
                    p2(e) == value && e >= T::width(),
            },
    {
        pow2_from_int(value)
    }
}

impl TryFromSpecImpl<i16> for UnboundedPow2 {
    open spec fn obeys_try_from_spec() -> bool {
        true
    }

    open spec fn try_from_spec(v: i16) -> Result<UnboundedPow2, NotPow2> {
        unbounded_of_int(v as int)
    }
}

impl TryFromSpecImpl<UnboundedPow2> for i16 {
    open spec fn obeys_try_from_spec() -> bool {
        true
    }

    open spec fn try_from_spec(v: UnboundedPow2) -> Result<i16, Pow2OutOfRange> {
        int_of_unbounded::<i16>(v)
    }
}

impl<T: UnsignedInt> TryFromSpecImpl<i16> for Pow2<T> {
    open spec fn obeys_try_from_spec() -> bool {
        true
    }

    open spec fn try_from_spec(v: i16) -> Result<Pow2<T>, Pow2TryFromIntError> {
        pow2_of_int::<T>(v as int)
    }
}

impl TryFrom<i16> for UnboundedPow2 {
    type Error = NotPow2;

    fn try_from(value: i16) -> (r: Result<Self, NotPow2>)
        ensures
            match r {
                Ok(p) => p2(p.exp()) == value,
                Err(_) => !is_pow2_int(value as int),
            },
    {
        unbounded_from_int(value)
    }
}

impl TryFrom<UnboundedPow2> for i16 {
    type Error = Pow2OutOfRange;

    fn try_from(value: UnboundedPow2) -> (r: Result<Self, Pow2OutOfRange>)
        ensures
            match r {
                Ok(v) => value.exp() <= 14 && v == p2(value.exp()),
                Err(_) => value.exp() > 14,
            },
    {
        proof {
            i16::lemma_model();
        }
        int_from_unbounded(value)
    }
}

impl<T: UnsignedInt> TryFrom<i16> for Pow2<T> {
    type Error = Pow2TryFromIntError;

    fn try_from(value: i16) -> (r: Result<Self, Pow2TryFromIntError>)
        ensures
            match r {
                Ok(p) => p2(p.exp()) == value,
                Err(Pow2TryFromIntError::NotPow2) => !is_pow2_int(value as int),
                Err(Pow2TryFromIntError::Pow2OutOfRange) => exists|e: nat|
                    #![trigger p2(e)]
                    p2(e) == value && e >= T::width(),
            },
    {
        pow2_from_int(value)
    }
}

impl TryFromSpecImpl<i32> for UnboundedPow2 {
    open spec fn obeys_try_from_spec() -> bool {
        true
    }

    open spec fn try_from_spec(v: i32) -> Result<UnboundedPow2, NotPow2> {
        unbounded_of_int(v as int)
    }
}

impl TryFromSpecImpl<UnboundedPow2> for i32 {
    open spec fn obeys_try_from_spec() -> bool {
        true
    }

    open spec fn try_from_spec(v: UnboundedPow2) -> Result<i32, Pow2OutOfRange> {
        int_of_unbounded::<i32>(v)
    }
}

impl<T: UnsignedInt> TryFromSpecImpl<i32> for Pow2<T> {
    open spec fn obeys_try_from_spec() -> bool {
        true
    }

    open spec fn try_from_spec(v: i32) -> Result<Pow2<T>, Pow2TryFromIntError> {
        pow2_of_int::<T>(v as int)
    }
}

impl TryFrom<i32> for UnboundedPow2 {
    type Error = NotPow2;

    fn try_from(value: i32) -> (r: Result<Self, NotPow2>)
        ensures
            match r {
                Ok(p) => p2(p.exp()) == value,
                Err(_) => !is_pow2_int(value as int),
            },
    {
        unbounded_from_int(value)
    }
}

impl TryFrom<UnboundedPow2> for i32 {
    type Error = Pow2OutOfRange;

    fn try_from(value: UnboundedPow2) -> (r: Result<Self, Pow2OutOfRange>)
        ensures
            match r {
                Ok(v) => value.exp() <= 30 && v == p2(value.exp()),
                Err(_) => value.exp() > 30,
            },
    {
        proof {
            i32::lemma_model();
        }
        int_from_unbounded(value)
    }
}

impl<T: UnsignedInt> TryFrom<i32> for Pow2<T> {
    type Error = Pow2TryFromIntError;

    fn try_from(value: i32) -> (r: Result<Self, Pow2TryFromIntError>)
        ensures
            match r {
                Ok(p) => p2(p.exp()) == value,
                Err(Pow2TryFromIntError::NotPow2) => !is_pow2_int(value as int),
                Err(Pow2TryFromIntError::Pow2OutOfRange) => exists|e: nat|
                    #![trigger p2(e)]
                    p2(e) == value && e >= T::width(),
            },
    {
        pow2_from_int(value)
    }
}

impl TryFromSpecImpl<i64> for UnboundedPow2 {
    open spec fn obeys_try_from_spec() -> bool {
        true
    }

    open spec fn try_from_spec(v: i64) -> Result<UnboundedPow2, NotPow2> {
        unbounded_of_int(v as int)
    }
}

impl TryFromSpecImpl<UnboundedPow2> for i64 {
    open spec fn obeys_try_from_spec() -> bool {
        true
    }

    open spec fn try_from_spec(v: UnboundedPow2) -> Result<i64, Pow2OutOfRange> {
        int_of_unbounded::<i64>(v)
    }
}

impl<T: UnsignedInt> TryFromSpecImpl<i64> for Pow2<T> {
    open spec fn obeys_try_from_spec() -> bool {
        true
    }

    open spec fn try_from_spec(v: i64) -> Result<Pow2<T>, Pow2TryFromIntError> {
        pow2_of_int::<T>(v as int)
    }
}

impl TryFrom<i64> for UnboundedPow2 {
    type Error = NotPow2;

    fn try_from(value: i64) -> (r: Result<Self, NotPow2>)
        ensures
            match r {
                Ok(p) => p2(p.exp()) == value,
                Err(_) => !is_pow2_int(value as int),
            },
    {
        unbounded_from_int(value)
    }
}

impl TryFrom<UnboundedPow2> for i64 {
    type Error = Pow2OutOfRange;

    fn try_from(value: UnboundedPow2) -> (r: Result<Self, Pow2OutOfRange>)
        ensures
            match r {
                Ok(v) => value.exp() <= 62 && v == p2(value.exp()),
                Err(_) => value.exp() > 62,
            },
    {
        proof {
            i64::lemma_model();
        }
        int_from_unbounded(value)
    }
}

impl<T: UnsignedInt> TryFrom<i64> for Pow2<T> {
    type Error = Pow2TryFromIntError;

    fn try_from(value: i64) -> (r: Result<Self, Pow2TryFromIntError>)
        ensures
            match r {
                Ok(p) => p2(p.exp()) == value,
                Err(Pow2TryFromIntError::NotPow2) => !is_pow2_int(value as int),
                Err(Pow2TryFromIntError::Pow2OutOfRange) => exists|e: nat|
                    #![trigger p2(e)]
                    p2(e) == value && e >= T::width(),
            },
    {
        pow2_from_int(value)
    }
}

impl TryFromSpecImpl<i128> for UnboundedPow2 {
    open spec fn obeys_try_from_spec() -> bool {
        true
    }

    open spec fn try_from_spec(v: i128) -> Result<UnboundedPow2, NotPow2> {
        unbounded_of_int(v as int)
    }
}

impl TryFromSpecImpl<UnboundedPow2> for i128 {
    open spec fn obeys_try_from_spec() -> bool {
        true
    }

    open spec fn try_from_spec(v: UnboundedPow2) -> Result<i128, Pow2OutOfRange> {
        int_of_unbounded::<i128>(v)
    }
}

impl<T: UnsignedInt> TryFromSpecImpl<i128> for Pow2<T> {
    open spec fn obeys_try_from_spec() -> bool {
        true
    }

    open spec fn try_from_spec(v: i128) -> Result<Pow2<T>, Pow2TryFromIntError> {
        pow2_of_int::<T>(v as int)
    }
}

impl TryFrom<i128> for UnboundedPow2 {
    type Error = NotPow2;

    fn try_from(value: i128) -> (r: Result<Self, NotPow2>)
        ensures
            match r {
                Ok(p) => p2(p.exp()) == value,
                Err(_) => !is_pow2_int(value as int),
            },
    {
        unbounded_from_int(value)
    }
}

impl TryFrom<UnboundedPow2> for i128 {
    type Error = Pow2OutOfRange;

    fn try_from(value: UnboundedPow2) -> (r: Result<Self, Pow2OutOfRange>)
        ensures
            match r {
                Ok(v) => value.exp() <= 126 && v == p2(value.exp()),
                Err(_) => value.exp() > 126,
            },
    {
        proof {
            i128::lemma_model();
        }
        int_from_unbounded(value)
    }
}

impl<T: UnsignedInt> TryFrom<i128> for Pow2<T> {
    type Error = Pow2TryFromIntError;

    fn try_from(value: i128) -> (r: Result<Self, Pow2TryFromIntError>)
        ensures
            match r {
                Ok(p) => p2(p.exp()) == value,
                Err(Pow2TryFromIntError::NotPow2) => !is_pow2_int(value as int),
                Err(Pow2TryFromIntError::Pow2OutOfRange) => exists|e: nat|
                    #![trigger p2(e)]
                    p2(e) == value && e >= T::width(),
            },
    {
        pow2_from_int(value)
    }
}

impl TryFromSpecImpl<isize> for UnboundedPow2 {
    open spec fn obeys_try_from_spec() -> bool {
        true
    }

    open spec fn try_from_spec(v: isize) -> Result<UnboundedPow2, NotPow2> {
        unbounded_of_int(v as int)
    }
}

impl TryFromSpecImpl<UnboundedPow2> for isize {
    open spec fn obeys_try_from_spec() -> bool {
        true
    }

    open spec fn try_from_spec(v: UnboundedPow2) -> Result<isize, Pow2OutOfRange> {
        int_of_unbounded::<isize>(v)
    }
}

impl<T: UnsignedInt> TryFromSpecImpl<isize> for Pow2<T> {
    open spec fn obeys_try_from_spec() -> bool {
        true
    }

    open spec fn try_from_spec(v: isize) -> Result<Pow2<T>, Pow2TryFromIntError> {
        pow2_of_int::<T>(v as int)
    }
}

impl TryFrom<isize> for UnboundedPow2 {
    type Error = NotPow2;

    fn try_from(value: isize) -> (r: Result<Self, NotPow2>)
        ensures
            match r {
                Ok(p) => p2(p.exp()) == value,
                Err(_) => !is_pow2_int(value as int),
            },
    {
        unbounded_from_int(value)
    }
}

impl TryFrom<UnboundedPow2> for isize {
    type Error = Pow2OutOfRange;

    fn try_from(value: UnboundedPow2) -> (r: Result<Self, Pow2OutOfRange>)
        ensures
            match r {
                Ok(v) => value.exp() <= usize::BITS - 2 && v == p2(value.exp()),
                Err(_) => value.exp() > usize::BITS - 2,
            },
    {
        proof {
            isize::lemma_model();
        }
        int_from_unbounded(value)
    }
}

impl<T: UnsignedInt> TryFrom<isize> for Pow2<T> {
    type Error = Pow2TryFromIntError;

    fn try_from(value: isize) -> (r: Result<Self, Pow2TryFromIntError>)
        ensures
            match r {
                Ok(p) => p2(p.exp()) == value,
                Err(Pow2TryFromIntError::NotPow2) => !is_pow2_int(value as int),
                Err(Pow2TryFromIntError::Pow2OutOfRange) => exists|e: nat|
                    #![trigger p2(e)]
                    p2(e) == value && e >= T::width(),
            },
    {
        pow2_from_int(value)
    }
}

impl From<Pow2<u8>> for Pow2<u16> {
    fn from(value: Pow2<u8>) -> (r: Self)
        ensures
            r.exp() == value.exp(),
    {
        pow2_widen(value)
    }
}

impl FromSpecImpl<Pow2<u8>> for Pow2<u16> {
    open spec fn obeys_from_spec() -> bool {
        true
    }

    open spec fn from_spec(v: Pow2<u8>) -> Pow2<u16> {
        Pow2::<u16>::with_exp(v.exp())
    }
}

impl From<Pow2<u8>> for Pow2<u32> {
    fn from(value: Pow2<u8>) -> (r: Self)
        ensures
            r.exp() == value.exp(),
    {
        pow2_widen(value)
    }
}

impl FromSpecImpl<Pow2<u8>> for Pow2<u32> {
    open spec fn obeys_from_spec() -> bool {
        true
    }

    open spec fn from_spec(v: Pow2<u8>) -> Pow2<u32> {
        Pow2::<u32>::with_exp(v.exp())
    }
}

impl From<Pow2<u8>> for Pow2<u64> {
    fn from(value: Pow2<u8>) -> (r: Self)
        ensures
            r.exp() == value.exp(),
    {
        pow2_widen(value)
    }
}

impl FromSpecImpl<Pow2<u8>> for Pow2<u64> {
    open spec fn obeys_from_spec() -> bool {
        true
    }

    open spec fn from_spec(v: Pow2<u8>) -> Pow2<u64> {
        Pow2::<u64>::with_exp(v.exp())
    }
}

impl From<Pow2<u8>> for Pow2<u128> {
    fn from(value: Pow2<u8>) -> (r: Self)
        ensures
            r.exp() == value.exp(),
    {
        pow2_widen(value)
    }
}

impl FromSpecImpl<Pow2<u8>> for Pow2<u128> {
    open spec fn obeys_from_spec() -> bool {
        true
    }

    open spec fn from_spec(v: Pow2<u8>) -> Pow2<u128> {
        Pow2::<u128>::with_exp(v.exp())
    }
}

impl From<Pow2<u8>> for Pow2<usize> {
    fn from(value: Pow2<u8>) -> (r: Self)
        ensures
            r.exp() == value.exp(),
    {
        pow2_widen(value)
    }
}

impl FromSpecImpl<Pow2<u8>> for Pow2<usize> {
    open spec fn obeys_from_spec() -> bool {
        true
    }

    open spec fn from_spec(v: Pow2<u8>) -> Pow2<usize> {
        Pow2::<usize>::with_exp(v.exp())
    }
}

impl From<Pow2<u16>> for Pow2<u32> {
    fn from(value: Pow2<u16>) -> (r: Self)
        ensures
            r.exp() == value.exp(),
    {
        pow2_widen(value)
    }
}

impl FromSpecImpl<Pow2<u16>> for Pow2<u32> {
    open spec fn obeys_from_spec() -> bool {
        true
    }

    open spec fn from_spec(v: Pow2<u16>) -> Pow2<u32> {
        Pow2::<u32>::with_exp(v.exp())
    }
}

impl From<Pow2<u16>> for Pow2<u64> {
    fn from(value: Pow2<u16>) -> (r: Self)
        ensures
            r.exp() == value.exp(),
    {
        pow2_widen(value)
    }
}

impl FromSpecImpl<Pow2<u16>> for Pow2<u64> {
    open spec fn obeys_from_spec() -> bool {
        true
    }

    open spec fn from_spec(v: Pow2<u16>) -> Pow2<u64> {
        Pow2::<u64>::with_exp(v.exp())
    }
}

impl From<Pow2<u16>> for Pow2<u128> {
    fn from(value: Pow2<u16>) -> (r: Self)
        ensures
            r.exp() == value.exp(),
    {
        pow2_widen(value)
    }
}

impl FromSpecImpl<Pow2<u16>> for Pow2<u128> {
    open spec fn obeys_from_spec() -> bool {
        true
    }

    open spec fn from_spec(v: Pow2<u16>) -> Pow2<u128> {
        Pow2::<u128>::with_exp(v.exp())
    }
}

impl From<Pow2<u16>> for Pow2<usize> {
    fn from(value: Pow2<u16>) -> (r: Self)
        ensures
            r.exp() == value.exp(),
    {
        pow2_widen(value)
    }
}

impl FromSpecImpl<Pow2<u16>> for Pow2<usize> {
    open spec fn obeys_from_spec() -> bool {
        true
    }

    open spec fn from_spec(v: Pow2<u16>) -> Pow2<usize> {
        Pow2::<usize>::with_exp(v.exp())
    }
}

impl From<Pow2<u32>> for Pow2<u64> {
    fn from(value: Pow2<u32>) -> (r: Self)
        ensures
            r.exp() == value.exp(),
    {
        pow2_widen(value)
    }
}

impl FromSpecImpl<Pow2<u32>> for Pow2<u64> {
    open spec fn obeys_from_spec() -> bool {
        true
    }

    open spec fn from_spec(v: Pow2<u32>) -> Pow2<u64> {
        Pow2::<u64>::with_exp(v.exp())
    }
}

impl From<Pow2<u32>> for Pow2<u128> {
    fn from(value: Pow2<u32>) -> (r: Self)
        ensures
            r.exp() == value.exp(),
    {
        pow2_widen(value)
    }
}

impl FromSpecImpl<Pow2<u32>> for Pow2<u128> {
    open spec fn obeys_from_spec() -> bool {
        true
    }

    open spec fn from_spec(v: Pow2<u32>) -> Pow2<u128> {
        Pow2::<u128>::with_exp(v.exp())
    }
}

impl From<Pow2<u32>> for Pow2<usize> {
    fn from(value: Pow2<u32>) -> (r: Self)
        ensures
            r.exp() == value.exp(),
    {
        pow2_widen(value)
    }
}

impl FromSpecImpl<Pow2<u32>> for Pow2<usize> {
    open spec fn obeys_from_spec() -> bool {
        true
    }

    open spec fn from_spec(v: Pow2<u32>) -> Pow2<usize> {
        Pow2::<usize>::with_exp(v.exp())
    }
}

impl From<Pow2<u64>> for Pow2<u128> {
    fn from(value: Pow2<u64>) -> (r: Self)
        ensures
            r.exp() == value.exp(),
    {
        pow2_widen(value)
    }
}

impl FromSpecImpl<Pow2<u64>> for Pow2<u128> {
    open spec fn obeys_from_spec() -> bool {
        true
    }

    open spec fn from_spec(v: Pow2<u64>) -> Pow2<u128> {
        Pow2::<u128>::with_exp(v.exp())
    }
}

impl TryFromSpecImpl<Pow2<u16>> for Pow2<u8> {
    open spec fn obeys_try_from_spec() -> bool {
        true
    }

    open spec fn try_from_spec(v: Pow2<u16>) -> Result<Pow2<u8>, Pow2OutOfRange> {
        pow2_of_exp::<u8>(v.exp())
    }
}

impl TryFrom<Pow2<u16>> for Pow2<u8> {
    type Error = Pow2OutOfRange;

    fn try_from(value: Pow2<u16>) -> (r: Result<Self, Pow2OutOfRange>)
        ensures
            match r {
                Ok(v) => value.exp() < 8 && v.exp() == value.exp(),
                Err(_) => value.exp() >= 8,
            },
    {
        Pow2::from_exponent(value.exponent())
    }
}

impl TryFromSpecImpl<Pow2<u32>> for Pow2<u8> {
    open spec fn obeys_try_from_spec() -> bool {
        true
    }

    open spec fn try_from_spec(v: Pow2<u32>) -> Result<Pow2<u8>, Pow2OutOfRange> {
        pow2_of_exp::<u8>(v.exp())
    }
}

impl TryFrom<Pow2<u32>> for Pow2<u8> {
    type Error = Pow2OutOfRange;

    fn try_from(value: Pow2<u32>) -> (r: Result<Self, Pow2OutOfRange>)
        ensures
            match r {
                Ok(v) => value.exp() < 8 && v.exp() == value.exp(),
                Err(_) => value.exp() >= 8,
            },
    {
        Pow2::from_exponent(value.exponent())
    }
}

impl TryFromSpecImpl<Pow2<u32>> for Pow2<u16> {
    open spec fn obeys_try_from_spec() -> bool {
        true
    }

    open spec fn try_from_spec(v: Pow2<u32>) -> Result<Pow2<u16>, Pow2OutOfRange> {
        pow2_of_exp::<u16>(v.exp())
    }
}

impl TryFrom<Pow2<u32>> for Pow2<u16> {
    type Error = Pow2OutOfRange;

    fn try_from(value: Pow2<u32>) -> (r: Result<Self, Pow2OutOfRange>)
        ensures
            match r {
                Ok(v) => value.exp() < 16 && v.exp() == value.exp(),
                Err(_) => value.exp() >= 16,
            },
    {
        Pow2::from_exponent(value.exponent())
    }
}

impl TryFromSpecImpl<Pow2<u64>> for Pow2<u8> {
    open spec fn obeys_try_from_spec() -> bool {
        true
    }

    open spec fn try_from_spec(v: Pow2<u64>) -> Result<Pow2<u8>, Pow2OutOfRange> {
        pow2_of_exp::<u8>(v.exp())
    }
}

impl TryFrom<Pow2<u64>> for Pow2<u8> {
    type Error = Pow2OutOfRange;

    fn try_from(value: Pow2<u64>) -> (r: Result<Self, Pow2OutOfRange>)
        ensures
            match r {
                Ok(v) => value.exp() < 8 && v.exp() == value.exp(),
                Err(_) => value.exp() >= 8,
            },
    {
        Pow2::from_exponent(value.exponent())
    }
}

impl TryFromSpecImpl<Pow2<u64>> for Pow2<u16> {
    open spec fn obeys_try_from_spec() -> bool {
        true
    }

    open spec fn try_from_spec(v: Pow2<u64>) -> Result<Pow2<u16>, Pow2OutOfRange> {
        pow2_of_exp::<u16>(v.exp())
    }
}

impl TryFrom<Pow2<u64>> for Pow2<u16> {
    type Error = Pow2OutOfRange;

    fn try_from(value: Pow2<u64>) -> (r: Result<Self, Pow2OutOfRange>)
        ensures
            match r {
                Ok(v) => value.exp() < 16 && v.exp() == value.exp(),
                Err(_) => value.exp() >= 16,
            },
    {
        Pow2::from_exponent(value.exponent())
    }
}

impl TryFromSpecImpl<Pow2<u64>> for Pow2<u32> {
    open spec fn obeys_try_from_spec() -> bool {
        true
    }

    open spec fn try_from_spec(v: Pow2<u64>) -> Result<Pow2<u32>, Pow2OutOfRange> {
        pow2_of_exp::<u32>(v.exp())
    }
}

impl TryFrom<Pow2<u64>> for Pow2<u32> {
    type Error = Pow2OutOfRange;

    fn try_from(value: Pow2<u64>) -> (r: Result<Self, Pow2OutOfRange>)
        ensures
            match r {
                Ok(v) => value.exp() < 32 && v.exp() == value.exp(),
                Err(_) => value.exp() >= 32,
            },
    {
        Pow2::from_exponent(value.exponent())
    }
}

impl TryFromSpecImpl<Pow2<u128>> for Pow2<u8> {
    open spec fn obeys_try_from_spec() -> bool {
        true
    }

    open spec fn try_from_spec(v: Pow2<u128>) -> Result<Pow2<u8>, Pow2OutOfRange> {
        pow2_of_exp::<u8>(v.exp())
    }
}

impl TryFrom<Pow2<u128>> for Pow2<u8> {
    type Error = Pow2OutOfRange;

    fn try_from(value: Pow2<u128>) -> (r: Result<Self, Pow2OutOfRange>)
        ensures
            match r {
                Ok(v) => value.exp() < 8 && v.exp() == value.exp(),
                Err(_) => value.exp() >= 8,
            },
    {
        Pow2::from_exponent(value.exponent())
    }
}

impl TryFromSpecImpl<Pow2<u128>> for Pow2<u16> {
    open spec fn obeys_try_from_spec() -> bool {
        true
    }

    open spec fn try_from_spec(v: Pow2<u128>) -> Result<Pow2<u16>, Pow2OutOfRange> {
        pow2_of_exp::<u16>(v.exp())
    }
}

impl TryFrom<Pow2<u128>> for Pow2<u16> {
    type Error = Pow2OutOfRange;

    fn try_from(value: Pow2<u128>) -> (r: Result<Self, Pow2OutOfRange>)
        ensures
            match r {
                Ok(v) => value.exp() < 16 && v.exp() == value.exp(),
                Err(_) => value.exp() >= 16,
            },
    {
        Pow2::from_exponent(value.exponent())
    }
}

impl TryFromSpecImpl<Pow2<u128>> for Pow2<u32> {
    open spec fn obeys_try_from_spec() -> bool {
        true
    }

    open spec fn try_from_spec(v: Pow2<u128>) -> Result<Pow2<u32>, Pow2OutOfRange> {
        pow2_of_exp::<u32>(v.exp())
    }
}

impl TryFrom<Pow2<u128>> for Pow2<u32> {
    type Error = Pow2OutOfRange;

    fn try_from(value: Pow2<u128>) -> (r: Result<Self, Pow2OutOfRange>)
        ensures
            match r {
                Ok(v) => value.exp() < 32 && v.exp() == value.exp(),
                Err(_) => value.exp() >= 32,
            },
    {
        Pow2::from_exponent(value.exponent())
    }
}

impl TryFromSpecImpl<Pow2<u128>> for Pow2<u64> {
    open spec fn obeys_try_from_spec() -> bool {
        true
    }

    open spec fn try_from_spec(v: Pow2<u128>) -> Result<Pow2<u64>, Pow2OutOfRange> {
        pow2_of_exp::<u64>(v.exp())
    }
}

impl TryFrom<Pow2<u128>> for Pow2<u64> {
    type Error = Pow2OutOfRange;

    fn try_from(value: Pow2<u128>) -> (r: Result<Self, Pow2OutOfRange>)
        ensures
            match r {
                Ok(v) => value.exp() < 64 && v.exp() == value.exp(),
                Err(_) => value.exp() >= 64,
            },
    {
        Pow2::from_exponent(value.exponent())
    }
}

pub type Pow2u8 = Pow2<u8>;

pub type Pow2u16 = Pow2<u16>;

pub type Pow2u32 = Pow2<u32>;

pub type Pow2u64 = Pow2<u64>;

pub type Pow2u128 = Pow2<u128>;

pub type Pow2usize = Pow2<usize>;

} // verus!

