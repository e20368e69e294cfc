//! The operations as free functions, each dispatching through a trait of the same
//! name in PascalCase. The traits are implemented for every primitive integer as the
//! left-hand side, with a [`Pow2`] or an [`UnboundedPow2`] right-hand side.
//!
//! Each trait states its operation by spec functions: `*_req`, the operands on which
//! it is defined (only where it has a precondition), and `*_spec`, its result. The
//! implementations give them over the mathematical model of `arith`: `T::from_val`
//! of the exact result, and `None` where the result is not representable or the
//! exponent is too large for the left-hand side.
use vstd::prelude::*;
use crate::arith::{
    p2, floor_div, floor_rem, ceil_div, trunc_div, trunc_rem, round_div, is_multiple,
};
use crate::integer::{Int, IntRounding, UnsignedInt, IntAtLeastAsWide, fits};
use crate::pow2::{Pow2, UnboundedPow2};
use crate::ops;

verus! {

/// `Some` of the value `v` of `T` when `ok`, else `None`.
pub open spec fn some_if<T: Int>(ok: bool, v: int) -> Option<T> {
    if ok {
        Some(T::from_val(v))
    } else {
        None
    }
}

/// `Some` of the value `v` of `T` when it is representable, else `None`.
pub open spec fn some_if_fits<T: Int>(v: int) -> Option<T> {
    some_if::<T>(fits::<T>(v), v)
}

/// Multiplication by a power of two, `None` when the product is not representable or the
/// exponent is too large for the left-hand side.
pub trait CheckedMul<Rhs>: Sized {
    type Output;

    /// The result of the operation.
    spec fn checked_mul_spec(self, rhs: Rhs) -> Self::Output;

    fn checked_mul(self, rhs: Rhs) -> (r: Self::Output)
        ensures
            r == self.checked_mul_spec(rhs),
    ;
}

/// Dispatches to [`CheckedMul::checked_mul`].
pub fn checked_mul<L: CheckedMul<R>, R>(lhs: L, rhs: R) -> (r: L::Output)
    ensures
        r == lhs.checked_mul_spec(rhs),
{
    lhs.checked_mul(rhs)
}

/// Division by a power of two rounded towards zero (the semantics of `/`), `None` when the
/// exponent is too large for the left-hand side.
pub trait CheckedDiv<Rhs>: Sized {
    type Output;

    /// The result of the operation.
    spec fn checked_div_spec(self, rhs: Rhs) -> Self::Output;

    fn checked_div(self, rhs: Rhs) -> (r: Self::Output)
        ensures
            r == self.checked_div_spec(rhs),
    ;
}

/// Dispatches to [`CheckedDiv::checked_div`].
pub fn checked_div<L: CheckedDiv<R>, R>(lhs: L, rhs: R) -> (r: L::Output)
    ensures
        r == lhs.checked_div_spec(rhs),
{
    lhs.checked_div(rhs)
}

/// Division by a power of two rounded towards zero (the semantics of `/`), for every
/// exponent.
pub trait UnboundedDiv<Rhs>: Sized {
    type Output;

    /// The result of the operation.
    spec fn unbounded_div_spec(self, rhs: Rhs) -> Self::Output;

    fn unbounded_div(self, rhs: Rhs) -> (r: Self::Output)
        ensures
            r == self.unbounded_div_spec(rhs),
    ;
}

/// Dispatches to [`UnboundedDiv::unbounded_div`].
pub fn unbounded_div<L: UnboundedDiv<R>, R>(lhs: L, rhs: R) -> (r: L::Output)
    ensures
        r == lhs.unbounded_div_spec(rhs),
{
    lhs.unbounded_div(rhs)
}

/// The remainder of the division rounded towards zero (the semantics of `%`), `None` when
/// the exponent is too large for the left-hand side.
pub trait CheckedRem<Rhs>: Sized {
    type Output;

    /// The result of the operation.
    spec fn checked_rem_spec(self, rhs: Rhs) -> Self::Output;

    fn checked_rem(self, rhs: Rhs) -> (r: Self::Output)
        ensures
            r == self.checked_rem_spec(rhs),
    ;
}

/// Dispatches to [`CheckedRem::checked_rem`].
pub fn checked_rem<L: CheckedRem<R>, R>(lhs: L, rhs: R) -> (r: L::Output)
    ensures
        r == lhs.checked_rem_spec(rhs),
{
    lhs.checked_rem(rhs)
}

/// The remainder of the division rounded towards zero (the semantics of `%`), for every
/// exponent.
pub trait UnboundedRem<Rhs>: Sized {
    type Output;

    /// The result of the operation.
    spec fn unbounded_rem_spec(self, rhs: Rhs) -> Self::Output;

    fn unbounded_rem(self, rhs: Rhs) -> (r: Self::Output)
        ensures
            r == self.unbounded_rem_spec(rhs),
    ;
}

/// Dispatches to [`UnboundedRem::unbounded_rem`].
pub fn unbounded_rem<L: UnboundedRem<R>, R>(lhs: L, rhs: R) -> (r: L::Output)
    ensures
        r == lhs.unbounded_rem_spec(rhs),
{
    lhs.unbounded_rem(rhs)
}

/// Division by a power of two rounded towards negative infinity.
pub trait DivFloor<Rhs>: Sized {
    type Output;

    /// The operands on which the operation is defined.
    spec fn div_floor_req(self, rhs: Rhs) -> bool;

    /// The result of the operation.
    spec fn div_floor_spec(self, rhs: Rhs) -> Self::Output;

    fn div_floor(self, rhs: Rhs) -> (r: Self::Output)
        requires
            self.div_floor_req(rhs),
        ensures
            r == self.div_floor_spec(rhs),
    ;
}

/// Dispatches to [`DivFloor::div_floor`].
pub fn div_floor<L: DivFloor<R>, R>(lhs: L, rhs: R) -> (r: L::Output)
    requires
        lhs.div_floor_req(rhs),
    ensures
        r == lhs.div_floor_spec(rhs),
{
    lhs.div_floor(rhs)
}

/// Division by a power of two rounded towards negative infinity, `None` when the exponent
/// is too large for the left-hand side.
pub trait CheckedDivFloor<Rhs>: Sized {
    type Output;

    /// The result of the operation.
    spec fn checked_div_floor_spec(self, rhs: Rhs) -> Self::Output;

    fn checked_div_floor(self, rhs: Rhs) -> (r: Self::Output)
        ensures
            r == self.checked_div_floor_spec(rhs),
    ;
}

/// Dispatches to [`CheckedDivFloor::checked_div_floor`].
pub fn checked_div_floor<L: CheckedDivFloor<R>, R>(lhs: L, rhs: R) -> (r: L::Output)
    ensures
        r == lhs.checked_div_floor_spec(rhs),
{
    lhs.checked_div_floor(rhs)
}

/// Division by a power of two rounded towards negative infinity, for every exponent.
pub trait UnboundedDivFloor<Rhs>: Sized {
    type Output;

    /// The result of the operation.
    spec fn unbounded_div_floor_spec(self, rhs: Rhs) -> Self::Output;

    fn unbounded_div_floor(self, rhs: Rhs) -> (r: Self::Output)
        ensures
            r == self.unbounded_div_floor_spec(rhs),
    ;
}

/// Dispatches to [`UnboundedDivFloor::unbounded_div_floor`].
pub fn unbounded_div_floor<L: UnboundedDivFloor<R>, R>(lhs: L, rhs: R) -> (r: L::Output)
    ensures
        r == lhs.unbounded_div_floor_spec(rhs),
{
    lhs.unbounded_div_floor(rhs)
}

/// The remainder of the division rounded towards negative infinity; never negative.
pub trait RemFloor<Rhs>: Sized {
    type Output;

    /// The operands on which the operation is defined.
    spec fn rem_floor_req(self, rhs: Rhs) -> bool;

    /// The result of the operation.
    spec fn rem_floor_spec(self, rhs: Rhs) -> Self::Output;

    fn rem_floor(self, rhs: Rhs) -> (r: Self::Output)
        requires
            self.rem_floor_req(rhs),
        ensures
            r == self.rem_floor_spec(rhs),
    ;
}

/// Dispatches to [`RemFloor::rem_floor`].
pub fn rem_floor<L: RemFloor<R>, R>(lhs: L, rhs: R) -> (r: L::Output)
    requires
        lhs.rem_floor_req(rhs),
    ensures
        r == lhs.rem_floor_spec(rhs),
{
    lhs.rem_floor(rhs)
}

/// The remainder of the division rounded towards negative infinity, `None` when the
/// exponent is too large for the left-hand side.
pub trait CheckedRemFloor<Rhs>: Sized {
    type Output;

    /// The result of the operation.
    spec fn checked_rem_floor_spec(self, rhs: Rhs) -> Self::Output;

    fn checked_rem_floor(self, rhs: Rhs) -> (r: Self::Output)
        ensures
            r == self.checked_rem_floor_spec(rhs),
    ;
}

/// Dispatches to [`CheckedRemFloor::checked_rem_floor`].
pub fn checked_rem_floor<L: CheckedRemFloor<R>, R>(lhs: L, rhs: R) -> (r: L::Output)
    ensures
        r == lhs.checked_rem_floor_spec(rhs),
{
    lhs.checked_rem_floor(rhs)
}

/// Division by a power of two rounded towards positive infinity.
pub trait DivCeil<Rhs>: Sized {
    type Output;

    /// The operands on which the operation is defined.
    spec fn div_ceil_req(self, rhs: Rhs) -> bool;

    /// The result of the operation.
    spec fn div_ceil_spec(self, rhs: Rhs) -> Self::Output;

    fn div_ceil(self, rhs: Rhs) -> (r: Self::Output)
        requires
            self.div_ceil_req(rhs),
        ensures
            r == self.div_ceil_spec(rhs),
    ;
}

/// Dispatches to [`DivCeil::div_ceil`].
pub fn div_ceil<L: DivCeil<R>, R>(lhs: L, rhs: R) -> (r: L::Output)
    requires
        lhs.div_ceil_req(rhs),
    ensures
        r == lhs.div_ceil_spec(rhs),
{
    lhs.div_ceil(rhs)
}

/// Division by a power of two rounded towards positive infinity, `None` when the exponent
/// is too large for the left-hand side.
pub trait CheckedDivCeil<Rhs>: Sized {
    type Output;

    /// The result of the operation.
    spec fn checked_div_ceil_spec(self, rhs: Rhs) -> Self::Output;

    fn checked_div_ceil(self, rhs: Rhs) -> (r: Self::Output)
        ensures
            r == self.checked_div_ceil_spec(rhs),
    ;
}

/// Dispatches to [`CheckedDivCeil::checked_div_ceil`].
pub fn checked_div_ceil<L: CheckedDivCeil<R>, R>(lhs: L, rhs: R) -> (r: L::Output)
    ensures
        r == lhs.checked_div_ceil_spec(rhs),
{
    lhs.checked_div_ceil(rhs)
}

/// Division by a power of two rounded towards positive infinity, for every exponent.
pub trait UnboundedDivCeil<Rhs>: Sized {
    type Output;

    /// The result of the operation.
    spec fn unbounded_div_ceil_spec(self, rhs: Rhs) -> Self::Output;

    fn unbounded_div_ceil(self, rhs: Rhs) -> (r: Self::Output)
        ensures
            r == self.unbounded_div_ceil_spec(rhs),
    ;
}

/// Dispatches to [`UnboundedDivCeil::unbounded_div_ceil`].
pub fn unbounded_div_ceil<L: UnboundedDivCeil<R>, R>(lhs: L, rhs: R) -> (r: L::Output)
    ensures
        r == lhs.unbounded_div_ceil_spec(rhs),
{
    lhs.unbounded_div_ceil(rhs)
}

/// Division by a power of two rounded to the nearest integer, ties away from zero.
pub trait DivRound<Rhs>: Sized {
    type Output;

    /// The operands on which the operation is defined.
    spec fn div_round_req(self, rhs: Rhs) -> bool;

    /// The result of the operation.
    spec fn div_round_spec(self, rhs: Rhs) -> Self::Output;

    fn div_round(self, rhs: Rhs) -> (r: Self::Output)
        requires
            self.div_round_req(rhs),
        ensures
            r == self.div_round_spec(rhs),
    ;
}

/// Dispatches to [`DivRound::div_round`].
pub fn div_round<L: DivRound<R>, R>(lhs: L, rhs: R) -> (r: L::Output)
    requires
        lhs.div_round_req(rhs),
    ensures
        r == lhs.div_round_spec(rhs),
{
    lhs.div_round(rhs)
}

/// Division by a power of two rounded to the nearest integer, ties away from zero, `None`
/// when the exponent is too large for the left-hand side.
pub trait CheckedDivRound<Rhs>: Sized {
    type Output;

    /// The result of the operation.
    spec fn checked_div_round_spec(self, rhs: Rhs) -> Self::Output;

    fn checked_div_round(self, rhs: Rhs) -> (r: Self::Output)
        ensures
            r == self.checked_div_round_spec(rhs),
    ;
}

/// Dispatches to [`CheckedDivRound::checked_div_round`].
pub fn checked_div_round<L: CheckedDivRound<R>, R>(lhs: L, rhs: R) -> (r: L::Output)
    ensures
        r == lhs.checked_div_round_spec(rhs),
{
    lhs.checked_div_round(rhs)
}

/// Division by a power of two rounded to the nearest integer, ties away from zero, for
/// every exponent.
pub trait UnboundedDivRound<Rhs>: Sized {
    type Output;

    /// The result of the operation.
    spec fn unbounded_div_round_spec(self, rhs: Rhs) -> Self::Output;

    fn unbounded_div_round(self, rhs: Rhs) -> (r: Self::Output)
        ensures
            r == self.unbounded_div_round_spec(rhs),
    ;
}

/// Dispatches to [`UnboundedDivRound::unbounded_div_round`].
pub fn unbounded_div_round<L: UnboundedDivRound<R>, R>(lhs: L, rhs: R) -> (r: L::Output)
    ensures
        r == lhs.unbounded_div_round_spec(rhs),
{
    lhs.unbounded_div_round(rhs)
}

/// Whether the value is a multiple of a power of two.
pub trait IsMultipleOf<Rhs>: Sized {
    type Output;

    /// The operands on which the operation is defined.
    spec fn is_multiple_of_req(self, rhs: Rhs) -> bool;

    /// The result of the operation.
    spec fn is_multiple_of_spec(self, rhs: Rhs) -> Self::Output;

    fn is_multiple_of(self, rhs: Rhs) -> (r: Self::Output)
        requires
            self.is_multiple_of_req(rhs),
        ensures
            r == self.is_multiple_of_spec(rhs),
    ;
}

/// Dispatches to [`IsMultipleOf::is_multiple_of`].
pub fn is_multiple_of<L: IsMultipleOf<R>, R>(lhs: L, rhs: R) -> (r: L::Output)
    requires
        lhs.is_multiple_of_req(rhs),
    ensures
        r == lhs.is_multiple_of_spec(rhs),
{
    lhs.is_multiple_of(rhs)
}

/// Whether the value is a multiple of a power of two, for every exponent.
pub trait UnboundedIsMultipleOf<Rhs>: Sized {
    type Output;

    /// The result of the operation.
    spec fn unbounded_is_multiple_of_spec(self, rhs: Rhs) -> Self::Output;

    fn unbounded_is_multiple_of(self, rhs: Rhs) -> (r: Self::Output)
        ensures
            r == self.unbounded_is_multiple_of_spec(rhs),
    ;
}

/// Dispatches to [`UnboundedIsMultipleOf::unbounded_is_multiple_of`].
pub fn unbounded_is_multiple_of<L: UnboundedIsMultipleOf<R>, R>(lhs: L, rhs: R) -> (r: L::Output)
    ensures
        r == lhs.unbounded_is_multiple_of_spec(rhs),
{
    lhs.unbounded_is_multiple_of(rhs)
}

/// The largest multiple of a power of two that is not above the value.
pub trait FloorToMultiple<Rhs>: Sized {
    type Output;

    /// The operands on which the operation is defined.
    spec fn floor_to_multiple_req(self, rhs: Rhs) -> bool;

    /// The result of the operation.
    spec fn floor_to_multiple_spec(self, rhs: Rhs) -> Self::Output;

    fn floor_to_multiple(self, rhs: Rhs) -> (r: Self::Output)
        requires
            self.floor_to_multiple_req(rhs),
        ensures
            r == self.floor_to_multiple_spec(rhs),
    ;
}

/// Dispatches to [`FloorToMultiple::floor_to_multiple`].
pub fn floor_to_multiple<L: FloorToMultiple<R>, R>(lhs: L, rhs: R) -> (r: L::Output)
    requires
        lhs.floor_to_multiple_req(rhs),
    ensures
        r == lhs.floor_to_multiple_spec(rhs),
{
    lhs.floor_to_multiple(rhs)
}

/// The largest multiple of a power of two that is not above the value, `None` when the
/// exponent is too large for the left-hand side.
pub trait CheckedFloorToMultiple<Rhs>: Sized {
    type Output;

    /// The result of the operation.
    spec fn checked_floor_to_multiple_spec(self, rhs: Rhs) -> Self::Output;

    fn checked_floor_to_multiple(self, rhs: Rhs) -> (r: Self::Output)
        ensures
            r == self.checked_floor_to_multiple_spec(rhs),
    ;
}

/// Dispatches to [`CheckedFloorToMultiple::checked_floor_to_multiple`].
pub fn checked_floor_to_multiple<L: CheckedFloorToMultiple<R>, R>(lhs: L, rhs: R) -> (r: L::Output)
    ensures
        r == lhs.checked_floor_to_multiple_spec(rhs),
{
    lhs.checked_floor_to_multiple(rhs)
}

/// The largest multiple of a power of two that is not above the value, for every exponent;
/// for signed values `None` when it is not representable.
pub trait UnboundedFloorToMultiple<Rhs>: Sized {
    type Output;

    /// The result of the operation.
    spec fn unbounded_floor_to_multiple_spec(self, rhs: Rhs) -> Self::Output;

    fn unbounded_floor_to_multiple(self, rhs: Rhs) -> (r: Self::Output)
        ensures
            r == self.unbounded_floor_to_multiple_spec(rhs),
    ;
}

/// Dispatches to [`UnboundedFloorToMultiple::unbounded_floor_to_multiple`].
pub fn unbounded_floor_to_multiple<L: UnboundedFloorToMultiple<R>, R>(
    lhs: L,
    rhs: R,
) -> (r: L::Output)
    ensures
        r == lhs.unbounded_floor_to_multiple_spec(rhs),
{
    lhs.unbounded_floor_to_multiple(rhs)
}

/// The smallest multiple of a power of two that is not below the value; the result must be
/// representable.
pub trait CeilToMultiple<Rhs>: Sized {
    type Output;

    /// The operands on which the operation is defined.
    spec fn ceil_to_multiple_req(self, rhs: Rhs) -> bool;

    /// The result of the operation.
    spec fn ceil_to_multiple_spec(self, rhs: Rhs) -> Self::Output;

    fn ceil_to_multiple(self, rhs: Rhs) -> (r: Self::Output)
        requires
            self.ceil_to_multiple_req(rhs),
        ensures
            r == self.ceil_to_multiple_spec(rhs),
    ;
}

/// Dispatches to [`CeilToMultiple::ceil_to_multiple`].
pub fn ceil_to_multiple<L: CeilToMultiple<R>, R>(lhs: L, rhs: R) -> (r: L::Output)
    requires
        lhs.ceil_to_multiple_req(rhs),
    ensures
        r == lhs.ceil_to_multiple_spec(rhs),
{
    lhs.ceil_to_multiple(rhs)
}

/// The smallest multiple of a power of two that is not below the value, `None` when it is
/// not representable or the exponent is too large for the left-hand side.
pub trait CheckedCeilToMultiple<Rhs>: Sized {
    type Output;

    /// The result of the operation.
    spec fn checked_ceil_to_multiple_spec(self, rhs: Rhs) -> Self::Output;

    fn checked_ceil_to_multiple(self, rhs: Rhs) -> (r: Self::Output)
        ensures
            r == self.checked_ceil_to_multiple_spec(rhs),
    ;
}

/// Dispatches to [`CheckedCeilToMultiple::checked_ceil_to_multiple`].
pub fn checked_ceil_to_multiple<L: CheckedCeilToMultiple<R>, R>(lhs: L, rhs: R) -> (r: L::Output)
    ensures
        r == lhs.checked_ceil_to_multiple_spec(rhs),
{
    lhs.checked_ceil_to_multiple(rhs)
}

/// The smallest multiple of a power of two that is not below the value, for every exponent,
/// `None` when it is not representable.
pub trait UnboundedCeilToMultiple<Rhs>: Sized {
    type Output;

    /// The result of the operation.
    spec fn unbounded_ceil_to_multiple_spec(self, rhs: Rhs) -> Self::Output;

    fn unbounded_ceil_to_multiple(self, rhs: Rhs) -> (r: Self::Output)
        ensures
            r == self.unbounded_ceil_to_multiple_spec(rhs),
    ;
}

/// Dispatches to [`UnboundedCeilToMultiple::unbounded_ceil_to_multiple`].
pub fn unbounded_ceil_to_multiple<L: UnboundedCeilToMultiple<R>, R>(
    lhs: L,
    rhs: R,
) -> (r: L::Output)
    ensures
        r == lhs.unbounded_ceil_to_multiple_spec(rhs),
{
    lhs.unbounded_ceil_to_multiple(rhs)
}

/// The nearest multiple of a power of two, ties away from zero; the result must be
/// representable.
pub trait RoundToMultiple<Rhs>: Sized {
    type Output;

    /// The operands on which the operation is defined.
    spec fn round_to_multiple_req(self, rhs: Rhs) -> bool;

    /// The result of the operation.
    spec fn round_to_multiple_spec(self, rhs: Rhs) -> Self::Output;

    fn round_to_multiple(self, rhs: Rhs) -> (r: Self::Output)
        requires
            self.round_to_multiple_req(rhs),
        ensures
            r == self.round_to_multiple_spec(rhs),
    ;
}

/// Dispatches to [`RoundToMultiple::round_to_multiple`].
pub fn round_to_multiple<L: RoundToMultiple<R>, R>(lhs: L, rhs: R) -> (r: L::Output)
    requires
        lhs.round_to_multiple_req(rhs),
    ensures
        r == lhs.round_to_multiple_spec(rhs),
{
    lhs.round_to_multiple(rhs)
}

/// The nearest multiple of a power of two, ties away from zero, `None` when it is not
/// representable or the exponent is too large for the left-hand side.
pub trait CheckedRoundToMultiple<Rhs>: Sized {
    type Output;

    /// The result of the operation.
    spec fn checked_round_to_multiple_spec(self, rhs: Rhs) -> Self::Output;

    fn checked_round_to_multiple(self, rhs: Rhs) -> (r: Self::Output)
        ensures
            r == self.checked_round_to_multiple_spec(rhs),
    ;
}

/// Dispatches to [`CheckedRoundToMultiple::checked_round_to_multiple`].
pub fn checked_round_to_multiple<L: CheckedRoundToMultiple<R>, R>(lhs: L, rhs: R) -> (r: L::Output)
    ensures
        r == lhs.checked_round_to_multiple_spec(rhs),
{
    lhs.checked_round_to_multiple(rhs)
}

/// The nearest multiple of a power of two, ties away from zero, for every exponent, `None`
/// when it is not representable.
pub trait UnboundedRoundToMultiple<Rhs>: Sized {
    type Output;

    /// The result of the operation.
    spec fn unbounded_round_to_multiple_spec(self, rhs: Rhs) -> Self::Output;

    fn unbounded_round_to_multiple(self, rhs: Rhs) -> (r: Self::Output)
        ensures
            r == self.unbounded_round_to_multiple_spec(rhs),
    ;
}

/// Dispatches to [`UnboundedRoundToMultiple::unbounded_round_to_multiple`].
pub fn unbounded_round_to_multiple<L: UnboundedRoundToMultiple<R>, R>(
    lhs: L,
    rhs: R,
) -> (r: L::Output)
    ensures
        r == lhs.unbounded_round_to_multiple_spec(rhs),
{
    lhs.unbounded_round_to_multiple(rhs)
}

impl<T: Int> CheckedMul<UnboundedPow2> for T {
    type Output = Option<T>;

    open spec fn checked_mul_spec(self, rhs: UnboundedPow2) -> Option<T> {
        let v = self.val() * p2(rhs.exp());
        some_if::<T>(rhs.exp() < T::width() && fits::<T>(v), v)
    }

    fn checked_mul(self, rhs: UnboundedPow2) -> (r: Option<T>) {
        let r = ops::unbounded_checked_mul_by(self, rhs.exponent());
        proof {
            if let Some(v) = r {
                T::lemma_val(v);
            }
        }
        r
    }
}

impl<T: Int> CheckedDiv<UnboundedPow2> for T {
    type Output = Option<T>;

    open spec fn checked_div_spec(self, rhs: UnboundedPow2) -> Option<T> {
        some_if::<T>(rhs.exp() < T::width(), trunc_div(self.val(), rhs.exp()))
    }

    fn checked_div(self, rhs: UnboundedPow2) -> (r: Option<T>) {
        let e = rhs.exponent();
        proof {
            T::lemma_model();
        }
        if (e as u32) < T::BITS {
            let r = ops::trunc_div_by(self, e as u32);
            proof {
                T::lemma_val(r);
            }
            Some(r)
        } else {
            None
        }
    }
}

impl<T: Int> UnboundedDiv<UnboundedPow2> for T {
    type Output = T;

    open spec fn unbounded_div_spec(self, rhs: UnboundedPow2) -> T {
        T::from_val(trunc_div(self.val(), rhs.exp()))
    }

    fn unbounded_div(self, rhs: UnboundedPow2) -> (r: T) {
        let r = ops::unbounded_trunc_div_by(self, rhs.exponent());
        proof {
            T::lemma_val(r);
        }
        r
    }
}

impl<T: Int> CheckedRem<UnboundedPow2> for T {
    type Output = Option<T>;

    open spec fn checked_rem_spec(self, rhs: UnboundedPow2) -> Option<T> {
        some_if::<T>(rhs.exp() < T::width(), trunc_rem(self.val(), rhs.exp()))
    }

    fn checked_rem(self, rhs: UnboundedPow2) -> (r: Option<T>) {
        let e = rhs.exponent();
        proof {
            T::lemma_model();
        }
        if (e as u32) < T::BITS {
            let r = ops::trunc_rem_by(self, e as u32);
            proof {
                T::lemma_val(r);
            }
            Some(r)
        } else {
            None
        }
    }
}

impl<T: Int> UnboundedRem<UnboundedPow2> for T {
    type Output = T;

    open spec fn unbounded_rem_spec(self, rhs: UnboundedPow2) -> T {
        T::from_val(trunc_rem(self.val(), rhs.exp()))
    }

    fn unbounded_rem(self, rhs: UnboundedPow2) -> (r: T) {
        let r = ops::unbounded_trunc_rem_by(self, rhs.exponent());
        proof {
            T::lemma_val(r);
        }
        r
    }
}

impl<T: Int> DivFloor<UnboundedPow2> for T {
    type Output = T;

    open spec fn div_floor_req(self, rhs: UnboundedPow2) -> bool {
        rhs.exp() < T::width()
    }

    open spec fn div_floor_spec(self, rhs: UnboundedPow2) -> T {
        T::from_val(floor_div(self.val(), rhs.exp()))
    }

    fn div_floor(self, rhs: UnboundedPow2) -> (r: T) {
        let r = ops::floor_div_by(self, rhs.exponent() as u32);
        proof {
            T::lemma_val(r);
        }
        r
    }
}

impl<T: Int> CheckedDivFloor<UnboundedPow2> for T {
    type Output = Option<T>;

    open spec fn checked_div_floor_spec(self, rhs: UnboundedPow2) -> Option<T> {
        some_if::<T>(rhs.exp() < T::width(), floor_div(self.val(), rhs.exp()))
    }

    fn checked_div_floor(self, rhs: UnboundedPow2) -> (r: Option<T>) {
        let e = rhs.exponent();
        proof {
            T::lemma_model();
        }
        if (e as u32) < T::BITS {
            let r = ops::floor_div_by(self, e as u32);
            proof {
                T::lemma_val(r);
            }
            Some(r)
        } else {
            None
        }
    }
}

impl<T: Int> UnboundedDivFloor<UnboundedPow2> for T {
    type Output = T;

    open spec fn unbounded_div_floor_spec(self, rhs: UnboundedPow2) -> T {
        T::from_val(floor_div(self.val(), rhs.exp()))
    }

    fn unbounded_div_floor(self, rhs: UnboundedPow2) -> (r: T) {
        let r = ops::unbounded_floor_div_by(self, rhs.exponent());
        proof {
            T::lemma_val(r);
        }
        r
    }
}

impl<T: Int> RemFloor<UnboundedPow2> for T {
    type Output = T;

    open spec fn rem_floor_req(self, rhs: UnboundedPow2) -> bool {
        rhs.exp() < T::width()
    }

    open spec fn rem_floor_spec(self, rhs: UnboundedPow2) -> T {
        T::from_val(floor_rem(self.val(), rhs.exp()))
    }

    fn rem_floor(self, rhs: UnboundedPow2) -> (r: T) {
        let r = ops::floor_rem_by(self, rhs.exponent() as u32);
        proof {
            T::lemma_val(r);
        }
        r
    }
}

impl<T: Int> CheckedRemFloor<UnboundedPow2> for T {
    type Output = Option<T>;

    open spec fn checked_rem_floor_spec(self, rhs: UnboundedPow2) -> Option<T> {
        some_if::<T>(rhs.exp() < T::width(), floor_rem(self.val(), rhs.exp()))
    }

    fn checked_rem_floor(self, rhs: UnboundedPow2) -> (r: Option<T>) {
        let e = rhs.exponent();
        proof {
            T::lemma_model();
        }
        if (e as u32) < T::BITS {
            let r = ops::floor_rem_by(self, e as u32);
            proof {
                T::lemma_val(r);
            }
            Some(r)
        } else {
            None
        }
    }
}

impl<T: Int> DivCeil<UnboundedPow2> for T {
    type Output = T;

    open spec fn div_ceil_req(self, rhs: UnboundedPow2) -> bool {
        rhs.exp() < T::width()
    }

    open spec fn div_ceil_spec(self, rhs: UnboundedPow2) -> T {
        T::from_val(ceil_div(self.val(), rhs.exp()))
    }

    fn div_ceil(self, rhs: UnboundedPow2) -> (r: T) {
        let r = ops::ceil_div_by(self, rhs.exponent() as u32);
        proof {
            T::lemma_val(r);
        }
        r
    }
}

impl<T: Int> CheckedDivCeil<UnboundedPow2> for T {
    type Output = Option<T>;

    open spec fn checked_div_ceil_spec(self, rhs: UnboundedPow2) -> Option<T> {
        some_if::<T>(rhs.exp() < T::width(), ceil_div(self.val(), rhs.exp()))
    }

    fn checked_div_ceil(self, rhs: UnboundedPow2) -> (r: Option<T>) {
        let e = rhs.exponent();
        proof {
            T::lemma_model();
        }
        if (e as u32) < T::BITS {
            let r = ops::ceil_div_by(self, e as u32);
            proof {
                T::lemma_val(r);
            }
            Some(r)
        } else {
            None
        }
    }
}

impl<T: Int> UnboundedDivCeil<UnboundedPow2> for T {
    type Output = T;

    open spec fn unbounded_div_ceil_spec(self, rhs: UnboundedPow2) -> T {
        T::from_val(ceil_div(self.val(), rhs.exp()))
    }

    fn unbounded_div_ceil(self, rhs: UnboundedPow2) -> (r: T) {
        let r = ops::unbounded_ceil_div_by(self, rhs.exponent());
        proof {
            T::lemma_val(r);
        }
        r
    }
}

impl<T: Int> IsMultipleOf<UnboundedPow2> for T {
    type Output = bool;

    open spec fn is_multiple_of_req(self, rhs: UnboundedPow2) -> bool {
        rhs.exp() < T::width()
    }

    open spec fn is_multiple_of_spec(self, rhs: UnboundedPow2) -> bool {
        is_multiple(self.val(), rhs.exp())
    }

    fn is_multiple_of(self, rhs: UnboundedPow2) -> (r: bool) {
        ops::is_multiple_by(self, rhs.exponent() as u32)
    }
}

impl<T: Int> UnboundedIsMultipleOf<UnboundedPow2> for T {
    type Output = bool;

    open spec fn unbounded_is_multiple_of_spec(self, rhs: UnboundedPow2) -> bool {
        is_multiple(self.val(), rhs.exp())
    }

    fn unbounded_is_multiple_of(self, rhs: UnboundedPow2) -> (r: bool) {
        ops::unbounded_is_multiple_by(self, rhs.exponent())
    }
}

impl<T: Int> FloorToMultiple<UnboundedPow2> for T {
    type Output = T;

    open spec fn floor_to_multiple_req(self, rhs: UnboundedPow2) -> bool {
        rhs.exp() < T::width()
    }

    open spec fn floor_to_multiple_spec(self, rhs: UnboundedPow2) -> T {
        T::from_val(floor_div(self.val(), rhs.exp()) * p2(rhs.exp()))
    }

    fn floor_to_multiple(self, rhs: UnboundedPow2) -> (r: T) {
        let r = ops::floor_multiple_by(self, rhs.exponent() as u32);
        proof {
            T::lemma_val(r);
        }
        r
    }
}

impl<T: Int> CheckedFloorToMultiple<UnboundedPow2> for T {
    type Output = Option<T>;

    open spec fn checked_floor_to_multiple_spec(self, rhs: UnboundedPow2) -> Option<T> {
        let v = floor_div(self.val(), rhs.exp()) * p2(rhs.exp());
        some_if::<T>(rhs.exp() < T::width(), v)
    }

    fn checked_floor_to_multiple(self, rhs: UnboundedPow2) -> (r: Option<T>) {
        let e = rhs.exponent();
        proof {
            T::lemma_model();
        }
        if (e as u32) < T::BITS {
            let r = ops::floor_multiple_by(self, e as u32);
            proof {
                T::lemma_val(r);
            }
            Some(r)
        } else {
            None
        }
    }
}

impl<T: Int> CeilToMultiple<UnboundedPow2> for T {
    type Output = T;

    open spec fn ceil_to_multiple_req(self, rhs: UnboundedPow2) -> bool {
        rhs.exp() < T::width() && fits::<T>(ceil_div(self.val(), rhs.exp()) * p2(rhs.exp()))
    }

    open spec fn ceil_to_multiple_spec(self, rhs: UnboundedPow2) -> T {
        T::from_val(ceil_div(self.val(), rhs.exp()) * p2(rhs.exp()))
    }

    fn ceil_to_multiple(self, rhs: UnboundedPow2) -> (r: T) {
        let r = ops::ceil_multiple_by(self, rhs.exponent() as u32);
        proof {
            T::lemma_val(r);
        }
        r
    }
}

impl<T: Int> CheckedCeilToMultiple<UnboundedPow2> for T {
    type Output = Option<T>;

    open spec fn checked_ceil_to_multiple_spec(self, rhs: UnboundedPow2) -> Option<T> {
        let v = ceil_div(self.val(), rhs.exp()) * p2(rhs.exp());
        some_if::<T>(rhs.exp() < T::width() && fits::<T>(v), v)
    }

    fn checked_ceil_to_multiple(self, rhs: UnboundedPow2) -> (r: Option<T>) {
        let e = rhs.exponent();
        proof {
            T::lemma_model();
        }
        if (e as u32) < T::BITS {
            let r = ops::checked_ceil_multiple_by(self, e as u32);
            proof {
                if let Some(v) = r {
                    T::lemma_val(v);
                }
            }
            r
        } else {
            None
        }
    }
}

impl<T: Int> UnboundedCeilToMultiple<UnboundedPow2> for T {
    type Output = Option<T>;

    open spec fn unbounded_ceil_to_multiple_spec(self, rhs: UnboundedPow2) -> Option<T> {
        some_if_fits::<T>(ceil_div(self.val(), rhs.exp()) * p2(rhs.exp()))
    }

    fn unbounded_ceil_to_multiple(self, rhs: UnboundedPow2) -> (r: Option<T>) {
        let r = ops::unbounded_ceil_multiple_by(self, rhs.exponent());
        proof {
            if let Some(v) = r {
                T::lemma_val(v);
            }
        }
        r
    }
}

impl<T: IntRounding> DivRound<UnboundedPow2> for T {
    type Output = T;

    open spec fn div_round_req(self, rhs: UnboundedPow2) -> bool {
        rhs.exp() < T::width()
    }

    open spec fn div_round_spec(self, rhs: UnboundedPow2) -> T {
        T::from_val(round_div(self.val(), rhs.exp()))
    }

    fn div_round(self, rhs: UnboundedPow2) -> (r: T) {
        let r = self.div_round_by(rhs.exponent() as u32);
        proof {
            T::lemma_val(r);
        }
        r
    }
}

impl<T: IntRounding> CheckedDivRound<UnboundedPow2> for T {
    type Output = Option<T>;

    open spec fn checked_div_round_spec(self, rhs: UnboundedPow2) -> Option<T> {
        some_if::<T>(rhs.exp() < T::width(), round_div(self.val(), rhs.exp()))
    }

    fn checked_div_round(self, rhs: UnboundedPow2) -> (r: Option<T>) {
        let e = rhs.exponent();
        proof {
            T::lemma_model();
        }
        if (e as u32) < T::BITS {
            let r = self.div_round_by(e as u32);
            proof {
                T::lemma_val(r);
            }
            Some(r)
        } else {
            None
        }
    }
}

impl<T: IntRounding> UnboundedDivRound<UnboundedPow2> for T {
    type Output = T;

    open spec fn unbounded_div_round_spec(self, rhs: UnboundedPow2) -> T {
        T::from_val(round_div(self.val(), rhs.exp()))
    }

    fn unbounded_div_round(self, rhs: UnboundedPow2) -> (r: T) {
        let r = self.unbounded_div_round_by(rhs.exponent());
        proof {
            T::lemma_val(r);
        }
        r
    }
}

impl<T: IntRounding> RoundToMultiple<UnboundedPow2> for T {
    type Output = T;

    open spec fn round_to_multiple_req(self, rhs: UnboundedPow2) -> bool {
        rhs.exp() < T::width() && fits::<T>(round_div(self.val(), rhs.exp()) * p2(rhs.exp()))
    }

    open spec fn round_to_multiple_spec(self, rhs: UnboundedPow2) -> T {
        T::from_val(round_div(self.val(), rhs.exp()) * p2(rhs.exp()))
    }

    fn round_to_multiple(self, rhs: UnboundedPow2) -> (r: T) {
        let r = self.round_to_multiple_by(rhs.exponent() as u32);
        proof {
            T::lemma_val(r);
        }
        r
    }
}

impl<T: IntRounding> CheckedRoundToMultiple<UnboundedPow2> for T {
    type Output = Option<T>;

    open spec fn checked_round_to_multiple_spec(self, rhs: UnboundedPow2) -> Option<T> {
        let v = round_div(self.val(), rhs.exp()) * p2(rhs.exp());
        some_if::<T>(rhs.exp() < T::width() && fits::<T>(v), v)
    }

    fn checked_round_to_multiple(self, rhs: UnboundedPow2) -> (r: Option<T>) {
        let e = rhs.exponent();
        proof {
            T::lemma_model();
        }
        if (e as u32) < T::BITS {
            let r = self.checked_round_to_multiple_by(e as u32);
            proof {
                if let Some(v) = r {
                    T::lemma_val(v);
                }
            }
            r
        } else {
            None
        }
    }
}

impl<T: IntRounding> UnboundedRoundToMultiple<UnboundedPow2> for T {
    type Output = Option<T>;

    open spec fn unbounded_round_to_multiple_spec(self, rhs: UnboundedPow2) -> Option<T> {
        some_if_fits::<T>(round_div(self.val(), rhs.exp()) * p2(rhs.exp()))
    }

    fn unbounded_round_to_multiple(self, rhs: UnboundedPow2) -> (r: Option<T>) {
        let r = self.unbounded_round_to_multiple_by(rhs.exponent());
        proof {
            if let Some(v) = r {
                T::lemma_val(v);
            }
        }
        r
    }
}

impl<L: IntAtLeastAsWide<T>, T: UnsignedInt> CheckedMul<Pow2<T>> for L {
    type Output = Option<L>;

    open spec fn checked_mul_spec(self, rhs: Pow2<T>) -> Option<L> {
        some_if_fits::<L>(self.val() * p2(rhs.exp()))
    }

    fn checked_mul(self, rhs: Pow2<T>) -> (r: Option<L>) {
        let e = rhs.exponent();
        proof {
            L::lemma_at_least_as_wide();
        }
        let r = ops::checked_mul_by(self, e as u32);
        proof {
            if let Some(v) = r {
                L::lemma_val(v);
            }
        }
        r
    }
}

impl<L: IntAtLeastAsWide<T>, T: UnsignedInt> DivFloor<Pow2<T>> for L {
    type Output = L;

    open spec fn div_floor_req(self, rhs: Pow2<T>) -> bool {
        true
    }

    open spec fn div_floor_spec(self, rhs: Pow2<T>) -> L {
        L::from_val(floor_div(self.val(), rhs.exp()))
    }

    fn div_floor(self, rhs: Pow2<T>) -> (r: L) {
        let e = rhs.exponent();
        proof {
            L::lemma_at_least_as_wide();
        }
        let r = ops::floor_div_by(self, e as u32);
        proof {
            L::lemma_val(r);
        }
        r
    }
}

impl<L: IntAtLeastAsWide<T>, T: UnsignedInt> RemFloor<Pow2<T>> for L {
    type Output = L;

    open spec fn rem_floor_req(self, rhs: Pow2<T>) -> bool {
        true
    }

    open spec fn rem_floor_spec(self, rhs: Pow2<T>) -> L {
        L::from_val(floor_rem(self.val(), rhs.exp()))
    }

    fn rem_floor(self, rhs: Pow2<T>) -> (r: L) {
        let e = rhs.exponent();
        proof {
            L::lemma_at_least_as_wide();
        }
        let r = ops::floor_rem_by(self, e as u32);
        proof {
            L::lemma_val(r);
        }
        r
    }
}

impl<L: IntAtLeastAsWide<T>, T: UnsignedInt> DivCeil<Pow2<T>> for L {
    type Output = L;

    open spec fn div_ceil_req(self, rhs: Pow2<T>) -> bool {
        true
    }

    open spec fn div_ceil_spec(self, rhs: Pow2<T>) -> L {
        L::from_val(ceil_div(self.val(), rhs.exp()))
    }

    fn div_ceil(self, rhs: Pow2<T>) -> (r: L) {
        let e = rhs.exponent();
        proof {
            L::lemma_at_least_as_wide();
        }
        let r = ops::ceil_div_by(self, e as u32);
        proof {
            L::lemma_val(r);
        }
        r
    }
}

impl<L: IntAtLeastAsWide<T>, T: UnsignedInt> IsMultipleOf<Pow2<T>> for L {
    type Output = bool;

    open spec fn is_multiple_of_req(self, rhs: Pow2<T>) -> bool {
        true
    }

    open spec fn is_multiple_of_spec(self, rhs: Pow2<T>) -> bool {
        is_multiple(self.val(), rhs.exp())
    }

    fn is_multiple_of(self, rhs: Pow2<T>) -> (r: bool) {
        let e = rhs.exponent();
        proof {
            L::lemma_at_least_as_wide();
        }
        ops::is_multiple_by(self, e as u32)
    }
}

impl<L: IntAtLeastAsWide<T>, T: UnsignedInt> FloorToMultiple<Pow2<T>> for L {
    type Output = L;

    open spec fn floor_to_multiple_req(self, rhs: Pow2<T>) -> bool {
        true
    }

    open spec fn floor_to_multiple_spec(self, rhs: Pow2<T>) -> L {
        L::from_val(floor_div(self.val(), rhs.exp()) * p2(rhs.exp()))
    }

    fn floor_to_multiple(self, rhs: Pow2<T>) -> (r: L) {
        let e = rhs.exponent();
        proof {
            L::lemma_at_least_as_wide();
        }
        let r = ops::floor_multiple_by(self, e as u32);
        proof {
            L::lemma_val(r);
        }
        r
    }
}

impl<L: IntAtLeastAsWide<T>, T: UnsignedInt> CeilToMultiple<Pow2<T>> for L {
    type Output = L;

    open spec fn ceil_to_multiple_req(self, rhs: Pow2<T>) -> bool {
        fits::<L>(ceil_div(self.val(), rhs.exp()) * p2(rhs.exp()))
    }

    open spec fn ceil_to_multiple_spec(self, rhs: Pow2<T>) -> L {
        L::from_val(ceil_div(self.val(), rhs.exp()) * p2(rhs.exp()))
    }

    fn ceil_to_multiple(self, rhs: Pow2<T>) -> (r: L) {
        let e = rhs.exponent();
        proof {
            L::lemma_at_least_as_wide();
        }
        let r = ops::ceil_multiple_by(self, e as u32);
        proof {
            L::lemma_val(r);
        }
        r
    }
}

impl<L: IntAtLeastAsWide<T>, T: UnsignedInt> CheckedCeilToMultiple<Pow2<T>> for L {
    type Output = Option<L>;

    open spec fn checked_ceil_to_multiple_spec(self, rhs: Pow2<T>) -> Option<L> {
        some_if_fits::<L>(ceil_div(self.val(), rhs.exp()) * p2(rhs.exp()))
    }

    fn checked_ceil_to_multiple(self, rhs: Pow2<T>) -> (r: Option<L>) {
        let e = rhs.exponent();
        proof {
            L::lemma_at_least_as_wide();
        }
        let r = ops::checked_ceil_multiple_by(self, e as u32);
        proof {
            if let Some(v) = r {
                L::lemma_val(v);
            }
        }
        r
    }
}

impl<L: IntAtLeastAsWide<T> + IntRounding, T: UnsignedInt> DivRound<Pow2<T>> for L {
    type Output = L;

    open spec fn div_round_req(self, rhs: Pow2<T>) -> bool {
        true
    }

    open spec fn div_round_spec(self, rhs: Pow2<T>) -> L {
        L::from_val(round_div(self.val(), rhs.exp()))
    }

    fn div_round(self, rhs: Pow2<T>) -> (r: L) {
        let e = rhs.exponent();
        proof {
            L::lemma_at_least_as_wide();
        }
        let r = self.div_round_by(e as u32);
        proof {
            L::lemma_val(r);
        }
        r
    }
}

impl<L: IntAtLeastAsWide<T> + IntRounding, T: UnsignedInt> RoundToMultiple<Pow2<T>> for L {
    type Output = L;

    open spec fn round_to_multiple_req(self, rhs: Pow2<T>) -> bool {
        fits::<L>(round_div(self.val(), rhs.exp()) * p2(rhs.exp()))
    }

    open spec fn round_to_multiple_spec(self, rhs: Pow2<T>) -> L {
        L::from_val(round_div(self.val(), rhs.exp()) * p2(rhs.exp()))
    }

    fn round_to_multiple(self, rhs: Pow2<T>) -> (r: L) {
        let e = rhs.exponent();
        proof {
            L::lemma_at_least_as_wide();
        }
        let r = self.round_to_multiple_by(e as u32);
        proof {
            L::lemma_val(r);
        }
        r
    }
}

impl<L: IntAtLeastAsWide<T> + IntRounding, T: UnsignedInt> CheckedRoundToMultiple<Pow2<T>> for L {
    type Output = Option<L>;

    open spec fn checked_round_to_multiple_spec(self, rhs: Pow2<T>) -> Option<L> {
        some_if_fits::<L>(round_div(self.val(), rhs.exp()) * p2(rhs.exp()))
    }

    fn checked_round_to_multiple(self, rhs: Pow2<T>) -> (r: Option<L>) {
        let e = rhs.exponent();
        proof {
            L::lemma_at_least_as_wide();
        }
        let r = self.checked_round_to_multiple_by(e as u32);
        proof {
            if let Some(v) = r {
                L::lemma_val(v);
            }
        }
        r
    }
}

} // verus!

