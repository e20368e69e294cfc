//! The operators `/`, `%` and `*` and their assigning forms, for every primitive
//! integer with a [`Pow2`] or an [`UnboundedPow2`] right-hand side: division rounds
//! towards zero and the remainder takes the sign of the dividend, as for integers.
use vstd::prelude::*;
use vstd::std_specs::ops::{DivSpecImpl, RemSpecImpl, MulSpecImpl};
use core::ops::{Div, DivAssign, Mul, MulAssign, Rem, RemAssign};
use crate::arith::{p2, trunc_div, trunc_rem};
use crate::integer::{Int, UnsignedInt, IntAtLeastAsWide, fits};
use crate::pow2::{Pow2, UnboundedPow2};
use crate::ops;

verus! {

impl Div<UnboundedPow2> for u8 {
    type Output = u8;

    fn div(self, other: UnboundedPow2) -> (r: u8) {
        let r = ops::trunc_div_by(self, other.exponent() as u32);
        proof {
            u8::lemma_val(r);
        }
        r
    }
}

impl DivSpecImpl<UnboundedPow2> for u8 {
    open spec fn obeys_div_spec() -> bool {
        true
    }

    open spec fn div_req(self, rhs: UnboundedPow2) -> bool {
        rhs.exp() < u8::width()
    }

    open spec fn div_spec(self, rhs: UnboundedPow2) -> u8 {
        u8::from_val(trunc_div(self.val(), rhs.exp()))
    }
}

impl DivAssign<UnboundedPow2> for u8 {
    fn div_assign(&mut self, other: UnboundedPow2)
        requires
            other.exp() < u8::width(),
        ensures
            final(self).val() == trunc_div(old(self).val(), other.exp()),
    {
        *self = ops::trunc_div_by(*self, other.exponent() as u32);
    }
}

impl Rem<UnboundedPow2> for u8 {
    type Output = u8;

    fn rem(self, other: UnboundedPow2) -> (r: u8) {
        let r = ops::trunc_rem_by(self, other.exponent() as u32);
        proof {
            u8::lemma_val(r);
        }
        r
    }
}

impl RemSpecImpl<UnboundedPow2> for u8 {
    open spec fn obeys_rem_spec() -> bool {
        true
    }

    open spec fn rem_req(self, rhs: UnboundedPow2) -> bool {
        rhs.exp() < u8::width()
    }

    open spec fn rem_spec(self, rhs: UnboundedPow2) -> u8 {
        u8::from_val(trunc_rem(self.val(), rhs.exp()))
    }
}

impl RemAssign<UnboundedPow2> for u8 {
    fn rem_assign(&mut self, other: UnboundedPow2)
        requires
            other.exp() < u8::width(),
        ensures
            final(self).val() == trunc_rem(old(self).val(), other.exp()),
    {
        *self = ops::trunc_rem_by(*self, other.exponent() as u32);
    }
}

impl Mul<UnboundedPow2> for u8 {
    type Output = u8;

    fn mul(self, other: UnboundedPow2) -> (r: u8) {
        let r = ops::mul_by(self, other.exponent() as u32);
        proof {
            u8::lemma_val(r);
        }
        r
    }
}

impl MulSpecImpl<UnboundedPow2> for u8 {
    open spec fn obeys_mul_spec() -> bool {
        true
    }

    open spec fn mul_req(self, rhs: UnboundedPow2) -> bool {
        rhs.exp() < u8::width() && fits::<u8>(self.val() * p2(rhs.exp()))
    }

    open spec fn mul_spec(self, rhs: UnboundedPow2) -> u8 {
        u8::from_val(self.val() * p2(rhs.exp()))
    }
}

impl MulAssign<UnboundedPow2> for u8 {
    fn mul_assign(&mut self, other: UnboundedPow2)
        requires
            other.exp() < u8::width(),
            fits::<u8>(old(self).val() * p2(other.exp())),
        ensures
            final(self).val() == old(self).val() * p2(other.exp()),
    {
        *self = ops::mul_by(*self, other.exponent() as u32);
    }
}

impl<T: UnsignedInt> Div<Pow2<T>> for u8
where
    u8: IntAtLeastAsWide<T>,
{
    type Output = u8;

    fn div(self, other: Pow2<T>) -> (r: u8) {
        proof {
            <u8 as IntAtLeastAsWide<T>>::lemma_at_least_as_wide();
        }
        let r = ops::trunc_div_by(self, other.exponent() as u32);
        proof {
            u8::lemma_val(r);
        }
        r
    }
}

impl<T: UnsignedInt> DivSpecImpl<Pow2<T>> for u8
where
    u8: IntAtLeastAsWide<T>,
{
    open spec fn obeys_div_spec() -> bool {
        true
    }

    open spec fn div_req(self, rhs: Pow2<T>) -> bool {
        true
    }

    open spec fn div_spec(self, rhs: Pow2<T>) -> u8 {
        u8::from_val(trunc_div(self.val(), rhs.exp()))
    }
}

impl<T: UnsignedInt> DivAssign<Pow2<T>> for u8
where
    u8: IntAtLeastAsWide<T>,
{
    fn div_assign(&mut self, other: Pow2<T>)
        ensures
            final(self).val() == trunc_div(old(self).val(), other.exp()),
    {
        proof {
            <u8 as IntAtLeastAsWide<T>>::lemma_at_least_as_wide();
        }
        *self = ops::trunc_div_by(*self, other.exponent() as u32);
    }
}

impl<T: UnsignedInt> Rem<Pow2<T>> for u8
where
    u8: IntAtLeastAsWide<T>,
{
    type Output = u8;

    fn rem(self, other: Pow2<T>) -> (r: u8) {
        proof {
            <u8 as IntAtLeastAsWide<T>>::lemma_at_least_as_wide();
        }
        let r = ops::trunc_rem_by(self, other.exponent() as u32);
        proof {
            u8::lemma_val(r);
        }
        r
    }
}

impl<T: UnsignedInt> RemSpecImpl<Pow2<T>> for u8
where
    u8: IntAtLeastAsWide<T>,
{
    open spec fn obeys_rem_spec() -> bool {
        true
    }

    open spec fn rem_req(self, rhs: Pow2<T>) -> bool {
        true
    }

    open spec fn rem_spec(self, rhs: Pow2<T>) -> u8 {
        u8::from_val(trunc_rem(self.val(), rhs.exp()))
    }
}

impl<T: UnsignedInt> RemAssign<Pow2<T>> for u8
where
    u8: IntAtLeastAsWide<T>,
{
    fn rem_assign(&mut self, other: Pow2<T>)
        ensures
            final(self).val() == trunc_rem(old(self).val(), other.exp()),
    {
        proof {
            <u8 as IntAtLeastAsWide<T>>::lemma_at_least_as_wide();
        }
        *self = ops::trunc_rem_by(*self, other.exponent() as u32);
    }
}

impl<T: UnsignedInt> Mul<Pow2<T>> for u8
where
    u8: IntAtLeastAsWide<T>,
{
    type Output = u8;

    fn mul(self, other: Pow2<T>) -> (r: u8) {
        proof {
            <u8 as IntAtLeastAsWide<T>>::lemma_at_least_as_wide();
        }
        let r = ops::mul_by(self, other.exponent() as u32);
        proof {
            u8::lemma_val(r);
        }
        r
    }
}

impl<T: UnsignedInt> MulSpecImpl<Pow2<T>> for u8
where
    u8: IntAtLeastAsWide<T>,
{
    open spec fn obeys_mul_spec() -> bool {
        true
    }

    open spec fn mul_req(self, rhs: Pow2<T>) -> bool {
        fits::<u8>(self.val() * p2(rhs.exp()))
    }

    open spec fn mul_spec(self, rhs: Pow2<T>) -> u8 {
        u8::from_val(self.val() * p2(rhs.exp()))
    }
}

impl<T: UnsignedInt> MulAssign<Pow2<T>> for u8
where
    u8: IntAtLeastAsWide<T>,
{
    fn mul_assign(&mut self, other: Pow2<T>)
        requires
            fits::<u8>(old(self).val() * p2(other.exp())),
        ensures
            final(self).val() == old(self).val() * p2(other.exp()),
    {
        proof {
            <u8 as IntAtLeastAsWide<T>>::lemma_at_least_as_wide();
        }
        *self = ops::mul_by(*self, other.exponent() as u32);
    }
}

impl Div<UnboundedPow2> for u16 {
    type Output = u16;

    fn div(self, other: UnboundedPow2) -> (r: u16) {
        let r = ops::trunc_div_by(self, other.exponent() as u32);
        proof {
            u16::lemma_val(r);
        }
        r
    }
}

impl DivSpecImpl<UnboundedPow2> for u16 {
    open spec fn obeys_div_spec() -> bool {
        true
    }

    open spec fn div_req(self, rhs: UnboundedPow2) -> bool {
        rhs.exp() < u16::width()
    }

    open spec fn div_spec(self, rhs: UnboundedPow2) -> u16 {
        u16::from_val(trunc_div(self.val(), rhs.exp()))
    }
}

impl DivAssign<UnboundedPow2> for u16 {
    fn div_assign(&mut self, other: UnboundedPow2)
        requires
            other.exp() < u16::width(),
        ensures
            final(self).val() == trunc_div(old(self).val(), other.exp()),
    {
        *self = ops::trunc_div_by(*self, other.exponent() as u32);
    }
}

impl Rem<UnboundedPow2> for u16 {
    type Output = u16;

    fn rem(self, other: UnboundedPow2) -> (r: u16) {
        let r = ops::trunc_rem_by(self, other.exponent() as u32);
        proof {
            u16::lemma_val(r);
        }
        r
    }
}

impl RemSpecImpl<UnboundedPow2> for u16 {
    open spec fn obeys_rem_spec() -> bool {
        true
    }

    open spec fn rem_req(self, rhs: UnboundedPow2) -> bool {
        rhs.exp() < u16::width()
    }

    open spec fn rem_spec(self, rhs: UnboundedPow2) -> u16 {
        u16::from_val(trunc_rem(self.val(), rhs.exp()))
    }
}

impl RemAssign<UnboundedPow2> for u16 {
    fn rem_assign(&mut self, other: UnboundedPow2)
        requires
            other.exp() < u16::width(),
        ensures
            final(self).val() == trunc_rem(old(self).val(), other.exp()),
    {
        *self = ops::trunc_rem_by(*self, other.exponent() as u32);
    }
}

impl Mul<UnboundedPow2> for u16 {
    type Output = u16;

    fn mul(self, other: UnboundedPow2) -> (r: u16) {
        let r = ops::mul_by(self, other.exponent() as u32);
        proof {
            u16::lemma_val(r);
        }
        r
    }
}

impl MulSpecImpl<UnboundedPow2> for u16 {
    open spec fn obeys_mul_spec() -> bool {
        true
    }

    open spec fn mul_req(self, rhs: UnboundedPow2) -> bool {
        rhs.exp() < u16::width() && fits::<u16>(self.val() * p2(rhs.exp()))
    }

    open spec fn mul_spec(self, rhs: UnboundedPow2) -> u16 {
        u16::from_val(self.val() * p2(rhs.exp()))
    }
}

impl MulAssign<UnboundedPow2> for u16 {
    fn mul_assign(&mut self, other: UnboundedPow2)
        requires
            other.exp() < u16::width(),
            fits::<u16>(old(self).val() * p2(other.exp())),
        ensures
            final(self).val() == old(self).val() * p2(other.exp()),
    {
        *self = ops::mul_by(*self, other.exponent() as u32);
    }
}

impl<T: UnsignedInt> Div<Pow2<T>> for u16
where
    u16: IntAtLeastAsWide<T>,
{
    type Output = u16;

    fn div(self, other: Pow2<T>) -> (r: u16) {
        proof {
            <u16 as IntAtLeastAsWide<T>>::lemma_at_least_as_wide();
        }
        let r = ops::trunc_div_by(self, other.exponent() as u32);
        proof {
            u16::lemma_val(r);
        }
        r
    }
}

impl<T: UnsignedInt> DivSpecImpl<Pow2<T>> for u16
where
    u16: IntAtLeastAsWide<T>,
{
    open spec fn obeys_div_spec() -> bool {
        true
    }

    open spec fn div_req(self, rhs: Pow2<T>) -> bool {
        true
    }

    open spec fn div_spec(self, rhs: Pow2<T>) -> u16 {
        u16::from_val(trunc_div(self.val(), rhs.exp()))
    }
}

impl<T: UnsignedInt> DivAssign<Pow2<T>> for u16
where
    u16: IntAtLeastAsWide<T>,
{
    fn div_assign(&mut self, other: Pow2<T>)
        ensures
            final(self).val() == trunc_div(old(self).val(), other.exp()),
    {
        proof {
            <u16 as IntAtLeastAsWide<T>>::lemma_at_least_as_wide();
        }
        *self = ops::trunc_div_by(*self, other.exponent() as u32);
    }
}

impl<T: UnsignedInt> Rem<Pow2<T>> for u16
where
    u16: IntAtLeastAsWide<T>,
{
    type Output = u16;

    fn rem(self, other: Pow2<T>) -> (r: u16) {
        proof {
            <u16 as IntAtLeastAsWide<T>>::lemma_at_least_as_wide();
        }
        let r = ops::trunc_rem_by(self, other.exponent() as u32);
        proof {
            u16::lemma_val(r);
        }
        r
    }
}

impl<T: UnsignedInt> RemSpecImpl<Pow2<T>> for u16
where
    u16: IntAtLeastAsWide<T>,
{
    open spec fn obeys_rem_spec() -> bool {
        true
    }

    open spec fn rem_req(self, rhs: Pow2<T>) -> bool {
        true
    }

    open spec fn rem_spec(self, rhs: Pow2<T>) -> u16 {
        u16::from_val(trunc_rem(self.val(), rhs.exp()))
    }
}

impl<T: UnsignedInt> RemAssign<Pow2<T>> for u16
where
    u16: IntAtLeastAsWide<T>,
{
    fn rem_assign(&mut self, other: Pow2<T>)
        ensures
            final(self).val() == trunc_rem(old(self).val(), other.exp()),
    {
        proof {
            <u16 as IntAtLeastAsWide<T>>::lemma_at_least_as_wide();
        }
        *self = ops::trunc_rem_by(*self, other.exponent() as u32);
    }
}

impl<T: UnsignedInt> Mul<Pow2<T>> for u16
where
    u16: IntAtLeastAsWide<T>,
{
    type Output = u16;

    fn mul(self, other: Pow2<T>) -> (r: u16) {
        proof {
            <u16 as IntAtLeastAsWide<T>>::lemma_at_least_as_wide();
        }
        let r = ops::mul_by(self, other.exponent() as u32);
        proof {
            u16::lemma_val(r);
        }
        r
    }
}

impl<T: UnsignedInt> MulSpecImpl<Pow2<T>> for u16
where
    u16: IntAtLeastAsWide<T>,
{
    open spec fn obeys_mul_spec() -> bool {
        true
    }

    open spec fn mul_req(self, rhs: Pow2<T>) -> bool {
        fits::<u16>(self.val() * p2(rhs.exp()))
    }

    open spec fn mul_spec(self, rhs: Pow2<T>) -> u16 {
        u16::from_val(self.val() * p2(rhs.exp()))
    }
}

impl<T: UnsignedInt> MulAssign<Pow2<T>> for u16
where
    u16: IntAtLeastAsWide<T>,
{
    fn mul_assign(&mut self, other: Pow2<T>)
        requires
            fits::<u16>(old(self).val() * p2(other.exp())),
        ensures
            final(self).val() == old(self).val() * p2(other.exp()),
    {
        proof {
            <u16 as IntAtLeastAsWide<T>>::lemma_at_least_as_wide();
        }
        *self = ops::mul_by(*self, other.exponent() as u32);
    }
}

impl Div<UnboundedPow2> for u32 {
    type Output = u32;

    fn div(self, other: UnboundedPow2) -> (r: u32) {
        let r = ops::trunc_div_by(self, other.exponent() as u32);
        proof {
            u32::lemma_val(r);
        }
        r
    }
}

impl DivSpecImpl<UnboundedPow2> for u32 {
    open spec fn obeys_div_spec() -> bool {
        true
    }

    open spec fn div_req(self, rhs: UnboundedPow2) -> bool {
        rhs.exp() < u32::width()
    }

    open spec fn div_spec(self, rhs: UnboundedPow2) -> u32 {
        u32::from_val(trunc_div(self.val(), rhs.exp()))
    }
}

impl DivAssign<UnboundedPow2> for u32 {
    fn div_assign(&mut self, other: UnboundedPow2)
        requires
            other.exp() < u32::width(),
        ensures
            final(self).val() == trunc_div(old(self).val(), other.exp()),
    {
        *self = ops::trunc_div_by(*self, other.exponent() as u32);
    }
}

impl Rem<UnboundedPow2> for u32 {
    type Output = u32;

    fn rem(self, other: UnboundedPow2) -> (r: u32) {
        let r = ops::trunc_rem_by(self, other.exponent() as u32);
        proof {
            u32::lemma_val(r);
        }
        r
    }
}

impl RemSpecImpl<UnboundedPow2> for u32 {
    open spec fn obeys_rem_spec() -> bool {
        true
    }

    open spec fn rem_req(self, rhs: UnboundedPow2) -> bool {
        rhs.exp() < u32::width()
    }

    open spec fn rem_spec(self, rhs: UnboundedPow2) -> u32 {
        u32::from_val(trunc_rem(self.val(), rhs.exp()))
    }
}

impl RemAssign<UnboundedPow2> for u32 {
    fn rem_assign(&mut self, other: UnboundedPow2)
        requires
            other.exp() < u32::width(),
        ensures
            final(self).val() == trunc_rem(old(self).val(), other.exp()),
    {
        *self = ops::trunc_rem_by(*self, other.exponent() as u32);
    }
}

impl Mul<UnboundedPow2> for u32 {
    type Output = u32;

    fn mul(self, other: UnboundedPow2) -> (r: u32) {
        let r = ops::mul_by(self, other.exponent() as u32);
        proof {
            u32::lemma_val(r);
        }
        r
    }
}

impl MulSpecImpl<UnboundedPow2> for u32 {
    open spec fn obeys_mul_spec() -> bool {
        true
    }

    open spec fn mul_req(self, rhs: UnboundedPow2) -> bool {
        rhs.exp() < u32::width() && fits::<u32>(self.val() * p2(rhs.exp()))
    }

    open spec fn mul_spec(self, rhs: UnboundedPow2) -> u32 {
        u32::from_val(self.val() * p2(rhs.exp()))
    }
}

impl MulAssign<UnboundedPow2> for u32 {
    fn mul_assign(&mut self, other: UnboundedPow2)
        requires
            other.exp() < u32::width(),
            fits::<u32>(old(self).val() * p2(other.exp())),
        ensures
            final(self).val() == old(self).val() * p2(other.exp()),
    {
        *self = ops::mul_by(*self, other.exponent() as u32);
    }
}

impl<T: UnsignedInt> Div<Pow2<T>> for u32
where
    u32: IntAtLeastAsWide<T>,
{
    type Output = u32;

    fn div(self, other: Pow2<T>) -> (r: u32) {
        proof {
            <u32 as IntAtLeastAsWide<T>>::lemma_at_least_as_wide();
        }
        let r = ops::trunc_div_by(self, other.exponent() as u32);
        proof {
            u32::lemma_val(r);
        }
        r
    }
}

impl<T: UnsignedInt> DivSpecImpl<Pow2<T>> for u32
where
    u32: IntAtLeastAsWide<T>,
{
    open spec fn obeys_div_spec() -> bool {
        true
    }

    open spec fn div_req(self, rhs: Pow2<T>) -> bool {
        true
    }

    open spec fn div_spec(self, rhs: Pow2<T>) -> u32 {
        u32::from_val(trunc_div(self.val(), rhs.exp()))
    }
}

impl<T: UnsignedInt> DivAssign<Pow2<T>> for u32
where
    u32: IntAtLeastAsWide<T>,
{
    fn div_assign(&mut self, other: Pow2<T>)
        ensures
            final(self).val() == trunc_div(old(self).val(), other.exp()),
    {
        proof {
            <u32 as IntAtLeastAsWide<T>>::lemma_at_least_as_wide();
        }
        *self = ops::trunc_div_by(*self, other.exponent() as u32);
    }
}

impl<T: UnsignedInt> Rem<Pow2<T>> for u32
where
    u32: IntAtLeastAsWide<T>,
{
    type Output = u32;

    fn rem(self, other: Pow2<T>) -> (r: u32) {
        proof {
            <u32 as IntAtLeastAsWide<T>>::lemma_at_least_as_wide();
        }
        let r = ops::trunc_rem_by(self, other.exponent() as u32);
        proof {
            u32::lemma_val(r);
        }
        r
    }
}

impl<T: UnsignedInt> RemSpecImpl<Pow2<T>> for u32
where
    u32: IntAtLeastAsWide<T>,
{
    open spec fn obeys_rem_spec() -> bool {
        true
    }

    open spec fn rem_req(self, rhs: Pow2<T>) -> bool {
        true
    }

    open spec fn rem_spec(self, rhs: Pow2<T>) -> u32 {
        u32::from_val(trunc_rem(self.val(), rhs.exp()))
    }
}

impl<T: UnsignedInt> RemAssign<Pow2<T>> for u32
where
    u32: IntAtLeastAsWide<T>,
{
    fn rem_assign(&mut self, other: Pow2<T>)
        ensures
            final(self).val() == trunc_rem(old(self).val(), other.exp()),
    {
        proof {
            <u32 as IntAtLeastAsWide<T>>::lemma_at_least_as_wide();
        }
        *self = ops::trunc_rem_by(*self, other.exponent() as u32);
    }
}

impl<T: UnsignedInt> Mul<Pow2<T>> for u32
where
    u32: IntAtLeastAsWide<T>,
{
    type Output = u32;

    fn mul(self, other: Pow2<T>) -> (r: u32) {
        proof {
            <u32 as IntAtLeastAsWide<T>>::lemma_at_least_as_wide();
        }
        let r = ops::mul_by(self, other.exponent() as u32);
        proof {
            u32::lemma_val(r);
        }
        r
    }
}

impl<T: UnsignedInt> MulSpecImpl<Pow2<T>> for u32
where
    u32: IntAtLeastAsWide<T>,
{
    open spec fn obeys_mul_spec() -> bool {
        true
    }

    open spec fn mul_req(self, rhs: Pow2<T>) -> bool {
        fits::<u32>(self.val() * p2(rhs.exp()))
    }

    open spec fn mul_spec(self, rhs: Pow2<T>) -> u32 {
        u32::from_val(self.val() * p2(rhs.exp()))
    }
}

impl<T: UnsignedInt> MulAssign<Pow2<T>> for u32
where
    u32: IntAtLeastAsWide<T>,
{
    fn mul_assign(&mut self, other: Pow2<T>)
        requires
            fits::<u32>(old(self).val() * p2(other.exp())),
        ensures
            final(self).val() == old(self).val() * p2(other.exp()),
    {
        proof {
            <u32 as IntAtLeastAsWide<T>>::lemma_at_least_as_wide();
        }
        *self = ops::mul_by(*self, other.exponent() as u32);
    }
}

impl Div<UnboundedPow2> for u64 {
    type Output = u64;

    fn div(self, other: UnboundedPow2) -> (r: u64) {
        let r = ops::trunc_div_by(self, other.exponent() as u32);
        proof {
            u64::lemma_val(r);
        }
        r
    }
}

impl DivSpecImpl<UnboundedPow2> for u64 {
    open spec fn obeys_div_spec() -> bool {
        true
    }

    open spec fn div_req(self, rhs: UnboundedPow2) -> bool {
        rhs.exp() < u64::width()
    }

    open spec fn div_spec(self, rhs: UnboundedPow2) -> u64 {
        u64::from_val(trunc_div(self.val(), rhs.exp()))
    }
}

impl DivAssign<UnboundedPow2> for u64 {
    fn div_assign(&mut self, other: UnboundedPow2)
        requires
            other.exp() < u64::width(),
        ensures
            final(self).val() == trunc_div(old(self).val(), other.exp()),
    {
        *self = ops::trunc_div_by(*self, other.exponent() as u32);
    }
}

impl Rem<UnboundedPow2> for u64 {
    type Output = u64;

    fn rem(self, other: UnboundedPow2) -> (r: u64) {
        let r = ops::trunc_rem_by(self, other.exponent() as u32);
        proof {
            u64::lemma_val(r);
        }
        r
    }
}

impl RemSpecImpl<UnboundedPow2> for u64 {
    open spec fn obeys_rem_spec() -> bool {
        true
    }

    open spec fn rem_req(self, rhs: UnboundedPow2) -> bool {
        rhs.exp() < u64::width()
    }

    open spec fn rem_spec(self, rhs: UnboundedPow2) -> u64 {
        u64::from_val(trunc_rem(self.val(), rhs.exp()))
    }
}

impl RemAssign<UnboundedPow2> for u64 {
    fn rem_assign(&mut self, other: UnboundedPow2)
        requires
            other.exp() < u64::width(),
        ensures
            final(self).val() == trunc_rem(old(self).val(), other.exp()),
    {
        *self = ops::trunc_rem_by(*self, other.exponent() as u32);
    }
}

impl Mul<UnboundedPow2> for u64 {
    type Output = u64;

    fn mul(self, other: UnboundedPow2) -> (r: u64) {
        let r = ops::mul_by(self, other.exponent() as u32);
        proof {
            u64::lemma_val(r);
        }
        r
    }
}

impl MulSpecImpl<UnboundedPow2> for u64 {
    open spec fn obeys_mul_spec() -> bool {
        true
    }

    open spec fn mul_req(self, rhs: UnboundedPow2) -> bool {
        rhs.exp() < u64::width() && fits::<u64>(self.val() * p2(rhs.exp()))
    }

    open spec fn mul_spec(self, rhs: UnboundedPow2) -> u64 {
        u64::from_val(self.val() * p2(rhs.exp()))
    }
}

impl MulAssign<UnboundedPow2> for u64 {
    fn mul_assign(&mut self, other: UnboundedPow2)
        requires
            other.exp() < u64::width(),
            fits::<u64>(old(self).val() * p2(other.exp())),
        ensures
            final(self).val() == old(self).val() * p2(other.exp()),
    {
        *self = ops::mul_by(*self, other.exponent() as u32);
    }
}

impl<T: UnsignedInt> Div<Pow2<T>> for u64
where
    u64: IntAtLeastAsWide<T>,
{
    type Output = u64;

    fn div(self, other: Pow2<T>) -> (r: u64) {
        proof {
            <u64 as IntAtLeastAsWide<T>>::lemma_at_least_as_wide();
        }
        let r = ops::trunc_div_by(self, other.exponent() as u32);
        proof {
            u64::lemma_val(r);
        }
        r
    }
}

impl<T: UnsignedInt> DivSpecImpl<Pow2<T>> for u64
where
    u64: IntAtLeastAsWide<T>,
{
    open spec fn obeys_div_spec() -> bool {
        true
    }

    open spec fn div_req(self, rhs: Pow2<T>) -> bool {
        true
    }

    open spec fn div_spec(self, rhs: Pow2<T>) -> u64 {
        u64::from_val(trunc_div(self.val(), rhs.exp()))
    }
}

impl<T: UnsignedInt> DivAssign<Pow2<T>> for u64
where
    u64: IntAtLeastAsWide<T>,
{
    fn div_assign(&mut self, other: Pow2<T>)
        ensures
            final(self).val() == trunc_div(old(self).val(), other.exp()),
    {
        proof {
            <u64 as IntAtLeastAsWide<T>>::lemma_at_least_as_wide();
        }
        *self = ops::trunc_div_by(*self, other.exponent() as u32);
    }
}

impl<T: UnsignedInt> Rem<Pow2<T>> for u64
where
    u64: IntAtLeastAsWide<T>,
{
    type Output = u64;

    fn rem(self, other: Pow2<T>) -> (r: u64) {
        proof {
            <u64 as IntAtLeastAsWide<T>>::lemma_at_least_as_wide();
        }
        let r = ops::trunc_rem_by(self, other.exponent() as u32);
        proof {
            u64::lemma_val(r);
        }
        r
    }
}

impl<T: UnsignedInt> RemSpecImpl<Pow2<T>> for u64
where
    u64: IntAtLeastAsWide<T>,
{
    open spec fn obeys_rem_spec() -> bool {
        true
    }

    open spec fn rem_req(self, rhs: Pow2<T>) -> bool {
        true
    }

    open spec fn rem_spec(self, rhs: Pow2<T>) -> u64 {
        u64::from_val(trunc_rem(self.val(), rhs.exp()))
    }
}

impl<T: UnsignedInt> RemAssign<Pow2<T>> for u64
where
    u64: IntAtLeastAsWide<T>,
{
    fn rem_assign(&mut self, other: Pow2<T>)
        ensures
            final(self).val() == trunc_rem(old(self).val(), other.exp()),
    {
        proof {
            <u64 as IntAtLeastAsWide<T>>::lemma_at_least_as_wide();
        }
        *self = ops::trunc_rem_by(*self, other.exponent() as u32);
    }
}

impl<T: UnsignedInt> Mul<Pow2<T>> for u64
where
    u64: IntAtLeastAsWide<T>,
{
    type Output = u64;

    fn mul(self, other: Pow2<T>) -> (r: u64) {
        proof {
            <u64 as IntAtLeastAsWide<T>>::lemma_at_least_as_wide();
        }
        let r = ops::mul_by(self, other.exponent() as u32);
        proof {
            u64::lemma_val(r);
        }
        r
    }
}

impl<T: UnsignedInt> MulSpecImpl<Pow2<T>> for u64
where
    u64: IntAtLeastAsWide<T>,
{
    open spec fn obeys_mul_spec() -> bool {
        true
    }

    open spec fn mul_req(self, rhs: Pow2<T>) -> bool {
        fits::<u64>(self.val() * p2(rhs.exp()))
    }

    open spec fn mul_spec(self, rhs: Pow2<T>) -> u64 {
        u64::from_val(self.val() * p2(rhs.exp()))
    }
}

impl<T: UnsignedInt> MulAssign<Pow2<T>> for u64
where
    u64: IntAtLeastAsWide<T>,
{
    fn mul_assign(&mut self, other: Pow2<T>)
        requires
            fits::<u64>(old(self).val() * p2(other.exp())),
        ensures
            final(self).val() == old(self).val() * p2(other.exp()),
    {
        proof {
            <u64 as IntAtLeastAsWide<T>>::lemma_at_least_as_wide();
        }
        *self = ops::mul_by(*self, other.exponent() as u32);
    }
}

impl Div<UnboundedPow2> for u128 {
    type Output = u128;

    fn div(self, other: UnboundedPow2) -> (r: u128) {
        let r = ops::trunc_div_by(self, other.exponent() as u32);
        proof {
            u128::lemma_val(r);
        }
        r
    }
}

impl DivSpecImpl<UnboundedPow2> for u128 {
    open spec fn obeys_div_spec() -> bool {
        true
    }

    open spec fn div_req(self, rhs: UnboundedPow2) -> bool {
        rhs.exp() < u128::width()
    }

    open spec fn div_spec(self, rhs: UnboundedPow2) -> u128 {
        u128::from_val(trunc_div(self.val(), rhs.exp()))
    }
}

impl DivAssign<UnboundedPow2> for u128 {
    fn div_assign(&mut self, other: UnboundedPow2)
        requires
            other.exp() < u128::width(),
        ensures
            final(self).val() == trunc_div(old(self).val(), other.exp()),
    {
        *self = ops::trunc_div_by(*self, other.exponent() as u32);
    }
}

impl Rem<UnboundedPow2> for u128 {
    type Output = u128;

    fn rem(self, other: UnboundedPow2) -> (r: u128) {
        let r = ops::trunc_rem_by(self, other.exponent() as u32);
        proof {
            u128::lemma_val(r);
        }
        r
    }
}

impl RemSpecImpl<UnboundedPow2> for u128 {
    open spec fn obeys_rem_spec() -> bool {
        true
    }

    open spec fn rem_req(self, rhs: UnboundedPow2) -> bool {
        rhs.exp() < u128::width()
    }

    open spec fn rem_spec(self, rhs: UnboundedPow2) -> u128 {
        u128::from_val(trunc_rem(self.val(), rhs.exp()))
    }
}

impl RemAssign<UnboundedPow2> for u128 {
    fn rem_assign(&mut self, other: UnboundedPow2)
        requires
            other.exp() < u128::width(),
        ensures
            final(self).val() == trunc_rem(old(self).val(), other.exp()),
    {
        *self = ops::trunc_rem_by(*self, other.exponent() as u32);
    }
}

impl Mul<UnboundedPow2> for u128 {
    type Output = u128;

    fn mul(self, other: UnboundedPow2) -> (r: u128) {
        let r = ops::mul_by(self, other.exponent() as u32);
        proof {
            u128::lemma_val(r);
        }
        r
    }
}

impl MulSpecImpl<UnboundedPow2> for u128 {
    open spec fn obeys_mul_spec() -> bool {
        true
    }

    open spec fn mul_req(self, rhs: UnboundedPow2) -> bool {
        rhs.exp() < u128::width() && fits::<u128>(self.val() * p2(rhs.exp()))
    }

    open spec fn mul_spec(self, rhs: UnboundedPow2) -> u128 {
        u128::from_val(self.val() * p2(rhs.exp()))
    }
}

impl MulAssign<UnboundedPow2> for u128 {
    fn mul_assign(&mut self, other: UnboundedPow2)
        requires
            other.exp() < u128::width(),
            fits::<u128>(old(self).val() * p2(other.exp())),
        ensures
            final(self).val() == old(self).val() * p2(other.exp()),
    {
        *self = ops::mul_by(*self, other.exponent() as u32);
    }
}

impl<T: UnsignedInt> Div<Pow2<T>> for u128
where
    u128: IntAtLeastAsWide<T>,
{
    type Output = u128;

    fn div(self, other: Pow2<T>) -> (r: u128) {
        proof {
            <u128 as IntAtLeastAsWide<T>>::lemma_at_least_as_wide();
        }
        let r = ops::trunc_div_by(self, other.exponent() as u32);
        proof {
            u128::lemma_val(r);
        }
        r
    }
}

impl<T: UnsignedInt> DivSpecImpl<Pow2<T>> for u128
where
    u128: IntAtLeastAsWide<T>,
{
    open spec fn obeys_div_spec() -> bool {
        true
    }

    open spec fn div_req(self, rhs: Pow2<T>) -> bool {
        true
    }

    open spec fn div_spec(self, rhs: Pow2<T>) -> u128 {
        u128::from_val(trunc_div(self.val(), rhs.exp()))
    }
}

impl<T: UnsignedInt> DivAssign<Pow2<T>> for u128
where
    u128: IntAtLeastAsWide<T>,
{
    fn div_assign(&mut self, other: Pow2<T>)
        ensures
            final(self).val() == trunc_div(old(self).val(), other.exp()),
    {
        proof {
            <u128 as IntAtLeastAsWide<T>>::lemma_at_least_as_wide();
        }
        *self = ops::trunc_div_by(*self, other.exponent() as u32);
    }
}

impl<T: UnsignedInt> Rem<Pow2<T>> for u128
where
    u128: IntAtLeastAsWide<T>,
{
    type Output = u128;

    fn rem(self, other: Pow2<T>) -> (r: u128) {
        proof {
            <u128 as IntAtLeastAsWide<T>>::lemma_at_least_as_wide();
        }
        let r = ops::trunc_rem_by(self, other.exponent() as u32);
        proof {
            u128::lemma_val(r);
        }
        r
    }
}

impl<T: UnsignedInt> RemSpecImpl<Pow2<T>> for u128
where
    u128: IntAtLeastAsWide<T>,
{
    open spec fn obeys_rem_spec() -> bool {
        true
    }

    open spec fn rem_req(self, rhs: Pow2<T>) -> bool {
        true
    }

    open spec fn rem_spec(self, rhs: Pow2<T>) -> u128 {
        u128::from_val(trunc_rem(self.val(), rhs.exp()))
    }
}

impl<T: UnsignedInt> RemAssign<Pow2<T>> for u128
where
    u128: IntAtLeastAsWide<T>,
{
    fn rem_assign(&mut self, other: Pow2<T>)
        ensures
            final(self).val() == trunc_rem(old(self).val(), other.exp()),
    {
        proof {
            <u128 as IntAtLeastAsWide<T>>::lemma_at_least_as_wide();
        }
        *self = ops::trunc_rem_by(*self, other.exponent() as u32);
    }
}

impl<T: UnsignedInt> Mul<Pow2<T>> for u128
where
    u128: IntAtLeastAsWide<T>,
{
    type Output = u128;

    fn mul(self, other: Pow2<T>) -> (r: u128) {
        proof {
            <u128 as IntAtLeastAsWide<T>>::lemma_at_least_as_wide();
        }
        let r = ops::mul_by(self, other.exponent() as u32);
        proof {
            u128::lemma_val(r);
        }
        r
    }
}

impl<T: UnsignedInt> MulSpecImpl<Pow2<T>> for u128
where
    u128: IntAtLeastAsWide<T>,
{
    open spec fn obeys_mul_spec() -> bool {
        true
    }

    open spec fn mul_req(self, rhs: Pow2<T>) -> bool {
        fits::<u128>(self.val() * p2(rhs.exp()))
    }

    open spec fn mul_spec(self, rhs: Pow2<T>) -> u128 {
        u128::from_val(self.val() * p2(rhs.exp()))
    }
}

impl<T: UnsignedInt> MulAssign<Pow2<T>> for u128
where
    u128: IntAtLeastAsWide<T>,
{
    fn mul_assign(&mut self, other: Pow2<T>)
        requires
            fits::<u128>(old(self).val() * p2(other.exp())),
        ensures
            final(self).val() == old(self).val() * p2(other.exp()),
    {
        proof {
            <u128 as IntAtLeastAsWide<T>>::lemma_at_least_as_wide();
        }
        *self = ops::mul_by(*self, other.exponent() as u32);
    }
}

impl Div<UnboundedPow2> for usize {
    type Output = usize;

    fn div(self, other: UnboundedPow2) -> (r: usize) {
        let r = ops::trunc_div_by(self, other.exponent() as u32);
        proof {
            usize::lemma_val(r);
        }
        r
    }
}

impl DivSpecImpl<UnboundedPow2> for usize {
    open spec fn obeys_div_spec() -> bool {
        true
    }

    open spec fn div_req(self, rhs: UnboundedPow2) -> bool {
        rhs.exp() < usize::width()
    }

    open spec fn div_spec(self, rhs: UnboundedPow2) -> usize {
        usize::from_val(trunc_div(self.val(), rhs.exp()))
    }
}

impl DivAssign<UnboundedPow2> for usize {
    fn div_assign(&mut self, other: UnboundedPow2)
        requires
            other.exp() < usize::width(),
        ensures
            final(self).val() == trunc_div(old(self).val(), other.exp()),
    {
        *self = ops::trunc_div_by(*self, other.exponent() as u32);
    }
}

impl Rem<UnboundedPow2> for usize {
    type Output = usize;

    fn rem(self, other: UnboundedPow2) -> (r: usize) {
        let r = ops::trunc_rem_by(self, other.exponent() as u32);
        proof {
            usize::lemma_val(r);
        }
        r
    }
}

impl RemSpecImpl<UnboundedPow2> for usize {
    open spec fn obeys_rem_spec() -> bool {
        true
    }

    open spec fn rem_req(self, rhs: UnboundedPow2) -> bool {
        rhs.exp() < usize::width()
    }

    open spec fn rem_spec(self, rhs: UnboundedPow2) -> usize {
        usize::from_val(trunc_rem(self.val(), rhs.exp()))
    }
}

impl RemAssign<UnboundedPow2> for usize {
    fn rem_assign(&mut self, other: UnboundedPow2)
        requires
            other.exp() < usize::width(),
        ensures
            final(self).val() == trunc_rem(old(self).val(), other.exp()),
    {
        *self = ops::trunc_rem_by(*self, other.exponent() as u32);
    }
}

impl Mul<UnboundedPow2> for usize {
    type Output = usize;

    fn mul(self, other: UnboundedPow2) -> (r: usize) {
        let r = ops::mul_by(self, other.exponent() as u32);
        proof {
            usize::lemma_val(r);
        }
        r
    }
}

impl MulSpecImpl<UnboundedPow2> for usize {
    open spec fn obeys_mul_spec() -> bool {
        true
    }

    open spec fn mul_req(self, rhs: UnboundedPow2) -> bool {
        rhs.exp() < usize::width() && fits::<usize>(self.val() * p2(rhs.exp()))
    }

    open spec fn mul_spec(self, rhs: UnboundedPow2) -> usize {
        usize::from_val(self.val() * p2(rhs.exp()))
    }
}

impl MulAssign<UnboundedPow2> for usize {
    fn mul_assign(&mut self, other: UnboundedPow2)
        requires
            other.exp() < usize::width(),
            fits::<usize>(old(self).val() * p2(other.exp())),
        ensures
            final(self).val() == old(self).val() * p2(other.exp()),
    {
        *self = ops::mul_by(*self, other.exponent() as u32);
    }
}

impl<T: UnsignedInt> Div<Pow2<T>> for usize
where
    usize: IntAtLeastAsWide<T>,
{
    type Output = usize;

    fn div(self, other: Pow2<T>) -> (r: usize) {
        proof {
            <usize as IntAtLeastAsWide<T>>::lemma_at_least_as_wide();
        }
        let r = ops::trunc_div_by(self, other.exponent() as u32);
        proof {
            usize::lemma_val(r);
        }
        r
    }
}

impl<T: UnsignedInt> DivSpecImpl<Pow2<T>> for usize
where
    usize: IntAtLeastAsWide<T>,
{
    open spec fn obeys_div_spec() -> bool {
        true
    }

    open spec fn div_req(self, rhs: Pow2<T>) -> bool {
        true
    }

    open spec fn div_spec(self, rhs: Pow2<T>) -> usize {
        usize::from_val(trunc_div(self.val(), rhs.exp()))
    }
}

impl<T: UnsignedInt> DivAssign<Pow2<T>> for usize
where
    usize: IntAtLeastAsWide<T>,
{
    fn div_assign(&mut self, other: Pow2<T>)
        ensures
            final(self).val() == trunc_div(old(self).val(), other.exp()),
    {
        proof {
            <usize as IntAtLeastAsWide<T>>::lemma_at_least_as_wide();
        }
        *self = ops::trunc_div_by(*self, other.exponent() as u32);
    }
}

impl<T: UnsignedInt> Rem<Pow2<T>> for usize
where
    usize: IntAtLeastAsWide<T>,
{
    type Output = usize;

    fn rem(self, other: Pow2<T>) -> (r: usize) {
        proof {
            <usize as IntAtLeastAsWide<T>>::lemma_at_least_as_wide();
        }
        let r = ops::trunc_rem_by(self, other.exponent() as u32);
        proof {
            usize::lemma_val(r);
        }
        r
    }
}

impl<T: UnsignedInt> RemSpecImpl<Pow2<T>> for usize
where
    usize: IntAtLeastAsWide<T>,
{
    open spec fn obeys_rem_spec() -> bool {
        true
    }

    open spec fn rem_req(self, rhs: Pow2<T>) -> bool {
        true
    }

    open spec fn rem_spec(self, rhs: Pow2<T>) -> usize {
        usize::from_val(trunc_rem(self.val(), rhs.exp()))
    }
}

impl<T: UnsignedInt> RemAssign<Pow2<T>> for usize
where
    usize: IntAtLeastAsWide<T>,
{
    fn rem_assign(&mut self, other: Pow2<T>)
        ensures
            final(self).val() == trunc_rem(old(self).val(), other.exp()),
    {
        proof {
            <usize as IntAtLeastAsWide<T>>::lemma_at_least_as_wide();
        }
        *self = ops::trunc_rem_by(*self, other.exponent() as u32);
    }
}

impl<T: UnsignedInt> Mul<Pow2<T>> for usize
where
    usize: IntAtLeastAsWide<T>,
{
    type Output = usize;

    fn mul(self, other: Pow2<T>) -> (r: usize) {
        proof {
            <usize as IntAtLeastAsWide<T>>::lemma_at_least_as_wide();
        }
        let r = ops::mul_by(self, other.exponent() as u32);
        proof {
            usize::lemma_val(r);
        }
        r
    }
}

impl<T: UnsignedInt> MulSpecImpl<Pow2<T>> for usize
where
    usize: IntAtLeastAsWide<T>,
{
    open spec fn obeys_mul_spec() -> bool {
        true
    }

    open spec fn mul_req(self, rhs: Pow2<T>) -> bool {
        fits::<usize>(self.val() * p2(rhs.exp()))
    }

    open spec fn mul_spec(self, rhs: Pow2<T>) -> usize {
        usize::from_val(self.val() * p2(rhs.exp()))
    }
}

impl<T: UnsignedInt> MulAssign<Pow2<T>> for usize
where
    usize: IntAtLeastAsWide<T>,
{
    fn mul_assign(&mut self, other: Pow2<T>)
        requires
            fits::<usize>(old(self).val() * p2(other.exp())),
        ensures
            final(self).val() == old(self).val() * p2(other.exp()),
    {
        proof {
            <usize as IntAtLeastAsWide<T>>::lemma_at_least_as_wide();
        }
        *self = ops::mul_by(*self, other.exponent() as u32);
    }
}

impl Div<UnboundedPow2> for i8 {
    type Output = i8;

    fn div(self, other: UnboundedPow2) -> (r: i8) {
        let r = ops::trunc_div_by(self, other.exponent() as u32);
        proof {
            i8::lemma_val(r);
        }
        r
    }
}

impl DivSpecImpl<UnboundedPow2> for i8 {
    open spec fn obeys_div_spec() -> bool {
        true
    }

    open spec fn div_req(self, rhs: UnboundedPow2) -> bool {
        rhs.exp() < i8::width()
    }

    open spec fn div_spec(self, rhs: UnboundedPow2) -> i8 {
        i8::from_val(trunc_div(self.val(), rhs.exp()))
    }
}

impl DivAssign<UnboundedPow2> for i8 {
    fn div_assign(&mut self, other: UnboundedPow2)
        requires
            other.exp() < i8::width(),
        ensures
            final(self).val() == trunc_div(old(self).val(), other.exp()),
    {
        *self = ops::trunc_div_by(*self, other.exponent() as u32);
    }
}

impl Rem<UnboundedPow2> for i8 {
    type Output = i8;

    fn rem(self, other: UnboundedPow2) -> (r: i8) {
        let r = ops::trunc_rem_by(self, other.exponent() as u32);
        proof {
            i8::lemma_val(r);
        }
        r
    }
}

impl RemSpecImpl<UnboundedPow2> for i8 {
    open spec fn obeys_rem_spec() -> bool {
        true
    }

    open spec fn rem_req(self, rhs: UnboundedPow2) -> bool {
        rhs.exp() < i8::width()
    }

    open spec fn rem_spec(self, rhs: UnboundedPow2) -> i8 {
        i8::from_val(trunc_rem(self.val(), rhs.exp()))
    }
}

impl RemAssign<UnboundedPow2> for i8 {
    fn rem_assign(&mut self, other: UnboundedPow2)
        requires
            other.exp() < i8::width(),
        ensures
            final(self).val() == trunc_rem(old(self).val(), other.exp()),
    {
        *self = ops::trunc_rem_by(*self, other.exponent() as u32);
    }
}

impl Mul<UnboundedPow2> for i8 {
    type Output = i8;

    fn mul(self, other: UnboundedPow2) -> (r: i8) {
        let r = ops::mul_by(self, other.exponent() as u32);
        proof {
            i8::lemma_val(r);
        }
        r
    }
}

impl MulSpecImpl<UnboundedPow2> for i8 {
    open spec fn obeys_mul_spec() -> bool {
        true
    }

    open spec fn mul_req(self, rhs: UnboundedPow2) -> bool {
        rhs.exp() < i8::width() && fits::<i8>(self.val() * p2(rhs.exp()))
    }

    open spec fn mul_spec(self, rhs: UnboundedPow2) -> i8 {
        i8::from_val(self.val() * p2(rhs.exp()))
    }
}

impl MulAssign<UnboundedPow2> for i8 {
    fn mul_assign(&mut self, other: UnboundedPow2)
        requires
            other.exp() < i8::width(),
            fits::<i8>(old(self).val() * p2(other.exp())),
        ensures
            final(self).val() == old(self).val() * p2(other.exp()),
    {
        *self = ops::mul_by(*self, other.exponent() as u32);
    }
}

impl<T: UnsignedInt> Div<Pow2<T>> for i8
where
    i8: IntAtLeastAsWide<T>,
{
    type Output = i8;

    fn div(self, other: Pow2<T>) -> (r: i8) {
        proof {
            <i8 as IntAtLeastAsWide<T>>::lemma_at_least_as_wide();
        }
        let r = ops::trunc_div_by(self, other.exponent() as u32);
        proof {
            i8::lemma_val(r);
        }
        r
    }
}

impl<T: UnsignedInt> DivSpecImpl<Pow2<T>> for i8
where
    i8: IntAtLeastAsWide<T>,
{
    open spec fn obeys_div_spec() -> bool {
        true
    }

    open spec fn div_req(self, rhs: Pow2<T>) -> bool {
        true
    }

    open spec fn div_spec(self, rhs: Pow2<T>) -> i8 {
        i8::from_val(trunc_div(self.val(), rhs.exp()))
    }
}

impl<T: UnsignedInt> DivAssign<Pow2<T>> for i8
where
    i8: IntAtLeastAsWide<T>,
{
    fn div_assign(&mut self, other: Pow2<T>)
        ensures
            final(self).val() == trunc_div(old(self).val(), other.exp()),
    {
        proof {
            <i8 as IntAtLeastAsWide<T>>::lemma_at_least_as_wide();
        }
        *self = ops::trunc_div_by(*self, other.exponent() as u32);
    }
}

impl<T: UnsignedInt> Rem<Pow2<T>> for i8
where
    i8: IntAtLeastAsWide<T>,
{
    type Output = i8;

    fn rem(self, other: Pow2<T>) -> (r: i8) {
        proof {
            <i8 as IntAtLeastAsWide<T>>::lemma_at_least_as_wide();
        }
        let r = ops::trunc_rem_by(self, other.exponent() as u32);
        proof {
            i8::lemma_val(r);
        }
        r
    }
}

impl<T: UnsignedInt> RemSpecImpl<Pow2<T>> for i8
where
    i8: IntAtLeastAsWide<T>,
{
    open spec fn obeys_rem_spec() -> bool {
        true
    }

    open spec fn rem_req(self, rhs: Pow2<T>) -> bool {
        true
    }

    open spec fn rem_spec(self, rhs: Pow2<T>) -> i8 {
        i8::from_val(trunc_rem(self.val(), rhs.exp()))
    }
}

impl<T: UnsignedInt> RemAssign<Pow2<T>> for i8
where
    i8: IntAtLeastAsWide<T>,
{
    fn rem_assign(&mut self, other: Pow2<T>)
        ensures
            final(self).val() == trunc_rem(old(self).val(), other.exp()),
    {
        proof {
            <i8 as IntAtLeastAsWide<T>>::lemma_at_least_as_wide();
        }
        *self = ops::trunc_rem_by(*self, other.exponent() as u32);
    }
}

impl<T: UnsignedInt> Mul<Pow2<T>> for i8
where
    i8: IntAtLeastAsWide<T>,
{
    type Output = i8;

    fn mul(self, other: Pow2<T>) -> (r: i8) {
        proof {
            <i8 as IntAtLeastAsWide<T>>::lemma_at_least_as_wide();
        }
        let r = ops::mul_by(self, other.exponent() as u32);
        proof {
            i8::lemma_val(r);
        }
        r
    }
}

impl<T: UnsignedInt> MulSpecImpl<Pow2<T>> for i8
where
    i8: IntAtLeastAsWide<T>,
{
    open spec fn obeys_mul_spec() -> bool {
        true
    }

    open spec fn mul_req(self, rhs: Pow2<T>) -> bool {
        fits::<i8>(self.val() * p2(rhs.exp()))
    }

    open spec fn mul_spec(self, rhs: Pow2<T>) -> i8 {
        i8::from_val(self.val() * p2(rhs.exp()))
    }
}

impl<T: UnsignedInt> MulAssign<Pow2<T>> for i8
where
    i8: IntAtLeastAsWide<T>,
{
    fn mul_assign(&mut self, other: Pow2<T>)
        requires
            fits::<i8>(old(self).val() * p2(other.exp())),
        ensures
            final(self).val() == old(self).val() * p2(other.exp()),
    {
        proof {
            <i8 as IntAtLeastAsWide<T>>::lemma_at_least_as_wide();
        }
        *self = ops::mul_by(*self, other.exponent() as u32);
    }
}

impl Div<UnboundedPow2> for i16 {
    type Output = i16;

    fn div(self, other: UnboundedPow2) -> (r: i16) {
        let r = ops::trunc_div_by(self, other.exponent() as u32);
        proof {
            i16::lemma_val(r);
        }
        r
    }
}

impl DivSpecImpl<UnboundedPow2> for i16 {
    open spec fn obeys_div_spec() -> bool {
        true
    }

    open spec fn div_req(self, rhs: UnboundedPow2) -> bool {
        rhs.exp() < i16::width()
    }

    open spec fn div_spec(self, rhs: UnboundedPow2) -> i16 {
        i16::from_val(trunc_div(self.val(), rhs.exp()))
    }
}

impl DivAssign<UnboundedPow2> for i16 {
    fn div_assign(&mut self, other: UnboundedPow2)
        requires
            other.exp() < i16::width(),
        ensures
            final(self).val() == trunc_div(old(self).val(), other.exp()),
    {
        *self = ops::trunc_div_by(*self, other.exponent() as u32);
    }
}

impl Rem<UnboundedPow2> for i16 {
    type Output = i16;

    fn rem(self, other: UnboundedPow2) -> (r: i16) {
        let r = ops::trunc_rem_by(self, other.exponent() as u32);
        proof {
            i16::lemma_val(r);
        }
        r
    }
}

impl RemSpecImpl<UnboundedPow2> for i16 {
    open spec fn obeys_rem_spec() -> bool {
        true
    }

    open spec fn rem_req(self, rhs: UnboundedPow2) -> bool {
        rhs.exp() < i16::width()
    }

    open spec fn rem_spec(self, rhs: UnboundedPow2) -> i16 {
        i16::from_val(trunc_rem(self.val(), rhs.exp()))
    }
}

impl RemAssign<UnboundedPow2> for i16 {
    fn rem_assign(&mut self, other: UnboundedPow2)
        requires
            other.exp() < i16::width(),
        ensures
            final(self).val() == trunc_rem(old(self).val(), other.exp()),
    {
        *self = ops::trunc_rem_by(*self, other.exponent() as u32);
    }
}

impl Mul<UnboundedPow2> for i16 {
    type Output = i16;

    fn mul(self, other: UnboundedPow2) -> (r: i16) {
        let r = ops::mul_by(self, other.exponent() as u32);
        proof {
            i16::lemma_val(r);
        }
        r
    }
}

impl MulSpecImpl<UnboundedPow2> for i16 {
    open spec fn obeys_mul_spec() -> bool {
        true
    }

    open spec fn mul_req(self, rhs: UnboundedPow2) -> bool {
        rhs.exp() < i16::width() && fits::<i16>(self.val() * p2(rhs.exp()))
    }

    open spec fn mul_spec(self, rhs: UnboundedPow2) -> i16 {
        i16::from_val(self.val() * p2(rhs.exp()))
    }
}

impl MulAssign<UnboundedPow2> for i16 {
    fn mul_assign(&mut self, other: UnboundedPow2)
        requires
            other.exp() < i16::width(),
            fits::<i16>(old(self).val() * p2(other.exp())),
        ensures
            final(self).val() == old(self).val() * p2(other.exp()),
    {
        *self = ops::mul_by(*self, other.exponent() as u32);
    }
}

impl<T: UnsignedInt> Div<Pow2<T>> for i16
where
    i16: IntAtLeastAsWide<T>,
{
    type Output = i16;

    fn div(self, other: Pow2<T>) -> (r: i16) {
        proof {
            <i16 as IntAtLeastAsWide<T>>::lemma_at_least_as_wide();
        }
        let r = ops::trunc_div_by(self, other.exponent() as u32);
        proof {
            i16::lemma_val(r);
        }
        r
    }
}

impl<T: UnsignedInt> DivSpecImpl<Pow2<T>> for i16
where
    i16: IntAtLeastAsWide<T>,
{
    open spec fn obeys_div_spec() -> bool {
        true
    }

    open spec fn div_req(self, rhs: Pow2<T>) -> bool {
        true
    }

    open spec fn div_spec(self, rhs: Pow2<T>) -> i16 {
        i16::from_val(trunc_div(self.val(), rhs.exp()))
    }
}

impl<T: UnsignedInt> DivAssign<Pow2<T>> for i16
where
    i16: IntAtLeastAsWide<T>,
{
    fn div_assign(&mut self, other: Pow2<T>)
        ensures
            final(self).val() == trunc_div(old(self).val(), other.exp()),
    {
        proof {
            <i16 as IntAtLeastAsWide<T>>::lemma_at_least_as_wide();
        }
        *self = ops::trunc_div_by(*self, other.exponent() as u32);
    }
}

impl<T: UnsignedInt> Rem<Pow2<T>> for i16
where
    i16: IntAtLeastAsWide<T>,
{
    type Output = i16;

    fn rem(self, other: Pow2<T>) -> (r: i16) {
        proof {
            <i16 as IntAtLeastAsWide<T>>::lemma_at_least_as_wide();
        }
        let r = ops::trunc_rem_by(self, other.exponent() as u32);
        proof {
            i16::lemma_val(r);
        }
        r
    }
}

impl<T: UnsignedInt> RemSpecImpl<Pow2<T>> for i16
where
    i16: IntAtLeastAsWide<T>,
{
    open spec fn obeys_rem_spec() -> bool {
        true
    }

    open spec fn rem_req(self, rhs: Pow2<T>) -> bool {
        true
    }

    open spec fn rem_spec(self, rhs: Pow2<T>) -> i16 {
        i16::from_val(trunc_rem(self.val(), rhs.exp()))
    }
}

impl<T: UnsignedInt> RemAssign<Pow2<T>> for i16
where
    i16: IntAtLeastAsWide<T>,
{
    fn rem_assign(&mut self, other: Pow2<T>)
        ensures
            final(self).val() == trunc_rem(old(self).val(), other.exp()),
    {
        proof {
            <i16 as IntAtLeastAsWide<T>>::lemma_at_least_as_wide();
        }
        *self = ops::trunc_rem_by(*self, other.exponent() as u32);
    }
}

impl<T: UnsignedInt> Mul<Pow2<T>> for i16
where
    i16: IntAtLeastAsWide<T>,
{
    type Output = i16;

    fn mul(self, other: Pow2<T>) -> (r: i16) {
        proof {
            <i16 as IntAtLeastAsWide<T>>::lemma_at_least_as_wide();
        }
        let r = ops::mul_by(self, other.exponent() as u32);
        proof {
            i16::lemma_val(r);
        }
        r
    }
}

impl<T: UnsignedInt> MulSpecImpl<Pow2<T>> for i16
where
    i16: IntAtLeastAsWide<T>,
{
    open spec fn obeys_mul_spec() -> bool {
        true
    }

    open spec fn mul_req(self, rhs: Pow2<T>) -> bool {
        fits::<i16>(self.val() * p2(rhs.exp()))
    }

    open spec fn mul_spec(self, rhs: Pow2<T>) -> i16 {
        i16::from_val(self.val() * p2(rhs.exp()))
    }
}

impl<T: UnsignedInt> MulAssign<Pow2<T>> for i16
where
    i16: IntAtLeastAsWide<T>,
{
    fn mul_assign(&mut self, other: Pow2<T>)
        requires
            fits::<i16>(old(self).val() * p2(other.exp())),
        ensures
            final(self).val() == old(self).val() * p2(other.exp()),
    {
        proof {
            <i16 as IntAtLeastAsWide<T>>::lemma_at_least_as_wide();
        }
        *self = ops::mul_by(*self, other.exponent() as u32);
    }
}

impl Div<UnboundedPow2> for i32 {
    type Output = i32;

    fn div(self, other: UnboundedPow2) -> (r: i32) {
        let r = ops::trunc_div_by(self, other.exponent() as u32);
        proof {
            i32::lemma_val(r);
        }
        r
    }
}

impl DivSpecImpl<UnboundedPow2> for i32 {
    open spec fn obeys_div_spec() -> bool {
        true
    }

    open spec fn div_req(self, rhs: UnboundedPow2) -> bool {
        rhs.exp() < i32::width()
    }

    open spec fn div_spec(self, rhs: UnboundedPow2) -> i32 {
        i32::from_val(trunc_div(self.val(), rhs.exp()))
    }
}

impl DivAssign<UnboundedPow2> for i32 {
    fn div_assign(&mut self, other: UnboundedPow2)
        requires
            other.exp() < i32::width(),
        ensures
            final(self).val() == trunc_div(old(self).val(), other.exp()),
    {
        *self = ops::trunc_div_by(*self, other.exponent() as u32);
    }
}

impl Rem<UnboundedPow2> for i32 {
    type Output = i32;

    fn rem(self, other: UnboundedPow2) -> (r: i32) {
        let r = ops::trunc_rem_by(self, other.exponent() as u32);
        proof {
            i32::lemma_val(r);
        }
        r
    }
}

impl RemSpecImpl<UnboundedPow2> for i32 {
    open spec fn obeys_rem_spec() -> bool {
        true
    }

    open spec fn rem_req(self, rhs: UnboundedPow2) -> bool {
        rhs.exp() < i32::width()
    }

    open spec fn rem_spec(self, rhs: UnboundedPow2) -> i32 {
        i32::from_val(trunc_rem(self.val(), rhs.exp()))
    }
}

impl RemAssign<UnboundedPow2> for i32 {
    fn rem_assign(&mut self, other: UnboundedPow2)
        requires
            other.exp() < i32::width(),
        ensures
            final(self).val() == trunc_rem(old(self).val(), other.exp()),
    {
        *self = ops::trunc_rem_by(*self, other.exponent() as u32);
    }
}

impl Mul<UnboundedPow2> for i32 {
    type Output = i32;

    fn mul(self, other: UnboundedPow2) -> (r: i32) {
        let r = ops::mul_by(self, other.exponent() as u32);
        proof {
            i32::lemma_val(r);
        }
        r
    }
}

impl MulSpecImpl<UnboundedPow2> for i32 {
    open spec fn obeys_mul_spec() -> bool {
        true
    }

    open spec fn mul_req(self, rhs: UnboundedPow2) -> bool {
        rhs.exp() < i32::width() && fits::<i32>(self.val() * p2(rhs.exp()))
    }

    open spec fn mul_spec(self, rhs: UnboundedPow2) -> i32 {
        i32::from_val(self.val() * p2(rhs.exp()))
    }
}

impl MulAssign<UnboundedPow2> for i32 {
    fn mul_assign(&mut self, other: UnboundedPow2)
        requires
            other.exp() < i32::width(),
            fits::<i32>(old(self).val() * p2(other.exp())),
        ensures
            final(self).val() == old(self).val() * p2(other.exp()),
    {
        *self = ops::mul_by(*self, other.exponent() as u32);
    }
}

impl<T: UnsignedInt> Div<Pow2<T>> for i32
where
    i32: IntAtLeastAsWide<T>,
{
    type Output = i32;

    fn div(self, other: Pow2<T>) -> (r: i32) {
        proof {
            <i32 as IntAtLeastAsWide<T>>::lemma_at_least_as_wide();
        }
        let r = ops::trunc_div_by(self, other.exponent() as u32);
        proof {
            i32::lemma_val(r);
        }
        r
    }
}

impl<T: UnsignedInt> DivSpecImpl<Pow2<T>> for i32
where
    i32: IntAtLeastAsWide<T>,
{
    open spec fn obeys_div_spec() -> bool {
        true
    }

    open spec fn div_req(self, rhs: Pow2<T>) -> bool {
        true
    }

    open spec fn div_spec(self, rhs: Pow2<T>) -> i32 {
        i32::from_val(trunc_div(self.val(), rhs.exp()))
    }
}

impl<T: UnsignedInt> DivAssign<Pow2<T>> for i32
where
    i32: IntAtLeastAsWide<T>,
{
    fn div_assign(&mut self, other: Pow2<T>)
        ensures
            final(self).val() == trunc_div(old(self).val(), other.exp()),
    {
        proof {
            <i32 as IntAtLeastAsWide<T>>::lemma_at_least_as_wide();
        }
        *self = ops::trunc_div_by(*self, other.exponent() as u32);
    }
}

impl<T: UnsignedInt> Rem<Pow2<T>> for i32
where
    i32: IntAtLeastAsWide<T>,
{
    type Output = i32;

    fn rem(self, other: Pow2<T>) -> (r: i32) {
        proof {
            <i32 as IntAtLeastAsWide<T>>::lemma_at_least_as_wide();
        }
        let r = ops::trunc_rem_by(self, other.exponent() as u32);
        proof {
            i32::lemma_val(r);
        }
        r
    }
}

impl<T: UnsignedInt> RemSpecImpl<Pow2<T>> for i32
where
    i32: IntAtLeastAsWide<T>,
{
    open spec fn obeys_rem_spec() -> bool {
        true
    }

    open spec fn rem_req(self, rhs: Pow2<T>) -> bool {
        true
    }

    open spec fn rem_spec(self, rhs: Pow2<T>) -> i32 {
        i32::from_val(trunc_rem(self.val(), rhs.exp()))
    }
}

impl<T: UnsignedInt> RemAssign<Pow2<T>> for i32
where
    i32: IntAtLeastAsWide<T>,
{
    fn rem_assign(&mut self, other: Pow2<T>)
        ensures
            final(self).val() == trunc_rem(old(self).val(), other.exp()),
    {
        proof {
            <i32 as IntAtLeastAsWide<T>>::lemma_at_least_as_wide();
        }
        *self = ops::trunc_rem_by(*self, other.exponent() as u32);
    }
}

impl<T: UnsignedInt> Mul<Pow2<T>> for i32
where
    i32: IntAtLeastAsWide<T>,
{
    type Output = i32;

    fn mul(self, other: Pow2<T>) -> (r: i32) {
        proof {
            <i32 as IntAtLeastAsWide<T>>::lemma_at_least_as_wide();
        }
        let r = ops::mul_by(self, other.exponent() as u32);
        proof {
            i32::lemma_val(r);
        }
        r
    }
}

impl<T: UnsignedInt> MulSpecImpl<Pow2<T>> for i32
where
    i32: IntAtLeastAsWide<T>,
{
    open spec fn obeys_mul_spec() -> bool {
        true
    }

    open spec fn mul_req(self, rhs: Pow2<T>) -> bool {
        fits::<i32>(self.val() * p2(rhs.exp()))
    }

    open spec fn mul_spec(self, rhs: Pow2<T>) -> i32 {
        i32::from_val(self.val() * p2(rhs.exp()))
    }
}

impl<T: UnsignedInt> MulAssign<Pow2<T>> for i32
where
    i32: IntAtLeastAsWide<T>,
{
    fn mul_assign(&mut self, other: Pow2<T>)
        requires
            fits::<i32>(old(self).val() * p2(other.exp())),
        ensures
            final(self).val() == old(self).val() * p2(other.exp()),
    {
        proof {
            <i32 as IntAtLeastAsWide<T>>::lemma_at_least_as_wide();
        }
        *self = ops::mul_by(*self, other.exponent() as u32);
    }
}

impl Div<UnboundedPow2> for i64 {
    type Output = i64;

    fn div(self, other: UnboundedPow2) -> (r: i64) {
        let r = ops::trunc_div_by(self, other.exponent() as u32);
        proof {
            i64::lemma_val(r);
        }
        r
    }
}

impl DivSpecImpl<UnboundedPow2> for i64 {
    open spec fn obeys_div_spec() -> bool {
        true
    }

    open spec fn div_req(self, rhs: UnboundedPow2) -> bool {
        rhs.exp() < i64::width()
    }

    open spec fn div_spec(self, rhs: UnboundedPow2) -> i64 {
        i64::from_val(trunc_div(self.val(), rhs.exp()))
    }
}

impl DivAssign<UnboundedPow2> for i64 {
    fn div_assign(&mut self, other: UnboundedPow2)
        requires
            other.exp() < i64::width(),
        ensures
            final(self).val() == trunc_div(old(self).val(), other.exp()),
    {
        *self = ops::trunc_div_by(*self, other.exponent() as u32);
    }
}

impl Rem<UnboundedPow2> for i64 {
    type Output = i64;

    fn rem(self, other: UnboundedPow2) -> (r: i64) {
        let r = ops::trunc_rem_by(self, other.exponent() as u32);
        proof {
            i64::lemma_val(r);
        }
        r
    }
}

impl RemSpecImpl<UnboundedPow2> for i64 {
    open spec fn obeys_rem_spec() -> bool {
        true
    }

    open spec fn rem_req(self, rhs: UnboundedPow2) -> bool {
        rhs.exp() < i64::width()
    }

    open spec fn rem_spec(self, rhs: UnboundedPow2) -> i64 {
        i64::from_val(trunc_rem(self.val(), rhs.exp()))
    }
}

impl RemAssign<UnboundedPow2> for i64 {
    fn rem_assign(&mut self, other: UnboundedPow2)
        requires
            other.exp() < i64::width(),
        ensures
            final(self).val() == trunc_rem(old(self).val(), other.exp()),
    {
        *self = ops::trunc_rem_by(*self, other.exponent() as u32);
    }
}

impl Mul<UnboundedPow2> for i64 {
    type Output = i64;

    fn mul(self, other: UnboundedPow2) -> (r: i64) {
        let r = ops::mul_by(self, other.exponent() as u32);
        proof {
            i64::lemma_val(r);
        }
        r
    }
}

impl MulSpecImpl<UnboundedPow2> for i64 {
    open spec fn obeys_mul_spec() -> bool {
        true
    }

    open spec fn mul_req(self, rhs: UnboundedPow2) -> bool {
        rhs.exp() < i64::width() && fits::<i64>(self.val() * p2(rhs.exp()))
    }

    open spec fn mul_spec(self, rhs: UnboundedPow2) -> i64 {
        i64::from_val(self.val() * p2(rhs.exp()))
    }
}

impl MulAssign<UnboundedPow2> for i64 {
    fn mul_assign(&mut self, other: UnboundedPow2)
        requires
            other.exp() < i64::width(),
            fits::<i64>(old(self).val() * p2(other.exp())),
        ensures
            final(self).val() == old(self).val() * p2(other.exp()),
    {
        *self = ops::mul_by(*self, other.exponent() as u32);
    }
}

impl<T: UnsignedInt> Div<Pow2<T>> for i64
where
    i64: IntAtLeastAsWide<T>,
{
    type Output = i64;

    fn div(self, other: Pow2<T>) -> (r: i64) {
        proof {
            <i64 as IntAtLeastAsWide<T>>::lemma_at_least_as_wide();
        }
        let r = ops::trunc_div_by(self, other.exponent() as u32);
        proof {
            i64::lemma_val(r);
        }
        r
    }
}

impl<T: UnsignedInt> DivSpecImpl<Pow2<T>> for i64
where
    i64: IntAtLeastAsWide<T>,
{
    open spec fn obeys_div_spec() -> bool {
        true
    }

    open spec fn div_req(self, rhs: Pow2<T>) -> bool {
        true
    }

    open spec fn div_spec(self, rhs: Pow2<T>) -> i64 {
        i64::from_val(trunc_div(self.val(), rhs.exp()))
    }
}

impl<T: UnsignedInt> DivAssign<Pow2<T>> for i64
where
    i64: IntAtLeastAsWide<T>,
{
    fn div_assign(&mut self, other: Pow2<T>)
        ensures
            final(self).val() == trunc_div(old(self).val(), other.exp()),
    {
        proof {
            <i64 as IntAtLeastAsWide<T>>::lemma_at_least_as_wide();
        }
        *self = ops::trunc_div_by(*self, other.exponent() as u32);
    }
}

impl<T: UnsignedInt> Rem<Pow2<T>> for i64
where
    i64: IntAtLeastAsWide<T>,
{
    type Output = i64;

    fn rem(self, other: Pow2<T>) -> (r: i64) {
        proof {
            <i64 as IntAtLeastAsWide<T>>::lemma_at_least_as_wide();
        }
        let r = ops::trunc_rem_by(self, other.exponent() as u32);
        proof {
            i64::lemma_val(r);
        }
        r
    }
}

impl<T: UnsignedInt> RemSpecImpl<Pow2<T>> for i64
where
    i64: IntAtLeastAsWide<T>,
{
    open spec fn obeys_rem_spec() -> bool {
        true
    }

    open spec fn rem_req(self, rhs: Pow2<T>) -> bool {
        true
    }

    open spec fn rem_spec(self, rhs: Pow2<T>) -> i64 {
        i64::from_val(trunc_rem(self.val(), rhs.exp()))
    }
}

impl<T: UnsignedInt> RemAssign<Pow2<T>> for i64
where
    i64: IntAtLeastAsWide<T>,
{
    fn rem_assign(&mut self, other: Pow2<T>)
        ensures
            final(self).val() == trunc_rem(old(self).val(), other.exp()),
    {
        proof {
            <i64 as IntAtLeastAsWide<T>>::lemma_at_least_as_wide();
        }
        *self = ops::trunc_rem_by(*self, other.exponent() as u32);
    }
}

impl<T: UnsignedInt> Mul<Pow2<T>> for i64
where
    i64: IntAtLeastAsWide<T>,
{
    type Output = i64;

    fn mul(self, other: Pow2<T>) -> (r: i64) {
        proof {
            <i64 as IntAtLeastAsWide<T>>::lemma_at_least_as_wide();
        }
        let r = ops::mul_by(self, other.exponent() as u32);
        proof {
            i64::lemma_val(r);
        }
        r
    }
}

impl<T: UnsignedInt> MulSpecImpl<Pow2<T>> for i64
where
    i64: IntAtLeastAsWide<T>,
{
    open spec fn obeys_mul_spec() -> bool {
        true
    }

    open spec fn mul_req(self, rhs: Pow2<T>) -> bool {
        fits::<i64>(self.val() * p2(rhs.exp()))
    }

    open spec fn mul_spec(self, rhs: Pow2<T>) -> i64 {
        i64::from_val(self.val() * p2(rhs.exp()))
    }
}

impl<T: UnsignedInt> MulAssign<Pow2<T>> for i64
where
    i64: IntAtLeastAsWide<T>,
{
    fn mul_assign(&mut self, other: Pow2<T>)
        requires
            fits::<i64>(old(self).val() * p2(other.exp())),
        ensures
            final(self).val() == old(self).val() * p2(other.exp()),
    {
        proof {
            <i64 as IntAtLeastAsWide<T>>::lemma_at_least_as_wide();
        }
        *self = ops::mul_by(*self, other.exponent() as u32);
    }
}

impl Div<UnboundedPow2> for i128 {
    type Output = i128;

    fn div(self, other: UnboundedPow2) -> (r: i128) {
        let r = ops::trunc_div_by(self, other.exponent() as u32);
        proof {
            i128::lemma_val(r);
        }
        r
    }
}

impl DivSpecImpl<UnboundedPow2> for i128 {
    open spec fn obeys_div_spec() -> bool {
        true
    }

    open spec fn div_req(self, rhs: UnboundedPow2) -> bool {
        rhs.exp() < i128::width()
    }

    open spec fn div_spec(self, rhs: UnboundedPow2) -> i128 {
        i128::from_val(trunc_div(self.val(), rhs.exp()))
    }
}

impl DivAssign<UnboundedPow2> for i128 {
    fn div_assign(&mut self, other: UnboundedPow2)
        requires
            other.exp() < i128::width(),
        ensures
            final(self).val() == trunc_div(old(self).val(), other.exp()),
    {
        *self = ops::trunc_div_by(*self, other.exponent() as u32);
    }
}

impl Rem<UnboundedPow2> for i128 {
    type Output = i128;

    fn rem(self, other: UnboundedPow2) -> (r: i128) {
        let r = ops::trunc_rem_by(self, other.exponent() as u32);
        proof {
            i128::lemma_val(r);
        }
        r
    }
}

impl RemSpecImpl<UnboundedPow2> for i128 {
    open spec fn obeys_rem_spec() -> bool {
        true
    }

    open spec fn rem_req(self, rhs: UnboundedPow2) -> bool {
        rhs.exp() < i128::width()
    }

    open spec fn rem_spec(self, rhs: UnboundedPow2) -> i128 {
        i128::from_val(trunc_rem(self.val(), rhs.exp()))
    }
}

impl RemAssign<UnboundedPow2> for i128 {
    fn rem_assign(&mut self, other: UnboundedPow2)
        requires
            other.exp() < i128::width(),
        ensures
            final(self).val() == trunc_rem(old(self).val(), other.exp()),
    {
        *self = ops::trunc_rem_by(*self, other.exponent() as u32);
    }
}

impl Mul<UnboundedPow2> for i128 {
    type Output = i128;

    fn mul(self, other: UnboundedPow2) -> (r: i128) {
        let r = ops::mul_by(self, other.exponent() as u32);
        proof {
            i128::lemma_val(r);
        }
        r
    }
}

impl MulSpecImpl<UnboundedPow2> for i128 {
    open spec fn obeys_mul_spec() -> bool {
        true
    }

    open spec fn mul_req(self, rhs: UnboundedPow2) -> bool {
        rhs.exp() < i128::width() && fits::<i128>(self.val() * p2(rhs.exp()))
    }

    open spec fn mul_spec(self, rhs: UnboundedPow2) -> i128 {
        i128::from_val(self.val() * p2(rhs.exp()))
    }
}

impl MulAssign<UnboundedPow2> for i128 {
    fn mul_assign(&mut self, other: UnboundedPow2)
        requires
            other.exp() < i128::width(),
            fits::<i128>(old(self).val() * p2(other.exp())),
        ensures
            final(self).val() == old(self).val() * p2(other.exp()),
    {
        *self = ops::mul_by(*self, other.exponent() as u32);
    }
}

impl<T: UnsignedInt> Div<Pow2<T>> for i128
where
    i128: IntAtLeastAsWide<T>,
{
    type Output = i128;

    fn div(self, other: Pow2<T>) -> (r: i128) {
        proof {
            <i128 as IntAtLeastAsWide<T>>::lemma_at_least_as_wide();
        }
        let r = ops::trunc_div_by(self, other.exponent() as u32);
        proof {
            i128::lemma_val(r);
        }
        r
    }
}

impl<T: UnsignedInt> DivSpecImpl<Pow2<T>> for i128
where
    i128: IntAtLeastAsWide<T>,
{
    open spec fn obeys_div_spec() -> bool {
        true
    }

    open spec fn div_req(self, rhs: Pow2<T>) -> bool {
        true
    }

    open spec fn div_spec(self, rhs: Pow2<T>) -> i128 {
        i128::from_val(trunc_div(self.val(), rhs.exp()))
    }
}

impl<T: UnsignedInt> DivAssign<Pow2<T>> for i128
where
    i128: IntAtLeastAsWide<T>,
{
    fn div_assign(&mut self, other: Pow2<T>)
        ensures
            final(self).val() == trunc_div(old(self).val(), other.exp()),
    {
        proof {
            <i128 as IntAtLeastAsWide<T>>::lemma_at_least_as_wide();
        }
        *self = ops::trunc_div_by(*self, other.exponent() as u32);
    }
}

impl<T: UnsignedInt> Rem<Pow2<T>> for i128
where
    i128: IntAtLeastAsWide<T>,
{
    type Output = i128;

    fn rem(self, other: Pow2<T>) -> (r: i128) {
        proof {
            <i128 as IntAtLeastAsWide<T>>::lemma_at_least_as_wide();
        }
        let r = ops::trunc_rem_by(self, other.exponent() as u32);
        proof {
            i128::lemma_val(r);
        }
        r
    }
}

impl<T: UnsignedInt> RemSpecImpl<Pow2<T>> for i128
where
    i128: IntAtLeastAsWide<T>,
{
    open spec fn obeys_rem_spec() -> bool {
        true
    }

    open spec fn rem_req(self, rhs: Pow2<T>) -> bool {
        true
    }

    open spec fn rem_spec(self, rhs: Pow2<T>) -> i128 {
        i128::from_val(trunc_rem(self.val(), rhs.exp()))
    }
}

impl<T: UnsignedInt> RemAssign<Pow2<T>> for i128
where
    i128: IntAtLeastAsWide<T>,
{
    fn rem_assign(&mut self, other: Pow2<T>)
        ensures
            final(self).val() == trunc_rem(old(self).val(), other.exp()),
    {
        proof {
            <i128 as IntAtLeastAsWide<T>>::lemma_at_least_as_wide();
        }
        *self = ops::trunc_rem_by(*self, other.exponent() as u32);
    }
}

impl<T: UnsignedInt> Mul<Pow2<T>> for i128
where
    i128: IntAtLeastAsWide<T>,
{
    type Output = i128;

    fn mul(self, other: Pow2<T>) -> (r: i128) {
        proof {
            <i128 as IntAtLeastAsWide<T>>::lemma_at_least_as_wide();
        }
        let r = ops::mul_by(self, other.exponent() as u32);
        proof {
            i128::lemma_val(r);
        }
        r
    }
}

impl<T: UnsignedInt> MulSpecImpl<Pow2<T>> for i128
where
    i128: IntAtLeastAsWide<T>,
{
    open spec fn obeys_mul_spec() -> bool {
        true
    }

    open spec fn mul_req(self, rhs: Pow2<T>) -> bool {
        fits::<i128>(self.val() * p2(rhs.exp()))
    }

    open spec fn mul_spec(self, rhs: Pow2<T>) -> i128 {
        i128::from_val(self.val() * p2(rhs.exp()))
    }
}

impl<T: UnsignedInt> MulAssign<Pow2<T>> for i128
where
    i128: IntAtLeastAsWide<T>,
{
    fn mul_assign(&mut self, other: Pow2<T>)
        requires
            fits::<i128>(old(self).val() * p2(other.exp())),
        ensures
            final(self).val() == old(self).val() * p2(other.exp()),
    {
        proof {
            <i128 as IntAtLeastAsWide<T>>::lemma_at_least_as_wide();
        }
        *self = ops::mul_by(*self, other.exponent() as u32);
    }
}

impl Div<UnboundedPow2> for isize {
    type Output = isize;

    fn div(self, other: UnboundedPow2) -> (r: isize) {
        let r = ops::trunc_div_by(self, other.exponent() as u32);
        proof {
            isize::lemma_val(r);
        }
        r
    }
}

impl DivSpecImpl<UnboundedPow2> for isize {
    open spec fn obeys_div_spec() -> bool {
        true
    }

    open spec fn div_req(self, rhs: UnboundedPow2) -> bool {
        rhs.exp() < isize::width()
    }

    open spec fn div_spec(self, rhs: UnboundedPow2) -> isize {
        isize::from_val(trunc_div(self.val(), rhs.exp()))
    }
}

impl DivAssign<UnboundedPow2> for isize {
    fn div_assign(&mut self, other: UnboundedPow2)
        requires
            other.exp() < isize::width(),
        ensures
            final(self).val() == trunc_div(old(self).val(), other.exp()),
    {
        *self = ops::trunc_div_by(*self, other.exponent() as u32);
    }
}

impl Rem<UnboundedPow2> for isize {
    type Output = isize;

    fn rem(self, other: UnboundedPow2) -> (r: isize) {
        let r = ops::trunc_rem_by(self, other.exponent() as u32);
        proof {
            isize::lemma_val(r);
        }
        r
    }
}

impl RemSpecImpl<UnboundedPow2> for isize {
    open spec fn obeys_rem_spec() -> bool {
        true
    }

    open spec fn rem_req(self, rhs: UnboundedPow2) -> bool {
        rhs.exp() < isize::width()
    }

    open spec fn rem_spec(self, rhs: UnboundedPow2) -> isize {
        isize::from_val(trunc_rem(self.val(), rhs.exp()))
    }
}

impl RemAssign<UnboundedPow2> for isize {
    fn rem_assign(&mut self, other: UnboundedPow2)
        requires
            other.exp() < isize::width(),
        ensures
            final(self).val() == trunc_rem(old(self).val(), other.exp()),
    {
        *self = ops::trunc_rem_by(*self, other.exponent() as u32);
    }
}

impl Mul<UnboundedPow2> for isize {
    type Output = isize;

    fn mul(self, other: UnboundedPow2) -> (r: isize) {
        let r = ops::mul_by(self, other.exponent() as u32);
        proof {
            isize::lemma_val(r);
        }
        r
    }
}

impl MulSpecImpl<UnboundedPow2> for isize {
    open spec fn obeys_mul_spec() -> bool {
        true
    }

    open spec fn mul_req(self, rhs: UnboundedPow2) -> bool {
        rhs.exp() < isize::width() && fits::<isize>(self.val() * p2(rhs.exp()))
    }

    open spec fn mul_spec(self, rhs: UnboundedPow2) -> isize {
        isize::from_val(self.val() * p2(rhs.exp()))
    }
}

impl MulAssign<UnboundedPow2> for isize {
    fn mul_assign(&mut self, other: UnboundedPow2)
        requires
            other.exp() < isize::width(),
            fits::<isize>(old(self).val() * p2(other.exp())),
        ensures
            final(self).val() == old(self).val() * p2(other.exp()),
    {
        *self = ops::mul_by(*self, other.exponent() as u32);
    }
}

impl<T: UnsignedInt> Div<Pow2<T>> for isize
where
    isize: IntAtLeastAsWide<T>,
{
    type Output = isize;

    fn div(self, other: Pow2<T>) -> (r: isize) {
        proof {
            <isize as IntAtLeastAsWide<T>>::lemma_at_least_as_wide();
        }
        let r = ops::trunc_div_by(self, other.exponent() as u32);
        proof {
            isize::lemma_val(r);
        }
        r
    }
}

impl<T: UnsignedInt> DivSpecImpl<Pow2<T>> for isize
where
    isize: IntAtLeastAsWide<T>,
{
    open spec fn obeys_div_spec() -> bool {
        true
    }

    open spec fn div_req(self, rhs: Pow2<T>) -> bool {
        true
    }

    open spec fn div_spec(self, rhs: Pow2<T>) -> isize {
        isize::from_val(trunc_div(self.val(), rhs.exp()))
    }
}

impl<T: UnsignedInt> DivAssign<Pow2<T>> for isize
where
    isize: IntAtLeastAsWide<T>,
{
    fn div_assign(&mut self, other: Pow2<T>)
        ensures
            final(self).val() == trunc_div(old(self).val(), other.exp()),
    {
        proof {
            <isize as IntAtLeastAsWide<T>>::lemma_at_least_as_wide();
        }
        *self = ops::trunc_div_by(*self, other.exponent() as u32);
    }
}

impl<T: UnsignedInt> Rem<Pow2<T>> for isize
where
    isize: IntAtLeastAsWide<T>,
{
    type Output = isize;

    fn rem(self, other: Pow2<T>) -> (r: isize) {
        proof {
            <isize as IntAtLeastAsWide<T>>::lemma_at_least_as_wide();
        }
        let r = ops::trunc_rem_by(self, other.exponent() as u32);
        proof {
            isize::lemma_val(r);
        }
        r
    }
}

impl<T: UnsignedInt> RemSpecImpl<Pow2<T>> for isize
where
    isize: IntAtLeastAsWide<T>,
{
    open spec fn obeys_rem_spec() -> bool {
        true
    }

    open spec fn rem_req(self, rhs: Pow2<T>) -> bool {
        true
    }

    open spec fn rem_spec(self, rhs: Pow2<T>) -> isize {
        isize::from_val(trunc_rem(self.val(), rhs.exp()))
    }
}

impl<T: UnsignedInt> RemAssign<Pow2<T>> for isize
where
    isize: IntAtLeastAsWide<T>,
{
    fn rem_assign(&mut self, other: Pow2<T>)
        ensures
            final(self).val() == trunc_rem(old(self).val(), other.exp()),
    {
        proof {
            <isize as IntAtLeastAsWide<T>>::lemma_at_least_as_wide();
        }
        *self = ops::trunc_rem_by(*self, other.exponent() as u32);
    }
}

impl<T: UnsignedInt> Mul<Pow2<T>> for isize
where
    isize: IntAtLeastAsWide<T>,
{
    type Output = isize;

    fn mul(self, other: Pow2<T>) -> (r: isize) {
        proof {
            <isize as IntAtLeastAsWide<T>>::lemma_at_least_as_wide();
        }
        let r = ops::mul_by(self, other.exponent() as u32);
        proof {
            isize::lemma_val(r);
        }
        r
    }
}

impl<T: UnsignedInt> MulSpecImpl<Pow2<T>> for isize
where
    isize: IntAtLeastAsWide<T>,
{
    open spec fn obeys_mul_spec() -> bool {
        true
    }

    open spec fn mul_req(self, rhs: Pow2<T>) -> bool {
        fits::<isize>(self.val() * p2(rhs.exp()))
    }

    open spec fn mul_spec(self, rhs: Pow2<T>) -> isize {
        isize::from_val(self.val() * p2(rhs.exp()))
    }
}

impl<T: UnsignedInt> MulAssign<Pow2<T>> for isize
where
    isize: IntAtLeastAsWide<T>,
{
    fn mul_assign(&mut self, other: Pow2<T>)
        requires
            fits::<isize>(old(self).val() * p2(other.exp())),
        ensures
            final(self).val() == old(self).val() * p2(other.exp()),
    {
        proof {
            <isize as IntAtLeastAsWide<T>>::lemma_at_least_as_wide();
        }
        *self = ops::mul_by(*self, other.exponent() as u32);
    }
}

} // verus!

