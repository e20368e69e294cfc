//! Rounding down to a multiple for every exponent, whose result type differs
//! between signed integers (`None` when the multiple is below the range) and
//! unsigned integers (always representable), implemented for each primitive integer.
use vstd::prelude::*;
use crate::arith::{p2, floor_div};
use crate::integer::Int;
use crate::pow2::UnboundedPow2;
use crate::functions::{some_if_fits, UnboundedFloorToMultiple};
use crate::ops;

verus! {

impl UnboundedFloorToMultiple<UnboundedPow2> for u8 {
    type Output = u8;

    open spec fn unbounded_floor_to_multiple_spec(self, rhs: UnboundedPow2) -> u8 {
        u8::from_val(floor_div(self.val(), rhs.exp()) * p2(rhs.exp()))
    }

    fn unbounded_floor_to_multiple(self, rhs: UnboundedPow2) -> (r: u8) {
        let r = ops::unbounded_floor_multiple_unsigned_by(self, rhs.exponent());
        proof {
            u8::lemma_val(r);
        }
        r
    }
}

impl UnboundedFloorToMultiple<UnboundedPow2> for u16 {
    type Output = u16;

    open spec fn unbounded_floor_to_multiple_spec(self, rhs: UnboundedPow2) -> u16 {
        u16::from_val(floor_div(self.val(), rhs.exp()) * p2(rhs.exp()))
    }

    fn unbounded_floor_to_multiple(self, rhs: UnboundedPow2) -> (r: u16) {
        let r = ops::unbounded_floor_multiple_unsigned_by(self, rhs.exponent());
        proof {
            u16::lemma_val(r);
        }
        r
    }
}

impl UnboundedFloorToMultiple<UnboundedPow2> for u32 {
    type Output = u32;

    open spec fn unbounded_floor_to_multiple_spec(self, rhs: UnboundedPow2) -> u32 {
        u32::from_val(floor_div(self.val(), rhs.exp()) * p2(rhs.exp()))
    }

    fn unbounded_floor_to_multiple(self, rhs: UnboundedPow2) -> (r: u32) {
        let r = ops::unbounded_floor_multiple_unsigned_by(self, rhs.exponent());
        proof {
            u32::lemma_val(r);
        }
        r
    }
}

impl UnboundedFloorToMultiple<UnboundedPow2> for u64 {
    type Output = u64;

    open spec fn unbounded_floor_to_multiple_spec(self, rhs: UnboundedPow2) -> u64 {
        u64::from_val(floor_div(self.val(), rhs.exp()) * p2(rhs.exp()))
    }

    fn unbounded_floor_to_multiple(self, rhs: UnboundedPow2) -> (r: u64) {
        let r = ops::unbounded_floor_multiple_unsigned_by(self, rhs.exponent());
        proof {
            u64::lemma_val(r);
        }
        r
    }
}

impl UnboundedFloorToMultiple<UnboundedPow2> for u128 {
    type Output = u128;

    open spec fn unbounded_floor_to_multiple_spec(self, rhs: UnboundedPow2) -> u128 {
        u128::from_val(floor_div(self.val(), rhs.exp()) * p2(rhs.exp()))
    }

    fn unbounded_floor_to_multiple(self, rhs: UnboundedPow2) -> (r: u128) {
        let r = ops::unbounded_floor_multiple_unsigned_by(self, rhs.exponent());
        proof {
            u128::lemma_val(r);
        }
        r
    }
}

impl UnboundedFloorToMultiple<UnboundedPow2> for usize {
    type Output = usize;

    open spec fn unbounded_floor_to_multiple_spec(self, rhs: UnboundedPow2) -> usize {
        usize::from_val(floor_div(self.val(), rhs.exp()) * p2(rhs.exp()))
    }

    fn unbounded_floor_to_multiple(self, rhs: UnboundedPow2) -> (r: usize) {
        let r = ops::unbounded_floor_multiple_unsigned_by(self, rhs.exponent());
        proof {
            usize::lemma_val(r);
        }
        r
    }
}

impl UnboundedFloorToMultiple<UnboundedPow2> for i8 {
    type Output = Option<i8>;

    open spec fn unbounded_floor_to_multiple_spec(self, rhs: UnboundedPow2) -> Option<i8> {
        some_if_fits::<i8>(floor_div(self.val(), rhs.exp()) * p2(rhs.exp()))
    }

    fn unbounded_floor_to_multiple(self, rhs: UnboundedPow2) -> (r: Option<i8>) {
        let r = ops::unbounded_floor_multiple_by(self, rhs.exponent());
        proof {
            if let Some(v) = r {
                i8::lemma_val(v);
            }
        }
        r
    }
}

impl UnboundedFloorToMultiple<UnboundedPow2> for i16 {
    type Output = Option<i16>;

    open spec fn unbounded_floor_to_multiple_spec(self, rhs: UnboundedPow2) -> Option<i16> {
        some_if_fits::<i16>(floor_div(self.val(), rhs.exp()) * p2(rhs.exp()))
    }

    fn unbounded_floor_to_multiple(self, rhs: UnboundedPow2) -> (r: Option<i16>) {
        let r = ops::unbounded_floor_multiple_by(self, rhs.exponent());
        proof {
            if let Some(v) = r {
                i16::lemma_val(v);
            }
        }
        r
    }
}

impl UnboundedFloorToMultiple<UnboundedPow2> for i32 {
    type Output = Option<i32>;

    open spec fn unbounded_floor_to_multiple_spec(self, rhs: UnboundedPow2) -> Option<i32> {
        some_if_fits::<i32>(floor_div(self.val(), rhs.exp()) * p2(rhs.exp()))
    }

    fn unbounded_floor_to_multiple(self, rhs: UnboundedPow2) -> (r: Option<i32>) {
        let r = ops::unbounded_floor_multiple_by(self, rhs.exponent());
        proof {
            if let Some(v) = r {
                i32::lemma_val(v);
            }
        }
        r
    }
}

impl UnboundedFloorToMultiple<UnboundedPow2> for i64 {
    type Output = Option<i64>;

    open spec fn unbounded_floor_to_multiple_spec(self, rhs: UnboundedPow2) -> Option<i64> {
        some_if_fits::<i64>(floor_div(self.val(), rhs.exp()) * p2(rhs.exp()))
    }

    fn unbounded_floor_to_multiple(self, rhs: UnboundedPow2) -> (r: Option<i64>) {
        let r = ops::unbounded_floor_multiple_by(self, rhs.exponent());
        proof {
            if let Some(v) = r {
                i64::lemma_val(v);
            }
        }
        r
    }
}

impl UnboundedFloorToMultiple<UnboundedPow2> for i128 {
    type Output = Option<i128>;

    open spec fn unbounded_floor_to_multiple_spec(self, rhs: UnboundedPow2) -> Option<i128> {
        some_if_fits::<i128>(floor_div(self.val(), rhs.exp()) * p2(rhs.exp()))
    }

    fn unbounded_floor_to_multiple(self, rhs: UnboundedPow2) -> (r: Option<i128>) {
        let r = ops::unbounded_floor_multiple_by(self, rhs.exponent());
        proof {
            if let Some(v) = r {
                i128::lemma_val(v);
            }
        }
        r
    }
}

impl UnboundedFloorToMultiple<UnboundedPow2> for isize {
    type Output = Option<isize>;

    open spec fn unbounded_floor_to_multiple_spec(self, rhs: UnboundedPow2) -> Option<isize> {
        some_if_fits::<isize>(floor_div(self.val(), rhs.exp()) * p2(rhs.exp()))
    }

    fn unbounded_floor_to_multiple(self, rhs: UnboundedPow2) -> (r: Option<isize>) {
        let r = ops::unbounded_floor_multiple_by(self, rhs.exponent());
        proof {
            if let Some(v) = r {
                isize::lemma_val(v);
            }
        }
        r
    }
}

} // verus!

