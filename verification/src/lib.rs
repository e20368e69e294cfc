//! Efficient power-of-two abstraction.
//!
//! [`Pow2<T>`] is a power of two whose exponent is a valid shift amount for the
//! unsigned integer `T` (and so for every integer at least as wide), and
//! [`UnboundedPow2`] is a power of two with any exponent in `0..=255`. Every
//! primitive integer can be divided by them (rounding down, up, to the nearest or
//! towards zero), reduced modulo them, multiplied by them and rounded to their
//! multiples, through the operators and through the free functions of
//! [`functions`], which dispatch through a trait of the same name.
//!
//! Each operation is specified against the model of [`arith`]: exact division and
//! remainder by `2^e` over unbounded integers.
use vstd::prelude::*;

pub mod arith;
pub mod integer;
pub mod bits;
pub mod pow2;
mod ops;
pub mod functions;
mod unbounded_floor;
mod operators;
pub mod laws;
mod int_impls;

pub use crate::integer::{Int, IntAtLeastAsWide, IntRounding, SealedInt, SignedInt, UnsignedInt};
pub use crate::pow2::{
    NotPow2, Pow2, Pow2OutOfRange, Pow2TryFromIntError, UnboundedPow2, Pow2u8, Pow2u16, Pow2u32,
    Pow2u64, Pow2u128, Pow2usize,
};
pub use crate::functions::{
    CheckedMul, checked_mul, CheckedDiv, checked_div, UnboundedDiv, unbounded_div, CheckedRem,
    checked_rem, UnboundedRem, unbounded_rem, DivFloor, div_floor, CheckedDivFloor,
    checked_div_floor, UnboundedDivFloor, unbounded_div_floor, RemFloor, rem_floor,
    CheckedRemFloor, checked_rem_floor, DivCeil, div_ceil, CheckedDivCeil, checked_div_ceil,
    UnboundedDivCeil, unbounded_div_ceil, DivRound, div_round, CheckedDivRound, checked_div_round,
    UnboundedDivRound, unbounded_div_round, IsMultipleOf, is_multiple_of, UnboundedIsMultipleOf,
    unbounded_is_multiple_of, FloorToMultiple, floor_to_multiple, CheckedFloorToMultiple,
    checked_floor_to_multiple, UnboundedFloorToMultiple, unbounded_floor_to_multiple,
    CeilToMultiple, ceil_to_multiple, CheckedCeilToMultiple, checked_ceil_to_multiple,
    UnboundedCeilToMultiple, unbounded_ceil_to_multiple, RoundToMultiple, round_to_multiple,
    CheckedRoundToMultiple, checked_round_to_multiple, UnboundedRoundToMultiple,
    unbounded_round_to_multiple,
};
