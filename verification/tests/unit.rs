//! Unit tests of the power-of-two types, their conversions and every operation.

use ipow2::{
    NotPow2, Pow2, Pow2OutOfRange, Pow2TryFromIntError, UnboundedPow2, ceil_to_multiple,
    checked_ceil_to_multiple, checked_div, checked_div_ceil, checked_div_floor, checked_div_round,
    checked_floor_to_multiple, checked_mul, checked_rem, checked_rem_floor,
    checked_round_to_multiple, div_ceil, div_floor, div_round, floor_to_multiple, is_multiple_of,
    rem_floor, unbounded_ceil_to_multiple, unbounded_div, unbounded_div_ceil, unbounded_div_floor,
    unbounded_div_round, unbounded_floor_to_multiple, unbounded_is_multiple_of, unbounded_rem,
    unbounded_round_to_multiple,
};
use std::hash::{DefaultHasher, Hash, Hasher};

#[test]
fn unb_pow2_constructible_from_any_u8_exponent() {
    for e in 0_u8..=u8::MAX {
        assert_eq!(UnboundedPow2::from_exponent(e).exponent(), e);
    }
}

#[test]
fn unb_pow2_constructible_from_align_of() {
    assert_eq!(
        UnboundedPow2::align_of::<()>(),
        UnboundedPow2::from_exponent(0)
    );
    assert_eq!(
        UnboundedPow2::align_of::<u8>(),
        UnboundedPow2::from_exponent(0)
    );
    assert_eq!(
        UnboundedPow2::align_of::<u32>(),
        UnboundedPow2::from_exponent(2)
    );
    assert_eq!(
        UnboundedPow2::align_of::<u128>(),
        UnboundedPow2::from_exponent(4)
    );
}

#[test]
fn unb_pow2_constructible_from_align_of_val() {
    assert_eq!(
        UnboundedPow2::align_of_val(&()),
        UnboundedPow2::from_exponent(0)
    );
    assert_eq!(
        UnboundedPow2::align_of_val(&0_u8),
        UnboundedPow2::from_exponent(0)
    );
    assert_eq!(
        UnboundedPow2::align_of_val(&0_u32),
        UnboundedPow2::from_exponent(2)
    );
    assert_eq!(
        UnboundedPow2::align_of_val(&0_u128),
        UnboundedPow2::from_exponent(4)
    );
}

#[test]
fn unb_pow2_try_from_power_of_two_int() {
    assert_eq!(
        UnboundedPow2::try_from(32_i8),
        Ok(UnboundedPow2::from_exponent(5))
    );
    assert_eq!(
        UnboundedPow2::try_from(32_u8),
        Ok(UnboundedPow2::from_exponent(5))
    );
    assert_eq!(
        UnboundedPow2::try_from(32_i16),
        Ok(UnboundedPow2::from_exponent(5))
    );
    assert_eq!(
        UnboundedPow2::try_from(32_u16),
        Ok(UnboundedPow2::from_exponent(5))
    );
    assert_eq!(
        UnboundedPow2::try_from(32_i32),
        Ok(UnboundedPow2::from_exponent(5))
    );
    assert_eq!(
        UnboundedPow2::try_from(32_u32),
        Ok(UnboundedPow2::from_exponent(5))
    );
    assert_eq!(
        UnboundedPow2::try_from(32_i64),
        Ok(UnboundedPow2::from_exponent(5))
    );
    assert_eq!(
        UnboundedPow2::try_from(32_u64),
        Ok(UnboundedPow2::from_exponent(5))
    );
    assert_eq!(
        UnboundedPow2::try_from(32_i128),
        Ok(UnboundedPow2::from_exponent(5))
    );
    assert_eq!(
        UnboundedPow2::try_from(32_u128),
        Ok(UnboundedPow2::from_exponent(5))
    );
    assert_eq!(
        UnboundedPow2::try_from(32_isize),
        Ok(UnboundedPow2::from_exponent(5))
    );
    assert_eq!(
        UnboundedPow2::try_from(32_usize),
        Ok(UnboundedPow2::from_exponent(5))
    );
}

#[test]
fn pow2_try_from_power_of_two_int() {
    assert_eq!(
        Pow2::<u8>::try_from(32_i8),
        Ok(Pow2::<u8>::from_exponent(5).unwrap())
    );
    assert_eq!(
        Pow2::<u8>::try_from(32_u8),
        Ok(Pow2::<u8>::from_exponent(5).unwrap())
    );
    assert_eq!(
        Pow2::<u8>::try_from(32_i16),
        Ok(Pow2::<u8>::from_exponent(5).unwrap())
    );
    assert_eq!(
        Pow2::<u8>::try_from(32_u16),
        Ok(Pow2::<u8>::from_exponent(5).unwrap())
    );
    assert_eq!(
        Pow2::<u8>::try_from(32_i32),
        Ok(Pow2::<u8>::from_exponent(5).unwrap())
    );
    assert_eq!(
        Pow2::<u8>::try_from(32_u32),
        Ok(Pow2::<u8>::from_exponent(5).unwrap())
    );
    assert_eq!(
        Pow2::<u8>::try_from(32_i64),
        Ok(Pow2::<u8>::from_exponent(5).unwrap())
    );
    assert_eq!(
        Pow2::<u8>::try_from(32_u64),
        Ok(Pow2::<u8>::from_exponent(5).unwrap())
    );
    assert_eq!(
        Pow2::<u8>::try_from(32_i128),
        Ok(Pow2::<u8>::from_exponent(5).unwrap())
    );
    assert_eq!(
        Pow2::<u8>::try_from(32_u128),
        Ok(Pow2::<u8>::from_exponent(5).unwrap())
    );
    assert_eq!(
        Pow2::<u8>::try_from(32_isize),
        Ok(Pow2::<u8>::from_exponent(5).unwrap())
    );
    assert_eq!(
        Pow2::<u8>::try_from(32_usize),
        Ok(Pow2::<u8>::from_exponent(5).unwrap())
    );
}

#[test]
fn unb_pow2_try_from_near_power_of_two() {
    assert_eq!(UnboundedPow2::try_from(31_i8), Err(NotPow2));
    assert_eq!(UnboundedPow2::try_from(33_i8), Err(NotPow2));
}

#[test]
fn pow2_try_from_near_power_of_two() {
    assert_eq!(
        Pow2::<u8>::try_from(31_i8),
        Err(Pow2TryFromIntError::NotPow2)
    );
    assert_eq!(
        Pow2::<u8>::try_from(33_i8),
        Err(Pow2TryFromIntError::NotPow2)
    );
}

#[test]
fn pow2_try_from_out_of_range() {
    assert_eq!(
        Pow2::<u8>::try_from(i32::MAX as u32 + 1),
        Err(Pow2TryFromIntError::Pow2OutOfRange)
    );
    assert_eq!(
        Pow2::<u8>::try_from(i16::MAX as u64 + 1),
        Err(Pow2TryFromIntError::Pow2OutOfRange)
    );
}

#[test]
fn unb_pow2_try_from_zero() {
    assert_eq!(UnboundedPow2::try_from(0_i8), Err(NotPow2));
}

#[test]
fn unb_pow2_try_from_negative() {
    assert_eq!(UnboundedPow2::try_from(-1_i8), Err(NotPow2));
}

#[test]
fn unb_pow2_try_from_min() {
    assert_eq!(UnboundedPow2::try_from(i64::MIN), Err(NotPow2));
}

#[test]
fn unb_pow2_try_from_max() {
    assert_eq!(UnboundedPow2::try_from(i64::MAX), Err(NotPow2));
}

#[test]
fn unb_pow2_from_pow2() {
    assert_eq!(
        UnboundedPow2::from(Pow2::<u32>::from_exponent(13).unwrap()).exponent(),
        13
    );
    assert_eq!(
        UnboundedPow2::from(Pow2::<u128>::from_exponent(127).unwrap()).exponent(),
        127
    );
}

#[test]
fn pow2_try_from_pow2() {
    assert_eq!(
        Pow2::<u32>::try_from(UnboundedPow2::from_exponent(123)),
        Err(Pow2OutOfRange)
    );
    assert_eq!(
        Pow2::<u64>::try_from(UnboundedPow2::from_exponent(123)),
        Err(Pow2OutOfRange)
    );
    assert_eq!(
        Pow2::<u128>::try_from(UnboundedPow2::from_exponent(123)),
        Ok(Pow2::<u128>::from_exponent(123).unwrap())
    );
}

#[test]
fn unb_pow2_as_int_all_types() {
    let p = UnboundedPow2::from_exponent(6);
    assert_eq!(p.as_i8(), 64);
    assert_eq!(p.as_u8(), 64);
    assert_eq!(p.as_i16(), 64);
    assert_eq!(p.as_u16(), 64);
    assert_eq!(p.as_i32(), 64);
    assert_eq!(p.as_u32(), 64);
    assert_eq!(p.as_i64(), 64);
    assert_eq!(p.as_u64(), 64);
    assert_eq!(p.as_i128(), 64);
    assert_eq!(p.as_u128(), 64);
    assert_eq!(p.as_isize(), 64);
    assert_eq!(p.as_usize(), 64);
}

#[test]
fn unb_pow2_as_int_max_fitting() {
    assert_eq!(UnboundedPow2::from_exponent(6).as_i8(), 1 << 6);
    assert_eq!(UnboundedPow2::from_exponent(7).as_u8(), 1 << 7);
    assert_eq!(UnboundedPow2::from_exponent(14).as_i16(), 1 << 14);
    assert_eq!(UnboundedPow2::from_exponent(15).as_u16(), 1 << 15);
    assert_eq!(UnboundedPow2::from_exponent(30).as_i32(), 1 << 30);
    assert_eq!(UnboundedPow2::from_exponent(31).as_u32(), 1 << 31);
    assert_eq!(UnboundedPow2::from_exponent(62).as_i64(), 1 << 62);
    assert_eq!(UnboundedPow2::from_exponent(63).as_u64(), 1 << 63);
    assert_eq!(UnboundedPow2::from_exponent(126).as_i128(), 1 << 126);
    assert_eq!(UnboundedPow2::from_exponent(127).as_u128(), 1 << 127);
}

#[test]
fn unb_pow2_to_int() {
    assert_eq!(i8::try_from(UnboundedPow2::from_exponent(6)), Ok(1 << 6));
    assert_eq!(
        i8::try_from(UnboundedPow2::from_exponent(7)),
        Err(Pow2OutOfRange)
    );

    assert_eq!(u8::try_from(UnboundedPow2::from_exponent(7)), Ok(1 << 7));
    assert_eq!(
        u8::try_from(UnboundedPow2::from_exponent(8)),
        Err(Pow2OutOfRange)
    );

    assert_eq!(i16::try_from(UnboundedPow2::from_exponent(14)), Ok(1 << 14));
    assert_eq!(
        i16::try_from(UnboundedPow2::from_exponent(15)),
        Err(Pow2OutOfRange)
    );

    assert_eq!(u16::try_from(UnboundedPow2::from_exponent(15)), Ok(1 << 15));
    assert_eq!(
        u16::try_from(UnboundedPow2::from_exponent(16)),
        Err(Pow2OutOfRange)
    );

    assert_eq!(i32::try_from(UnboundedPow2::from_exponent(30)), Ok(1 << 30));
    assert_eq!(
        i32::try_from(UnboundedPow2::from_exponent(31)),
        Err(Pow2OutOfRange)
    );

    assert_eq!(u32::try_from(UnboundedPow2::from_exponent(31)), Ok(1 << 31));
    assert_eq!(
        u32::try_from(UnboundedPow2::from_exponent(32)),
        Err(Pow2OutOfRange)
    );

    assert_eq!(i64::try_from(UnboundedPow2::from_exponent(62)), Ok(1 << 62));
    assert_eq!(
        i64::try_from(UnboundedPow2::from_exponent(63)),
        Err(Pow2OutOfRange)
    );

    assert_eq!(u64::try_from(UnboundedPow2::from_exponent(63)), Ok(1 << 63));
    assert_eq!(
        u64::try_from(UnboundedPow2::from_exponent(64)),
        Err(Pow2OutOfRange)
    );

    assert_eq!(
        i128::try_from(UnboundedPow2::from_exponent(126)),
        Ok(1 << 126)
    );
    assert_eq!(
        i128::try_from(UnboundedPow2::from_exponent(127)),
        Err(Pow2OutOfRange)
    );

    assert_eq!(
        u128::try_from(UnboundedPow2::from_exponent(127)),
        Ok(1 << 127)
    );
    assert_eq!(
        u128::try_from(UnboundedPow2::from_exponent(128)),
        Err(Pow2OutOfRange)
    );
}

#[test]
fn pow2_from_exponent() {
    let v = Pow2::<u8>::from_exponent(7);
    assert!(v.is_ok());
    assert_eq!(v.unwrap().exponent(), 7);

    let v = Pow2::<u8>::from_exponent(8);
    assert!(v.is_err());

    let v = Pow2::<u128>::from_exponent(127);
    assert!(v.is_ok());
    assert_eq!(v.unwrap().exponent(), 127);

    let v = Pow2::<u128>::from_exponent(128);
    assert!(v.is_err());
}

#[test]
fn pow2_value() {
    let v = Pow2::<u8>::from_exponent(0);
    assert!(v.is_ok());
    assert_eq!(v.unwrap().value(), 1);

    let v = Pow2::<u8>::from_exponent(7);
    assert!(v.is_ok());
    assert_eq!(v.unwrap().value(), 128);
}

#[test]
fn unb_pow2_mul() {
    let lhs = UnboundedPow2::from_exponent(6);
    let rhs = UnboundedPow2::from_exponent(7);
    assert_eq!(lhs * rhs, UnboundedPow2::from_exponent(13));
    assert_eq!(rhs * lhs, UnboundedPow2::from_exponent(13));
}

#[test]
fn pow2_from_other() {
    assert_eq!(
        Pow2::<u16>::from(Pow2::<u8>::from_exponent(7).unwrap()),
        Pow2::<u16>::from_exponent(7).unwrap()
    );
    assert_eq!(
        Pow2::<u32>::from(Pow2::<u8>::from_exponent(7).unwrap()),
        Pow2::<u32>::from_exponent(7).unwrap()
    );
    assert_eq!(
        Pow2::<u64>::from(Pow2::<u8>::from_exponent(7).unwrap()),
        Pow2::<u64>::from_exponent(7).unwrap()
    );
    assert_eq!(
        Pow2::<u64>::from(Pow2::<u32>::from_exponent(31).unwrap()),
        Pow2::<u64>::from_exponent(31).unwrap()
    );

    /* // should not compile
    assert_eq!(Pow2::<u32>::from(Pow2::<u64>::from_exponent(31).unwrap()), Pow2::<u32>::from_exponent(31).unwrap());
    */
}

#[test]
fn pow2_try_from_other() {
    assert_eq!(
        Pow2::<u8>::try_from(Pow2::<u16>::from_exponent(7).unwrap()),
        Ok(Pow2::<u8>::from_exponent(7).unwrap())
    );
    assert_eq!(
        Pow2::<u8>::try_from(Pow2::<u16>::from_exponent(8).unwrap()),
        Err(Pow2OutOfRange)
    );
    assert_eq!(
        Pow2::<u8>::try_from(Pow2::<u32>::from_exponent(7).unwrap()),
        Ok(Pow2::<u8>::from_exponent(7).unwrap())
    );
    assert_eq!(
        Pow2::<u8>::try_from(Pow2::<u64>::from_exponent(7).unwrap()),
        Ok(Pow2::<u8>::from_exponent(7).unwrap())
    );
    assert_eq!(
        Pow2::<u32>::try_from(Pow2::<u128>::from_exponent(31).unwrap()),
        Ok(Pow2::<u32>::from_exponent(31).unwrap())
    );
    assert_eq!(
        Pow2::<u32>::try_from(Pow2::<u128>::from_exponent(32).unwrap()),
        Err(Pow2OutOfRange)
    );
}

#[test]
fn unb_pow2_mul_assign() {
    let lhs = UnboundedPow2::from_exponent(6);
    let rhs = UnboundedPow2::from_exponent(7);
    let mut new_lhs = lhs;
    new_lhs *= rhs;
    assert_eq!(new_lhs, UnboundedPow2::from_exponent(13));

    let mut new_rhs = rhs;
    new_rhs *= lhs;
    assert_eq!(new_rhs, UnboundedPow2::from_exponent(13));
}

#[test]
fn unb_pow2_mul_zero() {
    let lhs = UnboundedPow2::from_exponent(65);
    let rhs = UnboundedPow2::from_exponent(0);
    assert_eq!(lhs * rhs, lhs);
    assert_eq!(rhs * lhs, lhs);
}

#[test]
fn unb_pow2_mul_assign_zero() {
    let lhs = UnboundedPow2::from_exponent(65);
    let rhs = UnboundedPow2::from_exponent(0);
    let mut new_lhs = lhs;
    new_lhs *= rhs;
    assert_eq!(new_lhs, lhs);

    let mut new_rhs = rhs;
    new_rhs *= lhs;
    assert_eq!(new_rhs, lhs);
}

#[test]
fn unb_pow2_checked_mul() {
    assert_eq!(
        UnboundedPow2::from_exponent(12).checked_mul(UnboundedPow2::from_exponent(13)),
        Some(UnboundedPow2::from_exponent(25))
    );
    assert_eq!(
        UnboundedPow2::from_exponent(12).checked_mul(UnboundedPow2::from_exponent(0)),
        Some(UnboundedPow2::from_exponent(12))
    );
    assert_eq!(
        UnboundedPow2::from_exponent(0).checked_mul(UnboundedPow2::from_exponent(13)),
        Some(UnboundedPow2::from_exponent(13))
    );
}

#[test]
fn unb_pow2_checked_mul_boundary() {
    assert_eq!(
        UnboundedPow2::from_exponent(254).checked_mul(UnboundedPow2::from_exponent(1)),
        Some(UnboundedPow2::from_exponent(255))
    );
    assert_eq!(
        UnboundedPow2::from_exponent(254).checked_mul(UnboundedPow2::from_exponent(2)),
        None
    );
}

#[test]
fn pow2_checked_mul_boundary() {
    assert_eq!(
        Pow2::<u32>::from_exponent(12)
            .unwrap()
            .checked_mul(Pow2::<u32>::from_exponent(19).unwrap()),
        Some(Pow2::<u32>::from_exponent(31).unwrap())
    );
    assert_eq!(
        Pow2::<u32>::from_exponent(12)
            .unwrap()
            .checked_mul(Pow2::<u32>::from_exponent(20).unwrap()),
        None
    );
}

#[test]
fn unb_pow2_saturating_mul() {
    assert_eq!(
        UnboundedPow2::from_exponent(13).saturating_mul(UnboundedPow2::from_exponent(14)),
        UnboundedPow2::from_exponent(27)
    );
    assert_eq!(
        UnboundedPow2::from_exponent(13).saturating_mul(UnboundedPow2::from_exponent(0)),
        UnboundedPow2::from_exponent(13)
    );
    assert_eq!(
        UnboundedPow2::from_exponent(0).saturating_mul(UnboundedPow2::from_exponent(14)),
        UnboundedPow2::from_exponent(14)
    );
}

#[test]
fn unb_pow2_saturating_mul_boundary() {
    assert_eq!(
        UnboundedPow2::from_exponent(254).saturating_mul(UnboundedPow2::from_exponent(1)),
        UnboundedPow2::from_exponent(255)
    );
    assert_eq!(
        UnboundedPow2::from_exponent(254).saturating_mul(UnboundedPow2::from_exponent(2)),
        UnboundedPow2::from_exponent(255)
    );
}

#[test]
fn pow2_saturating_mul_boundary() {
    assert_eq!(
        Pow2::<u32>::from_exponent(12)
            .unwrap()
            .saturating_mul(Pow2::<u32>::from_exponent(18).unwrap()),
        Pow2::<u32>::from_exponent(30).unwrap()
    );
    assert_eq!(
        Pow2::<u32>::from_exponent(12)
            .unwrap()
            .saturating_mul(Pow2::<u32>::from_exponent(19).unwrap()),
        Pow2::<u32>::from_exponent(31).unwrap()
    );
    assert_eq!(
        Pow2::<u32>::from_exponent(12)
            .unwrap()
            .saturating_mul(Pow2::<u32>::from_exponent(20).unwrap()),
        Pow2::<u32>::from_exponent(31).unwrap()
    );
}

#[test]
fn unb_pow2_div_positive() {
    let lhs = UnboundedPow2::from_exponent(6);
    let rhs = UnboundedPow2::from_exponent(3);
    assert_eq!(lhs / rhs, UnboundedPow2::from_exponent(3));
}

#[test]
fn unb_pow2_div_assign_positive() {
    let mut lhs = UnboundedPow2::from_exponent(6);
    let rhs = UnboundedPow2::from_exponent(3);
    lhs /= rhs;
    assert_eq!(lhs, UnboundedPow2::from_exponent(3));
}

#[test]
fn unb_pow2_checked_div_overflow() {
    let lhs = UnboundedPow2::from_exponent(3);
    let rhs = UnboundedPow2::from_exponent(6);
    assert_eq!(lhs.checked_div(rhs), None);
    assert_eq!(rhs.checked_div(lhs), Some(UnboundedPow2::from_exponent(3)));
}

#[test]
fn pow2_checked_div_overflow() {
    let lhs = Pow2::<u32>::from_exponent(3).unwrap();
    let rhs = Pow2::<u32>::from_exponent(6).unwrap();
    assert_eq!(lhs.checked_div(rhs), None);
    assert_eq!(
        rhs.checked_div(lhs),
        Some(Pow2::<u32>::from_exponent(3).unwrap())
    );
}

#[test]
fn unb_pow2_saturating_div_overflow() {
    let lhs = UnboundedPow2::from_exponent(3);
    let rhs = UnboundedPow2::from_exponent(6);
    assert_eq!(lhs.saturating_div(rhs), UnboundedPow2::from_exponent(0));
    assert_eq!(rhs.saturating_div(lhs), UnboundedPow2::from_exponent(3));
}

#[test]
fn pow2_saturating_div_overflow() {
    let lhs = Pow2::<u32>::from_exponent(3).unwrap();
    let rhs = Pow2::<u32>::from_exponent(6).unwrap();
    assert_eq!(
        lhs.saturating_div(rhs),
        Pow2::<u32>::from_exponent(0).unwrap()
    );
    assert_eq!(
        rhs.saturating_div(lhs),
        Pow2::<u32>::from_exponent(3).unwrap()
    );
}

#[test]
fn unb_pow2_div_one() {
    let lhs = UnboundedPow2::from_exponent(3);
    let rhs = UnboundedPow2::from_exponent(0);
    assert_eq!(lhs / rhs, lhs);
}

#[test]
fn unb_pow2_div_assign_one() {
    let lhs = UnboundedPow2::from_exponent(3);
    let rhs = UnboundedPow2::from_exponent(0);
    let mut new_lhs = lhs;
    new_lhs /= rhs;
    assert_eq!(new_lhs, lhs);
}

#[test]
fn unb_pow2_div_self() {
    let v = UnboundedPow2::from_exponent(123);
    assert_eq!(v / v, UnboundedPow2::from_exponent(0));
}

#[test]
fn unb_pow2_div_assign_self() {
    let mut v = UnboundedPow2::from_exponent(123);
    v /= v;
    assert_eq!(v, UnboundedPow2::from_exponent(0));
}

#[test]
fn unb_pow2_int_mul_one() {
    assert_eq!(123 * UnboundedPow2::from_exponent(0), 123);
    assert_eq!(-123 * UnboundedPow2::from_exponent(0), -123);
}

#[test]
fn unb_pow2_int_mul_assign_one() {
    let mut v = 123;
    v *= UnboundedPow2::from_exponent(0);
    assert_eq!(v, 123);

    let mut v = -123;
    v *= UnboundedPow2::from_exponent(0);
    assert_eq!(v, -123);
}

#[test]
fn unb_pow2_int_mul() {
    assert_eq!(123_i32 * UnboundedPow2::from_exponent(15), 123 << 15);
    assert_eq!(-123_i32 * UnboundedPow2::from_exponent(15), -123 << 15);
    assert_eq!(123_i64 * UnboundedPow2::from_exponent(32), 123 << 32);
    assert_eq!(-123_i64 * UnboundedPow2::from_exponent(32), -123 << 32);
    assert_eq!(123_u64 * UnboundedPow2::from_exponent(46), 123 << 46);
}

#[test]
fn unb_pow2_int_mul_assign() {
    let mut v = 123_i32;
    v *= UnboundedPow2::from_exponent(15);
    assert_eq!(v, 123 << 15);

    let mut v = -123_i32;
    v *= UnboundedPow2::from_exponent(15);
    assert_eq!(v, -123 << 15);

    let mut v = 123_i64;
    v *= UnboundedPow2::from_exponent(32);
    assert_eq!(v, 123 << 32);

    let mut v = -123_i64;
    v *= UnboundedPow2::from_exponent(32);
    assert_eq!(v, -123 << 32);

    let mut v = 123_u64;
    v *= UnboundedPow2::from_exponent(46);
    assert_eq!(v, 123 << 46);
}

#[test]
fn unb_pow2_int_checked_mul_boundary() {
    assert_eq!(
        checked_mul(i32::MAX as u32 + 1, UnboundedPow2::from_exponent(1)),
        None
    );
    assert_eq!(
        checked_mul(i32::MAX as u32, UnboundedPow2::from_exponent(1)),
        Some(u32::MAX - 1)
    );
}

#[test]
fn pow2_int_checked_mul_boundary() {
    assert_eq!(
        checked_mul(i32::MAX as u32 + 1, Pow2::<u32>::from_exponent(1).unwrap()),
        None
    );
    assert_eq!(
        checked_mul(i32::MAX as u32 + 1, Pow2::<u8>::from_exponent(1).unwrap()),
        None
    );
    assert_eq!(
        checked_mul(i32::MAX as u32, Pow2::<u32>::from_exponent(1).unwrap()),
        Some(u32::MAX - 1)
    );

    /* // Should not compile.
    assert_eq!(
        checked_mul(i32::MAX as u32, Pow2::<u64>::from_exponent(1).unwrap()),
        Some(u32::MAX - 1)
    );
    */
}

#[test]
fn unb_pow2_int_div_exact() {
    assert_eq!(32u64 / UnboundedPow2::from_exponent(5), 1);
    assert_eq!(64u64 / UnboundedPow2::from_exponent(3), 8);
    assert_eq!(-64i64 / UnboundedPow2::from_exponent(3), -8);
}

#[test]
fn unb_pow2_int_div_assign_exact() {
    let mut v = 32u64;
    v /= UnboundedPow2::from_exponent(5);
    assert_eq!(v, 1);

    let mut v = 64u64;
    v /= UnboundedPow2::from_exponent(3);
    assert_eq!(v, 8);

    let mut v = -64i64;
    v /= UnboundedPow2::from_exponent(3);
    assert_eq!(v, -8);
}

#[test]
fn unb_pow2_int_div_rounds_towards_zero() {
    assert_eq!(37u64 / UnboundedPow2::from_exponent(5), 1);
    assert_eq!(63u64 / UnboundedPow2::from_exponent(5), 1);
    assert_eq!(-37i64 / UnboundedPow2::from_exponent(5), -1);
    assert_eq!(-1i64 / UnboundedPow2::from_exponent(5), 0);
}

#[test]
fn pow2_int_div_rounds_towards_zero() {
    assert_eq!(37u64 / Pow2::<u8>::from_exponent(5).unwrap(), 1);
    assert_eq!(63u64 / Pow2::<u8>::from_exponent(5).unwrap(), 1);
    assert_eq!(-37i64 / Pow2::<u8>::from_exponent(5).unwrap(), -1);
    assert_eq!(-1i64 / Pow2::<u8>::from_exponent(5).unwrap(), 0);
}

#[test]
fn unb_pow2_int_div_assign_rounds_towards_zero() {
    let mut v = 37u64;
    v /= UnboundedPow2::from_exponent(5);
    assert_eq!(v, 1);

    let mut v = 63u64;
    v /= UnboundedPow2::from_exponent(5);
    assert_eq!(v, 1);

    let mut v = -37i64;
    v /= UnboundedPow2::from_exponent(5);
    assert_eq!(v, -1);

    let mut v = -1i64;
    v /= UnboundedPow2::from_exponent(5);
    assert_eq!(v, 0);
}

#[test]
fn pow2_int_div_assign_rounds_towards_zero() {
    let mut v = 37u64;
    v /= Pow2::<u8>::from_exponent(5).unwrap();
    assert_eq!(v, 1);

    let mut v = 63u64;
    v /= Pow2::<u8>::from_exponent(5).unwrap();
    assert_eq!(v, 1);

    let mut v = -37i64;
    v /= Pow2::<u8>::from_exponent(5).unwrap();
    assert_eq!(v, -1);

    let mut v = -1i64;
    v /= Pow2::<u8>::from_exponent(5).unwrap();
    assert_eq!(v, 0);
}

#[test]
fn unb_pow2_int_div_by_one_is_identity() {
    assert_eq!(42i64 / UnboundedPow2::from_exponent(0), 42);
    assert_eq!(-42i64 / UnboundedPow2::from_exponent(0), -42);
}

#[test]
fn unb_pow2_int_div_assign_by_one_is_identity() {
    let mut v = 42i64;
    v /= UnboundedPow2::from_exponent(0);
    assert_eq!(v, 42);

    let mut v = -42i64;
    v /= UnboundedPow2::from_exponent(0);
    assert_eq!(v, -42);
}

#[test]
fn unb_pow2_int_div_min() {
    assert_eq!(i32::MIN / UnboundedPow2::from_exponent(30), -2);
    assert_eq!(i32::MIN / UnboundedPow2::from_exponent(31), -1);
}

#[test]
fn unb_pow2_int_div_assign_min() {
    let mut v = i32::MIN;
    v /= UnboundedPow2::from_exponent(30);
    assert_eq!(v, -2);

    let mut v = i32::MIN;
    v /= UnboundedPow2::from_exponent(31);
    assert_eq!(v, -1);
}

#[test]
fn unb_pow2_int_div_max() {
    assert_eq!(i32::MAX / UnboundedPow2::from_exponent(30), 1);
    assert_eq!(i32::MAX / UnboundedPow2::from_exponent(31), 0);
    assert_eq!(u32::MAX / UnboundedPow2::from_exponent(31), 1);
}

#[test]
fn unb_pow2_int_div_assign_max() {
    let mut v = i32::MAX;
    v /= UnboundedPow2::from_exponent(30);
    assert_eq!(v, 1);

    let mut v = i32::MAX;
    v /= UnboundedPow2::from_exponent(31);
    assert_eq!(v, 0);

    let mut v = u32::MAX;
    v /= UnboundedPow2::from_exponent(31);
    assert_eq!(v, 1);
}

#[test]
fn unb_pow2_checked_div_boundary() {
    assert_eq!(
        checked_div(i32::MAX, UnboundedPow2::from_exponent(30)),
        Some(1)
    );
    assert_eq!(
        checked_div(i32::MIN, UnboundedPow2::from_exponent(30)),
        Some(-2)
    );
    assert_eq!(
        checked_div(123_i32, UnboundedPow2::from_exponent(31)),
        Some(0)
    );
    assert_eq!(
        checked_div(-123_i32, UnboundedPow2::from_exponent(31)),
        Some(0)
    );
    assert_eq!(checked_div(123_i32, UnboundedPow2::from_exponent(32)), None);
    assert_eq!(
        checked_div(-123_i32, UnboundedPow2::from_exponent(32)),
        None
    );
}

#[test]
fn unb_pow2_unbounded_div_boundary() {
    assert_eq!(unbounded_div(i32::MAX, UnboundedPow2::from_exponent(30)), 1);
    assert_eq!(unbounded_div(i32::MAX, UnboundedPow2::from_exponent(31)), 0);
    assert_eq!(
        unbounded_div(i32::MIN, UnboundedPow2::from_exponent(30)),
        -2
    );
    assert_eq!(
        unbounded_div(i32::MIN, UnboundedPow2::from_exponent(31)),
        -1
    );
    assert_eq!(unbounded_div(i32::MIN, UnboundedPow2::from_exponent(32)), 0);
    assert_eq!(unbounded_div(123_i32, UnboundedPow2::from_exponent(31)), 0);
    assert_eq!(unbounded_div(-123_i32, UnboundedPow2::from_exponent(31)), 0);
    assert_eq!(unbounded_div(123_i32, UnboundedPow2::from_exponent(32)), 0);
    assert_eq!(unbounded_div(-123_i32, UnboundedPow2::from_exponent(32)), 0);
}

#[test]
fn unb_pow2_rem() {
    assert_eq!(130i32 % UnboundedPow2::from_exponent(4), 2);
    assert_eq!(i32::MIN % UnboundedPow2::from_exponent(4), 0);
    assert_eq!((i32::MIN + 1) % UnboundedPow2::from_exponent(4), -15);
    assert_eq!(i32::MAX % UnboundedPow2::from_exponent(4), 15);
}

#[test]
fn unb_pow2_rem_assign() {
    let mut v = 130i32;
    v %= UnboundedPow2::from_exponent(4);
    assert_eq!(v, 2);

    let mut v = i32::MIN;
    v %= UnboundedPow2::from_exponent(4);
    assert_eq!(v, 0);

    let mut v = i32::MIN + 1;
    v %= UnboundedPow2::from_exponent(4);
    assert_eq!(v, -15);

    let mut v = i32::MAX;
    v %= UnboundedPow2::from_exponent(4);
    assert_eq!(v, 15);
}

#[test]
fn unb_pow2_checked_rem() {
    assert_eq!(
        checked_rem(130i32, UnboundedPow2::from_exponent(4)),
        Some(2)
    );
    assert_eq!(
        checked_rem(i32::MIN, UnboundedPow2::from_exponent(4)),
        Some(0)
    );
    assert_eq!(
        checked_rem(i32::MIN + 1, UnboundedPow2::from_exponent(4)),
        Some(-15)
    );
    assert_eq!(
        checked_rem(i32::MAX, UnboundedPow2::from_exponent(4)),
        Some(15)
    );
    assert_eq!(
        checked_rem(i32::MAX, UnboundedPow2::from_exponent(31)),
        Some(i32::MAX)
    );
    assert_eq!(
        checked_rem(i32::MAX, UnboundedPow2::from_exponent(32)),
        None
    );
}

#[test]
fn unb_pow2_unbounded_rem() {
    assert_eq!(unbounded_rem(130i32, UnboundedPow2::from_exponent(4)), 2);
    assert_eq!(unbounded_rem(i32::MIN, UnboundedPow2::from_exponent(4)), 0);
    assert_eq!(
        unbounded_rem(i32::MIN + 1, UnboundedPow2::from_exponent(4)),
        -15
    );
    assert_eq!(unbounded_rem(i32::MAX, UnboundedPow2::from_exponent(4)), 15);
    assert_eq!(
        unbounded_rem(i32::MAX, UnboundedPow2::from_exponent(31)),
        i32::MAX
    );
    assert_eq!(
        unbounded_rem(i32::MAX, UnboundedPow2::from_exponent(32)),
        i32::MAX
    );
    assert_eq!(unbounded_rem(i32::MIN, UnboundedPow2::from_exponent(31)), 0);
    assert_eq!(
        unbounded_rem(i32::MIN, UnboundedPow2::from_exponent(32)),
        i32::MIN
    );
}

#[test]
fn pow2_rem() {
    assert_eq!(130i32 % Pow2::<u8>::from_exponent(4).unwrap(), 2);
    assert_eq!(i32::MIN % Pow2::<u8>::from_exponent(4).unwrap(), 0);
    assert_eq!((i32::MIN + 1) % Pow2::<u8>::from_exponent(4).unwrap(), -15);
    assert_eq!(i32::MAX % Pow2::<u8>::from_exponent(4).unwrap(), 15);
}

#[test]
fn pow2_rem_assign() {
    let mut v = 130i32;
    v %= Pow2::<u8>::from_exponent(4).unwrap();
    assert_eq!(v, 2);

    let mut v = i32::MIN;
    v %= Pow2::<u8>::from_exponent(4).unwrap();
    assert_eq!(v, 0);

    let mut v = i32::MIN + 1;
    v %= Pow2::<u8>::from_exponent(4).unwrap();
    assert_eq!(v, -15);

    let mut v = i32::MAX;
    v %= Pow2::<u8>::from_exponent(4).unwrap();
    assert_eq!(v, 15);
}

#[test]
fn unb_pow2_div_floor_u64_exact() {
    assert_eq!(div_floor(32u64, UnboundedPow2::from_exponent(5)), 1);
    assert_eq!(div_floor(64u64, UnboundedPow2::from_exponent(3)), 8);
}

#[test]
fn pow2_div_floor_u64_exact() {
    assert_eq!(div_floor(32u64, Pow2::<u8>::from_exponent(5).unwrap()), 1);
    assert_eq!(div_floor(64u64, Pow2::<u8>::from_exponent(3).unwrap()), 8);
}

#[test]
fn unb_pow2_div_floor_u64_rounds_down() {
    assert_eq!(div_floor(37u64, UnboundedPow2::from_exponent(5)), 1);
    assert_eq!(div_floor(63u64, UnboundedPow2::from_exponent(5)), 1);
}

#[test]
fn pow2_div_floor_u64_rounds_down() {
    assert_eq!(div_floor(37u64, Pow2::<u8>::from_exponent(5).unwrap()), 1);
    assert_eq!(div_floor(63u64, Pow2::<u8>::from_exponent(5).unwrap()), 1);
}

#[test]
fn unb_pow2_div_floor_u64_zero() {
    assert_eq!(div_floor(0u64, UnboundedPow2::from_exponent(5)), 0);
}

#[test]
fn pow2_div_floor_u64_zero() {
    assert_eq!(div_floor(0u64, Pow2::<u8>::from_exponent(5).unwrap()), 0);
}

#[test]
fn unb_pow2_div_floor_i64_positive() {
    assert_eq!(div_floor(37i64, UnboundedPow2::from_exponent(5)), 1);
}

#[test]
fn pow2_div_floor_i64_positive() {
    assert_eq!(div_floor(37i64, Pow2::<u8>::from_exponent(5).unwrap()), 1);
}

#[test]
fn unb_pow2_div_floor_i64_exact_negative() {
    assert_eq!(div_floor(-32i64, UnboundedPow2::from_exponent(5)), -1);
}

#[test]
fn pow2_div_floor_i64_exact_negative() {
    assert_eq!(div_floor(-32i64, Pow2::<u8>::from_exponent(5).unwrap()), -1);
}

#[test]
fn unb_pow2_div_floor_i64_negative_rounds_toward_neg_inf() {
    assert_eq!(div_floor(-37i64, UnboundedPow2::from_exponent(5)), -2);
    assert_eq!(div_floor(-1i64, UnboundedPow2::from_exponent(5)), -1);
}

#[test]
fn pow2_div_floor_i64_negative_rounds_toward_neg_inf() {
    assert_eq!(div_floor(-37i64, Pow2::<u8>::from_exponent(5).unwrap()), -2);
    assert_eq!(div_floor(-1i64, Pow2::<u8>::from_exponent(5).unwrap()), -1);
}

#[test]
fn unb_pow2_div_floor_by_one_is_identity() {
    assert_eq!(div_floor(42i64, UnboundedPow2::from_exponent(0)), 42);
    assert_eq!(div_floor(-42i64, UnboundedPow2::from_exponent(0)), -42);
}

#[test]
fn pow2_div_floor_by_one_is_identity() {
    assert_eq!(div_floor(42i64, Pow2::<u8>::from_exponent(0).unwrap()), 42);
    assert_eq!(
        div_floor(-42i64, Pow2::<u8>::from_exponent(0).unwrap()),
        -42
    );
}

#[test]
fn unb_pow2_div_floor_min() {
    assert_eq!(div_floor(i32::MIN, UnboundedPow2::from_exponent(30)), -2);
    assert_eq!(div_floor(i32::MIN, UnboundedPow2::from_exponent(31)), -1);
}

#[test]
fn pow2_div_floor_min() {
    assert_eq!(
        div_floor(i32::MIN, Pow2::<u32>::from_exponent(30).unwrap()),
        -2
    );
    assert_eq!(
        div_floor(i32::MIN, Pow2::<u32>::from_exponent(31).unwrap()),
        -1
    );
}

#[test]
fn unb_pow2_div_floor_max() {
    assert_eq!(div_floor(i32::MAX, UnboundedPow2::from_exponent(30)), 1);
    assert_eq!(div_floor(i32::MAX, UnboundedPow2::from_exponent(31)), 0);
    assert_eq!(div_floor(u32::MAX, UnboundedPow2::from_exponent(31)), 1);
}

#[test]
fn pow2_div_floor_max() {
    assert_eq!(
        div_floor(i32::MAX, Pow2::<u32>::from_exponent(30).unwrap()),
        1
    );
    assert_eq!(
        div_floor(i32::MAX, Pow2::<u32>::from_exponent(31).unwrap()),
        0
    );
    assert_eq!(
        div_floor(u32::MAX, Pow2::<u32>::from_exponent(31).unwrap()),
        1
    );
}

#[test]
fn unb_pow2_checked_div_floor_boundary() {
    assert_eq!(
        checked_div_floor(0_i32, UnboundedPow2::from_exponent(30)),
        Some(0)
    );
    assert_eq!(
        checked_div_floor(0_i32, UnboundedPow2::from_exponent(31)),
        Some(0)
    );
    assert_eq!(
        checked_div_floor(0_i32, UnboundedPow2::from_exponent(32)),
        None
    );

    assert_eq!(
        checked_div_floor(0_u32, UnboundedPow2::from_exponent(31)),
        Some(0)
    );
    assert_eq!(
        checked_div_floor(0_u32, UnboundedPow2::from_exponent(32)),
        None
    );
}

#[test]
fn unb_pow2_unbounded_div_floor_boundary() {
    assert_eq!(
        unbounded_div_floor(0_i32, UnboundedPow2::from_exponent(30)),
        0
    );
    assert_eq!(
        unbounded_div_floor(i32::MIN, UnboundedPow2::from_exponent(30)),
        -2
    );
    assert_eq!(
        unbounded_div_floor(0_i32, UnboundedPow2::from_exponent(31)),
        0
    );
    assert_eq!(
        unbounded_div_floor(-1_i32, UnboundedPow2::from_exponent(31)),
        -1
    );
    assert_eq!(
        unbounded_div_floor(i32::MIN, UnboundedPow2::from_exponent(31)),
        -1
    );
    assert_eq!(
        unbounded_div_floor(0_i32, UnboundedPow2::from_exponent(32)),
        0
    );
    assert_eq!(
        unbounded_div_floor(-1_i32, UnboundedPow2::from_exponent(32)),
        -1
    );
    assert_eq!(
        unbounded_div_floor(0_i32, UnboundedPow2::from_exponent(255)),
        0
    );
    assert_eq!(
        unbounded_div_floor(i32::MAX, UnboundedPow2::from_exponent(255)),
        0
    );
    assert_eq!(
        unbounded_div_floor(i32::MIN, UnboundedPow2::from_exponent(255)),
        -1
    );

    assert_eq!(
        unbounded_div_floor(0_u32, UnboundedPow2::from_exponent(31)),
        0
    );
    assert_eq!(
        unbounded_div_floor(u32::MAX, UnboundedPow2::from_exponent(31)),
        1
    );
    assert_eq!(
        unbounded_div_floor(0_u32, UnboundedPow2::from_exponent(32)),
        0
    );
    assert_eq!(
        unbounded_div_floor(u32::MAX, UnboundedPow2::from_exponent(32)),
        0
    );
    assert_eq!(
        unbounded_div_floor(0_u32, UnboundedPow2::from_exponent(255)),
        0
    );
    assert_eq!(
        unbounded_div_floor(u32::MAX, UnboundedPow2::from_exponent(255)),
        0
    );
}

#[test]
fn unb_pow2_div_ceil_u64_exact() {
    assert_eq!(div_ceil(32u64, UnboundedPow2::from_exponent(5)), 1);
}

#[test]
fn pow2_div_ceil_u64_exact() {
    assert_eq!(div_ceil(32u64, Pow2::<u8>::from_exponent(5).unwrap()), 1);
}

#[test]
fn unb_pow2_ceil_u64_rounds_up() {
    assert_eq!(div_ceil(33u64, UnboundedPow2::from_exponent(5)), 2);
    assert_eq!(div_ceil(63u64, UnboundedPow2::from_exponent(5)), 2);
}

#[test]
fn pow2_div_ceil_u64_rounds_up() {
    assert_eq!(div_ceil(33u64, Pow2::<u8>::from_exponent(5).unwrap()), 2);
    assert_eq!(div_ceil(63u64, Pow2::<u8>::from_exponent(5).unwrap()), 2);
}

#[test]
fn unb_pow2_div_ceil_u64_zero() {
    assert_eq!(div_ceil(0u64, UnboundedPow2::from_exponent(5)), 0);
}

#[test]
fn pow2_div_ceil_u64_zero() {
    assert_eq!(div_ceil(0u64, Pow2::<u8>::from_exponent(5).unwrap()), 0);
}

#[test]
fn unb_pow2_div_ceil_i64_negative() {
    assert_eq!(div_ceil(-37i64, UnboundedPow2::from_exponent(5)), -1);
    assert_eq!(div_ceil(-32i64, UnboundedPow2::from_exponent(5)), -1);
    assert_eq!(div_ceil(-1i64, UnboundedPow2::from_exponent(5)), 0);
    assert_eq!(div_ceil(-33i64, UnboundedPow2::from_exponent(5)), -1);
}

#[test]
fn pow2_div_ceil_i64_negative() {
    assert_eq!(div_ceil(-37i64, Pow2::<u8>::from_exponent(5).unwrap()), -1);
    assert_eq!(div_ceil(-32i64, Pow2::<u8>::from_exponent(5).unwrap()), -1);
    assert_eq!(div_ceil(-1i64, Pow2::<u8>::from_exponent(5).unwrap()), 0);
    assert_eq!(div_ceil(-33i64, Pow2::<u8>::from_exponent(5).unwrap()), -1);
}

#[test]
fn unb_pow2_div_ceil_by_one_is_identity() {
    assert_eq!(div_ceil(42i64, UnboundedPow2::from_exponent(0)), 42);
    assert_eq!(div_ceil(-42i64, UnboundedPow2::from_exponent(0)), -42);
}

#[test]
fn pow2_div_ceil_by_one_is_identity() {
    assert_eq!(div_ceil(42i64, Pow2::<u8>::from_exponent(0).unwrap()), 42);
    assert_eq!(div_ceil(-42i64, Pow2::<u8>::from_exponent(0).unwrap()), -42);
}

#[test]
fn unb_pow2_div_ceil_min() {
    assert_eq!(div_ceil(i32::MIN, UnboundedPow2::from_exponent(30)), -2);
    assert_eq!(div_ceil(i32::MIN, UnboundedPow2::from_exponent(31)), -1);
    assert_eq!(div_ceil(i64::MIN, UnboundedPow2::from_exponent(62)), -2);
    assert_eq!(div_ceil(i64::MIN, UnboundedPow2::from_exponent(63)), -1);
}

#[test]
fn pow2_div_ceil_min() {
    assert_eq!(
        div_ceil(i32::MIN, Pow2::<u32>::from_exponent(30).unwrap()),
        -2
    );
    assert_eq!(
        div_ceil(i32::MIN, Pow2::<u32>::from_exponent(31).unwrap()),
        -1
    );
    assert_eq!(
        div_ceil(i64::MIN, Pow2::<u64>::from_exponent(62).unwrap()),
        -2
    );
    assert_eq!(
        div_ceil(i64::MIN, Pow2::<u64>::from_exponent(63).unwrap()),
        -1
    );
}

#[test]
fn unb_pow2_div_ceil_max() {
    assert_eq!(div_ceil(i32::MAX, UnboundedPow2::from_exponent(30)), 2);
    assert_eq!(div_ceil(i32::MAX, UnboundedPow2::from_exponent(31)), 1);
    assert_eq!(div_ceil(u32::MAX, UnboundedPow2::from_exponent(31)), 2);
    assert_eq!(div_ceil(i64::MAX, UnboundedPow2::from_exponent(62)), 2);
    assert_eq!(div_ceil(i64::MAX, UnboundedPow2::from_exponent(63)), 1);
    assert_eq!(div_ceil(u64::MAX, UnboundedPow2::from_exponent(63)), 2);
}

#[test]
fn pow2_div_ceil_max() {
    assert_eq!(
        div_ceil(i32::MAX, Pow2::<u32>::from_exponent(30).unwrap()),
        2
    );
    assert_eq!(
        div_ceil(i32::MAX, Pow2::<u32>::from_exponent(31).unwrap()),
        1
    );
    assert_eq!(
        div_ceil(u32::MAX, Pow2::<u32>::from_exponent(31).unwrap()),
        2
    );
    assert_eq!(
        div_ceil(i64::MAX, Pow2::<u64>::from_exponent(62).unwrap()),
        2
    );
    assert_eq!(
        div_ceil(i64::MAX, Pow2::<u64>::from_exponent(63).unwrap()),
        1
    );
    assert_eq!(
        div_ceil(u64::MAX, Pow2::<u64>::from_exponent(63).unwrap()),
        2
    );
}

#[test]
fn unb_pow2_checked_div_ceil_boundary() {
    assert_eq!(
        checked_div_ceil(0_i32, UnboundedPow2::from_exponent(30)),
        Some(0)
    );
    assert_eq!(
        checked_div_ceil(0_i32, UnboundedPow2::from_exponent(31)),
        Some(0)
    );
    assert_eq!(
        checked_div_ceil(0_i32, UnboundedPow2::from_exponent(32)),
        None
    );

    assert_eq!(
        checked_div_ceil(0_u32, UnboundedPow2::from_exponent(31)),
        Some(0)
    );
    assert_eq!(
        checked_div_ceil(0_u32, UnboundedPow2::from_exponent(32)),
        None
    );
}

#[test]
fn unb_pow2_unbounded_div_ceil_boundary() {
    assert_eq!(
        unbounded_div_ceil(0_i32, UnboundedPow2::from_exponent(30)),
        0
    );
    assert_eq!(
        unbounded_div_ceil(i32::MAX, UnboundedPow2::from_exponent(30)),
        2
    );
    assert_eq!(
        unbounded_div_ceil(0_i32, UnboundedPow2::from_exponent(31)),
        0
    );
    assert_eq!(
        unbounded_div_ceil(i32::MIN, UnboundedPow2::from_exponent(31)),
        -1
    );
    assert_eq!(
        unbounded_div_ceil(-1_i32, UnboundedPow2::from_exponent(32)),
        0
    );
    assert_eq!(
        unbounded_div_ceil(0_i32, UnboundedPow2::from_exponent(32)),
        0
    );
    assert_eq!(
        unbounded_div_ceil(1_i32, UnboundedPow2::from_exponent(32)),
        1
    );
    assert_eq!(
        unbounded_div_ceil(i32::MAX, UnboundedPow2::from_exponent(32)),
        1
    );
    assert_eq!(
        unbounded_div_ceil(-1_i32, UnboundedPow2::from_exponent(255)),
        0
    );
    assert_eq!(
        unbounded_div_ceil(i32::MIN, UnboundedPow2::from_exponent(255)),
        0
    );
    assert_eq!(
        unbounded_div_ceil(i32::MAX, UnboundedPow2::from_exponent(255)),
        1
    );

    assert_eq!(
        unbounded_div_ceil(0_u32, UnboundedPow2::from_exponent(31)),
        0
    );
    assert_eq!(
        unbounded_div_ceil(0_u32, UnboundedPow2::from_exponent(32)),
        0
    );
    assert_eq!(
        unbounded_div_ceil(0_u32, UnboundedPow2::from_exponent(255)),
        0
    );
    assert_eq!(
        unbounded_div_ceil(u32::MAX, UnboundedPow2::from_exponent(255)),
        1
    );
}

#[test]
fn unb_pow2_div_round_u64_exact() {
    assert_eq!(div_round(32u64, UnboundedPow2::from_exponent(5)), 1);
}

#[test]
fn pow2_div_round_u64_exact() {
    assert_eq!(div_round(32u64, Pow2::<u8>::from_exponent(5).unwrap()), 1);
}

#[test]
fn unb_pow2_div_round_u64_rounds() {
    assert_eq!(div_round(17u64, UnboundedPow2::from_exponent(5)), 1);
    assert_eq!(div_round(16u64, UnboundedPow2::from_exponent(5)), 1);
    assert_eq!(div_round(15u64, UnboundedPow2::from_exponent(5)), 0);
    assert_eq!(div_round(33u64, UnboundedPow2::from_exponent(5)), 1);
    assert_eq!(div_round(48u64, UnboundedPow2::from_exponent(5)), 2);
    assert_eq!(div_round(47u64, UnboundedPow2::from_exponent(5)), 1);
}

#[test]
fn pow2_div_round_u64_rounds() {
    assert_eq!(div_round(17u64, Pow2::<u8>::from_exponent(5).unwrap()), 1);
    assert_eq!(div_round(16u64, Pow2::<u8>::from_exponent(5).unwrap()), 1);
    assert_eq!(div_round(15u64, Pow2::<u8>::from_exponent(5).unwrap()), 0);
    assert_eq!(div_round(33u64, Pow2::<u8>::from_exponent(5).unwrap()), 1);
    assert_eq!(div_round(48u64, Pow2::<u8>::from_exponent(5).unwrap()), 2);
    assert_eq!(div_round(47u64, Pow2::<u8>::from_exponent(5).unwrap()), 1);
}

#[test]
fn unb_pow2_div_round_u64_zero() {
    assert_eq!(div_round(0u64, UnboundedPow2::from_exponent(5)), 0);
}

#[test]
fn pow2_div_round_u64_zero() {
    assert_eq!(div_round(0u64, Pow2::<u8>::from_exponent(5).unwrap()), 0);
}

#[test]
fn unb_pow2_div_round_i64_negative() {
    assert_eq!(div_round(-37i64, UnboundedPow2::from_exponent(5)), -1);
    assert_eq!(div_round(-32i64, UnboundedPow2::from_exponent(5)), -1);
    assert_eq!(div_round(-16i64, UnboundedPow2::from_exponent(5)), -1);
    assert_eq!(div_round(-17i64, UnboundedPow2::from_exponent(5)), -1);
    assert_eq!(div_round(-15i64, UnboundedPow2::from_exponent(5)), 0);
    assert_eq!(div_round(-1i64, UnboundedPow2::from_exponent(5)), 0);
    assert_eq!(div_round(-33i64, UnboundedPow2::from_exponent(5)), -1);
    assert_eq!(div_round(-48i64, UnboundedPow2::from_exponent(5)), -2);
    assert_eq!(div_round(-47i64, UnboundedPow2::from_exponent(5)), -1);
}

#[test]
fn pow2_div_round_i64_negative() {
    assert_eq!(div_round(-37i64, Pow2::<u8>::from_exponent(5).unwrap()), -1);
    assert_eq!(div_round(-32i64, Pow2::<u8>::from_exponent(5).unwrap()), -1);
    assert_eq!(div_round(-16i64, Pow2::<u8>::from_exponent(5).unwrap()), -1);
    assert_eq!(div_round(-17i64, Pow2::<u8>::from_exponent(5).unwrap()), -1);
    assert_eq!(div_round(-15i64, Pow2::<u8>::from_exponent(5).unwrap()), 0);
    assert_eq!(div_round(-1i64, Pow2::<u8>::from_exponent(5).unwrap()), 0);
    assert_eq!(div_round(-33i64, Pow2::<u8>::from_exponent(5).unwrap()), -1);
    assert_eq!(div_round(-48i64, Pow2::<u8>::from_exponent(5).unwrap()), -2);
    assert_eq!(div_round(-47i64, Pow2::<u8>::from_exponent(5).unwrap()), -1);
}

#[test]
fn unb_pow2_div_round_by_one_is_identity() {
    assert_eq!(div_round(42i64, UnboundedPow2::from_exponent(0)), 42);
    assert_eq!(div_round(-42i64, UnboundedPow2::from_exponent(0)), -42);
}

#[test]
fn pow2_div_round_by_one_is_identity() {
    assert_eq!(div_round(42i64, Pow2::<u8>::from_exponent(0).unwrap()), 42);
    assert_eq!(
        div_round(-42i64, Pow2::<u8>::from_exponent(0).unwrap()),
        -42
    );
}

#[test]
fn unb_pow2_div_round_min() {
    assert_eq!(div_round(i32::MIN, UnboundedPow2::from_exponent(30)), -2);
    assert_eq!(div_round(i32::MIN, UnboundedPow2::from_exponent(31)), -1);
    assert_eq!(div_round(i64::MIN, UnboundedPow2::from_exponent(62)), -2);
    assert_eq!(div_round(i64::MIN, UnboundedPow2::from_exponent(63)), -1);
}

#[test]
fn pow2_div_round_min() {
    assert_eq!(
        div_round(i32::MIN, Pow2::<u32>::from_exponent(30).unwrap()),
        -2
    );
    assert_eq!(
        div_round(i32::MIN, Pow2::<u32>::from_exponent(31).unwrap()),
        -1
    );
    assert_eq!(
        div_round(i64::MIN, Pow2::<u64>::from_exponent(62).unwrap()),
        -2
    );
    assert_eq!(
        div_round(i64::MIN, Pow2::<u64>::from_exponent(63).unwrap()),
        -1
    );
}

#[test]
fn unb_pow2_div_round_max() {
    assert_eq!(div_round(i32::MAX, UnboundedPow2::from_exponent(30)), 2);
    assert_eq!(div_round(i32::MAX, UnboundedPow2::from_exponent(31)), 1);
    assert_eq!(div_round(u32::MAX, UnboundedPow2::from_exponent(31)), 2);
    assert_eq!(div_round(i64::MAX, UnboundedPow2::from_exponent(62)), 2);
    assert_eq!(div_round(i64::MAX, UnboundedPow2::from_exponent(63)), 1);
    assert_eq!(div_round(u64::MAX, UnboundedPow2::from_exponent(63)), 2);
}

#[test]
fn pow2_div_round_max() {
    assert_eq!(
        div_round(i32::MAX, Pow2::<u32>::from_exponent(30).unwrap()),
        2
    );
    assert_eq!(
        div_round(i32::MAX, Pow2::<u32>::from_exponent(31).unwrap()),
        1
    );
    assert_eq!(
        div_round(u32::MAX, Pow2::<u32>::from_exponent(31).unwrap()),
        2
    );
    assert_eq!(
        div_round(i64::MAX, Pow2::<u64>::from_exponent(62).unwrap()),
        2
    );
    assert_eq!(
        div_round(i64::MAX, Pow2::<u64>::from_exponent(63).unwrap()),
        1
    );
    assert_eq!(
        div_round(u64::MAX, Pow2::<u64>::from_exponent(63).unwrap()),
        2
    );
}

#[test]
fn unb_pow2_checked_div_round_boundary() {
    assert_eq!(
        checked_div_round(0_i32, UnboundedPow2::from_exponent(30)),
        Some(0)
    );
    assert_eq!(
        checked_div_round(0_i32, UnboundedPow2::from_exponent(31)),
        Some(0)
    );
    assert_eq!(
        checked_div_round(0_i32, UnboundedPow2::from_exponent(32)),
        None
    );

    assert_eq!(
        checked_div_round(0_u32, UnboundedPow2::from_exponent(31)),
        Some(0)
    );
    assert_eq!(
        checked_div_round(0_u32, UnboundedPow2::from_exponent(32)),
        None
    );
}

#[test]
fn unb_pow2_unbounded_div_round_boundary() {
    assert_eq!(
        unbounded_div_round(0_i32, UnboundedPow2::from_exponent(30)),
        0
    );
    assert_eq!(
        unbounded_div_round(i32::MAX, UnboundedPow2::from_exponent(30)),
        2
    );
    assert_eq!(
        unbounded_div_round(0_i32, UnboundedPow2::from_exponent(31)),
        0
    );
    assert_eq!(
        unbounded_div_round(i32::MIN, UnboundedPow2::from_exponent(31)),
        -1
    );
    assert_eq!(
        unbounded_div_round(i32::MIN, UnboundedPow2::from_exponent(32)),
        -1
    );
    assert_eq!(
        unbounded_div_round(-1_i32, UnboundedPow2::from_exponent(32)),
        0
    );
    assert_eq!(
        unbounded_div_round(0_i32, UnboundedPow2::from_exponent(32)),
        0
    );
    assert_eq!(
        unbounded_div_round(1_i32, UnboundedPow2::from_exponent(32)),
        0
    );
    assert_eq!(
        unbounded_div_round(i32::MAX, UnboundedPow2::from_exponent(32)),
        0
    );
    assert_eq!(
        unbounded_div_round(-1_i32, UnboundedPow2::from_exponent(255)),
        0
    );
    assert_eq!(
        unbounded_div_round(i32::MIN, UnboundedPow2::from_exponent(255)),
        0
    );
    assert_eq!(
        unbounded_div_round(i32::MAX, UnboundedPow2::from_exponent(255)),
        0
    );

    assert_eq!(
        unbounded_div_round(0_u32, UnboundedPow2::from_exponent(31)),
        0
    );
    assert_eq!(
        unbounded_div_round(0_u32, UnboundedPow2::from_exponent(32)),
        0
    );
    assert_eq!(
        unbounded_div_round(0_u32, UnboundedPow2::from_exponent(255)),
        0
    );
    assert_eq!(
        unbounded_div_round(u32::MAX, UnboundedPow2::from_exponent(255)),
        0
    );
}

#[test]
fn unb_pow2_floor_to_multiple_u64_already_aligned() {
    assert_eq!(
        floor_to_multiple(64u64, UnboundedPow2::from_exponent(6)),
        64
    );
}

#[test]
fn pow2_floor_to_multiple_u64_already_aligned() {
    assert_eq!(
        floor_to_multiple(64u64, Pow2::<u8>::from_exponent(6).unwrap()),
        64
    );
}

#[test]
fn unb_pow2_floor_to_multiple_u64_unaligned() {
    assert_eq!(
        floor_to_multiple(65u64, UnboundedPow2::from_exponent(6)),
        64
    );
    assert_eq!(
        floor_to_multiple(127u64, UnboundedPow2::from_exponent(6)),
        64
    );
}

#[test]
fn pow2_floor_to_multiple_u64_unaligned() {
    assert_eq!(
        floor_to_multiple(65u64, Pow2::<u8>::from_exponent(6).unwrap()),
        64
    );
    assert_eq!(
        floor_to_multiple(127u64, Pow2::<u8>::from_exponent(6).unwrap()),
        64
    );
}

#[test]
fn unb_pow2_floor_to_multiple_i64_positive() {
    assert_eq!(
        floor_to_multiple(37i64, UnboundedPow2::from_exponent(5)),
        32
    );
}

#[test]
fn pow2_floor_to_multiple_i64_positive() {
    assert_eq!(
        floor_to_multiple(37i64, Pow2::<u8>::from_exponent(5).unwrap()),
        32
    );
}

#[test]
fn unb_pow2_floor_to_multiple_i64_negative() {
    assert_eq!(
        floor_to_multiple(-37i64, UnboundedPow2::from_exponent(5)),
        -64
    );
    assert_eq!(
        floor_to_multiple(-32i64, UnboundedPow2::from_exponent(5)),
        -32
    );
}

#[test]
fn pow2_floor_to_multiple_i64_negative() {
    assert_eq!(
        floor_to_multiple(-37i64, Pow2::<u8>::from_exponent(5).unwrap()),
        -64
    );
    assert_eq!(
        floor_to_multiple(-32i64, Pow2::<u8>::from_exponent(5).unwrap()),
        -32
    );
}

#[test]
fn unb_pow2_floor_to_multiple_by_one_is_identity() {
    assert_eq!(
        floor_to_multiple(37i64, UnboundedPow2::from_exponent(0)),
        37
    );
    assert_eq!(
        floor_to_multiple(-37i64, UnboundedPow2::from_exponent(0)),
        -37
    );
}

#[test]
fn pow2_floor_to_multiple_by_one_is_identity() {
    assert_eq!(
        floor_to_multiple(37i64, Pow2::<u8>::from_exponent(0).unwrap()),
        37
    );
    assert_eq!(
        floor_to_multiple(-37i64, Pow2::<u8>::from_exponent(0).unwrap()),
        -37
    );
}

#[test]
fn unb_pow2_floor_to_multiple_min() {
    assert_eq!(
        floor_to_multiple(i32::MIN, UnboundedPow2::from_exponent(15)),
        i32::MIN
    );
    assert_eq!(
        floor_to_multiple(i32::MIN, UnboundedPow2::from_exponent(30)),
        i32::MIN
    );
    assert_eq!(
        floor_to_multiple(i32::MIN, UnboundedPow2::from_exponent(31)),
        i32::MIN
    );
}

#[test]
fn pow2_floor_to_multiple_min() {
    assert_eq!(
        floor_to_multiple(i32::MIN, Pow2::<u32>::from_exponent(15).unwrap()),
        i32::MIN
    );
    assert_eq!(
        floor_to_multiple(i32::MIN, Pow2::<u32>::from_exponent(30).unwrap()),
        i32::MIN
    );
    assert_eq!(
        floor_to_multiple(i32::MIN, Pow2::<u32>::from_exponent(31).unwrap()),
        i32::MIN
    );
}

#[test]
fn unb_pow2_floor_to_multiple_max() {
    assert_eq!(
        floor_to_multiple(i32::MAX, UnboundedPow2::from_exponent(30)),
        1 << 30
    );
    assert_eq!(
        floor_to_multiple(i32::MAX, UnboundedPow2::from_exponent(31)),
        0
    );
    assert_eq!(
        floor_to_multiple(u32::MAX, UnboundedPow2::from_exponent(31)),
        1 << 31
    );
}

#[test]
fn pow2_floor_to_multiple_max() {
    assert_eq!(
        floor_to_multiple(i32::MAX, Pow2::<u32>::from_exponent(30).unwrap()),
        1 << 30
    );
    assert_eq!(
        floor_to_multiple(i32::MAX, Pow2::<u32>::from_exponent(31).unwrap()),
        0
    );
    assert_eq!(
        floor_to_multiple(u32::MAX, Pow2::<u32>::from_exponent(31).unwrap()),
        1 << 31
    );
}

#[test]
fn unb_pow2_checked_floor_to_multiple_boundary() {
    assert_eq!(
        checked_floor_to_multiple(0_i32, UnboundedPow2::from_exponent(30)),
        Some(0)
    );
    assert_eq!(
        checked_floor_to_multiple(0_i32, UnboundedPow2::from_exponent(31)),
        Some(0)
    );
    assert_eq!(
        checked_floor_to_multiple(0_i32, UnboundedPow2::from_exponent(32)),
        None
    );

    assert_eq!(
        checked_floor_to_multiple(0_u32, UnboundedPow2::from_exponent(31)),
        Some(0)
    );
    assert_eq!(
        checked_floor_to_multiple(0_u32, UnboundedPow2::from_exponent(32)),
        None
    );
}

#[test]
fn unb_pow2_unbounded_floor_to_multiple_boundary() {
    assert_eq!(
        unbounded_floor_to_multiple(0_i32, UnboundedPow2::from_exponent(30)),
        Some(0)
    );
    assert_eq!(
        unbounded_floor_to_multiple(0_i32, UnboundedPow2::from_exponent(31)),
        Some(0)
    );
    assert_eq!(
        unbounded_floor_to_multiple(-1_i32, UnboundedPow2::from_exponent(31)),
        Some(i32::MIN)
    );
    assert_eq!(
        unbounded_floor_to_multiple(0_i32, UnboundedPow2::from_exponent(32)),
        Some(0)
    );
    assert_eq!(
        unbounded_floor_to_multiple(-1_i32, UnboundedPow2::from_exponent(32)),
        None
    );
    assert_eq!(
        unbounded_floor_to_multiple(1_i32, UnboundedPow2::from_exponent(32)),
        Some(0)
    );
    assert_eq!(
        unbounded_floor_to_multiple(0_i32, UnboundedPow2::from_exponent(255)),
        Some(0)
    );

    assert_eq!(
        unbounded_floor_to_multiple(0_u32, UnboundedPow2::from_exponent(31)),
        0
    );
    assert_eq!(
        unbounded_floor_to_multiple(0_u32, UnboundedPow2::from_exponent(32)),
        0
    );
    assert_eq!(
        unbounded_floor_to_multiple(0_u32, UnboundedPow2::from_exponent(255)),
        0
    );
}

#[test]
fn unb_pow2_ceil_to_multiple_u64_already_aligned() {
    assert_eq!(ceil_to_multiple(64u64, UnboundedPow2::from_exponent(6)), 64);
}

#[test]
fn pow2_ceil_to_multiple_u64_already_aligned() {
    assert_eq!(
        ceil_to_multiple(64u64, Pow2::<u8>::from_exponent(6).unwrap()),
        64
    );
}

#[test]
fn unb_pow2_ceil_to_multiple_u64_unaligned() {
    assert_eq!(
        ceil_to_multiple(65u64, UnboundedPow2::from_exponent(6)),
        128
    );
    assert_eq!(ceil_to_multiple(1u64, UnboundedPow2::from_exponent(6)), 64);
}

#[test]
fn pow2_ceil_to_multiple_u64_unaligned() {
    assert_eq!(
        ceil_to_multiple(65u64, Pow2::<u8>::from_exponent(6).unwrap()),
        128
    );
    assert_eq!(
        ceil_to_multiple(1u64, Pow2::<u8>::from_exponent(6).unwrap()),
        64
    );
}

#[test]
fn unb_pow2_ceil_to_multiple_u64_zero() {
    assert_eq!(ceil_to_multiple(0u64, UnboundedPow2::from_exponent(5)), 0);
}

#[test]
fn pow2_ceil_to_multiple_u64_zero() {
    assert_eq!(
        ceil_to_multiple(0u64, Pow2::<u8>::from_exponent(5).unwrap()),
        0
    );
}

#[test]
fn unb_pow2_ceil_to_multiple_i64_positive() {
    assert_eq!(ceil_to_multiple(33i64, UnboundedPow2::from_exponent(5)), 64);
    assert_eq!(ceil_to_multiple(32i64, UnboundedPow2::from_exponent(5)), 32);
}

#[test]
fn pow2_ceil_to_multiple_i64_positive() {
    assert_eq!(
        ceil_to_multiple(33i64, Pow2::<u8>::from_exponent(5).unwrap()),
        64
    );
    assert_eq!(
        ceil_to_multiple(32i64, Pow2::<u8>::from_exponent(5).unwrap()),
        32
    );
}

#[test]
fn unb_pow2_ceil_to_multiple_i64_negative() {
    assert_eq!(
        ceil_to_multiple(-33i64, UnboundedPow2::from_exponent(5)),
        -32
    );
    assert_eq!(
        ceil_to_multiple(-32i64, UnboundedPow2::from_exponent(5)),
        -32
    );
    assert_eq!(ceil_to_multiple(-16i64, UnboundedPow2::from_exponent(5)), 0);
}

#[test]
fn pow2_ceil_to_multiple_i64_negative() {
    assert_eq!(
        ceil_to_multiple(-33i64, Pow2::<u8>::from_exponent(5).unwrap()),
        -32
    );
    assert_eq!(
        ceil_to_multiple(-32i64, Pow2::<u8>::from_exponent(5).unwrap()),
        -32
    );
    assert_eq!(
        ceil_to_multiple(-16i64, Pow2::<u8>::from_exponent(5).unwrap()),
        0
    );
}

#[test]
fn unb_pow2_ceil_to_multiple_min() {
    assert_eq!(
        ceil_to_multiple(i32::MIN, UnboundedPow2::from_exponent(2)),
        i32::MIN
    );
    assert_eq!(
        ceil_to_multiple(i32::MIN, UnboundedPow2::from_exponent(30)),
        i32::MIN
    );
}

#[test]
fn pow2_ceil_to_multiple_min() {
    assert_eq!(
        ceil_to_multiple(i32::MIN, Pow2::<u32>::from_exponent(2).unwrap()),
        i32::MIN
    );
    assert_eq!(
        ceil_to_multiple(i32::MIN, Pow2::<u32>::from_exponent(30).unwrap()),
        i32::MIN
    );
}

#[test]
fn unb_pow2_ceil_to_multiple_max() {
    assert_eq!(
        ceil_to_multiple(i32::MAX, UnboundedPow2::from_exponent(0)),
        i32::MAX
    );
    assert_eq!(
        ceil_to_multiple(i32::MAX - 1, UnboundedPow2::from_exponent(1)),
        i32::MAX - 1
    );

    assert_eq!(
        ceil_to_multiple(u32::MAX, UnboundedPow2::from_exponent(0)),
        u32::MAX
    );
    assert_eq!(
        ceil_to_multiple(u32::MAX - 1, UnboundedPow2::from_exponent(1)),
        u32::MAX - 1
    );
}

#[test]
fn pow2_ceil_to_multiple_max() {
    assert_eq!(
        ceil_to_multiple(i32::MAX, Pow2::<u32>::from_exponent(0).unwrap()),
        i32::MAX
    );
    assert_eq!(
        ceil_to_multiple(i32::MAX - 1, Pow2::<u32>::from_exponent(1).unwrap()),
        i32::MAX - 1
    );

    assert_eq!(
        ceil_to_multiple(u32::MAX, Pow2::<u32>::from_exponent(0).unwrap()),
        u32::MAX
    );
    assert_eq!(
        ceil_to_multiple(u32::MAX - 1, Pow2::<u32>::from_exponent(1).unwrap()),
        u32::MAX - 1
    );
}

#[test]
fn unb_pow2_checked_ceil_to_multiple_boundary() {
    assert_eq!(
        checked_ceil_to_multiple(0_i32, UnboundedPow2::from_exponent(30)),
        Some(0)
    );
    assert_eq!(
        checked_ceil_to_multiple(0_i32, UnboundedPow2::from_exponent(31)),
        Some(0)
    );
    assert_eq!(
        checked_ceil_to_multiple(i32::MAX, UnboundedPow2::from_exponent(0)),
        Some(i32::MAX)
    );
    assert_eq!(
        checked_ceil_to_multiple(i32::MAX, UnboundedPow2::from_exponent(1)),
        None
    );

    assert_eq!(
        checked_ceil_to_multiple(0_u32, UnboundedPow2::from_exponent(31)),
        Some(0)
    );
    assert_eq!(
        checked_ceil_to_multiple(i32::MAX as u32 + 2, UnboundedPow2::from_exponent(31)),
        None
    );
    assert_eq!(
        checked_ceil_to_multiple(0_u32, UnboundedPow2::from_exponent(32)),
        None
    );
}

#[test]
fn pow2_checked_ceil_to_multiple_boundary() {
    assert_eq!(
        checked_ceil_to_multiple(0_i32, Pow2::<u32>::from_exponent(30).unwrap()),
        Some(0)
    );
    assert_eq!(
        checked_ceil_to_multiple(0_i32, Pow2::<u32>::from_exponent(31).unwrap()),
        Some(0)
    );
    assert_eq!(
        checked_ceil_to_multiple(i32::MAX, Pow2::<u32>::from_exponent(0).unwrap()),
        Some(i32::MAX)
    );
    assert_eq!(
        checked_ceil_to_multiple(i32::MAX, Pow2::<u32>::from_exponent(1).unwrap()),
        None
    );

    assert_eq!(
        checked_ceil_to_multiple(0_u32, Pow2::<u32>::from_exponent(31).unwrap()),
        Some(0)
    );
    assert_eq!(
        checked_ceil_to_multiple(i32::MAX as u32 + 2, Pow2::<u32>::from_exponent(31).unwrap()),
        None
    );
}

#[test]
fn unb_pow2_unbounded_ceil_to_multiple_boundary() {
    assert_eq!(
        unbounded_ceil_to_multiple(0_i32, UnboundedPow2::from_exponent(30)),
        Some(0)
    );
    assert_eq!(
        unbounded_ceil_to_multiple(-1_i32, UnboundedPow2::from_exponent(31)),
        Some(0)
    );
    assert_eq!(
        unbounded_ceil_to_multiple(i32::MIN, UnboundedPow2::from_exponent(31)),
        Some(i32::MIN)
    );
    assert_eq!(
        unbounded_ceil_to_multiple(0_i32, UnboundedPow2::from_exponent(31)),
        Some(0)
    );
    assert_eq!(
        unbounded_ceil_to_multiple(1_i32, UnboundedPow2::from_exponent(31)),
        None
    );
    assert_eq!(
        unbounded_ceil_to_multiple(-1_i32, UnboundedPow2::from_exponent(255)),
        Some(0)
    );
    assert_eq!(
        unbounded_ceil_to_multiple(0_i32, UnboundedPow2::from_exponent(255)),
        Some(0)
    );
    assert_eq!(
        unbounded_ceil_to_multiple(1_i32, UnboundedPow2::from_exponent(255)),
        None
    );
    assert_eq!(
        unbounded_ceil_to_multiple(i32::MIN, UnboundedPow2::from_exponent(255)),
        Some(0)
    );
    assert_eq!(
        unbounded_ceil_to_multiple(i32::MAX, UnboundedPow2::from_exponent(0)),
        Some(i32::MAX)
    );
    assert_eq!(
        unbounded_ceil_to_multiple(i32::MAX, UnboundedPow2::from_exponent(1)),
        None
    );

    assert_eq!(
        unbounded_ceil_to_multiple(0_u32, UnboundedPow2::from_exponent(31)),
        Some(0)
    );
    assert_eq!(
        unbounded_ceil_to_multiple(1_u32, UnboundedPow2::from_exponent(31)),
        Some(1 << 31)
    );
    assert_eq!(
        unbounded_ceil_to_multiple(0_u32, UnboundedPow2::from_exponent(32)),
        Some(0)
    );
    assert_eq!(
        unbounded_ceil_to_multiple(1_u32, UnboundedPow2::from_exponent(32)),
        None
    );
    assert_eq!(
        unbounded_ceil_to_multiple(0_u32, UnboundedPow2::from_exponent(255)),
        Some(0)
    );
    assert_eq!(
        unbounded_ceil_to_multiple(1_u32, UnboundedPow2::from_exponent(255)),
        None
    );
    assert_eq!(
        unbounded_ceil_to_multiple(i32::MAX as u32 + 2, UnboundedPow2::from_exponent(31)),
        None
    );
}

#[test]
fn unb_pow2_checked_round_to_multiple_boundary() {
    assert_eq!(
        checked_round_to_multiple(0_i32, UnboundedPow2::from_exponent(30)),
        Some(0)
    );
    assert_eq!(
        checked_round_to_multiple(0_i32, UnboundedPow2::from_exponent(31)),
        Some(0)
    );
    assert_eq!(
        checked_round_to_multiple(i32::MAX, UnboundedPow2::from_exponent(0)),
        Some(i32::MAX)
    );
    assert_eq!(
        checked_round_to_multiple(i32::MAX, UnboundedPow2::from_exponent(1)),
        None
    );
    assert_eq!(
        checked_round_to_multiple(i32::MIN, UnboundedPow2::from_exponent(1)),
        Some(i32::MIN)
    );
    assert_eq!(
        checked_round_to_multiple(i32::MIN + 1, UnboundedPow2::from_exponent(1)),
        Some(i32::MIN)
    );

    assert_eq!(
        checked_round_to_multiple(0_u32, UnboundedPow2::from_exponent(31)),
        Some(0)
    );
    assert_eq!(
        checked_round_to_multiple(i32::MAX as u32 + 2, UnboundedPow2::from_exponent(31)),
        Some(i32::MAX as u32 + 1)
    );
    assert_eq!(
        checked_round_to_multiple(0_u32, UnboundedPow2::from_exponent(32)),
        None
    );
}

#[test]
fn pow2_checked_round_to_multiple_boundary() {
    assert_eq!(
        checked_round_to_multiple(0_i32, Pow2::<u32>::from_exponent(30).unwrap()),
        Some(0)
    );
    assert_eq!(
        checked_round_to_multiple(0_i32, Pow2::<u32>::from_exponent(31).unwrap()),
        Some(0)
    );
    assert_eq!(
        checked_round_to_multiple(i32::MAX, Pow2::<u32>::from_exponent(0).unwrap()),
        Some(i32::MAX)
    );
    assert_eq!(
        checked_round_to_multiple(i32::MAX, Pow2::<u32>::from_exponent(1).unwrap()),
        None
    );
    assert_eq!(
        checked_round_to_multiple(i32::MIN, Pow2::<u32>::from_exponent(1).unwrap()),
        Some(i32::MIN)
    );
    assert_eq!(
        checked_round_to_multiple(i32::MIN + 1, Pow2::<u32>::from_exponent(1).unwrap()),
        Some(i32::MIN)
    );

    assert_eq!(
        checked_round_to_multiple(0_u32, Pow2::<u32>::from_exponent(31).unwrap()),
        Some(0)
    );
    assert_eq!(
        checked_round_to_multiple(i32::MAX as u32 + 2, Pow2::<u32>::from_exponent(31).unwrap()),
        Some(i32::MAX as u32 + 1)
    );
}

#[test]
fn unb_pow2_unbounded_round_to_multiple_boundary() {
    assert_eq!(
        unbounded_round_to_multiple(0_i32, UnboundedPow2::from_exponent(30)),
        Some(0)
    );
    assert_eq!(
        unbounded_round_to_multiple(-1_i32, UnboundedPow2::from_exponent(31)),
        Some(0)
    );
    assert_eq!(
        unbounded_round_to_multiple(i32::MIN, UnboundedPow2::from_exponent(31)),
        Some(i32::MIN)
    );
    assert_eq!(
        unbounded_round_to_multiple(i32::MIN, UnboundedPow2::from_exponent(32)),
        None
    );
    assert_eq!(
        unbounded_round_to_multiple(0_i32, UnboundedPow2::from_exponent(31)),
        Some(0)
    );
    assert_eq!(
        unbounded_round_to_multiple(1_i32, UnboundedPow2::from_exponent(31)),
        Some(0)
    );
    assert_eq!(
        unbounded_round_to_multiple(-1_i32, UnboundedPow2::from_exponent(255)),
        Some(0)
    );
    assert_eq!(
        unbounded_round_to_multiple(0_i32, UnboundedPow2::from_exponent(255)),
        Some(0)
    );
    assert_eq!(
        unbounded_round_to_multiple(1_i32, UnboundedPow2::from_exponent(255)),
        Some(0)
    );
    assert_eq!(
        unbounded_round_to_multiple(i32::MIN, UnboundedPow2::from_exponent(255)),
        Some(0)
    );
    assert_eq!(
        unbounded_round_to_multiple(i32::MAX, UnboundedPow2::from_exponent(0)),
        Some(i32::MAX)
    );
    assert_eq!(
        unbounded_round_to_multiple(i32::MAX, UnboundedPow2::from_exponent(1)),
        None
    );
    assert_eq!(
        unbounded_round_to_multiple(i32::MAX as u32 + 1, UnboundedPow2::from_exponent(31)),
        Some(i32::MAX as u32 + 1)
    );
    assert_eq!(
        unbounded_round_to_multiple(i32::MAX as u32 + 1, UnboundedPow2::from_exponent(32)),
        None
    );

    assert_eq!(
        unbounded_round_to_multiple(0_u32, UnboundedPow2::from_exponent(31)),
        Some(0)
    );
    assert_eq!(
        unbounded_round_to_multiple(0_u32, UnboundedPow2::from_exponent(32)),
        Some(0)
    );
    assert_eq!(
        unbounded_round_to_multiple(1_u32, UnboundedPow2::from_exponent(32)),
        Some(0)
    );
    assert_eq!(
        unbounded_round_to_multiple(0_u32, UnboundedPow2::from_exponent(255)),
        Some(0)
    );
    assert_eq!(
        unbounded_round_to_multiple(1_u32, UnboundedPow2::from_exponent(255)),
        Some(0)
    );
}

#[test]
fn unb_pow2_rem_floor_u64_exact() {
    assert_eq!(rem_floor(32u64, UnboundedPow2::from_exponent(5)), 0);
}

#[test]
fn pow2_rem_floor_u64_exact() {
    assert_eq!(rem_floor(32u64, Pow2::<u8>::from_exponent(5).unwrap()), 0);
}

#[test]
fn unb_pow2_rem_floor_u64_remainder() {
    assert_eq!(rem_floor(37u64, UnboundedPow2::from_exponent(5)), 5);
    assert_eq!(rem_floor(63u64, UnboundedPow2::from_exponent(5)), 31);
}

#[test]
fn pow2_rem_floor_u64_remainder() {
    assert_eq!(rem_floor(37u64, Pow2::<u8>::from_exponent(5).unwrap()), 5);
    assert_eq!(rem_floor(63u64, Pow2::<u8>::from_exponent(5).unwrap()), 31);
}

#[test]
fn unb_pow2_rem_floor_i64_positive() {
    assert_eq!(rem_floor(37i64, UnboundedPow2::from_exponent(5)), 5);
}

#[test]
fn pow2_rem_floor_i64_positive() {
    assert_eq!(rem_floor(37i64, Pow2::<u8>::from_exponent(5).unwrap()), 5);
}

#[test]
fn unb_pow2_rem_floor_i64_negative() {
    assert_eq!(rem_floor(-1i64, UnboundedPow2::from_exponent(5)), 31);
}

#[test]
fn pow2_rem_floor_i64_negative() {
    assert_eq!(rem_floor(-1i64, Pow2::<u8>::from_exponent(5).unwrap()), 31);
}

#[test]
fn unb_pow2_rem_floor_min() {
    assert_eq!(rem_floor(i32::MIN, UnboundedPow2::from_exponent(2)), 0);
    assert_eq!(rem_floor(i32::MIN, UnboundedPow2::from_exponent(31)), 0);
}

#[test]
fn pow2_rem_floor_min() {
    assert_eq!(
        rem_floor(i32::MIN, Pow2::<u8>::from_exponent(2).unwrap()),
        0
    );
    assert_eq!(
        rem_floor(i32::MIN, Pow2::<u32>::from_exponent(31).unwrap()),
        0
    );
}

#[test]
fn unb_pow2_rem_floor_max() {
    assert_eq!(rem_floor(i32::MAX, UnboundedPow2::from_exponent(2)), 3);
    assert_eq!(
        rem_floor(i32::MAX, UnboundedPow2::from_exponent(31)),
        i32::MAX
    );
    assert_eq!(rem_floor(u32::MAX, UnboundedPow2::from_exponent(2)), 3);
    assert_eq!(
        rem_floor(u32::MAX, UnboundedPow2::from_exponent(31)),
        i32::MAX as u32
    );
}

#[test]
fn pow2_rem_floor_max() {
    assert_eq!(
        rem_floor(i32::MAX, Pow2::<u8>::from_exponent(2).unwrap()),
        3
    );
    assert_eq!(
        rem_floor(i32::MAX, Pow2::<u32>::from_exponent(31).unwrap()),
        i32::MAX
    );
    assert_eq!(
        rem_floor(u32::MAX, Pow2::<u8>::from_exponent(2).unwrap()),
        3
    );
    assert_eq!(
        rem_floor(u32::MAX, Pow2::<u32>::from_exponent(31).unwrap()),
        i32::MAX as u32
    );
}

#[test]
fn unb_pow2_rem_floor_i64_negative_is_always_nonnegative() {
    // div_floor(-37, 32) = -64, so mod = -37 - (-64) = 27
    assert_eq!(rem_floor(-37i64, UnboundedPow2::from_exponent(5)), 27);
    // div_floor(-32, 32) = -32, so mod = 0
    assert_eq!(rem_floor(-32i64, UnboundedPow2::from_exponent(5)), 0);
    // div_floor(-1, 32) = -32, so mod = 31
    assert_eq!(rem_floor(-1i64, UnboundedPow2::from_exponent(5)), 31);
}

#[test]
fn pow2_rem_floor_i64_negative_is_always_nonnegative() {
    // div_floor(-37, 32) = -64, so mod = -37 - (-64) = 27
    assert_eq!(rem_floor(-37i64, Pow2::<u8>::from_exponent(5).unwrap()), 27);
    // div_floor(-32, 32) = -32, so mod = 0
    assert_eq!(rem_floor(-32i64, Pow2::<u8>::from_exponent(5).unwrap()), 0);
    // div_floor(-1, 32) = -32, so mod = 31
    assert_eq!(rem_floor(-1i64, Pow2::<u8>::from_exponent(5).unwrap()), 31);
}

#[test]
fn unb_pow2_checked_rem_floor_boundary() {
    assert_eq!(
        checked_rem_floor(0_i32, UnboundedPow2::from_exponent(30)),
        Some(0)
    );
    assert_eq!(
        checked_rem_floor(0_i32, UnboundedPow2::from_exponent(31)),
        Some(0)
    );
    assert_eq!(
        checked_rem_floor(0_i32, UnboundedPow2::from_exponent(32)),
        None
    );

    assert_eq!(
        checked_rem_floor(0_u32, UnboundedPow2::from_exponent(31)),
        Some(0)
    );
    assert_eq!(
        checked_rem_floor(0_u32, UnboundedPow2::from_exponent(32)),
        None
    );
}

#[test]
fn unb_pow2_is_multiple_of_u64_true() {
    assert!(is_multiple_of(0u64, UnboundedPow2::from_exponent(5)));
    assert!(is_multiple_of(32u64, UnboundedPow2::from_exponent(5)));
    assert!(is_multiple_of(64u64, UnboundedPow2::from_exponent(5)));
}

#[test]
fn pow2_is_multiple_of_u64_true() {
    assert!(is_multiple_of(0u64, Pow2::<u64>::from_exponent(5).unwrap()));
    assert!(is_multiple_of(
        32u64,
        Pow2::<u64>::from_exponent(5).unwrap()
    ));
    assert!(is_multiple_of(
        64u64,
        Pow2::<u64>::from_exponent(5).unwrap()
    ));
}

#[test]
fn unb_pow2_is_multiple_of_u64_false() {
    assert!(!is_multiple_of(31u64, UnboundedPow2::from_exponent(5)));
    assert!(!is_multiple_of(33u64, UnboundedPow2::from_exponent(5)));
}

#[test]
fn pow2_is_multiple_of_u64_false() {
    assert!(!is_multiple_of(
        31u64,
        Pow2::<u64>::from_exponent(5).unwrap()
    ));
    assert!(!is_multiple_of(
        33u64,
        Pow2::<u64>::from_exponent(5).unwrap()
    ));
}

#[test]
fn unb_pow2_is_multiple_of_i64_negative() {
    assert!(is_multiple_of(-32i64, UnboundedPow2::from_exponent(5)));
    assert!(is_multiple_of(i32::MIN, UnboundedPow2::from_exponent(31)));
    assert!(!is_multiple_of(-31i64, UnboundedPow2::from_exponent(5)));
}

#[test]
fn pow2_is_multiple_of_i64_negative() {
    assert!(is_multiple_of(
        -32i64,
        Pow2::<u64>::from_exponent(5).unwrap()
    ));
    assert!(is_multiple_of(
        i32::MIN,
        Pow2::<u32>::from_exponent(31).unwrap()
    ));
    assert!(!is_multiple_of(
        -31i64,
        Pow2::<u64>::from_exponent(5).unwrap()
    ));
}

#[test]
fn unb_pow2_unbounded_is_multiple_of_boundary() {
    assert!(unbounded_is_multiple_of(
        0_i32,
        UnboundedPow2::from_exponent(30)
    ));
    assert!(unbounded_is_multiple_of(
        i32::MIN,
        UnboundedPow2::from_exponent(31)
    ));
    assert!(unbounded_is_multiple_of(
        0_i32,
        UnboundedPow2::from_exponent(31)
    ));
    assert!(unbounded_is_multiple_of(
        0_i32,
        UnboundedPow2::from_exponent(32)
    ));
    assert!(unbounded_is_multiple_of(
        0_i32,
        UnboundedPow2::from_exponent(33)
    ));
    assert!(unbounded_is_multiple_of(
        0_i32,
        UnboundedPow2::from_exponent(255)
    ));
    assert!(!unbounded_is_multiple_of(
        i32::MIN,
        UnboundedPow2::from_exponent(255)
    ));
}

#[test]
fn unb_pow2_div_floor_consistent_with_floor_to_multiple() {
    let b = UnboundedPow2::from_exponent(5); // 32
    for a in (-200i64..=200).step_by(7) {
        // floor_to_multiple gives the floored dividend times the divisor,
        // so recover the quotient via div_floor itself rather than `/`
        // (plain `/` truncates toward zero, not toward -∞).
        let q = div_floor(a, b);
        assert_eq!(floor_to_multiple(a, b), q * 32, "mismatch at a={a}");
    }
}

#[test]
fn unb_pow2_floor_and_ceil_to_multiple_bracket_the_input() {
    let b = UnboundedPow2::from_exponent(4); // 16
    for a in 0u64..=200 {
        let lo = floor_to_multiple(a, b);
        let hi = ceil_to_multiple(a, b);
        assert!(lo <= a, "floor {lo} > {a}");
        assert!(hi >= a, "ceil {hi} < {a}");
        let gap = hi - lo;
        assert!(
            gap == 0 || gap == 16,
            "gap between floor and ceil should be 0 or 16, got {gap} for a={a}"
        );
    }
}

#[test]
fn unb_pow2_rem_floor_plus_floor_to_multiple_equals_input() {
    let b = UnboundedPow2::from_exponent(5); // 32
    for a in (-300i64..=300).step_by(11) {
        let reconstructed = floor_to_multiple(a, b) + rem_floor(a, b);
        assert_eq!(reconstructed, a, "reconstruction failed at a={a}");
    }
}

#[test]
fn unb_pow2_constants() {
    assert_eq!(UnboundedPow2::VAL_1(), UnboundedPow2::from_exponent(0));
    assert_eq!(UnboundedPow2::VAL_2(), UnboundedPow2::from_exponent(1));
    assert_eq!(UnboundedPow2::VAL_4(), UnboundedPow2::from_exponent(2));
    assert_eq!(UnboundedPow2::VAL_8(), UnboundedPow2::from_exponent(3));
    assert_eq!(UnboundedPow2::VAL_16(), UnboundedPow2::from_exponent(4));
    assert_eq!(UnboundedPow2::VAL_32(), UnboundedPow2::from_exponent(5));
    assert_eq!(UnboundedPow2::VAL_64(), UnboundedPow2::from_exponent(6));
    assert_eq!(UnboundedPow2::VAL_128(), UnboundedPow2::from_exponent(7));
    assert_eq!(UnboundedPow2::VAL_256(), UnboundedPow2::from_exponent(8));
    assert_eq!(UnboundedPow2::VAL_512(), UnboundedPow2::from_exponent(9));

    assert_eq!(UnboundedPow2::KIBI(), UnboundedPow2::from_exponent(10));
    assert_eq!(UnboundedPow2::MEBI(), UnboundedPow2::from_exponent(20));
    assert_eq!(UnboundedPow2::GIBI(), UnboundedPow2::from_exponent(30));
    assert_eq!(UnboundedPow2::TEBI(), UnboundedPow2::from_exponent(40));
    assert_eq!(UnboundedPow2::PEBI(), UnboundedPow2::from_exponent(50));
    assert_eq!(UnboundedPow2::EXBI(), UnboundedPow2::from_exponent(60));
    assert_eq!(UnboundedPow2::ZEBI(), UnboundedPow2::from_exponent(70));
    assert_eq!(UnboundedPow2::YOBI(), UnboundedPow2::from_exponent(80));
    assert_eq!(UnboundedPow2::ROBI(), UnboundedPow2::from_exponent(90));
    assert_eq!(UnboundedPow2::QUEBI(), UnboundedPow2::from_exponent(100));
}

#[test]
fn unb_pow2_has_debug() {
    let v = UnboundedPow2::from_exponent(0);
    let s = format!("{:?}", v);
    assert_eq!(s, "UnboundedPow2 { exponent: 0 }");
}

#[test]
fn unb_pow2_has_hash() {
    let v = UnboundedPow2::from_exponent(123);
    let mut s0 = DefaultHasher::new();
    v.hash(&mut s0);
    let mut s1 = DefaultHasher::new();
    123u8.hash(&mut s1);
    assert_eq!(s0.finish(), s1.finish());
}

#[test]
fn unb_pow2_has_eq() {
    assert_eq!(UnboundedPow2::VAL_1(), UnboundedPow2::VAL_1());
    assert_eq!(UnboundedPow2::KIBI(), UnboundedPow2::KIBI());
    assert_ne!(UnboundedPow2::VAL_1(), UnboundedPow2::VAL_2());
}

#[test]
fn unb_pow2_has_ord() {
    assert!(UnboundedPow2::VAL_1() < UnboundedPow2::VAL_2());
    assert!(UnboundedPow2::VAL_2() <= UnboundedPow2::VAL_2());
    assert!(UnboundedPow2::VAL_2() >= UnboundedPow2::VAL_2());
    assert!(UnboundedPow2::VAL_4() > UnboundedPow2::VAL_2());
}
