//! The integer abstraction, exercised through fully-qualified calls on every width.

use ipow2::Int;

#[test]
fn unsigned_trait_methods() {
    assert_eq!(<u8 as Int>::ilog2(8 as u8), 3);
    assert_eq!(<u8 as Int>::from_bool(true), 1 as u8);
    assert_eq!(<u8 as Int>::from_bool(false), 0 as u8);
    assert!(<u8 as Int>::is_zero(0 as u8));
    assert!(!<u8 as Int>::is_zero(1 as u8));
    assert!(<u8 as Int>::is_not_zero(1 as u8));
    assert!(!<u8 as Int>::is_not_zero(0 as u8));
    assert_eq!(<u8 as Int>::checked_shl(1 as u8, 1), Some(2 as u8));
    assert_eq!(<u8 as Int>::checked_shl(1 as u8, <u8 as Int>::BITS), None);
    assert_eq!(<u8 as Int>::checked_add(1 as u8, 1 as u8), Some(2 as u8));
    assert_eq!(<u8 as Int>::checked_add(<u8 as Int>::MAX, 1 as u8), None);
    assert_eq!(<u8 as Int>::trailing_zeros(8 as u8), 3);
    assert_eq!(
        <u8 as Int>::saturating_sub(<u8 as Int>::MIN, 1 as u8),
        <u8 as Int>::MIN
    );
    assert_eq!(<u8 as Int>::unchecked_shl(1 as u8, 2), 4 as u8);
    assert_eq!(<u8 as Int>::unchecked_shr(8 as u8, 2), 2 as u8);
    assert_eq!(<u8 as Int>::self_from_signed(1 as i8), 1 as u8);
    assert_eq!(<u8 as Int>::self_from_unsigned(1 as u8), 1 as u8);
    assert_eq!(<u8 as Int>::cast_signed(1 as u8), 1 as i8);
    assert_eq!(<u8 as Int>::cast_unsigned(1 as u8), 1 as u8);
    assert_eq!(<u8 as Int>::BITS, <u8>::BITS);
    assert_eq!(<u8 as Int>::ZERO, 0 as u8);
    assert_eq!(<u8 as Int>::ONE, 1 as u8);
    assert_eq!(<u8 as Int>::MIN, <u8>::MIN);
    assert_eq!(<u8 as Int>::MAX, <u8>::MAX);
    assert!(<u8 as Int>::is_power_of_two(4 as u8));
    assert!(!<u8 as Int>::is_power_of_two(3 as u8));
    assert_eq!(<u8 as Int>::mask(3), 7 as u8);
    assert_eq!(<u8 as Int>::highest_mask_bit(3), 4 as u8);
    assert_eq!(<u8 as Int>::unchecked_mask(3), 7 as u8);
    assert_eq!(
        <u8 as Int>::unchecked_highest_mask_bit(3),
        4 as u8
    );
    assert!(!<u8 as Int>::IS_SIGNED);
    assert!(<u8 as Int>::IS_UNSIGNED);
    assert_eq!(<u8 as Int>::MINUS_ONE, <u8>::MAX);
    assert_eq!(<u8 as Int>::SAFE_SHIFT, <u8>::BITS - 1);
    // Reinterpretation: the all-ones signed value maps to unsigned MAX.
    assert_eq!(<u8 as Int>::self_from_signed(-1 as i8), <u8>::MAX);
    assert_eq!(<u8 as Int>::cast_signed(<u8>::MAX), -1 as i8);
    assert_eq!(<u16 as Int>::ilog2(8 as u16), 3);
    assert_eq!(<u16 as Int>::from_bool(true), 1 as u16);
    assert_eq!(<u16 as Int>::from_bool(false), 0 as u16);
    assert!(<u16 as Int>::is_zero(0 as u16));
    assert!(!<u16 as Int>::is_zero(1 as u16));
    assert!(<u16 as Int>::is_not_zero(1 as u16));
    assert!(!<u16 as Int>::is_not_zero(0 as u16));
    assert_eq!(<u16 as Int>::checked_shl(1 as u16, 1), Some(2 as u16));
    assert_eq!(<u16 as Int>::checked_shl(1 as u16, <u16 as Int>::BITS), None);
    assert_eq!(<u16 as Int>::checked_add(1 as u16, 1 as u16), Some(2 as u16));
    assert_eq!(<u16 as Int>::checked_add(<u16 as Int>::MAX, 1 as u16), None);
    assert_eq!(<u16 as Int>::trailing_zeros(8 as u16), 3);
    assert_eq!(
        <u16 as Int>::saturating_sub(<u16 as Int>::MIN, 1 as u16),
        <u16 as Int>::MIN
    );
    assert_eq!(<u16 as Int>::unchecked_shl(1 as u16, 2), 4 as u16);
    assert_eq!(<u16 as Int>::unchecked_shr(8 as u16, 2), 2 as u16);
    assert_eq!(<u16 as Int>::self_from_signed(1 as i16), 1 as u16);
    assert_eq!(<u16 as Int>::self_from_unsigned(1 as u16), 1 as u16);
    assert_eq!(<u16 as Int>::cast_signed(1 as u16), 1 as i16);
    assert_eq!(<u16 as Int>::cast_unsigned(1 as u16), 1 as u16);
    assert_eq!(<u16 as Int>::BITS, <u16>::BITS);
    assert_eq!(<u16 as Int>::ZERO, 0 as u16);
    assert_eq!(<u16 as Int>::ONE, 1 as u16);
    assert_eq!(<u16 as Int>::MIN, <u16>::MIN);
    assert_eq!(<u16 as Int>::MAX, <u16>::MAX);
    assert!(<u16 as Int>::is_power_of_two(4 as u16));
    assert!(!<u16 as Int>::is_power_of_two(3 as u16));
    assert_eq!(<u16 as Int>::mask(3), 7 as u16);
    assert_eq!(<u16 as Int>::highest_mask_bit(3), 4 as u16);
    assert_eq!(<u16 as Int>::unchecked_mask(3), 7 as u16);
    assert_eq!(
        <u16 as Int>::unchecked_highest_mask_bit(3),
        4 as u16
    );
    assert!(!<u16 as Int>::IS_SIGNED);
    assert!(<u16 as Int>::IS_UNSIGNED);
    assert_eq!(<u16 as Int>::MINUS_ONE, <u16>::MAX);
    assert_eq!(<u16 as Int>::SAFE_SHIFT, <u16>::BITS - 1);
    // Reinterpretation: the all-ones signed value maps to unsigned MAX.
    assert_eq!(<u16 as Int>::self_from_signed(-1 as i16), <u16>::MAX);
    assert_eq!(<u16 as Int>::cast_signed(<u16>::MAX), -1 as i16);
    assert_eq!(<u32 as Int>::ilog2(8 as u32), 3);
    assert_eq!(<u32 as Int>::from_bool(true), 1 as u32);
    assert_eq!(<u32 as Int>::from_bool(false), 0 as u32);
    assert!(<u32 as Int>::is_zero(0 as u32));
    assert!(!<u32 as Int>::is_zero(1 as u32));
    assert!(<u32 as Int>::is_not_zero(1 as u32));
    assert!(!<u32 as Int>::is_not_zero(0 as u32));
    assert_eq!(<u32 as Int>::checked_shl(1 as u32, 1), Some(2 as u32));
    assert_eq!(<u32 as Int>::checked_shl(1 as u32, <u32 as Int>::BITS), None);
    assert_eq!(<u32 as Int>::checked_add(1 as u32, 1 as u32), Some(2 as u32));
    assert_eq!(<u32 as Int>::checked_add(<u32 as Int>::MAX, 1 as u32), None);
    assert_eq!(<u32 as Int>::trailing_zeros(8 as u32), 3);
    assert_eq!(
        <u32 as Int>::saturating_sub(<u32 as Int>::MIN, 1 as u32),
        <u32 as Int>::MIN
    );
    assert_eq!(<u32 as Int>::unchecked_shl(1 as u32, 2), 4 as u32);
    assert_eq!(<u32 as Int>::unchecked_shr(8 as u32, 2), 2 as u32);
    assert_eq!(<u32 as Int>::self_from_signed(1 as i32), 1 as u32);
    assert_eq!(<u32 as Int>::self_from_unsigned(1 as u32), 1 as u32);
    assert_eq!(<u32 as Int>::cast_signed(1 as u32), 1 as i32);
    assert_eq!(<u32 as Int>::cast_unsigned(1 as u32), 1 as u32);
    assert_eq!(<u32 as Int>::BITS, <u32>::BITS);
    assert_eq!(<u32 as Int>::ZERO, 0 as u32);
    assert_eq!(<u32 as Int>::ONE, 1 as u32);
    assert_eq!(<u32 as Int>::MIN, <u32>::MIN);
    assert_eq!(<u32 as Int>::MAX, <u32>::MAX);
    assert!(<u32 as Int>::is_power_of_two(4 as u32));
    assert!(!<u32 as Int>::is_power_of_two(3 as u32));
    assert_eq!(<u32 as Int>::mask(3), 7 as u32);
    assert_eq!(<u32 as Int>::highest_mask_bit(3), 4 as u32);
    assert_eq!(<u32 as Int>::unchecked_mask(3), 7 as u32);
    assert_eq!(
        <u32 as Int>::unchecked_highest_mask_bit(3),
        4 as u32
    );
    assert!(!<u32 as Int>::IS_SIGNED);
    assert!(<u32 as Int>::IS_UNSIGNED);
    assert_eq!(<u32 as Int>::MINUS_ONE, <u32>::MAX);
    assert_eq!(<u32 as Int>::SAFE_SHIFT, <u32>::BITS - 1);
    // Reinterpretation: the all-ones signed value maps to unsigned MAX.
    assert_eq!(<u32 as Int>::self_from_signed(-1 as i32), <u32>::MAX);
    assert_eq!(<u32 as Int>::cast_signed(<u32>::MAX), -1 as i32);
    assert_eq!(<u64 as Int>::ilog2(8 as u64), 3);
    assert_eq!(<u64 as Int>::from_bool(true), 1 as u64);
    assert_eq!(<u64 as Int>::from_bool(false), 0 as u64);
    assert!(<u64 as Int>::is_zero(0 as u64));
    assert!(!<u64 as Int>::is_zero(1 as u64));
    assert!(<u64 as Int>::is_not_zero(1 as u64));
    assert!(!<u64 as Int>::is_not_zero(0 as u64));
    assert_eq!(<u64 as Int>::checked_shl(1 as u64, 1), Some(2 as u64));
    assert_eq!(<u64 as Int>::checked_shl(1 as u64, <u64 as Int>::BITS), None);
    assert_eq!(<u64 as Int>::checked_add(1 as u64, 1 as u64), Some(2 as u64));
    assert_eq!(<u64 as Int>::checked_add(<u64 as Int>::MAX, 1 as u64), None);
    assert_eq!(<u64 as Int>::trailing_zeros(8 as u64), 3);
    assert_eq!(
        <u64 as Int>::saturating_sub(<u64 as Int>::MIN, 1 as u64),
        <u64 as Int>::MIN
    );
    assert_eq!(<u64 as Int>::unchecked_shl(1 as u64, 2), 4 as u64);
    assert_eq!(<u64 as Int>::unchecked_shr(8 as u64, 2), 2 as u64);
    assert_eq!(<u64 as Int>::self_from_signed(1 as i64), 1 as u64);
    assert_eq!(<u64 as Int>::self_from_unsigned(1 as u64), 1 as u64);
    assert_eq!(<u64 as Int>::cast_signed(1 as u64), 1 as i64);
    assert_eq!(<u64 as Int>::cast_unsigned(1 as u64), 1 as u64);
    assert_eq!(<u64 as Int>::BITS, <u64>::BITS);
    assert_eq!(<u64 as Int>::ZERO, 0 as u64);
    assert_eq!(<u64 as Int>::ONE, 1 as u64);
    assert_eq!(<u64 as Int>::MIN, <u64>::MIN);
    assert_eq!(<u64 as Int>::MAX, <u64>::MAX);
    assert!(<u64 as Int>::is_power_of_two(4 as u64));
    assert!(!<u64 as Int>::is_power_of_two(3 as u64));
    assert_eq!(<u64 as Int>::mask(3), 7 as u64);
    assert_eq!(<u64 as Int>::highest_mask_bit(3), 4 as u64);
    assert_eq!(<u64 as Int>::unchecked_mask(3), 7 as u64);
    assert_eq!(
        <u64 as Int>::unchecked_highest_mask_bit(3),
        4 as u64
    );
    assert!(!<u64 as Int>::IS_SIGNED);
    assert!(<u64 as Int>::IS_UNSIGNED);
    assert_eq!(<u64 as Int>::MINUS_ONE, <u64>::MAX);
    assert_eq!(<u64 as Int>::SAFE_SHIFT, <u64>::BITS - 1);
    // Reinterpretation: the all-ones signed value maps to unsigned MAX.
    assert_eq!(<u64 as Int>::self_from_signed(-1 as i64), <u64>::MAX);
    assert_eq!(<u64 as Int>::cast_signed(<u64>::MAX), -1 as i64);
    assert_eq!(<u128 as Int>::ilog2(8 as u128), 3);
    assert_eq!(<u128 as Int>::from_bool(true), 1 as u128);
    assert_eq!(<u128 as Int>::from_bool(false), 0 as u128);
    assert!(<u128 as Int>::is_zero(0 as u128));
    assert!(!<u128 as Int>::is_zero(1 as u128));
    assert!(<u128 as Int>::is_not_zero(1 as u128));
    assert!(!<u128 as Int>::is_not_zero(0 as u128));
    assert_eq!(<u128 as Int>::checked_shl(1 as u128, 1), Some(2 as u128));
    assert_eq!(<u128 as Int>::checked_shl(1 as u128, <u128 as Int>::BITS), None);
    assert_eq!(<u128 as Int>::checked_add(1 as u128, 1 as u128), Some(2 as u128));
    assert_eq!(<u128 as Int>::checked_add(<u128 as Int>::MAX, 1 as u128), None);
    assert_eq!(<u128 as Int>::trailing_zeros(8 as u128), 3);
    assert_eq!(
        <u128 as Int>::saturating_sub(<u128 as Int>::MIN, 1 as u128),
        <u128 as Int>::MIN
    );
    assert_eq!(<u128 as Int>::unchecked_shl(1 as u128, 2), 4 as u128);
    assert_eq!(<u128 as Int>::unchecked_shr(8 as u128, 2), 2 as u128);
    assert_eq!(<u128 as Int>::self_from_signed(1 as i128), 1 as u128);
    assert_eq!(<u128 as Int>::self_from_unsigned(1 as u128), 1 as u128);
    assert_eq!(<u128 as Int>::cast_signed(1 as u128), 1 as i128);
    assert_eq!(<u128 as Int>::cast_unsigned(1 as u128), 1 as u128);
    assert_eq!(<u128 as Int>::BITS, <u128>::BITS);
    assert_eq!(<u128 as Int>::ZERO, 0 as u128);
    assert_eq!(<u128 as Int>::ONE, 1 as u128);
    assert_eq!(<u128 as Int>::MIN, <u128>::MIN);
    assert_eq!(<u128 as Int>::MAX, <u128>::MAX);
    assert!(<u128 as Int>::is_power_of_two(4 as u128));
    assert!(!<u128 as Int>::is_power_of_two(3 as u128));
    assert_eq!(<u128 as Int>::mask(3), 7 as u128);
    assert_eq!(<u128 as Int>::highest_mask_bit(3), 4 as u128);
    assert_eq!(<u128 as Int>::unchecked_mask(3), 7 as u128);
    assert_eq!(
        <u128 as Int>::unchecked_highest_mask_bit(3),
        4 as u128
    );
    assert!(!<u128 as Int>::IS_SIGNED);
    assert!(<u128 as Int>::IS_UNSIGNED);
    assert_eq!(<u128 as Int>::MINUS_ONE, <u128>::MAX);
    assert_eq!(<u128 as Int>::SAFE_SHIFT, <u128>::BITS - 1);
    // Reinterpretation: the all-ones signed value maps to unsigned MAX.
    assert_eq!(<u128 as Int>::self_from_signed(-1 as i128), <u128>::MAX);
    assert_eq!(<u128 as Int>::cast_signed(<u128>::MAX), -1 as i128);
    assert_eq!(<usize as Int>::ilog2(8 as usize), 3);
    assert_eq!(<usize as Int>::from_bool(true), 1 as usize);
    assert_eq!(<usize as Int>::from_bool(false), 0 as usize);
    assert!(<usize as Int>::is_zero(0 as usize));
    assert!(!<usize as Int>::is_zero(1 as usize));
    assert!(<usize as Int>::is_not_zero(1 as usize));
    assert!(!<usize as Int>::is_not_zero(0 as usize));
    assert_eq!(<usize as Int>::checked_shl(1 as usize, 1), Some(2 as usize));
    assert_eq!(<usize as Int>::checked_shl(1 as usize, <usize as Int>::BITS), None);
    assert_eq!(<usize as Int>::checked_add(1 as usize, 1 as usize), Some(2 as usize));
    assert_eq!(<usize as Int>::checked_add(<usize as Int>::MAX, 1 as usize), None);
    assert_eq!(<usize as Int>::trailing_zeros(8 as usize), 3);
    assert_eq!(
        <usize as Int>::saturating_sub(<usize as Int>::MIN, 1 as usize),
        <usize as Int>::MIN
    );
    assert_eq!(<usize as Int>::unchecked_shl(1 as usize, 2), 4 as usize);
    assert_eq!(<usize as Int>::unchecked_shr(8 as usize, 2), 2 as usize);
    assert_eq!(<usize as Int>::self_from_signed(1 as isize), 1 as usize);
    assert_eq!(<usize as Int>::self_from_unsigned(1 as usize), 1 as usize);
    assert_eq!(<usize as Int>::cast_signed(1 as usize), 1 as isize);
    assert_eq!(<usize as Int>::cast_unsigned(1 as usize), 1 as usize);
    assert_eq!(<usize as Int>::BITS, <usize>::BITS);
    assert_eq!(<usize as Int>::ZERO, 0 as usize);
    assert_eq!(<usize as Int>::ONE, 1 as usize);
    assert_eq!(<usize as Int>::MIN, <usize>::MIN);
    assert_eq!(<usize as Int>::MAX, <usize>::MAX);
    assert!(<usize as Int>::is_power_of_two(4 as usize));
    assert!(!<usize as Int>::is_power_of_two(3 as usize));
    assert_eq!(<usize as Int>::mask(3), 7 as usize);
    assert_eq!(<usize as Int>::highest_mask_bit(3), 4 as usize);
    assert_eq!(<usize as Int>::unchecked_mask(3), 7 as usize);
    assert_eq!(
        <usize as Int>::unchecked_highest_mask_bit(3),
        4 as usize
    );
    assert!(!<usize as Int>::IS_SIGNED);
    assert!(<usize as Int>::IS_UNSIGNED);
    assert_eq!(<usize as Int>::MINUS_ONE, <usize>::MAX);
    assert_eq!(<usize as Int>::SAFE_SHIFT, <usize>::BITS - 1);
    // Reinterpretation: the all-ones signed value maps to unsigned MAX.
    assert_eq!(<usize as Int>::self_from_signed(-1 as isize), <usize>::MAX);
    assert_eq!(<usize as Int>::cast_signed(<usize>::MAX), -1 as isize);
}

#[test]
fn signed_trait_methods() {
    assert_eq!(<i8 as Int>::ilog2(8 as i8), 3);
    assert_eq!(<i8 as Int>::from_bool(true), 1 as i8);
    assert_eq!(<i8 as Int>::from_bool(false), 0 as i8);
    assert!(<i8 as Int>::is_zero(0 as i8));
    assert!(!<i8 as Int>::is_zero(1 as i8));
    assert!(<i8 as Int>::is_not_zero(1 as i8));
    assert!(!<i8 as Int>::is_not_zero(0 as i8));
    assert_eq!(<i8 as Int>::checked_shl(1 as i8, 1), Some(2 as i8));
    assert_eq!(<i8 as Int>::checked_shl(1 as i8, <i8 as Int>::BITS), None);
    assert_eq!(<i8 as Int>::checked_add(1 as i8, 1 as i8), Some(2 as i8));
    assert_eq!(<i8 as Int>::checked_add(<i8 as Int>::MAX, 1 as i8), None);
    assert_eq!(<i8 as Int>::trailing_zeros(8 as i8), 3);
    assert_eq!(
        <i8 as Int>::saturating_sub(<i8 as Int>::MIN, 1 as i8),
        <i8 as Int>::MIN
    );
    assert_eq!(<i8 as Int>::unchecked_shl(1 as i8, 2), 4 as i8);
    assert_eq!(<i8 as Int>::unchecked_shr(8 as i8, 2), 2 as i8);
    assert_eq!(<i8 as Int>::self_from_signed(1 as i8), 1 as i8);
    assert_eq!(<i8 as Int>::self_from_unsigned(1 as u8), 1 as i8);
    assert_eq!(<i8 as Int>::cast_signed(1 as i8), 1 as i8);
    assert_eq!(<i8 as Int>::cast_unsigned(1 as i8), 1 as u8);
    assert_eq!(<i8 as Int>::BITS, <i8>::BITS);
    assert_eq!(<i8 as Int>::ZERO, 0 as i8);
    assert_eq!(<i8 as Int>::ONE, 1 as i8);
    assert_eq!(<i8 as Int>::MIN, <i8>::MIN);
    assert_eq!(<i8 as Int>::MAX, <i8>::MAX);
    assert!(<i8 as Int>::is_power_of_two(4 as i8));
    assert!(!<i8 as Int>::is_power_of_two(-4 as i8));
    assert!(!<i8 as Int>::is_power_of_two(0 as i8));
    assert_eq!(<i8 as Int>::mask(3), 7 as i8);
    assert_eq!(<i8 as Int>::highest_mask_bit(3), 4 as i8);
    assert_eq!(<i8 as Int>::unchecked_mask(3), 7 as i8);
    assert_eq!(
        <i8 as Int>::unchecked_highest_mask_bit(3),
        4 as i8
    );
    assert!(<i8 as Int>::IS_SIGNED);
    assert!(!<i8 as Int>::IS_UNSIGNED);
    assert_eq!(<i8 as Int>::MINUS_ONE, -1 as i8);
    assert_eq!(<i8 as Int>::SAFE_SHIFT, <i8>::BITS - 2);
    // Reinterpretation: unsigned MAX maps to the all-ones signed value (-1).
    assert_eq!(<i8 as Int>::self_from_unsigned(<u8>::MAX), -1 as i8);
    assert_eq!(<i8 as Int>::cast_unsigned(-1 as i8), <u8>::MAX);
    assert_eq!(<i16 as Int>::ilog2(8 as i16), 3);
    assert_eq!(<i16 as Int>::from_bool(true), 1 as i16);
    assert_eq!(<i16 as Int>::from_bool(false), 0 as i16);
    assert!(<i16 as Int>::is_zero(0 as i16));
    assert!(!<i16 as Int>::is_zero(1 as i16));
    assert!(<i16 as Int>::is_not_zero(1 as i16));
    assert!(!<i16 as Int>::is_not_zero(0 as i16));
    assert_eq!(<i16 as Int>::checked_shl(1 as i16, 1), Some(2 as i16));
    assert_eq!(<i16 as Int>::checked_shl(1 as i16, <i16 as Int>::BITS), None);
    assert_eq!(<i16 as Int>::checked_add(1 as i16, 1 as i16), Some(2 as i16));
    assert_eq!(<i16 as Int>::checked_add(<i16 as Int>::MAX, 1 as i16), None);
    assert_eq!(<i16 as Int>::trailing_zeros(8 as i16), 3);
    assert_eq!(
        <i16 as Int>::saturating_sub(<i16 as Int>::MIN, 1 as i16),
        <i16 as Int>::MIN
    );
    assert_eq!(<i16 as Int>::unchecked_shl(1 as i16, 2), 4 as i16);
    assert_eq!(<i16 as Int>::unchecked_shr(8 as i16, 2), 2 as i16);
    assert_eq!(<i16 as Int>::self_from_signed(1 as i16), 1 as i16);
    assert_eq!(<i16 as Int>::self_from_unsigned(1 as u16), 1 as i16);
    assert_eq!(<i16 as Int>::cast_signed(1 as i16), 1 as i16);
    assert_eq!(<i16 as Int>::cast_unsigned(1 as i16), 1 as u16);
    assert_eq!(<i16 as Int>::BITS, <i16>::BITS);
    assert_eq!(<i16 as Int>::ZERO, 0 as i16);
    assert_eq!(<i16 as Int>::ONE, 1 as i16);
    assert_eq!(<i16 as Int>::MIN, <i16>::MIN);
    assert_eq!(<i16 as Int>::MAX, <i16>::MAX);
    assert!(<i16 as Int>::is_power_of_two(4 as i16));
    assert!(!<i16 as Int>::is_power_of_two(-4 as i16));
    assert!(!<i16 as Int>::is_power_of_two(0 as i16));
    assert_eq!(<i16 as Int>::mask(3), 7 as i16);
    assert_eq!(<i16 as Int>::highest_mask_bit(3), 4 as i16);
    assert_eq!(<i16 as Int>::unchecked_mask(3), 7 as i16);
    assert_eq!(
        <i16 as Int>::unchecked_highest_mask_bit(3),
        4 as i16
    );
    assert!(<i16 as Int>::IS_SIGNED);
    assert!(!<i16 as Int>::IS_UNSIGNED);
    assert_eq!(<i16 as Int>::MINUS_ONE, -1 as i16);
    assert_eq!(<i16 as Int>::SAFE_SHIFT, <i16>::BITS - 2);
    // Reinterpretation: unsigned MAX maps to the all-ones signed value (-1).
    assert_eq!(<i16 as Int>::self_from_unsigned(<u16>::MAX), -1 as i16);
    assert_eq!(<i16 as Int>::cast_unsigned(-1 as i16), <u16>::MAX);
    assert_eq!(<i32 as Int>::ilog2(8 as i32), 3);
    assert_eq!(<i32 as Int>::from_bool(true), 1 as i32);
    assert_eq!(<i32 as Int>::from_bool(false), 0 as i32);
    assert!(<i32 as Int>::is_zero(0 as i32));
    assert!(!<i32 as Int>::is_zero(1 as i32));
    assert!(<i32 as Int>::is_not_zero(1 as i32));
    assert!(!<i32 as Int>::is_not_zero(0 as i32));
    assert_eq!(<i32 as Int>::checked_shl(1 as i32, 1), Some(2 as i32));
    assert_eq!(<i32 as Int>::checked_shl(1 as i32, <i32 as Int>::BITS), None);
    assert_eq!(<i32 as Int>::checked_add(1 as i32, 1 as i32), Some(2 as i32));
    assert_eq!(<i32 as Int>::checked_add(<i32 as Int>::MAX, 1 as i32), None);
    assert_eq!(<i32 as Int>::trailing_zeros(8 as i32), 3);
    assert_eq!(
        <i32 as Int>::saturating_sub(<i32 as Int>::MIN, 1 as i32),
        <i32 as Int>::MIN
    );
    assert_eq!(<i32 as Int>::unchecked_shl(1 as i32, 2), 4 as i32);
    assert_eq!(<i32 as Int>::unchecked_shr(8 as i32, 2), 2 as i32);
    assert_eq!(<i32 as Int>::self_from_signed(1 as i32), 1 as i32);
    assert_eq!(<i32 as Int>::self_from_unsigned(1 as u32), 1 as i32);
    assert_eq!(<i32 as Int>::cast_signed(1 as i32), 1 as i32);
    assert_eq!(<i32 as Int>::cast_unsigned(1 as i32), 1 as u32);
    assert_eq!(<i32 as Int>::BITS, <i32>::BITS);
    assert_eq!(<i32 as Int>::ZERO, 0 as i32);
    assert_eq!(<i32 as Int>::ONE, 1 as i32);
    assert_eq!(<i32 as Int>::MIN, <i32>::MIN);
    assert_eq!(<i32 as Int>::MAX, <i32>::MAX);
    assert!(<i32 as Int>::is_power_of_two(4 as i32));
    assert!(!<i32 as Int>::is_power_of_two(-4 as i32));
    assert!(!<i32 as Int>::is_power_of_two(0 as i32));
    assert_eq!(<i32 as Int>::mask(3), 7 as i32);
    assert_eq!(<i32 as Int>::highest_mask_bit(3), 4 as i32);
    assert_eq!(<i32 as Int>::unchecked_mask(3), 7 as i32);
    assert_eq!(
        <i32 as Int>::unchecked_highest_mask_bit(3),
        4 as i32
    );
    assert!(<i32 as Int>::IS_SIGNED);
    assert!(!<i32 as Int>::IS_UNSIGNED);
    assert_eq!(<i32 as Int>::MINUS_ONE, -1 as i32);
    assert_eq!(<i32 as Int>::SAFE_SHIFT, <i32>::BITS - 2);
    // Reinterpretation: unsigned MAX maps to the all-ones signed value (-1).
    assert_eq!(<i32 as Int>::self_from_unsigned(<u32>::MAX), -1 as i32);
    assert_eq!(<i32 as Int>::cast_unsigned(-1 as i32), <u32>::MAX);
    assert_eq!(<i64 as Int>::ilog2(8 as i64), 3);
    assert_eq!(<i64 as Int>::from_bool(true), 1 as i64);
    assert_eq!(<i64 as Int>::from_bool(false), 0 as i64);
    assert!(<i64 as Int>::is_zero(0 as i64));
    assert!(!<i64 as Int>::is_zero(1 as i64));
    assert!(<i64 as Int>::is_not_zero(1 as i64));
    assert!(!<i64 as Int>::is_not_zero(0 as i64));
    assert_eq!(<i64 as Int>::checked_shl(1 as i64, 1), Some(2 as i64));
    assert_eq!(<i64 as Int>::checked_shl(1 as i64, <i64 as Int>::BITS), None);
    assert_eq!(<i64 as Int>::checked_add(1 as i64, 1 as i64), Some(2 as i64));
    assert_eq!(<i64 as Int>::checked_add(<i64 as Int>::MAX, 1 as i64), None);
    assert_eq!(<i64 as Int>::trailing_zeros(8 as i64), 3);
    assert_eq!(
        <i64 as Int>::saturating_sub(<i64 as Int>::MIN, 1 as i64),
        <i64 as Int>::MIN
    );
    assert_eq!(<i64 as Int>::unchecked_shl(1 as i64, 2), 4 as i64);
    assert_eq!(<i64 as Int>::unchecked_shr(8 as i64, 2), 2 as i64);
    assert_eq!(<i64 as Int>::self_from_signed(1 as i64), 1 as i64);
    assert_eq!(<i64 as Int>::self_from_unsigned(1 as u64), 1 as i64);
    assert_eq!(<i64 as Int>::cast_signed(1 as i64), 1 as i64);
    assert_eq!(<i64 as Int>::cast_unsigned(1 as i64), 1 as u64);
    assert_eq!(<i64 as Int>::BITS, <i64>::BITS);
    assert_eq!(<i64 as Int>::ZERO, 0 as i64);
    assert_eq!(<i64 as Int>::ONE, 1 as i64);
    assert_eq!(<i64 as Int>::MIN, <i64>::MIN);
    assert_eq!(<i64 as Int>::MAX, <i64>::MAX);
    assert!(<i64 as Int>::is_power_of_two(4 as i64));
    assert!(!<i64 as Int>::is_power_of_two(-4 as i64));
    assert!(!<i64 as Int>::is_power_of_two(0 as i64));
    assert_eq!(<i64 as Int>::mask(3), 7 as i64);
    assert_eq!(<i64 as Int>::highest_mask_bit(3), 4 as i64);
    assert_eq!(<i64 as Int>::unchecked_mask(3), 7 as i64);
    assert_eq!(
        <i64 as Int>::unchecked_highest_mask_bit(3),
        4 as i64
    );
    assert!(<i64 as Int>::IS_SIGNED);
    assert!(!<i64 as Int>::IS_UNSIGNED);
    assert_eq!(<i64 as Int>::MINUS_ONE, -1 as i64);
    assert_eq!(<i64 as Int>::SAFE_SHIFT, <i64>::BITS - 2);
    // Reinterpretation: unsigned MAX maps to the all-ones signed value (-1).
    assert_eq!(<i64 as Int>::self_from_unsigned(<u64>::MAX), -1 as i64);
    assert_eq!(<i64 as Int>::cast_unsigned(-1 as i64), <u64>::MAX);
    assert_eq!(<i128 as Int>::ilog2(8 as i128), 3);
    assert_eq!(<i128 as Int>::from_bool(true), 1 as i128);
    assert_eq!(<i128 as Int>::from_bool(false), 0 as i128);
    assert!(<i128 as Int>::is_zero(0 as i128));
    assert!(!<i128 as Int>::is_zero(1 as i128));
    assert!(<i128 as Int>::is_not_zero(1 as i128));
    assert!(!<i128 as Int>::is_not_zero(0 as i128));
    assert_eq!(<i128 as Int>::checked_shl(1 as i128, 1), Some(2 as i128));
    assert_eq!(<i128 as Int>::checked_shl(1 as i128, <i128 as Int>::BITS), None);
    assert_eq!(<i128 as Int>::checked_add(1 as i128, 1 as i128), Some(2 as i128));
    assert_eq!(<i128 as Int>::checked_add(<i128 as Int>::MAX, 1 as i128), None);
    assert_eq!(<i128 as Int>::trailing_zeros(8 as i128), 3);
    assert_eq!(
        <i128 as Int>::saturating_sub(<i128 as Int>::MIN, 1 as i128),
        <i128 as Int>::MIN
    );
    assert_eq!(<i128 as Int>::unchecked_shl(1 as i128, 2), 4 as i128);
    assert_eq!(<i128 as Int>::unchecked_shr(8 as i128, 2), 2 as i128);
    assert_eq!(<i128 as Int>::self_from_signed(1 as i128), 1 as i128);
    assert_eq!(<i128 as Int>::self_from_unsigned(1 as u128), 1 as i128);
    assert_eq!(<i128 as Int>::cast_signed(1 as i128), 1 as i128);
    assert_eq!(<i128 as Int>::cast_unsigned(1 as i128), 1 as u128);
    assert_eq!(<i128 as Int>::BITS, <i128>::BITS);
    assert_eq!(<i128 as Int>::ZERO, 0 as i128);
    assert_eq!(<i128 as Int>::ONE, 1 as i128);
    assert_eq!(<i128 as Int>::MIN, <i128>::MIN);
    assert_eq!(<i128 as Int>::MAX, <i128>::MAX);
    assert!(<i128 as Int>::is_power_of_two(4 as i128));
    assert!(!<i128 as Int>::is_power_of_two(-4 as i128));
    assert!(!<i128 as Int>::is_power_of_two(0 as i128));
    assert_eq!(<i128 as Int>::mask(3), 7 as i128);
    assert_eq!(<i128 as Int>::highest_mask_bit(3), 4 as i128);
    assert_eq!(<i128 as Int>::unchecked_mask(3), 7 as i128);
    assert_eq!(
        <i128 as Int>::unchecked_highest_mask_bit(3),
        4 as i128
    );
    assert!(<i128 as Int>::IS_SIGNED);
    assert!(!<i128 as Int>::IS_UNSIGNED);
    assert_eq!(<i128 as Int>::MINUS_ONE, -1 as i128);
    assert_eq!(<i128 as Int>::SAFE_SHIFT, <i128>::BITS - 2);
    // Reinterpretation: unsigned MAX maps to the all-ones signed value (-1).
    assert_eq!(<i128 as Int>::self_from_unsigned(<u128>::MAX), -1 as i128);
    assert_eq!(<i128 as Int>::cast_unsigned(-1 as i128), <u128>::MAX);
    assert_eq!(<isize as Int>::ilog2(8 as isize), 3);
    assert_eq!(<isize as Int>::from_bool(true), 1 as isize);
    assert_eq!(<isize as Int>::from_bool(false), 0 as isize);
    assert!(<isize as Int>::is_zero(0 as isize));
    assert!(!<isize as Int>::is_zero(1 as isize));
    assert!(<isize as Int>::is_not_zero(1 as isize));
    assert!(!<isize as Int>::is_not_zero(0 as isize));
    assert_eq!(<isize as Int>::checked_shl(1 as isize, 1), Some(2 as isize));
    assert_eq!(<isize as Int>::checked_shl(1 as isize, <isize as Int>::BITS), None);
    assert_eq!(<isize as Int>::checked_add(1 as isize, 1 as isize), Some(2 as isize));
    assert_eq!(<isize as Int>::checked_add(<isize as Int>::MAX, 1 as isize), None);
    assert_eq!(<isize as Int>::trailing_zeros(8 as isize), 3);
    assert_eq!(
        <isize as Int>::saturating_sub(<isize as Int>::MIN, 1 as isize),
        <isize as Int>::MIN
    );
    assert_eq!(<isize as Int>::unchecked_shl(1 as isize, 2), 4 as isize);
    assert_eq!(<isize as Int>::unchecked_shr(8 as isize, 2), 2 as isize);
    assert_eq!(<isize as Int>::self_from_signed(1 as isize), 1 as isize);
    assert_eq!(<isize as Int>::self_from_unsigned(1 as usize), 1 as isize);
    assert_eq!(<isize as Int>::cast_signed(1 as isize), 1 as isize);
    assert_eq!(<isize as Int>::cast_unsigned(1 as isize), 1 as usize);
    assert_eq!(<isize as Int>::BITS, <isize>::BITS);
    assert_eq!(<isize as Int>::ZERO, 0 as isize);
    assert_eq!(<isize as Int>::ONE, 1 as isize);
    assert_eq!(<isize as Int>::MIN, <isize>::MIN);
    assert_eq!(<isize as Int>::MAX, <isize>::MAX);
    assert!(<isize as Int>::is_power_of_two(4 as isize));
    assert!(!<isize as Int>::is_power_of_two(-4 as isize));
    assert!(!<isize as Int>::is_power_of_two(0 as isize));
    assert_eq!(<isize as Int>::mask(3), 7 as isize);
    assert_eq!(<isize as Int>::highest_mask_bit(3), 4 as isize);
    assert_eq!(<isize as Int>::unchecked_mask(3), 7 as isize);
    assert_eq!(
        <isize as Int>::unchecked_highest_mask_bit(3),
        4 as isize
    );
    assert!(<isize as Int>::IS_SIGNED);
    assert!(!<isize as Int>::IS_UNSIGNED);
    assert_eq!(<isize as Int>::MINUS_ONE, -1 as isize);
    assert_eq!(<isize as Int>::SAFE_SHIFT, <isize>::BITS - 2);
    // Reinterpretation: unsigned MAX maps to the all-ones signed value (-1).
    assert_eq!(<isize as Int>::self_from_unsigned(<usize>::MAX), -1 as isize);
    assert_eq!(<isize as Int>::cast_unsigned(-1 as isize), <usize>::MAX);
}
