//! The laws of the library checked on concrete values: exhaustively for the 8-bit
//! types, and on edge values and an even sweep for the wider ones.

use ipow2::{
    Pow2, UnboundedPow2, ceil_to_multiple, checked_ceil_to_multiple, checked_round_to_multiple,
    div_ceil, div_floor, div_round, floor_to_multiple, is_multiple_of, rem_floor,
    round_to_multiple,
};

#[test]
fn unsigned_u8_matches_definitions() {
    for e in 0u8..8 {
        let p = Pow2::<u8>::from_exponent(e).unwrap();
        let mask = (1u8 << e) - 1;
        for x in 0u8..=u8::MAX {
            assert_eq!(div_floor(x, p), x >> e);
            assert_eq!(rem_floor(x, p), x & mask);
            assert_eq!(floor_to_multiple(x, p), x & !mask);
            assert_eq!(is_multiple_of(x, p), (x & mask) == 0);
            assert_eq!(floor_to_multiple(x, p) + rem_floor(x, p), x);
        }
    }
}

#[test]
fn signed_i8_laws_hold() {
    for e in 0u8..8 {
        let p = Pow2::<u8>::from_exponent(e).unwrap();
        for x in i8::MIN..=i8::MAX {
            let r = rem_floor(x, p);
            assert_eq!(floor_to_multiple(x, p) + r, x);
            assert!(r >= 0 && (r as u16) < (1u16 << e));
            assert_eq!(is_multiple_of(x, p), r == 0);

            let f = div_floor(x, p);
            let c = div_ceil(x, p);
            let rd = div_round(x, p);
            assert!(f <= rd && rd <= c);
            assert!(c - f == 0 || c - f == 1);
        }
    }
}

#[test]
fn div_round_matches_half_away_i8() {
    for e in 0u8..8 {
        let p = Pow2::<u8>::from_exponent(e).unwrap();
        for x in i8::MIN..=i8::MAX {
            let d = 1i16 << e;
            let xw = x as i16;
            let q = xw / d;
            let rem = xw % d;
            let expected = if rem.unsigned_abs() * 2 >= d as u16 {
                q + xw.signum()
            } else {
                q
            };
            assert_eq!(div_round(x, p) as i16, expected);
        }
    }
}

fn samples_i64() -> Vec<i64> {
    let mut v = vec![i64::MIN, i64::MIN + 1, -2, -1, 0, 1, 2, i64::MAX - 1, i64::MAX];
    let step = (u64::MAX / 97) as i64;
    let mut w = i64::MIN;
    for _ in 0..97 {
        v.push(w);
        w = w.wrapping_add(step);
    }
    for k in 0..63 {
        let p = 1i64 << k;
        v.push(p);
        v.push(p - 1);
        v.push(-p);
        v.push(-p + 1);
    }
    v
}

fn samples_u64() -> Vec<u64> {
    samples_i64().into_iter().map(|x| x as u64).collect()
}

#[test]
fn laws_hold_for_wide_signed_values() {
    for e in 0u8..64 {
        let p = Pow2::<u64>::from_exponent(e).unwrap();
        let u = UnboundedPow2::from_exponent(e);
        for x in samples_i64() {
            let lo = floor_to_multiple(x, p);
            let r = rem_floor(x, p);
            assert_eq!(lo + r, x);
            assert!((r as u128) < (1u128 << e));
            assert_eq!(is_multiple_of(x, p), r == 0);
            assert_eq!(floor_to_multiple(x, p), div_floor(x, p) << e);

            let f = div_floor(x, p);
            let c = div_ceil(x, p);
            let rd = div_round(x, p);
            assert!(f <= rd && rd <= c);
            assert!(c - f == 0 || c - f == 1);

            assert_eq!(div_floor(x, p), div_floor(x, u));
            assert_eq!(rem_floor(x, p), rem_floor(x, u));
            assert_eq!(div_ceil(x, p), div_ceil(x, u));
            assert_eq!(div_round(x, p), div_round(x, u));
            assert_eq!(floor_to_multiple(x, p), floor_to_multiple(x, u));
            assert_eq!(is_multiple_of(x, p), is_multiple_of(x, u));

            if let Some(v) = checked_ceil_to_multiple(x, p) {
                assert_eq!(v, ceil_to_multiple(x, p));
            }
            if let Some(v) = checked_round_to_multiple(x, p) {
                assert_eq!(v, round_to_multiple(x, p));
            }
        }
    }
}

#[test]
fn laws_hold_for_wide_unsigned_values() {
    for e in 0u8..64 {
        let p = Pow2::<u64>::from_exponent(e).unwrap();
        let u = UnboundedPow2::from_exponent(e);
        for x in samples_u64() {
            let lo = floor_to_multiple(x, p);
            let r = rem_floor(x, p);
            assert_eq!(lo.wrapping_add(r), x);
            assert!((r as u128) < (1u128 << e));
            assert_eq!(is_multiple_of(x, p), r == 0);
            assert_eq!(floor_to_multiple(x, p), div_floor(x, p) << e);

            let f = div_floor(x, p);
            let c = div_ceil(x, p);
            let rd = div_round(x, p);
            assert!(f <= rd && rd <= c);
            assert!(c - f <= 1);

            assert_eq!(div_floor(x, u), f);
            assert_eq!(rem_floor(x, u), r);
            assert_eq!(is_multiple_of(x, u), is_multiple_of(x, p));

            if let Some(v) = checked_ceil_to_multiple(x, p) {
                assert_eq!(v, ceil_to_multiple(x, p));
            }
        }
    }
}

#[test]
fn laws_hold_for_128_bit_values() {
    let xs: Vec<i128> = vec![i128::MIN, i128::MIN + 1, -(1i128 << 100) - 3, -1, 0, 1, 7,
        (1i128 << 100) + 5, i128::MAX - 1, i128::MAX];
    for e in 0u8..128 {
        let p = Pow2::<u128>::from_exponent(e).unwrap();
        for &x in &xs {
            let r = rem_floor(x, p);
            assert_eq!(floor_to_multiple(x, p) + r, x);
            assert!((r as u128) < (1u128 << e));
            assert_eq!(is_multiple_of(x, p), r == 0);
            let f = div_floor(x, p);
            let c = div_ceil(x, p);
            let rd = div_round(x, p);
            assert!(f <= rd && rd <= c);
            assert!(c - f <= 1);

            let y = x as u128;
            let ry = rem_floor(y, p);
            assert_eq!(floor_to_multiple(y, p).wrapping_add(ry), y);
            assert!(div_floor(y, p) <= div_round(y, p) && div_round(y, p) <= div_ceil(y, p));
        }
    }
}

#[test]
fn multiples_are_the_nearest_ones() {
    // floor: the largest multiple below, ceil: the smallest above, round: the nearest,
    // ties away from zero.
    let p = Pow2::<u8>::VAL_8();
    assert_eq!(floor_to_multiple(-9i32, p), -16);
    assert_eq!(ceil_to_multiple(-9i32, p), -8);
    assert_eq!(round_to_multiple(-9i32, p), -8);
    assert_eq!(round_to_multiple(-12i32, p), -16);
    assert_eq!(round_to_multiple(12i32, p), 16);
    assert_eq!(round_to_multiple(11i32, p), 8);
    assert_eq!(round_to_multiple(-11i32, p), -8);
    assert_eq!(floor_to_multiple(16i32, p), 16);
    assert_eq!(ceil_to_multiple(16i32, p), 16);
}

#[test]
fn conversions_round_trip() {
    for e in 0u8..32 {
        let p = Pow2::<u32>::from_exponent(e).unwrap();
        let u: UnboundedPow2 = p.into();
        assert_eq!(Pow2::<u32>::try_from(u), Ok(p));
        assert_eq!(UnboundedPow2::from(Pow2::<u32>::try_from(u).unwrap()), u);
    }
    for e in 32u8..=255 {
        assert!(Pow2::<u32>::try_from(UnboundedPow2::from_exponent(e)).is_err());
    }
}

#[test]
fn unbounded_product_divides_back() {
    for a in 0u8..=255 {
        for b in 0u8..=(255 - a) {
            let x = UnboundedPow2::from_exponent(a);
            let y = UnboundedPow2::from_exponent(b);
            assert_eq!((x * y) / y, x);
        }
    }
}
