use vstd::prelude::*;
use crate::arith::{
    p2, is_pow2_int, lemma_pow2_values, lemma_mod_add_p2, lemma_p2_pos, lemma_sub_floor,
    lemma_div_exact, lemma_p2_succ, lemma_p2_zero, lemma_odd_part_step, lemma_odd_part_trailing,
    lemma_odd_part_pow2, lemma_ilog2_step,
};
use crate::integer::{Int, IntAtLeastAsWide, IntRounding, SealedInt, SignedInt, UnsignedInt};

verus! {

/// `x` split into an odd factor and a power of two: `x == y * 2^r` with `y` odd.
fn u8_odd_part(x: u8) -> (res: (u8, u32))
    requires
        x != 0,
    ensures
        x as int == res.0 as int * p2(res.1 as nat),
        res.0 % 2 == 1,
        res.1 < 8,
{
    let mut y = x;
    let mut r: u32 = 0;
    proof {
        lemma_pow2_values();
        lemma_p2_zero();
    }
    while y % 2 == 0
        invariant
            x as int == y as int * p2(r as nat),
            0 < y,
            (x as int) < p2(8),
            r < 8,
        decreases y,
    {
        proof {
            lemma_odd_part_step(x as int, y as int, r as nat, 8);
        }
        y = y / 2;
        r = r + 1;
    }
    (y, r)
}

/// Whether `x` is `2^k` for some `k`: a non-zero value whose odd factor is one.
fn u8_is_power_of_two(x: u8) -> (r: bool)
    ensures
        r == is_pow2_int(x as int),
{
    if x == 0 {
        proof {
            if is_pow2_int(0) {
                let e = choose|e: nat| 0 == #[trigger] p2(e);
                lemma_p2_pos(e);
            }
        }
        false
    } else {
        let (y, r) = u8_odd_part(x);
        proof {
            lemma_odd_part_pow2(x as int, y as int, r as nat);
        }
        y == 1
    }
}

/// The base 2 logarithm of a positive `x`, rounded down.
fn u8_ilog2(x: u8) -> (r: u32)
    requires
        x > 0,
    ensures
        p2(r as nat) <= x < p2(r as nat + 1),
{
    let mut y = x;
    let mut r: u32 = 0;
    proof {
        lemma_pow2_values();
        lemma_p2_zero();
    }
    while y >= 2
        invariant
            1 <= y,
            p2(r as nat) * y <= x < p2(r as nat) * (y + 1),
            (x as int) < p2(8),
            r < 8,
        decreases y,
    {
        proof {
            lemma_ilog2_step(x as int, y as int, r as nat, 8);
        }
        y = y / 2;
        r = r + 1;
    }
    proof {
        lemma_p2_succ(r as nat);
        assert(p2(r as nat) <= x < p2(r as nat + 1)) by (nonlinear_arith)
            requires
                y == 1,
                p2(r as nat) * y <= x < p2(r as nat) * (y + 1),
                p2(r as nat + 1) == 2 * p2(r as nat),
        ;
    }
    r
}

/// The number of zero bits below the lowest set bit (the width for zero): the
/// largest `r` such that `2^r` divides a non-zero value.
fn u8_trailing_zeros(x: u8) -> (r: u32)
    ensures
        r <= 8,
        x == 0 ==> r == 8,
        x != 0 ==> r < 8 && x as int % p2(r as nat) == 0 && x as int % p2(r as nat + 1) != 0,
{
    let r = x.trailing_zeros();
    proof {
        vstd::std_specs::bits::axiom_u8_trailing_zeros(x);
        if r < 8 {
            lemma_trailing_zeros_u8(x, r as u8);
        }
    }
    r
}

#[verifier::rlimit(100)]
proof fn lemma_low_zero_bits_u8(x: u8, s: u8)
    by (bit_vector)
    requires
        s < 8,
        x << ((8 - s) as u8) == 0,
        (x >> s) & 1u8 == 1u8,
    ensures
        (x >> s) << s == x,
        (x >> s) % 2 == 1,
{
}

/// The lowest set bit of `x` is bit `s`: `2^s` divides `x` and `2^(s + 1)` does not.
proof fn lemma_trailing_zeros_u8(x: u8, s: u8)
    requires
        s < 8,
        x << ((8 - s) as u8) == 0,
        (x >> s) & 1u8 == 1u8,
    ensures
        x as int % p2(s as nat) == 0,
        x as int % p2(s as nat + 1) != 0,
{
    lemma_low_zero_bits_u8(x, s);
    let q = x >> s;
    vstd::bits::lemma_u8_shr_is_div(x, s);
    lemma_p2_pos(s as nat);
    lemma_sub_floor(x as int, p2(s as nat));
    assert((q as int) * p2(s as nat) <= u8::MAX) by (nonlinear_arith)
        requires
            (q as int) * p2(s as nat) <= x,
            x <= u8::MAX,
    ;
    vstd::bits::lemma_u8_shl_is_mul(q, s);
    lemma_div_exact(x as int, p2(s as nat), q as int);
    lemma_p2_succ(s as nat);
    assert(x as int == (q as int / 2) * p2(s as nat + 1) + p2(s as nat)) by (nonlinear_arith)
        requires
            x as int == (q as int) * p2(s as nat),
            q as int == 2 * (q as int / 2) + 1,
            p2(s as nat + 1) == 2 * p2(s as nat),
    ;
    vstd::arithmetic::div_mod::lemma_fundamental_div_mod_converse(
        x as int,
        p2(s as nat + 1),
        q as int / 2,
        p2(s as nat),
    );
}

#[verifier::rlimit(100)]
proof fn lemma_bits_u8(x: u8, y: u8, s: u32)
    by (bit_vector)
    requires
        s < 8,
    ensures
        x >> 0u32 == x,
        x << 0u32 == x,
        s + 1 < 8 ==> x >> ((s + 1) as u32) == (x >> s) >> 1u32,
        s + 1 < 8 ==> x << ((s + 1) as u32) == (x << s) << 1u32,
        x == 2 * (x >> 1u32) + (x & 1u8),
        (x & 1u8) == 0 || (x & 1u8) == 1,
        x <= 0x7f ==> (x << 1u32) == 2 * x,
        (1u8 << s) >= 1,
        x & (((1u8 << s) - 1) as u8) == x - ((x >> s) << s),
        x & !(((1u8 << s) - 1) as u8) == ((x >> s) << s),
        !x == 0xffu8 - x,
        0xffu8 & (((1u8 << s) - 1) as u8) == (((1u8 << s) - 1) as u8),
        s == 0 ==> (1u8 << s) >> 1u32 == 0,
        s >= 1 ==> (1u8 << s) >> 1u32 == (((1u8 << s) - 1) as u8) - ((((1u8 << s) - 1) as u8) >> 1u32),
        s >= 1 ==> ((x & ((1u8 << s) >> 1u32)) == 0) == (((x >> ((s - 1) as u32)) & 1u8) == 0),
        ((x << s) >> s == x) == (x <= (0xffu8 >> s)),
        0u8 & y == 0,
        0u8 >> s == 0,
        0xffu8 & y == y,
        y >= 0x80 ==> (y as i8) == y - 0x100,
        y < 0x80 ==> (y as i8) == y,
{
}

impl Int for u8 {
    type Signed = i8;

    type Unsigned = u8;

    const BITS: u32 = 8;

    const ZERO: u8 = 0;

    const ONE: u8 = 1;

    const MINUS_ONE: u8 = 0xff;

    const MIN: u8 = 0;

    const MAX: u8 = 0xff;

    const IS_SIGNED: bool = false;

    const IS_UNSIGNED: bool = true;

    const SAFE_SHIFT: u32 = 7;

    open spec fn width() -> nat {
        8
    }

    open spec fn signed_int() -> bool {
        false
    }

    open spec fn min_val() -> int {
        0
    }

    open spec fn max_val() -> int {
        0xff as int
    }

    open spec fn val(self) -> int {
        self as int
    }

    open spec fn from_val(v: int) -> u8 {
        v as u8
    }

    open spec fn signed_val(v: i8) -> int {
        v as int
    }

    open spec fn unsigned_val(v: u8) -> int {
        v as int
    }

    open spec fn shr_spec(self, s: u32) -> u8 {
        self >> s
    }

    open spec fn shl_spec(self, s: u32) -> u8 {
        self << s
    }

    open spec fn and_spec(self, rhs: u8) -> u8 {
        self & rhs
    }

    open spec fn not_spec(self) -> u8 {
        !self
    }

    open spec fn mask_spec(bits: u32) -> u8 {
        ((1u8 << bits) - 1) as u8
    }

    open spec fn high_bit_spec(bits: u32) -> u8 {
        (1u8 << bits) >> 1u32
    }

    proof fn lemma_model() {
        lemma_pow2_values();
    }

    proof fn lemma_val(x: u8) {
    }

    proof fn lemma_from_val(v: int) {
    }

    proof fn lemma_bits(x: u8, y: u8, s: u32) {
        lemma_bits_u8(x, y, s);
    }

    fn is_power_of_two(self) -> (r: bool) {
        u8_is_power_of_two(self)
    }

    fn ilog2(self) -> (r: u32) {
        u8_ilog2(self)
    }

    fn cast_signed(self) -> (r: i8) {
        proof {
            lemma_bits_u8(self, self, 0);
            lemma_pow2_values();
        }
        self as i8
    }

    fn cast_unsigned(self) -> (r: u8) {
        self
    }

    fn from_bool(b: bool) -> (r: u8) {
        if b {
            1
        } else {
            0
        }
    }

    fn is_zero(self) -> (r: bool) {
        self == 0
    }

    fn is_not_zero(self) -> (r: bool) {
        self != 0
    }

    fn checked_shl(self, rhs: u32) -> (r: Option<u8>) {
        if rhs < 8 {
            Some(self << rhs)
        } else {
            None
        }
    }

    fn checked_add(self, rhs: u8) -> (r: Option<u8>) {
        self.checked_add(rhs)
    }

    fn mask(bits: u32) -> (r: u8) {
        proof {
            lemma_bits_u8(0, 0, bits);
        }
        (1u8 << bits) - 1
    }

    fn highest_mask_bit(bits: u32) -> (r: u8) {
        (1u8 << bits) >> 1u32
    }

    fn unchecked_mask(bits: u32) -> (r: u8) {
        proof {
            lemma_bits_u8(0, 0, bits);
        }
        (1u8 << bits) - 1
    }

    fn unchecked_highest_mask_bit(bits: u32) -> (r: u8) {
        (1u8 << bits) >> 1u32
    }

    fn trailing_zeros(self) -> (r: u32) {
        u8_trailing_zeros(self)
    }

    fn unchecked_shr(self, rhs: u32) -> (r: u8) {
        self >> rhs
    }

    fn unchecked_shl(self, rhs: u32) -> (r: u8) {
        self << rhs
    }

    fn saturating_sub(self, rhs: u8) -> (r: u8) {
        self.saturating_sub(rhs)
    }

    fn self_from_signed(rhs: i8) -> (r: u8) {
        proof {
            lemma_bits_i8(rhs, rhs, 0);
            lemma_pow2_values();
        }
        rhs as u8
    }

    fn self_from_unsigned(rhs: u8) -> (r: u8) {
        rhs
    }

    fn bit_and(self, rhs: u8) -> (r: u8) {
        self & rhs
    }

    fn bit_not(self) -> (r: u8) {
        !self
    }

    fn add_exact(self, rhs: u8) -> (r: u8) {
        self + rhs
    }

    fn sub_exact(self, rhs: u8) -> (r: u8) {
        self - rhs
    }

    fn less_than(self, rhs: u8) -> (r: bool) {
        self < rhs
    }

    fn same_as(self, rhs: u8) -> (r: bool) {
        self == rhs
    }

}

impl UnsignedInt for u8 {
    proof fn lemma_unsigned() {
    }
}

#[verifier::rlimit(100)]
proof fn lemma_bits_i8(x: i8, y: i8, s: u32)
    by (bit_vector)
    requires
        s < 8,
    ensures
        x >> 0u32 == x,
        x << 0u32 == x,
        s + 1 < 8 ==> x >> ((s + 1) as u32) == (x >> s) >> 1u32,
        s + 1 < 8 ==> x << ((s + 1) as u32) == (x << s) << 1u32,
        x == 2 * (x >> 1u32) + (x & 1i8),
        (x & 1i8) == 0 || (x & 1i8) == 1,
        -0x40 <= x <= 0x3f ==> (x << 1u32) == 2 * x,
        !x == -1 - x,
        ((x << s) >> s == x) == ((((-0x80i8)) >> s) <= x && x <= (0x7fi8 >> s)),
        0i8 & y == 0,
        -1i8 & y == y,
        y < 0 ==> (y as u8) == y + 0x100,
        y >= 0 ==> (y as u8) == y,
{
}

#[verifier::rlimit(100)]
proof fn lemma_mask_bits_i8(x: i8, s: u32)
    by (bit_vector)
    requires
        s < 8,
    ensures
        x & ((((1u8 << s) - 1) as u8) as i8) == x - ((x >> s) << s),
        x & !((((1u8 << s) - 1) as u8) as i8) == ((x >> s) << s),
        0x7fi8 & ((((1u8 << s) - 1) as u8) as i8) == ((((1u8 << s) - 1) as u8) as i8),
        s == 0 ==> (((1u8 << s) >> 1u32) as i8) == 0,
        s >= 1 ==> (((1u8 << s) >> 1u32) as i8) == ((((1u8 << s) - 1) as u8) as i8) - (((((1u8 << s) - 1) as u8) as i8) >> 1u32),
        s >= 1 ==> ((x & (((1u8 << s) >> 1u32) as i8)) == 0) == (((x >> ((s - 1) as u32)) & 1i8) == 0),
{
}

impl Int for i8 {
    type Signed = i8;

    type Unsigned = u8;

    const BITS: u32 = 8;

    const ZERO: i8 = 0;

    const ONE: i8 = 1;

    const MINUS_ONE: i8 = -1;

    const MIN: i8 = -0x80;

    const MAX: i8 = 0x7f;

    const IS_SIGNED: bool = true;

    const IS_UNSIGNED: bool = false;

    const SAFE_SHIFT: u32 = 6;

    open spec fn width() -> nat {
        8
    }

    open spec fn signed_int() -> bool {
        true
    }

    open spec fn min_val() -> int {
        -0x80 as int
    }

    open spec fn max_val() -> int {
        0x7f as int
    }

    open spec fn val(self) -> int {
        self as int
    }

    open spec fn from_val(v: int) -> i8 {
        v as i8
    }

    open spec fn signed_val(v: i8) -> int {
        v as int
    }

    open spec fn unsigned_val(v: u8) -> int {
        v as int
    }

    open spec fn shr_spec(self, s: u32) -> i8 {
        self >> s
    }

    open spec fn shl_spec(self, s: u32) -> i8 {
        self << s
    }

    open spec fn and_spec(self, rhs: i8) -> i8 {
        self & rhs
    }

    open spec fn not_spec(self) -> i8 {
        !self
    }

    open spec fn mask_spec(bits: u32) -> i8 {
        (((1u8 << bits) - 1) as u8) as i8
    }

    open spec fn high_bit_spec(bits: u32) -> i8 {
        ((1u8 << bits) >> 1u32) as i8
    }

    proof fn lemma_model() {
        lemma_pow2_values();
    }

    proof fn lemma_val(x: i8) {
    }

    proof fn lemma_from_val(v: int) {
    }

    proof fn lemma_bits(x: i8, y: i8, s: u32) {
        lemma_bits_i8(x, y, s);
        lemma_mask_bits_i8(x, s);
    }

    fn is_power_of_two(self) -> (r: bool) {
        proof {
            lemma_bits_i8(self, self, 0);
            if self <= 0 {
                assert forall|e: nat| self as int != #[trigger] p2(e) by {
                    lemma_p2_pos(e);
                }
            }
        }
        self > 0 && u8_is_power_of_two(self as u8)
    }

    fn ilog2(self) -> (r: u32) {
        proof {
            lemma_bits_i8(self, self, 0);
        }
        u8_ilog2(self as u8)
    }

    fn cast_signed(self) -> (r: i8) {
        proof {
            lemma_pow2_values();
        }
        self
    }

    fn cast_unsigned(self) -> (r: u8) {
        proof {
            lemma_bits_i8(self, self, 0);
            lemma_pow2_values();
        }
        self as u8
    }

    fn from_bool(b: bool) -> (r: i8) {
        if b {
            1
        } else {
            0
        }
    }

    fn is_zero(self) -> (r: bool) {
        self == 0
    }

    fn is_not_zero(self) -> (r: bool) {
        self != 0
    }

    fn checked_shl(self, rhs: u32) -> (r: Option<i8>) {
        if rhs < 8 {
            Some(self << rhs)
        } else {
            None
        }
    }

    fn checked_add(self, rhs: i8) -> (r: Option<i8>) {
        self.checked_add(rhs)
    }

    fn mask(bits: u32) -> (r: i8) {
        proof {
            lemma_bits_u8(0, 0, bits);
        }
        ((1u8 << bits) - 1) as i8
    }

    fn highest_mask_bit(bits: u32) -> (r: i8) {
        ((1u8 << bits) >> 1u32) as i8
    }

    fn unchecked_mask(bits: u32) -> (r: i8) {
        proof {
            lemma_bits_u8(0, 0, bits);
        }
        ((1u8 << bits) - 1) as i8
    }

    fn unchecked_highest_mask_bit(bits: u32) -> (r: i8) {
        ((1u8 << bits) >> 1u32) as i8
    }

    fn trailing_zeros(self) -> (r: u32) {
        let r = u8_trailing_zeros(self as u8);
        proof {
            lemma_bits_i8(self, self, 0);
            lemma_pow2_values();
            if self < 0 {
                lemma_mod_add_p2(self as int, r as nat, 8);
                if r < 8 {
                    lemma_mod_add_p2(self as int, r as nat + 1, 8);
                }
            }
        }
        r
    }

    fn unchecked_shr(self, rhs: u32) -> (r: i8) {
        self >> rhs
    }

    fn unchecked_shl(self, rhs: u32) -> (r: i8) {
        self << rhs
    }

    fn saturating_sub(self, rhs: i8) -> (r: i8) {
        match self.checked_sub(rhs) {
            Some(v) => v,
            None => {
                if rhs > 0 {
                    -0x80
                } else {
                    0x7f
                }
            },
        }
    }

    fn self_from_signed(rhs: i8) -> (r: i8) {
        rhs
    }

    fn self_from_unsigned(rhs: u8) -> (r: i8) {
        proof {
            lemma_bits_u8(rhs, rhs, 0);
            lemma_pow2_values();
        }
        rhs as i8
    }

    fn bit_and(self, rhs: i8) -> (r: i8) {
        self & rhs
    }

    fn bit_not(self) -> (r: i8) {
        !self
    }

    fn add_exact(self, rhs: i8) -> (r: i8) {
        self + rhs
    }

    fn sub_exact(self, rhs: i8) -> (r: i8) {
        self - rhs
    }

    fn less_than(self, rhs: i8) -> (r: bool) {
        self < rhs
    }

    fn same_as(self, rhs: i8) -> (r: bool) {
        self == rhs
    }

}

impl SignedInt for i8 {
    proof fn lemma_signed() {
    }
}

/// `x` split into an odd factor and a power of two: `x == y * 2^r` with `y` odd.
fn u16_odd_part(x: u16) -> (res: (u16, u32))
    requires
        x != 0,
    ensures
        x as int == res.0 as int * p2(res.1 as nat),
        res.0 % 2 == 1,
        res.1 < 16,
{
    let mut y = x;
    let mut r: u32 = 0;
    proof {
        lemma_pow2_values();
        lemma_p2_zero();
    }
    while y % 2 == 0
        invariant
            x as int == y as int * p2(r as nat),
            0 < y,
            (x as int) < p2(16),
            r < 16,
        decreases y,
    {
        proof {
            lemma_odd_part_step(x as int, y as int, r as nat, 16);
        }
        y = y / 2;
        r = r + 1;
    }
    (y, r)
}

/// Whether `x` is `2^k` for some `k`: a non-zero value whose odd factor is one.
fn u16_is_power_of_two(x: u16) -> (r: bool)
    ensures
        r == is_pow2_int(x as int),
{
    if x == 0 {
        proof {
            if is_pow2_int(0) {
                let e = choose|e: nat| 0 == #[trigger] p2(e);
                lemma_p2_pos(e);
            }
        }
        false
    } else {
        let (y, r) = u16_odd_part(x);
        proof {
            lemma_odd_part_pow2(x as int, y as int, r as nat);
        }
        y == 1
    }
}

/// The base 2 logarithm of a positive `x`, rounded down.
fn u16_ilog2(x: u16) -> (r: u32)
    requires
        x > 0,
    ensures
        p2(r as nat) <= x < p2(r as nat + 1),
{
    let mut y = x;
    let mut r: u32 = 0;
    proof {
        lemma_pow2_values();
        lemma_p2_zero();
    }
    while y >= 2
        invariant
            1 <= y,
            p2(r as nat) * y <= x < p2(r as nat) * (y + 1),
            (x as int) < p2(16),
            r < 16,
        decreases y,
    {
        proof {
            lemma_ilog2_step(x as int, y as int, r as nat, 16);
        }
        y = y / 2;
        r = r + 1;
    }
    proof {
        lemma_p2_succ(r as nat);
        assert(p2(r as nat) <= x < p2(r as nat + 1)) by (nonlinear_arith)
            requires
                y == 1,
                p2(r as nat) * y <= x < p2(r as nat) * (y + 1),
                p2(r as nat + 1) == 2 * p2(r as nat),
        ;
    }
    r
}

/// The number of zero bits below the lowest set bit (the width for zero): the
/// largest `r` such that `2^r` divides a non-zero value.
fn u16_trailing_zeros(x: u16) -> (r: u32)
    ensures
        r <= 16,
        x == 0 ==> r == 16,
        x != 0 ==> r < 16 && x as int % p2(r as nat) == 0 && x as int % p2(r as nat + 1) != 0,
{
    let r = x.trailing_zeros();
    proof {
        vstd::std_specs::bits::axiom_u16_trailing_zeros(x);
        if r < 16 {
            lemma_trailing_zeros_u16(x, r as u16);
        }
    }
    r
}

#[verifier::rlimit(100)]
proof fn lemma_low_zero_bits_u16(x: u16, s: u16)
    by (bit_vector)
    requires
        s < 16,
        x << ((16 - s) as u16) == 0,
        (x >> s) & 1u16 == 1u16,
    ensures
        (x >> s) << s == x,
        (x >> s) % 2 == 1,
{
}

/// The lowest set bit of `x` is bit `s`: `2^s` divides `x` and `2^(s + 1)` does not.
proof fn lemma_trailing_zeros_u16(x: u16, s: u16)
    requires
        s < 16,
        x << ((16 - s) as u16) == 0,
        (x >> s) & 1u16 == 1u16,
    ensures
        x as int % p2(s as nat) == 0,
        x as int % p2(s as nat + 1) != 0,
{
    lemma_low_zero_bits_u16(x, s);
    let q = x >> s;
    vstd::bits::lemma_u16_shr_is_div(x, s);
    lemma_p2_pos(s as nat);
    lemma_sub_floor(x as int, p2(s as nat));
    assert((q as int) * p2(s as nat) <= u16::MAX) by (nonlinear_arith)
        requires
            (q as int) * p2(s as nat) <= x,
            x <= u16::MAX,
    ;
    vstd::bits::lemma_u16_shl_is_mul(q, s);
    lemma_div_exact(x as int, p2(s as nat), q as int);
    lemma_p2_succ(s as nat);
    assert(x as int == (q as int / 2) * p2(s as nat + 1) + p2(s as nat)) by (nonlinear_arith)
        requires
            x as int == (q as int) * p2(s as nat),
            q as int == 2 * (q as int / 2) + 1,
            p2(s as nat + 1) == 2 * p2(s as nat),
    ;
    vstd::arithmetic::div_mod::lemma_fundamental_div_mod_converse(
        x as int,
        p2(s as nat + 1),
        q as int / 2,
        p2(s as nat),
    );
}

#[verifier::rlimit(100)]
proof fn lemma_bits_u16(x: u16, y: u16, s: u32)
    by (bit_vector)
    requires
        s < 16,
    ensures
        x >> 0u32 == x,
        x << 0u32 == x,
        s + 1 < 16 ==> x >> ((s + 1) as u32) == (x >> s) >> 1u32,
        s + 1 < 16 ==> x << ((s + 1) as u32) == (x << s) << 1u32,
        x == 2 * (x >> 1u32) + (x & 1u16),
        (x & 1u16) == 0 || (x & 1u16) == 1,
        x <= 0x7fff ==> (x << 1u32) == 2 * x,
        (1u16 << s) >= 1,
        x & (((1u16 << s) - 1) as u16) == x - ((x >> s) << s),
        x & !(((1u16 << s) - 1) as u16) == ((x >> s) << s),
        !x == 0xffffu16 - x,
        0xffffu16 & (((1u16 << s) - 1) as u16) == (((1u16 << s) - 1) as u16),
        s == 0 ==> (1u16 << s) >> 1u32 == 0,
        s >= 1 ==> (1u16 << s) >> 1u32 == (((1u16 << s) - 1) as u16) - ((((1u16 << s) - 1) as u16) >> 1u32),
        s >= 1 ==> ((x & ((1u16 << s) >> 1u32)) == 0) == (((x >> ((s - 1) as u32)) & 1u16) == 0),
        ((x << s) >> s == x) == (x <= (0xffffu16 >> s)),
        0u16 & y == 0,
        0u16 >> s == 0,
        0xffffu16 & y == y,
        y >= 0x8000 ==> (y as i16) == y - 0x1_0000,
        y < 0x8000 ==> (y as i16) == y,
{
}

impl Int for u16 {
    type Signed = i16;

    type Unsigned = u16;

    const BITS: u32 = 16;

    const ZERO: u16 = 0;

    const ONE: u16 = 1;

    const MINUS_ONE: u16 = 0xffff;

    const MIN: u16 = 0;

    const MAX: u16 = 0xffff;

    const IS_SIGNED: bool = false;

    const IS_UNSIGNED: bool = true;

    const SAFE_SHIFT: u32 = 15;

    open spec fn width() -> nat {
        16
    }

    open spec fn signed_int() -> bool {
        false
    }

    open spec fn min_val() -> int {
        0
    }

    open spec fn max_val() -> int {
        0xffff as int
    }

    open spec fn val(self) -> int {
        self as int
    }

    open spec fn from_val(v: int) -> u16 {
        v as u16
    }

    open spec fn signed_val(v: i16) -> int {
        v as int
    }

    open spec fn unsigned_val(v: u16) -> int {
        v as int
    }

    open spec fn shr_spec(self, s: u32) -> u16 {
        self >> s
    }

    open spec fn shl_spec(self, s: u32) -> u16 {
        self << s
    }

    open spec fn and_spec(self, rhs: u16) -> u16 {
        self & rhs
    }

    open spec fn not_spec(self) -> u16 {
        !self
    }

    open spec fn mask_spec(bits: u32) -> u16 {
        ((1u16 << bits) - 1) as u16
    }

    open spec fn high_bit_spec(bits: u32) -> u16 {
        (1u16 << bits) >> 1u32
    }

    proof fn lemma_model() {
        lemma_pow2_values();
    }

    proof fn lemma_val(x: u16) {
    }

    proof fn lemma_from_val(v: int) {
    }

    proof fn lemma_bits(x: u16, y: u16, s: u32) {
        lemma_bits_u16(x, y, s);
    }

    fn is_power_of_two(self) -> (r: bool) {
        u16_is_power_of_two(self)
    }

    fn ilog2(self) -> (r: u32) {
        u16_ilog2(self)
    }

    fn cast_signed(self) -> (r: i16) {
        proof {
            lemma_bits_u16(self, self, 0);
            lemma_pow2_values();
        }
        self as i16
    }

    fn cast_unsigned(self) -> (r: u16) {
        self
    }

    fn from_bool(b: bool) -> (r: u16) {
        if b {
            1
        } else {
            0
        }
    }

    fn is_zero(self) -> (r: bool) {
        self == 0
    }

    fn is_not_zero(self) -> (r: bool) {
        self != 0
    }

    fn checked_shl(self, rhs: u32) -> (r: Option<u16>) {
        if rhs < 16 {
            Some(self << rhs)
        } else {
            None
        }
    }

    fn checked_add(self, rhs: u16) -> (r: Option<u16>) {
        self.checked_add(rhs)
    }

    fn mask(bits: u32) -> (r: u16) {
        proof {
            lemma_bits_u16(0, 0, bits);
        }
        (1u16 << bits) - 1
    }

    fn highest_mask_bit(bits: u32) -> (r: u16) {
        (1u16 << bits) >> 1u32
    }

    fn unchecked_mask(bits: u32) -> (r: u16) {
        proof {
            lemma_bits_u16(0, 0, bits);
        }
        (1u16 << bits) - 1
    }

    fn unchecked_highest_mask_bit(bits: u32) -> (r: u16) {
        (1u16 << bits) >> 1u32
    }

    fn trailing_zeros(self) -> (r: u32) {
        u16_trailing_zeros(self)
    }

    fn unchecked_shr(self, rhs: u32) -> (r: u16) {
        self >> rhs
    }

    fn unchecked_shl(self, rhs: u32) -> (r: u16) {
        self << rhs
    }

    fn saturating_sub(self, rhs: u16) -> (r: u16) {
        self.saturating_sub(rhs)
    }

    fn self_from_signed(rhs: i16) -> (r: u16) {
        proof {
            lemma_bits_i16(rhs, rhs, 0);
            lemma_pow2_values();
        }
        rhs as u16
    }

    fn self_from_unsigned(rhs: u16) -> (r: u16) {
        rhs
    }

    fn bit_and(self, rhs: u16) -> (r: u16) {
        self & rhs
    }

    fn bit_not(self) -> (r: u16) {
        !self
    }

    fn add_exact(self, rhs: u16) -> (r: u16) {
        self + rhs
    }

    fn sub_exact(self, rhs: u16) -> (r: u16) {
        self - rhs
    }

    fn less_than(self, rhs: u16) -> (r: bool) {
        self < rhs
    }

    fn same_as(self, rhs: u16) -> (r: bool) {
        self == rhs
    }

}

impl UnsignedInt for u16 {
    proof fn lemma_unsigned() {
    }
}

#[verifier::rlimit(100)]
proof fn lemma_bits_i16(x: i16, y: i16, s: u32)
    by (bit_vector)
    requires
        s < 16,
    ensures
        x >> 0u32 == x,
        x << 0u32 == x,
        s + 1 < 16 ==> x >> ((s + 1) as u32) == (x >> s) >> 1u32,
        s + 1 < 16 ==> x << ((s + 1) as u32) == (x << s) << 1u32,
        x == 2 * (x >> 1u32) + (x & 1i16),
        (x & 1i16) == 0 || (x & 1i16) == 1,
        -0x4000 <= x <= 0x3fff ==> (x << 1u32) == 2 * x,
        !x == -1 - x,
        ((x << s) >> s == x) == ((((-0x8000i16)) >> s) <= x && x <= (0x7fffi16 >> s)),
        0i16 & y == 0,
        -1i16 & y == y,
        y < 0 ==> (y as u16) == y + 0x1_0000,
        y >= 0 ==> (y as u16) == y,
{
}

#[verifier::rlimit(100)]
proof fn lemma_mask_bits_i16(x: i16, s: u32)
    by (bit_vector)
    requires
        s < 16,
    ensures
        x & ((((1u16 << s) - 1) as u16) as i16) == x - ((x >> s) << s),
        x & !((((1u16 << s) - 1) as u16) as i16) == ((x >> s) << s),
        0x7fffi16 & ((((1u16 << s) - 1) as u16) as i16) == ((((1u16 << s) - 1) as u16) as i16),
        s == 0 ==> (((1u16 << s) >> 1u32) as i16) == 0,
        s >= 1 ==> (((1u16 << s) >> 1u32) as i16) == ((((1u16 << s) - 1) as u16) as i16) - (((((1u16 << s) - 1) as u16) as i16) >> 1u32),
        s >= 1 ==> ((x & (((1u16 << s) >> 1u32) as i16)) == 0) == (((x >> ((s - 1) as u32)) & 1i16) == 0),
{
}

impl Int for i16 {
    type Signed = i16;

    type Unsigned = u16;

    const BITS: u32 = 16;

    const ZERO: i16 = 0;

    const ONE: i16 = 1;

    const MINUS_ONE: i16 = -1;

    const MIN: i16 = -0x8000;

    const MAX: i16 = 0x7fff;

    const IS_SIGNED: bool = true;

    const IS_UNSIGNED: bool = false;

    const SAFE_SHIFT: u32 = 14;

    open spec fn width() -> nat {
        16
    }

    open spec fn signed_int() -> bool {
        true
    }

    open spec fn min_val() -> int {
        -0x8000 as int
    }

    open spec fn max_val() -> int {
        0x7fff as int
    }

    open spec fn val(self) -> int {
        self as int
    }

    open spec fn from_val(v: int) -> i16 {
        v as i16
    }

    open spec fn signed_val(v: i16) -> int {
        v as int
    }

    open spec fn unsigned_val(v: u16) -> int {
        v as int
    }

    open spec fn shr_spec(self, s: u32) -> i16 {
        self >> s
    }

    open spec fn shl_spec(self, s: u32) -> i16 {
        self << s
    }

    open spec fn and_spec(self, rhs: i16) -> i16 {
        self & rhs
    }

    open spec fn not_spec(self) -> i16 {
        !self
    }

    open spec fn mask_spec(bits: u32) -> i16 {
        (((1u16 << bits) - 1) as u16) as i16
    }

    open spec fn high_bit_spec(bits: u32) -> i16 {
        ((1u16 << bits) >> 1u32) as i16
    }

    proof fn lemma_model() {
        lemma_pow2_values();
    }

    proof fn lemma_val(x: i16) {
    }

    proof fn lemma_from_val(v: int) {
    }

    proof fn lemma_bits(x: i16, y: i16, s: u32) {
        lemma_bits_i16(x, y, s);
        lemma_mask_bits_i16(x, s);
    }

    fn is_power_of_two(self) -> (r: bool) {
        proof {
            lemma_bits_i16(self, self, 0);
            if self <= 0 {
                assert forall|e: nat| self as int != #[trigger] p2(e) by {
                    lemma_p2_pos(e);
                }
            }
        }
        self > 0 && u16_is_power_of_two(self as u16)
    }

    fn ilog2(self) -> (r: u32) {
        proof {
            lemma_bits_i16(self, self, 0);
        }
        u16_ilog2(self as u16)
    }

    fn cast_signed(self) -> (r: i16) {
        proof {
            lemma_pow2_values();
        }
        self
    }

    fn cast_unsigned(self) -> (r: u16) {
        proof {
            lemma_bits_i16(self, self, 0);
            lemma_pow2_values();
        }
        self as u16
    }

    fn from_bool(b: bool) -> (r: i16) {
        if b {
            1
        } else {
            0
        }
    }

    fn is_zero(self) -> (r: bool) {
        self == 0
    }

    fn is_not_zero(self) -> (r: bool) {
        self != 0
    }

    fn checked_shl(self, rhs: u32) -> (r: Option<i16>) {
        if rhs < 16 {
            Some(self << rhs)
        } else {
            None
        }
    }

    fn checked_add(self, rhs: i16) -> (r: Option<i16>) {
        self.checked_add(rhs)
    }

    fn mask(bits: u32) -> (r: i16) {
        proof {
            lemma_bits_u16(0, 0, bits);
        }
        ((1u16 << bits) - 1) as i16
    }

    fn highest_mask_bit(bits: u32) -> (r: i16) {
        ((1u16 << bits) >> 1u32) as i16
    }

    fn unchecked_mask(bits: u32) -> (r: i16) {
        proof {
            lemma_bits_u16(0, 0, bits);
        }
        ((1u16 << bits) - 1) as i16
    }

    fn unchecked_highest_mask_bit(bits: u32) -> (r: i16) {
        ((1u16 << bits) >> 1u32) as i16
    }

    fn trailing_zeros(self) -> (r: u32) {
        let r = u16_trailing_zeros(self as u16);
        proof {
            lemma_bits_i16(self, self, 0);
            lemma_pow2_values();
            if self < 0 {
                lemma_mod_add_p2(self as int, r as nat, 16);
                if r < 16 {
                    lemma_mod_add_p2(self as int, r as nat + 1, 16);
                }
            }
        }
        r
    }

    fn unchecked_shr(self, rhs: u32) -> (r: i16) {
        self >> rhs
    }

    fn unchecked_shl(self, rhs: u32) -> (r: i16) {
        self << rhs
    }

    fn saturating_sub(self, rhs: i16) -> (r: i16) {
        match self.checked_sub(rhs) {
            Some(v) => v,
            None => {
                if rhs > 0 {
                    -0x8000
                } else {
                    0x7fff
                }
            },
        }
    }

    fn self_from_signed(rhs: i16) -> (r: i16) {
        rhs
    }

    fn self_from_unsigned(rhs: u16) -> (r: i16) {
        proof {
            lemma_bits_u16(rhs, rhs, 0);
            lemma_pow2_values();
        }
        rhs as i16
    }

    fn bit_and(self, rhs: i16) -> (r: i16) {
        self & rhs
    }

    fn bit_not(self) -> (r: i16) {
        !self
    }

    fn add_exact(self, rhs: i16) -> (r: i16) {
        self + rhs
    }

    fn sub_exact(self, rhs: i16) -> (r: i16) {
        self - rhs
    }

    fn less_than(self, rhs: i16) -> (r: bool) {
        self < rhs
    }

    fn same_as(self, rhs: i16) -> (r: bool) {
        self == rhs
    }

}

impl SignedInt for i16 {
    proof fn lemma_signed() {
    }
}

/// `x` split into an odd factor and a power of two: `x == y * 2^r` with `y` odd.
fn u32_odd_part(x: u32) -> (res: (u32, u32))
    requires
        x != 0,
    ensures
        x as int == res.0 as int * p2(res.1 as nat),
        res.0 % 2 == 1,
        res.1 < 32,
{
    let mut y = x;
    let mut r: u32 = 0;
    proof {
        lemma_pow2_values();
        lemma_p2_zero();
    }
    while y % 2 == 0
        invariant
            x as int == y as int * p2(r as nat),
            0 < y,
            (x as int) < p2(32),
            r < 32,
        decreases y,
    {
        proof {
            lemma_odd_part_step(x as int, y as int, r as nat, 32);
        }
        y = y / 2;
        r = r + 1;
    }
    (y, r)
}

/// Whether `x` is `2^k` for some `k`: a non-zero value whose odd factor is one.
fn u32_is_power_of_two(x: u32) -> (r: bool)
    ensures
        r == is_pow2_int(x as int),
{
    if x == 0 {
        proof {
            if is_pow2_int(0) {
                let e = choose|e: nat| 0 == #[trigger] p2(e);
                lemma_p2_pos(e);
            }
        }
        false
    } else {
        let (y, r) = u32_odd_part(x);
        proof {
            lemma_odd_part_pow2(x as int, y as int, r as nat);
        }
        y == 1
    }
}

/// The base 2 logarithm of a positive `x`, rounded down.
fn u32_ilog2(x: u32) -> (r: u32)
    requires
        x > 0,
    ensures
        p2(r as nat) <= x < p2(r as nat + 1),
{
    let mut y = x;
    let mut r: u32 = 0;
    proof {
        lemma_pow2_values();
        lemma_p2_zero();
    }
    while y >= 2
        invariant
            1 <= y,
            p2(r as nat) * y <= x < p2(r as nat) * (y + 1),
            (x as int) < p2(32),
            r < 32,
        decreases y,
    {
        proof {
            lemma_ilog2_step(x as int, y as int, r as nat, 32);
        }
        y = y / 2;
        r = r + 1;
    }
    proof {
        lemma_p2_succ(r as nat);
        assert(p2(r as nat) <= x < p2(r as nat + 1)) by (nonlinear_arith)
            requires
                y == 1,
                p2(r as nat) * y <= x < p2(r as nat) * (y + 1),
                p2(r as nat + 1) == 2 * p2(r as nat),
        ;
    }
    r
}

/// The number of zero bits below the lowest set bit (the width for zero): the
/// largest `r` such that `2^r` divides a non-zero value.
fn u32_trailing_zeros(x: u32) -> (r: u32)
    ensures
        r <= 32,
        x == 0 ==> r == 32,
        x != 0 ==> r < 32 && x as int % p2(r as nat) == 0 && x as int % p2(r as nat + 1) != 0,
{
    let r = x.trailing_zeros();
    proof {
        vstd::std_specs::bits::axiom_u32_trailing_zeros(x);
        if r < 32 {
            lemma_trailing_zeros_u32(x, r as u32);
        }
    }
    r
}

#[verifier::rlimit(100)]
proof fn lemma_low_zero_bits_u32(x: u32, s: u32)
    by (bit_vector)
    requires
        s < 32,
        x << ((32 - s) as u32) == 0,
        (x >> s) & 1u32 == 1u32,
    ensures
        (x >> s) << s == x,
        (x >> s) % 2 == 1,
{
}

/// The lowest set bit of `x` is bit `s`: `2^s` divides `x` and `2^(s + 1)` does not.
proof fn lemma_trailing_zeros_u32(x: u32, s: u32)
    requires
        s < 32,
        x << ((32 - s) as u32) == 0,
        (x >> s) & 1u32 == 1u32,
    ensures
        x as int % p2(s as nat) == 0,
        x as int % p2(s as nat + 1) != 0,
{
    lemma_low_zero_bits_u32(x, s);
    let q = x >> s;
    vstd::bits::lemma_u32_shr_is_div(x, s);
    lemma_p2_pos(s as nat);
    lemma_sub_floor(x as int, p2(s as nat));
    assert((q as int) * p2(s as nat) <= u32::MAX) by (nonlinear_arith)
        requires
            (q as int) * p2(s as nat) <= x,
            x <= u32::MAX,
    ;
    vstd::bits::lemma_u32_shl_is_mul(q, s);
    lemma_div_exact(x as int, p2(s as nat), q as int);
    lemma_p2_succ(s as nat);
    assert(x as int == (q as int / 2) * p2(s as nat + 1) + p2(s as nat)) by (nonlinear_arith)
        requires
            x as int == (q as int) * p2(s as nat),
            q as int == 2 * (q as int / 2) + 1,
            p2(s as nat + 1) == 2 * p2(s as nat),
    ;
    vstd::arithmetic::div_mod::lemma_fundamental_div_mod_converse(
        x as int,
        p2(s as nat + 1),
        q as int / 2,
        p2(s as nat),
    );
}

#[verifier::rlimit(100)]
proof fn lemma_bits_u32(x: u32, y: u32, s: u32)
    by (bit_vector)
    requires
        s < 32,
    ensures
        x >> 0u32 == x,
        x << 0u32 == x,
        s + 1 < 32 ==> x >> ((s + 1) as u32) == (x >> s) >> 1u32,
        s + 1 < 32 ==> x << ((s + 1) as u32) == (x << s) << 1u32,
        x == 2 * (x >> 1u32) + (x & 1u32),
        (x & 1u32) == 0 || (x & 1u32) == 1,
        x <= 0x7fff_ffff ==> (x << 1u32) == 2 * x,
        (1u32 << s) >= 1,
        x & (((1u32 << s) - 1) as u32) == x - ((x >> s) << s),
        x & !(((1u32 << s) - 1) as u32) == ((x >> s) << s),
        !x == 0xffff_ffffu32 - x,
        0xffff_ffffu32 & (((1u32 << s) - 1) as u32) == (((1u32 << s) - 1) as u32),
        s == 0 ==> (1u32 << s) >> 1u32 == 0,
        s >= 1 ==> (1u32 << s) >> 1u32 == (((1u32 << s) - 1) as u32) - ((((1u32 << s) - 1) as u32) >> 1u32),
        s >= 1 ==> ((x & ((1u32 << s) >> 1u32)) == 0) == (((x >> ((s - 1) as u32)) & 1u32) == 0),
        ((x << s) >> s == x) == (x <= (0xffff_ffffu32 >> s)),
        0u32 & y == 0,
        0u32 >> s == 0,
        0xffff_ffffu32 & y == y,
        y >= 0x8000_0000 ==> (y as i32) == y - 0x1_0000_0000,
        y < 0x8000_0000 ==> (y as i32) == y,
{
}

impl Int for u32 {
    type Signed = i32;

    type Unsigned = u32;

    const BITS: u32 = 32;

    const ZERO: u32 = 0;

    const ONE: u32 = 1;

    const MINUS_ONE: u32 = 0xffff_ffff;

    const MIN: u32 = 0;

    const MAX: u32 = 0xffff_ffff;

    const IS_SIGNED: bool = false;

    const IS_UNSIGNED: bool = true;

    const SAFE_SHIFT: u32 = 31;

    open spec fn width() -> nat {
        32
    }

    open spec fn signed_int() -> bool {
        false
    }

    open spec fn min_val() -> int {
        0
    }

    open spec fn max_val() -> int {
        0xffff_ffff as int
    }

    open spec fn val(self) -> int {
        self as int
    }

    open spec fn from_val(v: int) -> u32 {
        v as u32
    }

    open spec fn signed_val(v: i32) -> int {
        v as int
    }

    open spec fn unsigned_val(v: u32) -> int {
        v as int
    }

    open spec fn shr_spec(self, s: u32) -> u32 {
        self >> s
    }

    open spec fn shl_spec(self, s: u32) -> u32 {
        self << s
    }

    open spec fn and_spec(self, rhs: u32) -> u32 {
        self & rhs
    }

    open spec fn not_spec(self) -> u32 {
        !self
    }

    open spec fn mask_spec(bits: u32) -> u32 {
        ((1u32 << bits) - 1) as u32
    }

    open spec fn high_bit_spec(bits: u32) -> u32 {
        (1u32 << bits) >> 1u32
    }

    proof fn lemma_model() {
        lemma_pow2_values();
    }

    proof fn lemma_val(x: u32) {
    }

    proof fn lemma_from_val(v: int) {
    }

    proof fn lemma_bits(x: u32, y: u32, s: u32) {
        lemma_bits_u32(x, y, s);
    }

    fn is_power_of_two(self) -> (r: bool) {
        u32_is_power_of_two(self)
    }

    fn ilog2(self) -> (r: u32) {
        u32_ilog2(self)
    }

    fn cast_signed(self) -> (r: i32) {
        proof {
            lemma_bits_u32(self, self, 0);
            lemma_pow2_values();
        }
        self as i32
    }

    fn cast_unsigned(self) -> (r: u32) {
        self
    }

    fn from_bool(b: bool) -> (r: u32) {
        if b {
            1
        } else {
            0
        }
    }

    fn is_zero(self) -> (r: bool) {
        self == 0
    }

    fn is_not_zero(self) -> (r: bool) {
        self != 0
    }

    fn checked_shl(self, rhs: u32) -> (r: Option<u32>) {
        if rhs < 32 {
            Some(self << rhs)
        } else {
            None
        }
    }

    fn checked_add(self, rhs: u32) -> (r: Option<u32>) {
        self.checked_add(rhs)
    }

    fn mask(bits: u32) -> (r: u32) {
        proof {
            lemma_bits_u32(0, 0, bits);
        }
        (1u32 << bits) - 1
    }

    fn highest_mask_bit(bits: u32) -> (r: u32) {
        (1u32 << bits) >> 1u32
    }

    fn unchecked_mask(bits: u32) -> (r: u32) {
        proof {
            lemma_bits_u32(0, 0, bits);
        }
        (1u32 << bits) - 1
    }

    fn unchecked_highest_mask_bit(bits: u32) -> (r: u32) {
        (1u32 << bits) >> 1u32
    }

    fn trailing_zeros(self) -> (r: u32) {
        u32_trailing_zeros(self)
    }

    fn unchecked_shr(self, rhs: u32) -> (r: u32) {
        self >> rhs
    }

    fn unchecked_shl(self, rhs: u32) -> (r: u32) {
        self << rhs
    }

    fn saturating_sub(self, rhs: u32) -> (r: u32) {
        self.saturating_sub(rhs)
    }

    fn self_from_signed(rhs: i32) -> (r: u32) {
        proof {
            lemma_bits_i32(rhs, rhs, 0);
            lemma_pow2_values();
        }
        rhs as u32
    }

    fn self_from_unsigned(rhs: u32) -> (r: u32) {
        rhs
    }

    fn bit_and(self, rhs: u32) -> (r: u32) {
        self & rhs
    }

    fn bit_not(self) -> (r: u32) {
        !self
    }

    fn add_exact(self, rhs: u32) -> (r: u32) {
        self + rhs
    }

    fn sub_exact(self, rhs: u32) -> (r: u32) {
        self - rhs
    }

    fn less_than(self, rhs: u32) -> (r: bool) {
        self < rhs
    }

    fn same_as(self, rhs: u32) -> (r: bool) {
        self == rhs
    }

}

impl UnsignedInt for u32 {
    proof fn lemma_unsigned() {
    }
}

#[verifier::rlimit(100)]
proof fn lemma_bits_i32(x: i32, y: i32, s: u32)
    by (bit_vector)
    requires
        s < 32,
    ensures
        x >> 0u32 == x,
        x << 0u32 == x,
        s + 1 < 32 ==> x >> ((s + 1) as u32) == (x >> s) >> 1u32,
        s + 1 < 32 ==> x << ((s + 1) as u32) == (x << s) << 1u32,
        x == 2 * (x >> 1u32) + (x & 1i32),
        (x & 1i32) == 0 || (x & 1i32) == 1,
        -0x4000_0000 <= x <= 0x3fff_ffff ==> (x << 1u32) == 2 * x,
        !x == -1 - x,
        ((x << s) >> s == x) == ((((-0x8000_0000i32)) >> s) <= x && x <= (0x7fff_ffffi32 >> s)),
        0i32 & y == 0,
        -1i32 & y == y,
        y < 0 ==> (y as u32) == y + 0x1_0000_0000,
        y >= 0 ==> (y as u32) == y,
{
}

#[verifier::rlimit(100)]
proof fn lemma_mask_bits_i32(x: i32, s: u32)
    by (bit_vector)
    requires
        s < 32,
    ensures
        x & ((((1u32 << s) - 1) as u32) as i32) == x - ((x >> s) << s),
        x & !((((1u32 << s) - 1) as u32) as i32) == ((x >> s) << s),
        0x7fff_ffffi32 & ((((1u32 << s) - 1) as u32) as i32) == ((((1u32 << s) - 1) as u32) as i32),
        s == 0 ==> (((1u32 << s) >> 1u32) as i32) == 0,
        s >= 1 ==> (((1u32 << s) >> 1u32) as i32) == ((((1u32 << s) - 1) as u32) as i32) - (((((1u32 << s) - 1) as u32) as i32) >> 1u32),
        s >= 1 ==> ((x & (((1u32 << s) >> 1u32) as i32)) == 0) == (((x >> ((s - 1) as u32)) & 1i32) == 0),
{
}

impl Int for i32 {
    type Signed = i32;

    type Unsigned = u32;

    const BITS: u32 = 32;

    const ZERO: i32 = 0;

    const ONE: i32 = 1;

    const MINUS_ONE: i32 = -1;

    const MIN: i32 = -0x8000_0000;

    const MAX: i32 = 0x7fff_ffff;

    const IS_SIGNED: bool = true;

    const IS_UNSIGNED: bool = false;

    const SAFE_SHIFT: u32 = 30;

    open spec fn width() -> nat {
        32
    }

    open spec fn signed_int() -> bool {
        true
    }

    open spec fn min_val() -> int {
        -0x8000_0000 as int
    }

    open spec fn max_val() -> int {
        0x7fff_ffff as int
    }

    open spec fn val(self) -> int {
        self as int
    }

    open spec fn from_val(v: int) -> i32 {
        v as i32
    }

    open spec fn signed_val(v: i32) -> int {
        v as int
    }

    open spec fn unsigned_val(v: u32) -> int {
        v as int
    }

    open spec fn shr_spec(self, s: u32) -> i32 {
        self >> s
    }

    open spec fn shl_spec(self, s: u32) -> i32 {
        self << s
    }

    open spec fn and_spec(self, rhs: i32) -> i32 {
        self & rhs
    }

    open spec fn not_spec(self) -> i32 {
        !self
    }

    open spec fn mask_spec(bits: u32) -> i32 {
        (((1u32 << bits) - 1) as u32) as i32
    }

    open spec fn high_bit_spec(bits: u32) -> i32 {
        ((1u32 << bits) >> 1u32) as i32
    }

    proof fn lemma_model() {
        lemma_pow2_values();
    }

    proof fn lemma_val(x: i32) {
    }

    proof fn lemma_from_val(v: int) {
    }

    proof fn lemma_bits(x: i32, y: i32, s: u32) {
        lemma_bits_i32(x, y, s);
        lemma_mask_bits_i32(x, s);
    }

    fn is_power_of_two(self) -> (r: bool) {
        proof {
            lemma_bits_i32(self, self, 0);
            if self <= 0 {
                assert forall|e: nat| self as int != #[trigger] p2(e) by {
                    lemma_p2_pos(e);
                }
            }
        }
        self > 0 && u32_is_power_of_two(self as u32)
    }

    fn ilog2(self) -> (r: u32) {
        proof {
            lemma_bits_i32(self, self, 0);
        }
        u32_ilog2(self as u32)
    }

    fn cast_signed(self) -> (r: i32) {
        proof {
            lemma_pow2_values();
        }
        self
    }

    fn cast_unsigned(self) -> (r: u32) {
        proof {
            lemma_bits_i32(self, self, 0);
            lemma_pow2_values();
        }
        self as u32
    }

    fn from_bool(b: bool) -> (r: i32) {
        if b {
            1
        } else {
            0
        }
    }

    fn is_zero(self) -> (r: bool) {
        self == 0
    }

    fn is_not_zero(self) -> (r: bool) {
        self != 0
    }

    fn checked_shl(self, rhs: u32) -> (r: Option<i32>) {
        if rhs < 32 {
            Some(self << rhs)
        } else {
            None
        }
    }

    fn checked_add(self, rhs: i32) -> (r: Option<i32>) {
        self.checked_add(rhs)
    }

    fn mask(bits: u32) -> (r: i32) {
        proof {
            lemma_bits_u32(0, 0, bits);
        }
        ((1u32 << bits) - 1) as i32
    }

    fn highest_mask_bit(bits: u32) -> (r: i32) {
        ((1u32 << bits) >> 1u32) as i32
    }

    fn unchecked_mask(bits: u32) -> (r: i32) {
        proof {
            lemma_bits_u32(0, 0, bits);
        }
        ((1u32 << bits) - 1) as i32
    }

    fn unchecked_highest_mask_bit(bits: u32) -> (r: i32) {
        ((1u32 << bits) >> 1u32) as i32
    }

    fn trailing_zeros(self) -> (r: u32) {
        let r = u32_trailing_zeros(self as u32);
        proof {
            lemma_bits_i32(self, self, 0);
            lemma_pow2_values();
            if self < 0 {
                lemma_mod_add_p2(self as int, r as nat, 32);
                if r < 32 {
                    lemma_mod_add_p2(self as int, r as nat + 1, 32);
                }
            }
        }
        r
    }

    fn unchecked_shr(self, rhs: u32) -> (r: i32) {
        self >> rhs
    }

    fn unchecked_shl(self, rhs: u32) -> (r: i32) {
        self << rhs
    }

    fn saturating_sub(self, rhs: i32) -> (r: i32) {
        match self.checked_sub(rhs) {
            Some(v) => v,
            None => {
                if rhs > 0 {
                    -0x8000_0000
                } else {
                    0x7fff_ffff
                }
            },
        }
    }

    fn self_from_signed(rhs: i32) -> (r: i32) {
        rhs
    }

    fn self_from_unsigned(rhs: u32) -> (r: i32) {
        proof {
            lemma_bits_u32(rhs, rhs, 0);
            lemma_pow2_values();
        }
        rhs as i32
    }

    fn bit_and(self, rhs: i32) -> (r: i32) {
        self & rhs
    }

    fn bit_not(self) -> (r: i32) {
        !self
    }

    fn add_exact(self, rhs: i32) -> (r: i32) {
        self + rhs
    }

    fn sub_exact(self, rhs: i32) -> (r: i32) {
        self - rhs
    }

    fn less_than(self, rhs: i32) -> (r: bool) {
        self < rhs
    }

    fn same_as(self, rhs: i32) -> (r: bool) {
        self == rhs
    }

}

impl SignedInt for i32 {
    proof fn lemma_signed() {
    }
}

/// `x` split into an odd factor and a power of two: `x == y * 2^r` with `y` odd.
fn u64_odd_part(x: u64) -> (res: (u64, u32))
    requires
        x != 0,
    ensures
        x as int == res.0 as int * p2(res.1 as nat),
        res.0 % 2 == 1,
        res.1 < 64,
{
    let mut y = x;
    let mut r: u32 = 0;
    proof {
        lemma_pow2_values();
        lemma_p2_zero();
    }
    while y % 2 == 0
        invariant
            x as int == y as int * p2(r as nat),
            0 < y,
            (x as int) < p2(64),
            r < 64,
        decreases y,
    {
        proof {
            lemma_odd_part_step(x as int, y as int, r as nat, 64);
        }
        y = y / 2;
        r = r + 1;
    }
    (y, r)
}

/// Whether `x` is `2^k` for some `k`: a non-zero value whose odd factor is one.
fn u64_is_power_of_two(x: u64) -> (r: bool)
    ensures
        r == is_pow2_int(x as int),
{
    if x == 0 {
        proof {
            if is_pow2_int(0) {
                let e = choose|e: nat| 0 == #[trigger] p2(e);
                lemma_p2_pos(e);
            }
        }
        false
    } else {
        let (y, r) = u64_odd_part(x);
        proof {
            lemma_odd_part_pow2(x as int, y as int, r as nat);
        }
        y == 1
    }
}

/// The base 2 logarithm of a positive `x`, rounded down.
fn u64_ilog2(x: u64) -> (r: u32)
    requires
        x > 0,
    ensures
        p2(r as nat) <= x < p2(r as nat + 1),
{
    let mut y = x;
    let mut r: u32 = 0;
    proof {
        lemma_pow2_values();
        lemma_p2_zero();
    }
    while y >= 2
        invariant
            1 <= y,
            p2(r as nat) * y <= x < p2(r as nat) * (y + 1),
            (x as int) < p2(64),
            r < 64,
        decreases y,
    {
        proof {
            lemma_ilog2_step(x as int, y as int, r as nat, 64);
        }
        y = y / 2;
        r = r + 1;
    }
    proof {
        lemma_p2_succ(r as nat);
        assert(p2(r as nat) <= x < p2(r as nat + 1)) by (nonlinear_arith)
            requires
                y == 1,
                p2(r as nat) * y <= x < p2(r as nat) * (y + 1),
                p2(r as nat + 1) == 2 * p2(r as nat),
        ;
    }
    r
}

/// The number of zero bits below the lowest set bit (the width for zero): the
/// largest `r` such that `2^r` divides a non-zero value.
fn u64_trailing_zeros(x: u64) -> (r: u32)
    ensures
        r <= 64,
        x == 0 ==> r == 64,
        x != 0 ==> r < 64 && x as int % p2(r as nat) == 0 && x as int % p2(r as nat + 1) != 0,
{
    let r = x.trailing_zeros();
    proof {
        vstd::std_specs::bits::axiom_u64_trailing_zeros(x);
        if r < 64 {
            lemma_trailing_zeros_u64(x, r as u64);
        }
    }
    r
}

#[verifier::rlimit(100)]
proof fn lemma_low_zero_bits_u64(x: u64, s: u64)
    by (bit_vector)
    requires
        s < 64,
        x << ((64 - s) as u64) == 0,
        (x >> s) & 1u64 == 1u64,
    ensures
        (x >> s) << s == x,
        (x >> s) % 2 == 1,
{
}

/// The lowest set bit of `x` is bit `s`: `2^s` divides `x` and `2^(s + 1)` does not.
proof fn lemma_trailing_zeros_u64(x: u64, s: u64)
    requires
        s < 64,
        x << ((64 - s) as u64) == 0,
        (x >> s) & 1u64 == 1u64,
    ensures
        x as int % p2(s as nat) == 0,
        x as int % p2(s as nat + 1) != 0,
{
    lemma_low_zero_bits_u64(x, s);
    let q = x >> s;
    vstd::bits::lemma_u64_shr_is_div(x, s);
    lemma_p2_pos(s as nat);
    lemma_sub_floor(x as int, p2(s as nat));
    assert((q as int) * p2(s as nat) <= u64::MAX) by (nonlinear_arith)
        requires
            (q as int) * p2(s as nat) <= x,
            x <= u64::MAX,
    ;
    vstd::bits::lemma_u64_shl_is_mul(q, s);
    lemma_div_exact(x as int, p2(s as nat), q as int);
    lemma_p2_succ(s as nat);
    assert(x as int == (q as int / 2) * p2(s as nat + 1) + p2(s as nat)) by (nonlinear_arith)
        requires
            x as int == (q as int) * p2(s as nat),
            q as int == 2 * (q as int / 2) + 1,
            p2(s as nat + 1) == 2 * p2(s as nat),
    ;
    vstd::arithmetic::div_mod::lemma_fundamental_div_mod_converse(
        x as int,
        p2(s as nat + 1),
        q as int / 2,
        p2(s as nat),
    );
}

#[verifier::rlimit(100)]
proof fn lemma_bits_u64(x: u64, y: u64, s: u32)
    by (bit_vector)
    requires
        s < 64,
    ensures
        x >> 0u32 == x,
        x << 0u32 == x,
        s + 1 < 64 ==> x >> ((s + 1) as u32) == (x >> s) >> 1u32,
        s + 1 < 64 ==> x << ((s + 1) as u32) == (x << s) << 1u32,
        x == 2 * (x >> 1u32) + (x & 1u64),
        (x & 1u64) == 0 || (x & 1u64) == 1,
        x <= 0x7fff_ffff_ffff_ffff ==> (x << 1u32) == 2 * x,
        (1u64 << s) >= 1,
        x & (((1u64 << s) - 1) as u64) == x - ((x >> s) << s),
        x & !(((1u64 << s) - 1) as u64) == ((x >> s) << s),
        !x == 0xffff_ffff_ffff_ffffu64 - x,
        0xffff_ffff_ffff_ffffu64 & (((1u64 << s) - 1) as u64) == (((1u64 << s) - 1) as u64),
        s == 0 ==> (1u64 << s) >> 1u32 == 0,
        s >= 1 ==> (1u64 << s) >> 1u32 == (((1u64 << s) - 1) as u64) - ((((1u64 << s) - 1) as u64) >> 1u32),
        s >= 1 ==> ((x & ((1u64 << s) >> 1u32)) == 0) == (((x >> ((s - 1) as u32)) & 1u64) == 0),
        ((x << s) >> s == x) == (x <= (0xffff_ffff_ffff_ffffu64 >> s)),
        0u64 & y == 0,
        0u64 >> s == 0,
        0xffff_ffff_ffff_ffffu64 & y == y,
        y >= 0x8000_0000_0000_0000 ==> (y as i64) == y - 0x1_0000_0000_0000_0000,
        y < 0x8000_0000_0000_0000 ==> (y as i64) == y,
{
}

impl Int for u64 {
    type Signed = i64;

    type Unsigned = u64;

    const BITS: u32 = 64;

    const ZERO: u64 = 0;

    const ONE: u64 = 1;

    const MINUS_ONE: u64 = 0xffff_ffff_ffff_ffff;

    const MIN: u64 = 0;

    const MAX: u64 = 0xffff_ffff_ffff_ffff;

    const IS_SIGNED: bool = false;

    const IS_UNSIGNED: bool = true;

    const SAFE_SHIFT: u32 = 63;

    open spec fn width() -> nat {
        64
    }

    open spec fn signed_int() -> bool {
        false
    }

    open spec fn min_val() -> int {
        0
    }

    open spec fn max_val() -> int {
        0xffff_ffff_ffff_ffff as int
    }

    open spec fn val(self) -> int {
        self as int
    }

    open spec fn from_val(v: int) -> u64 {
        v as u64
    }

    open spec fn signed_val(v: i64) -> int {
        v as int
    }

    open spec fn unsigned_val(v: u64) -> int {
        v as int
    }

    open spec fn shr_spec(self, s: u32) -> u64 {
        self >> s
    }

    open spec fn shl_spec(self, s: u32) -> u64 {
        self << s
    }

    open spec fn and_spec(self, rhs: u64) -> u64 {
        self & rhs
    }

    open spec fn not_spec(self) -> u64 {
        !self
    }

    open spec fn mask_spec(bits: u32) -> u64 {
        ((1u64 << bits) - 1) as u64
    }

    open spec fn high_bit_spec(bits: u32) -> u64 {
        (1u64 << bits) >> 1u32
    }

    proof fn lemma_model() {
        lemma_pow2_values();
    }

    proof fn lemma_val(x: u64) {
    }

    proof fn lemma_from_val(v: int) {
    }

    proof fn lemma_bits(x: u64, y: u64, s: u32) {
        lemma_bits_u64(x, y, s);
    }

    fn is_power_of_two(self) -> (r: bool) {
        u64_is_power_of_two(self)
    }

    fn ilog2(self) -> (r: u32) {
        u64_ilog2(self)
    }

    fn cast_signed(self) -> (r: i64) {
        proof {
            lemma_bits_u64(self, self, 0);
            lemma_pow2_values();
        }
        self as i64
    }

    fn cast_unsigned(self) -> (r: u64) {
        self
    }

    fn from_bool(b: bool) -> (r: u64) {
        if b {
            1
        } else {
            0
        }
    }

    fn is_zero(self) -> (r: bool) {
        self == 0
    }

    fn is_not_zero(self) -> (r: bool) {
        self != 0
    }

    fn checked_shl(self, rhs: u32) -> (r: Option<u64>) {
        if rhs < 64 {
            Some(self << rhs)
        } else {
            None
        }
    }

    fn checked_add(self, rhs: u64) -> (r: Option<u64>) {
        self.checked_add(rhs)
    }

    fn mask(bits: u32) -> (r: u64) {
        proof {
            lemma_bits_u64(0, 0, bits);
        }
        (1u64 << bits) - 1
    }

    fn highest_mask_bit(bits: u32) -> (r: u64) {
        (1u64 << bits) >> 1u32
    }

    fn unchecked_mask(bits: u32) -> (r: u64) {
        proof {
            lemma_bits_u64(0, 0, bits);
        }
        (1u64 << bits) - 1
    }

    fn unchecked_highest_mask_bit(bits: u32) -> (r: u64) {
        (1u64 << bits) >> 1u32
    }

    fn trailing_zeros(self) -> (r: u32) {
        u64_trailing_zeros(self)
    }

    fn unchecked_shr(self, rhs: u32) -> (r: u64) {
        self >> rhs
    }

    fn unchecked_shl(self, rhs: u32) -> (r: u64) {
        self << rhs
    }

    fn saturating_sub(self, rhs: u64) -> (r: u64) {
        self.saturating_sub(rhs)
    }

    fn self_from_signed(rhs: i64) -> (r: u64) {
        proof {
            lemma_bits_i64(rhs, rhs, 0);
            lemma_pow2_values();
        }
        rhs as u64
    }

    fn self_from_unsigned(rhs: u64) -> (r: u64) {
        rhs
    }

    fn bit_and(self, rhs: u64) -> (r: u64) {
        self & rhs
    }

    fn bit_not(self) -> (r: u64) {
        !self
    }

    fn add_exact(self, rhs: u64) -> (r: u64) {
        self + rhs
    }

    fn sub_exact(self, rhs: u64) -> (r: u64) {
        self - rhs
    }

    fn less_than(self, rhs: u64) -> (r: bool) {
        self < rhs
    }

    fn same_as(self, rhs: u64) -> (r: bool) {
        self == rhs
    }

}

impl UnsignedInt for u64 {
    proof fn lemma_unsigned() {
    }
}

#[verifier::rlimit(100)]
proof fn lemma_bits_i64(x: i64, y: i64, s: u32)
    by (bit_vector)
    requires
        s < 64,
    ensures
        x >> 0u32 == x,
        x << 0u32 == x,
        s + 1 < 64 ==> x >> ((s + 1) as u32) == (x >> s) >> 1u32,
        s + 1 < 64 ==> x << ((s + 1) as u32) == (x << s) << 1u32,
        x == 2 * (x >> 1u32) + (x & 1i64),
        (x & 1i64) == 0 || (x & 1i64) == 1,
        -0x4000_0000_0000_0000 <= x <= 0x3fff_ffff_ffff_ffff ==> (x << 1u32) == 2 * x,
        !x == -1 - x,
        ((x << s) >> s == x) == ((((-0x8000_0000_0000_0000i64)) >> s) <= x && x <= (0x7fff_ffff_ffff_ffffi64 >> s)),
        0i64 & y == 0,
        -1i64 & y == y,
        y < 0 ==> (y as u64) == y + 0x1_0000_0000_0000_0000,
        y >= 0 ==> (y as u64) == y,
{
}

#[verifier::rlimit(100)]
proof fn lemma_mask_bits_i64(x: i64, s: u32)
    by (bit_vector)
    requires
        s < 64,
    ensures
        x & ((((1u64 << s) - 1) as u64) as i64) == x - ((x >> s) << s),
        x & !((((1u64 << s) - 1) as u64) as i64) == ((x >> s) << s),
        0x7fff_ffff_ffff_ffffi64 & ((((1u64 << s) - 1) as u64) as i64) == ((((1u64 << s) - 1) as u64) as i64),
        s == 0 ==> (((1u64 << s) >> 1u32) as i64) == 0,
        s >= 1 ==> (((1u64 << s) >> 1u32) as i64) == ((((1u64 << s) - 1) as u64) as i64) - (((((1u64 << s) - 1) as u64) as i64) >> 1u32),
        s >= 1 ==> ((x & (((1u64 << s) >> 1u32) as i64)) == 0) == (((x >> ((s - 1) as u32)) & 1i64) == 0),
{
}

impl Int for i64 {
    type Signed = i64;

    type Unsigned = u64;

    const BITS: u32 = 64;

    const ZERO: i64 = 0;

    const ONE: i64 = 1;

    const MINUS_ONE: i64 = -1;

    const MIN: i64 = -0x8000_0000_0000_0000;

    const MAX: i64 = 0x7fff_ffff_ffff_ffff;

    const IS_SIGNED: bool = true;

    const IS_UNSIGNED: bool = false;

    const SAFE_SHIFT: u32 = 62;

    open spec fn width() -> nat {
        64
    }

    open spec fn signed_int() -> bool {
        true
    }

    open spec fn min_val() -> int {
        -0x8000_0000_0000_0000 as int
    }

    open spec fn max_val() -> int {
        0x7fff_ffff_ffff_ffff as int
    }

    open spec fn val(self) -> int {
        self as int
    }

    open spec fn from_val(v: int) -> i64 {
        v as i64
    }

    open spec fn signed_val(v: i64) -> int {
        v as int
    }

    open spec fn unsigned_val(v: u64) -> int {
        v as int
    }

    open spec fn shr_spec(self, s: u32) -> i64 {
        self >> s
    }

    open spec fn shl_spec(self, s: u32) -> i64 {
        self << s
    }

    open spec fn and_spec(self, rhs: i64) -> i64 {
        self & rhs
    }

    open spec fn not_spec(self) -> i64 {
        !self
    }

    open spec fn mask_spec(bits: u32) -> i64 {
        (((1u64 << bits) - 1) as u64) as i64
    }

    open spec fn high_bit_spec(bits: u32) -> i64 {
        ((1u64 << bits) >> 1u32) as i64
    }

    proof fn lemma_model() {
        lemma_pow2_values();
    }

    proof fn lemma_val(x: i64) {
    }

    proof fn lemma_from_val(v: int) {
    }

    proof fn lemma_bits(x: i64, y: i64, s: u32) {
        lemma_bits_i64(x, y, s);
        lemma_mask_bits_i64(x, s);
    }

    fn is_power_of_two(self) -> (r: bool) {
        proof {
            lemma_bits_i64(self, self, 0);
            if self <= 0 {
                assert forall|e: nat| self as int != #[trigger] p2(e) by {
                    lemma_p2_pos(e);
                }
            }
        }
        self > 0 && u64_is_power_of_two(self as u64)
    }

    fn ilog2(self) -> (r: u32) {
        proof {
            lemma_bits_i64(self, self, 0);
        }
        u64_ilog2(self as u64)
    }

    fn cast_signed(self) -> (r: i64) {
        proof {
            lemma_pow2_values();
        }
        self
    }

    fn cast_unsigned(self) -> (r: u64) {
        proof {
            lemma_bits_i64(self, self, 0);
            lemma_pow2_values();
        }
        self as u64
    }

    fn from_bool(b: bool) -> (r: i64) {
        if b {
            1
        } else {
            0
        }
    }

    fn is_zero(self) -> (r: bool) {
        self == 0
    }

    fn is_not_zero(self) -> (r: bool) {
        self != 0
    }

    fn checked_shl(self, rhs: u32) -> (r: Option<i64>) {
        if rhs < 64 {
            Some(self << rhs)
        } else {
            None
        }
    }

    fn checked_add(self, rhs: i64) -> (r: Option<i64>) {
        self.checked_add(rhs)
    }

    fn mask(bits: u32) -> (r: i64) {
        proof {
            lemma_bits_u64(0, 0, bits);
        }
        ((1u64 << bits) - 1) as i64
    }

    fn highest_mask_bit(bits: u32) -> (r: i64) {
        ((1u64 << bits) >> 1u32) as i64
    }

    fn unchecked_mask(bits: u32) -> (r: i64) {
        proof {
            lemma_bits_u64(0, 0, bits);
        }
        ((1u64 << bits) - 1) as i64
    }

    fn unchecked_highest_mask_bit(bits: u32) -> (r: i64) {
        ((1u64 << bits) >> 1u32) as i64
    }

    fn trailing_zeros(self) -> (r: u32) {
        let r = u64_trailing_zeros(self as u64);
        proof {
            lemma_bits_i64(self, self, 0);
            lemma_pow2_values();
            if self < 0 {
                lemma_mod_add_p2(self as int, r as nat, 64);
                if r < 64 {
                    lemma_mod_add_p2(self as int, r as nat + 1, 64);
                }
            }
        }
        r
    }

    fn unchecked_shr(self, rhs: u32) -> (r: i64) {
        self >> rhs
    }

    fn unchecked_shl(self, rhs: u32) -> (r: i64) {
        self << rhs
    }

    fn saturating_sub(self, rhs: i64) -> (r: i64) {
        match self.checked_sub(rhs) {
            Some(v) => v,
            None => {
                if rhs > 0 {
                    -0x8000_0000_0000_0000
                } else {
                    0x7fff_ffff_ffff_ffff
                }
            },
        }
    }

    fn self_from_signed(rhs: i64) -> (r: i64) {
        rhs
    }

    fn self_from_unsigned(rhs: u64) -> (r: i64) {
        proof {
            lemma_bits_u64(rhs, rhs, 0);
            lemma_pow2_values();
        }
        rhs as i64
    }

    fn bit_and(self, rhs: i64) -> (r: i64) {
        self & rhs
    }

    fn bit_not(self) -> (r: i64) {
        !self
    }

    fn add_exact(self, rhs: i64) -> (r: i64) {
        self + rhs
    }

    fn sub_exact(self, rhs: i64) -> (r: i64) {
        self - rhs
    }

    fn less_than(self, rhs: i64) -> (r: bool) {
        self < rhs
    }

    fn same_as(self, rhs: i64) -> (r: bool) {
        self == rhs
    }

}

impl SignedInt for i64 {
    proof fn lemma_signed() {
    }
}

/// `x` split into an odd factor and a power of two: `x == y * 2^r` with `y` odd.
fn u128_odd_part(x: u128) -> (res: (u128, u32))
    requires
        x != 0,
    ensures
        x as int == res.0 as int * p2(res.1 as nat),
        res.0 % 2 == 1,
        res.1 < 128,
{
    let mut y = x;
    let mut r: u32 = 0;
    proof {
        lemma_pow2_values();
        lemma_p2_zero();
    }
    while y % 2 == 0
        invariant
            x as int == y as int * p2(r as nat),
            0 < y,
            (x as int) < p2(128),
            r < 128,
        decreases y,
    {
        proof {
            lemma_odd_part_step(x as int, y as int, r as nat, 128);
        }
        y = y / 2;
        r = r + 1;
    }
    (y, r)
}

/// Whether `x` is `2^k` for some `k`: a non-zero value whose odd factor is one.
fn u128_is_power_of_two(x: u128) -> (r: bool)
    ensures
        r == is_pow2_int(x as int),
{
    if x == 0 {
        proof {
            if is_pow2_int(0) {
                let e = choose|e: nat| 0 == #[trigger] p2(e);
                lemma_p2_pos(e);
            }
        }
        false
    } else {
        let (y, r) = u128_odd_part(x);
        proof {
            lemma_odd_part_pow2(x as int, y as int, r as nat);
        }
        y == 1
    }
}

/// The base 2 logarithm of a positive `x`, rounded down.
fn u128_ilog2(x: u128) -> (r: u32)
    requires
        x > 0,
    ensures
        p2(r as nat) <= x < p2(r as nat + 1),
{
    let mut y = x;
    let mut r: u32 = 0;
    proof {
        lemma_pow2_values();
        lemma_p2_zero();
    }
    while y >= 2
        invariant
            1 <= y,
            p2(r as nat) * y <= x < p2(r as nat) * (y + 1),
            (x as int) < p2(128),
            r < 128,
        decreases y,
    {
        proof {
            lemma_ilog2_step(x as int, y as int, r as nat, 128);
        }
        y = y / 2;
        r = r + 1;
    }
    proof {
        lemma_p2_succ(r as nat);
        assert(p2(r as nat) <= x < p2(r as nat + 1)) by (nonlinear_arith)
            requires
                y == 1,
                p2(r as nat) * y <= x < p2(r as nat) * (y + 1),
                p2(r as nat + 1) == 2 * p2(r as nat),
        ;
    }
    r
}

/// The number of zero bits below the lowest set bit (the width for zero): the
/// largest `r` such that `2^r` divides a non-zero value.
fn u128_trailing_zeros(x: u128) -> (r: u32)
    ensures
        r <= 128,
        x == 0 ==> r == 128,
        x != 0 ==> r < 128 && x as int % p2(r as nat) == 0 && x as int % p2(r as nat + 1) != 0,
{
    if x == 0 {
        128
    } else {
        let (y, r) = u128_odd_part(x);
        proof {
            lemma_odd_part_trailing(x as int, y as int, r as nat);
        }
        r
    }
}

#[verifier::rlimit(100)]
proof fn lemma_bits_u128(x: u128, y: u128, s: u32)
    by (bit_vector)
    requires
        s < 128,
    ensures
        x >> 0u32 == x,
        x << 0u32 == x,
        s + 1 < 128 ==> x >> ((s + 1) as u32) == (x >> s) >> 1u32,
        s + 1 < 128 ==> x << ((s + 1) as u32) == (x << s) << 1u32,
        x == 2 * (x >> 1u32) + (x & 1u128),
        (x & 1u128) == 0 || (x & 1u128) == 1,
        x <= 0x7fff_ffff_ffff_ffff_ffff_ffff_ffff_ffff ==> (x << 1u32) == 2 * x,
        (1u128 << s) >= 1,
        x & (((1u128 << s) - 1) as u128) == x - ((x >> s) << s),
        x & !(((1u128 << s) - 1) as u128) == ((x >> s) << s),
        !x == 0xffff_ffff_ffff_ffff_ffff_ffff_ffff_ffffu128 - x,
        0xffff_ffff_ffff_ffff_ffff_ffff_ffff_ffffu128 & (((1u128 << s) - 1) as u128) == (((1u128 << s) - 1) as u128),
        s == 0 ==> (1u128 << s) >> 1u32 == 0,
        s >= 1 ==> (1u128 << s) >> 1u32 == (((1u128 << s) - 1) as u128) - ((((1u128 << s) - 1) as u128) >> 1u32),
        s >= 1 ==> ((x & ((1u128 << s) >> 1u32)) == 0) == (((x >> ((s - 1) as u32)) & 1u128) == 0),
        ((x << s) >> s == x) == (x <= (0xffff_ffff_ffff_ffff_ffff_ffff_ffff_ffffu128 >> s)),
        0u128 & y == 0,
        0u128 >> s == 0,
        0xffff_ffff_ffff_ffff_ffff_ffff_ffff_ffffu128 & y == y,
        y >= 0x8000_0000_0000_0000_0000_0000_0000_0000 ==> (y as i128) == y - 0x1_0000_0000_0000_0000_0000_0000_0000_0000,
        y < 0x8000_0000_0000_0000_0000_0000_0000_0000 ==> (y as i128) == y,
{
}

impl Int for u128 {
    type Signed = i128;

    type Unsigned = u128;

    const BITS: u32 = 128;

    const ZERO: u128 = 0;

    const ONE: u128 = 1;

    const MINUS_ONE: u128 = 0xffff_ffff_ffff_ffff_ffff_ffff_ffff_ffff;

    const MIN: u128 = 0;

    const MAX: u128 = 0xffff_ffff_ffff_ffff_ffff_ffff_ffff_ffff;

    const IS_SIGNED: bool = false;

    const IS_UNSIGNED: bool = true;

    const SAFE_SHIFT: u32 = 127;

    open spec fn width() -> nat {
        128
    }

    open spec fn signed_int() -> bool {
        false
    }

    open spec fn min_val() -> int {
        0
    }

    open spec fn max_val() -> int {
        0xffff_ffff_ffff_ffff_ffff_ffff_ffff_ffff as int
    }

    open spec fn val(self) -> int {
        self as int
    }

    open spec fn from_val(v: int) -> u128 {
        v as u128
    }

    open spec fn signed_val(v: i128) -> int {
        v as int
    }

    open spec fn unsigned_val(v: u128) -> int {
        v as int
    }

    open spec fn shr_spec(self, s: u32) -> u128 {
        self >> s
    }

    open spec fn shl_spec(self, s: u32) -> u128 {
        self << s
    }

    open spec fn and_spec(self, rhs: u128) -> u128 {
        self & rhs
    }

    open spec fn not_spec(self) -> u128 {
        !self
    }

    open spec fn mask_spec(bits: u32) -> u128 {
        ((1u128 << bits) - 1) as u128
    }

    open spec fn high_bit_spec(bits: u32) -> u128 {
        (1u128 << bits) >> 1u32
    }

    proof fn lemma_model() {
        lemma_pow2_values();
    }

    proof fn lemma_val(x: u128) {
    }

    proof fn lemma_from_val(v: int) {
    }

    proof fn lemma_bits(x: u128, y: u128, s: u32) {
        lemma_bits_u128(x, y, s);
    }

    fn is_power_of_two(self) -> (r: bool) {
        u128_is_power_of_two(self)
    }

    fn ilog2(self) -> (r: u32) {
        u128_ilog2(self)
    }

    fn cast_signed(self) -> (r: i128) {
        proof {
            lemma_bits_u128(self, self, 0);
            lemma_pow2_values();
        }
        self as i128
    }

    fn cast_unsigned(self) -> (r: u128) {
        self
    }

    fn from_bool(b: bool) -> (r: u128) {
        if b {
            1
        } else {
            0
        }
    }

    fn is_zero(self) -> (r: bool) {
        self == 0
    }

    fn is_not_zero(self) -> (r: bool) {
        self != 0
    }

    fn checked_shl(self, rhs: u32) -> (r: Option<u128>) {
        if rhs < 128 {
            Some(self << rhs)
        } else {
            None
        }
    }

    fn checked_add(self, rhs: u128) -> (r: Option<u128>) {
        self.checked_add(rhs)
    }

    fn mask(bits: u32) -> (r: u128) {
        proof {
            lemma_bits_u128(0, 0, bits);
        }
        (1u128 << bits) - 1
    }

    fn highest_mask_bit(bits: u32) -> (r: u128) {
        (1u128 << bits) >> 1u32
    }

    fn unchecked_mask(bits: u32) -> (r: u128) {
        proof {
            lemma_bits_u128(0, 0, bits);
        }
        (1u128 << bits) - 1
    }

    fn unchecked_highest_mask_bit(bits: u32) -> (r: u128) {
        (1u128 << bits) >> 1u32
    }

    fn trailing_zeros(self) -> (r: u32) {
        u128_trailing_zeros(self)
    }

    fn unchecked_shr(self, rhs: u32) -> (r: u128) {
        self >> rhs
    }

    fn unchecked_shl(self, rhs: u32) -> (r: u128) {
        self << rhs
    }

    fn saturating_sub(self, rhs: u128) -> (r: u128) {
        self.saturating_sub(rhs)
    }

    fn self_from_signed(rhs: i128) -> (r: u128) {
        proof {
            lemma_bits_i128(rhs, rhs, 0);
            lemma_pow2_values();
        }
        rhs as u128
    }

    fn self_from_unsigned(rhs: u128) -> (r: u128) {
        rhs
    }

    fn bit_and(self, rhs: u128) -> (r: u128) {
        self & rhs
    }

    fn bit_not(self) -> (r: u128) {
        !self
    }

    fn add_exact(self, rhs: u128) -> (r: u128) {
        self + rhs
    }

    fn sub_exact(self, rhs: u128) -> (r: u128) {
        self - rhs
    }

    fn less_than(self, rhs: u128) -> (r: bool) {
        self < rhs
    }

    fn same_as(self, rhs: u128) -> (r: bool) {
        self == rhs
    }

}

impl UnsignedInt for u128 {
    proof fn lemma_unsigned() {
    }
}

#[verifier::rlimit(100)]
proof fn lemma_bits_i128(x: i128, y: i128, s: u32)
    by (bit_vector)
    requires
        s < 128,
    ensures
        x >> 0u32 == x,
        x << 0u32 == x,
        s + 1 < 128 ==> x >> ((s + 1) as u32) == (x >> s) >> 1u32,
        s + 1 < 128 ==> x << ((s + 1) as u32) == (x << s) << 1u32,
        x == 2 * (x >> 1u32) + (x & 1i128),
        (x & 1i128) == 0 || (x & 1i128) == 1,
        -0x4000_0000_0000_0000_0000_0000_0000_0000 <= x <= 0x3fff_ffff_ffff_ffff_ffff_ffff_ffff_ffff ==> (x << 1u32) == 2 * x,
        !x == -1 - x,
        ((x << s) >> s == x) == ((((-0x8000_0000_0000_0000_0000_0000_0000_0000i128)) >> s) <= x && x <= (0x7fff_ffff_ffff_ffff_ffff_ffff_ffff_ffffi128 >> s)),
        0i128 & y == 0,
        -1i128 & y == y,
        y < 0 ==> (y as u128) == y + 0x1_0000_0000_0000_0000_0000_0000_0000_0000,
        y >= 0 ==> (y as u128) == y,
{
}

#[verifier::rlimit(100)]
proof fn lemma_mask_bits_i128(x: i128, s: u32)
    by (bit_vector)
    requires
        s < 128,
    ensures
        x & ((((1u128 << s) - 1) as u128) as i128) == x - ((x >> s) << s),
        x & !((((1u128 << s) - 1) as u128) as i128) == ((x >> s) << s),
        0x7fff_ffff_ffff_ffff_ffff_ffff_ffff_ffffi128 & ((((1u128 << s) - 1) as u128) as i128) == ((((1u128 << s) - 1) as u128) as i128),
        s == 0 ==> (((1u128 << s) >> 1u32) as i128) == 0,
        s >= 1 ==> (((1u128 << s) >> 1u32) as i128) == ((((1u128 << s) - 1) as u128) as i128) - (((((1u128 << s) - 1) as u128) as i128) >> 1u32),
        s >= 1 ==> ((x & (((1u128 << s) >> 1u32) as i128)) == 0) == (((x >> ((s - 1) as u32)) & 1i128) == 0),
{
}

impl Int for i128 {
    type Signed = i128;

    type Unsigned = u128;

    const BITS: u32 = 128;

    const ZERO: i128 = 0;

    const ONE: i128 = 1;

    const MINUS_ONE: i128 = -1;

    const MIN: i128 = -0x8000_0000_0000_0000_0000_0000_0000_0000;

    const MAX: i128 = 0x7fff_ffff_ffff_ffff_ffff_ffff_ffff_ffff;

    const IS_SIGNED: bool = true;

    const IS_UNSIGNED: bool = false;

    const SAFE_SHIFT: u32 = 126;

    open spec fn width() -> nat {
        128
    }

    open spec fn signed_int() -> bool {
        true
    }

    open spec fn min_val() -> int {
        -0x8000_0000_0000_0000_0000_0000_0000_0000 as int
    }

    open spec fn max_val() -> int {
        0x7fff_ffff_ffff_ffff_ffff_ffff_ffff_ffff as int
    }

    open spec fn val(self) -> int {
        self as int
    }

    open spec fn from_val(v: int) -> i128 {
        v as i128
    }

    open spec fn signed_val(v: i128) -> int {
        v as int
    }

    open spec fn unsigned_val(v: u128) -> int {
        v as int
    }

    open spec fn shr_spec(self, s: u32) -> i128 {
        self >> s
    }

    open spec fn shl_spec(self, s: u32) -> i128 {
        self << s
    }

    open spec fn and_spec(self, rhs: i128) -> i128 {
        self & rhs
    }

    open spec fn not_spec(self) -> i128 {
        !self
    }

    open spec fn mask_spec(bits: u32) -> i128 {
        (((1u128 << bits) - 1) as u128) as i128
    }

    open spec fn high_bit_spec(bits: u32) -> i128 {
        ((1u128 << bits) >> 1u32) as i128
    }

    proof fn lemma_model() {
        lemma_pow2_values();
    }

    proof fn lemma_val(x: i128) {
    }

    proof fn lemma_from_val(v: int) {
    }

    proof fn lemma_bits(x: i128, y: i128, s: u32) {
        lemma_bits_i128(x, y, s);
        lemma_mask_bits_i128(x, s);
    }

    fn is_power_of_two(self) -> (r: bool) {
        proof {
            lemma_bits_i128(self, self, 0);
            if self <= 0 {
                assert forall|e: nat| self as int != #[trigger] p2(e) by {
                    lemma_p2_pos(e);
                }
            }
        }
        self > 0 && u128_is_power_of_two(self as u128)
    }

    fn ilog2(self) -> (r: u32) {
        proof {
            lemma_bits_i128(self, self, 0);
        }
        u128_ilog2(self as u128)
    }

    fn cast_signed(self) -> (r: i128) {
        proof {
            lemma_pow2_values();
        }
        self
    }

    fn cast_unsigned(self) -> (r: u128) {
        proof {
            lemma_bits_i128(self, self, 0);
            lemma_pow2_values();
        }
        self as u128
    }

    fn from_bool(b: bool) -> (r: i128) {
        if b {
            1
        } else {
            0
        }
    }

    fn is_zero(self) -> (r: bool) {
        self == 0
    }

    fn is_not_zero(self) -> (r: bool) {
        self != 0
    }

    fn checked_shl(self, rhs: u32) -> (r: Option<i128>) {
        if rhs < 128 {
            Some(self << rhs)
        } else {
            None
        }
    }

    fn checked_add(self, rhs: i128) -> (r: Option<i128>) {
        self.checked_add(rhs)
    }

    fn mask(bits: u32) -> (r: i128) {
        proof {
            lemma_bits_u128(0, 0, bits);
        }
        ((1u128 << bits) - 1) as i128
    }

    fn highest_mask_bit(bits: u32) -> (r: i128) {
        ((1u128 << bits) >> 1u32) as i128
    }

    fn unchecked_mask(bits: u32) -> (r: i128) {
        proof {
            lemma_bits_u128(0, 0, bits);
        }
        ((1u128 << bits) - 1) as i128
    }

    fn unchecked_highest_mask_bit(bits: u32) -> (r: i128) {
        ((1u128 << bits) >> 1u32) as i128
    }

    fn trailing_zeros(self) -> (r: u32) {
        let r = u128_trailing_zeros(self as u128);
        proof {
            lemma_bits_i128(self, self, 0);
            lemma_pow2_values();
            if self < 0 {
                lemma_mod_add_p2(self as int, r as nat, 128);
                if r < 128 {
                    lemma_mod_add_p2(self as int, r as nat + 1, 128);
                }
            }
        }
        r
    }

    fn unchecked_shr(self, rhs: u32) -> (r: i128) {
        self >> rhs
    }

    fn unchecked_shl(self, rhs: u32) -> (r: i128) {
        self << rhs
    }

    fn saturating_sub(self, rhs: i128) -> (r: i128) {
        match self.checked_sub(rhs) {
            Some(v) => v,
            None => {
                if rhs > 0 {
                    -0x8000_0000_0000_0000_0000_0000_0000_0000
                } else {
                    0x7fff_ffff_ffff_ffff_ffff_ffff_ffff_ffff
                }
            },
        }
    }

    fn self_from_signed(rhs: i128) -> (r: i128) {
        rhs
    }

    fn self_from_unsigned(rhs: u128) -> (r: i128) {
        proof {
            lemma_bits_u128(rhs, rhs, 0);
            lemma_pow2_values();
        }
        rhs as i128
    }

    fn bit_and(self, rhs: i128) -> (r: i128) {
        self & rhs
    }

    fn bit_not(self) -> (r: i128) {
        !self
    }

    fn add_exact(self, rhs: i128) -> (r: i128) {
        self + rhs
    }

    fn sub_exact(self, rhs: i128) -> (r: i128) {
        self - rhs
    }

    fn less_than(self, rhs: i128) -> (r: bool) {
        self < rhs
    }

    fn same_as(self, rhs: i128) -> (r: bool) {
        self == rhs
    }

}

impl SignedInt for i128 {
    proof fn lemma_signed() {
    }
}

#[verifier::rlimit(100)]
proof fn lemma_usize_link_raw()
    by (bit_vector)
    ensures
        usize::BITS == 32 ==> (!0usize) as int == 0xffff_ffff,
        usize::BITS == 64 ==> (!0usize) as int == 0xffff_ffff_ffff_ffff,
        usize::BITS == 32 ==> (((!0usize) >> 1u32) as isize) as int == 0x7fff_ffff,
        usize::BITS == 64 ==> (((!0usize) >> 1u32) as isize) as int == 0x7fff_ffff_ffff_ffff,
        usize::BITS == 32 ==> (!(((!0usize) >> 1u32) as isize)) as int == -0x8000_0000,
        usize::BITS == 64 ==> (!(((!0usize) >> 1u32) as isize)) as int == -0x8000_0000_0000_0000,
        2 * ((!0usize) >> 1u32) + 1 == (!0usize),
        2 * ((((!0usize) >> 1u32) as isize) >> 1u32) + 1 == (((!0usize) >> 1u32) as isize),
        2 * ((!(((!0usize) >> 1u32) as isize)) >> 1u32) == (!(((!0usize) >> 1u32) as isize)),
{
}

/// Relates the bit patterns used in the bit-vector proofs to the named limits of `usize` and `isize`.
proof fn lemma_usize_link()
    ensures
        !0usize == usize::MAX,
        (((!0usize) >> 1u32) as isize) == isize::MAX,
        !(((!0usize) >> 1u32) as isize) == isize::MIN,
        usize::MAX as int + 1 == p2(usize::BITS as nat),
        isize::MAX as int + 1 == p2((usize::BITS - 1) as nat),
        isize::MIN as int == -p2((usize::BITS - 1) as nat),
        2 * (usize::MAX >> 1u32) + 1 == usize::MAX,
        2 * (isize::MAX >> 1u32) + 1 == isize::MAX,
        2 * (isize::MIN >> 1u32) == isize::MIN,
{
    lemma_usize_link_raw();
    lemma_pow2_values();
}

/// `x` split into an odd factor and a power of two: `x == y * 2^r` with `y` odd.
fn usize_odd_part(x: usize) -> (res: (usize, u32))
    requires
        x != 0,
    ensures
        x as int == res.0 as int * p2(res.1 as nat),
        res.0 % 2 == 1,
        res.1 < usize::BITS,
{
    let mut y = x;
    let mut r: u32 = 0;
    proof {
        lemma_usize_link();
        lemma_p2_zero();
    }
    while y % 2 == 0
        invariant
            x as int == y as int * p2(r as nat),
            0 < y,
            (x as int) < p2(usize::BITS as nat),
            r < usize::BITS,
        decreases y,
    {
        proof {
            lemma_odd_part_step(x as int, y as int, r as nat, usize::BITS as nat);
        }
        y = y / 2;
        r = r + 1;
    }
    (y, r)
}

/// Whether `x` is `2^k` for some `k`: a non-zero value whose odd factor is one.
fn usize_is_power_of_two(x: usize) -> (r: bool)
    ensures
        r == is_pow2_int(x as int),
{
    if x == 0 {
        proof {
            if is_pow2_int(0) {
                let e = choose|e: nat| 0 == #[trigger] p2(e);
                lemma_p2_pos(e);
            }
        }
        false
    } else {
        let (y, r) = usize_odd_part(x);
        proof {
            lemma_odd_part_pow2(x as int, y as int, r as nat);
        }
        y == 1
    }
}

/// The base 2 logarithm of a positive `x`, rounded down.
fn usize_ilog2(x: usize) -> (r: u32)
    requires
        x > 0,
    ensures
        p2(r as nat) <= x < p2(r as nat + 1),
{
    let mut y = x;
    let mut r: u32 = 0;
    proof {
        lemma_usize_link();
        lemma_p2_zero();
    }
    while y >= 2
        invariant
            1 <= y,
            p2(r as nat) * y <= x < p2(r as nat) * (y + 1),
            (x as int) < p2(usize::BITS as nat),
            r < usize::BITS,
        decreases y,
    {
        proof {
            lemma_ilog2_step(x as int, y as int, r as nat, usize::BITS as nat);
        }
        y = y / 2;
        r = r + 1;
    }
    proof {
        lemma_p2_succ(r as nat);
        assert(p2(r as nat) <= x < p2(r as nat + 1)) by (nonlinear_arith)
            requires
                y == 1,
                p2(r as nat) * y <= x < p2(r as nat) * (y + 1),
                p2(r as nat + 1) == 2 * p2(r as nat),
        ;
    }
    r
}

/// The number of zero bits below the lowest set bit (the width for zero): the
/// largest `r` such that `2^r` divides a non-zero value.
fn usize_trailing_zeros(x: usize) -> (r: u32)
    ensures
        r <= usize::BITS,
        x == 0 ==> r == usize::BITS,
        x != 0 ==> r < usize::BITS && x as int % p2(r as nat) == 0 && x as int % p2(r as nat + 1) != 0,
{
    if x == 0 {
        usize::BITS
    } else {
        let (y, r) = usize_odd_part(x);
        proof {
            lemma_odd_part_trailing(x as int, y as int, r as nat);
        }
        r
    }
}

#[verifier::rlimit(100)]
proof fn lemma_bits_usize_raw(x: usize, y: usize, s: u32)
    by (bit_vector)
    requires
        s < usize::BITS,
    ensures
        x >> 0u32 == x,
        x << 0u32 == x,
        s + 1 < usize::BITS ==> x >> ((s + 1) as u32) == (x >> s) >> 1u32,
        s + 1 < usize::BITS ==> x << ((s + 1) as u32) == (x << s) << 1u32,
        x == 2 * (x >> 1u32) + (x & 1usize),
        (x & 1usize) == 0 || (x & 1usize) == 1,
        x <= ((!0usize) >> 1u32) ==> (x << 1u32) == 2 * x,
        (1usize << s) >= 1,
        x & (((1usize << s) - 1) as usize) == x - ((x >> s) << s),
        x & !(((1usize << s) - 1) as usize) == ((x >> s) << s),
        !x == (!0usize) - x,
        (!0usize) & (((1usize << s) - 1) as usize) == (((1usize << s) - 1) as usize),
        s == 0 ==> (1usize << s) >> 1u32 == 0,
        s >= 1 ==> (1usize << s) >> 1u32 == (((1usize << s) - 1) as usize) - ((((1usize << s) - 1) as usize) >> 1u32),
        s >= 1 ==> ((x & ((1usize << s) >> 1u32)) == 0) == (((x >> ((s - 1) as u32)) & 1usize) == 0),
        ((x << s) >> s == x) == (x <= ((!0usize) >> s)),
        0usize & y == 0,
        0usize >> s == 0,
        (!0usize) & y == y,
        y >= (((!0usize) >> 1u32) + 1) ==> (y as isize) == y - ((!0usize) as int + 1),
        y < (((!0usize) >> 1u32) + 1) ==> (y as isize) == y,
{
}

proof fn lemma_bits_usize(x: usize, y: usize, s: u32)
    requires
        s < usize::BITS,
    ensures
        x >> 0u32 == x,
        x << 0u32 == x,
        s + 1 < usize::BITS ==> x >> ((s + 1) as u32) == (x >> s) >> 1u32,
        s + 1 < usize::BITS ==> x << ((s + 1) as u32) == (x << s) << 1u32,
        x == 2 * (x >> 1u32) + (x & 1usize),
        (x & 1usize) == 0 || (x & 1usize) == 1,
        x <= (usize::MAX >> 1u32) ==> (x << 1u32) == 2 * x,
        (1usize << s) >= 1,
        x & (((1usize << s) - 1) as usize) == x - ((x >> s) << s),
        x & !(((1usize << s) - 1) as usize) == ((x >> s) << s),
        !x == usize::MAX - x,
        usize::MAX & (((1usize << s) - 1) as usize) == (((1usize << s) - 1) as usize),
        s == 0 ==> (1usize << s) >> 1u32 == 0,
        s >= 1 ==> (1usize << s) >> 1u32 == (((1usize << s) - 1) as usize) - ((((1usize << s) - 1) as usize) >> 1u32),
        s >= 1 ==> ((x & ((1usize << s) >> 1u32)) == 0) == (((x >> ((s - 1) as u32)) & 1usize) == 0),
        ((x << s) >> s == x) == (x <= (usize::MAX >> s)),
        0usize & y == 0,
        0usize >> s == 0,
        usize::MAX & y == y,
        y >= ((usize::MAX >> 1u32) + 1) ==> (y as isize) == y - (usize::MAX as int + 1),
        y < ((usize::MAX >> 1u32) + 1) ==> (y as isize) == y,
{
    lemma_bits_usize_raw(x, y, s);
    lemma_usize_link();
}

impl Int for usize {
    type Signed = isize;

    type Unsigned = usize;

    const BITS: u32 = usize::BITS;

    const ZERO: usize = 0;

    const ONE: usize = 1;

    const MINUS_ONE: usize = usize::MAX;

    const MIN: usize = 0;

    const MAX: usize = usize::MAX;

    const IS_SIGNED: bool = false;

    const IS_UNSIGNED: bool = true;

    const SAFE_SHIFT: u32 = usize::BITS - 1;

    open spec fn width() -> nat {
        usize::BITS as nat
    }

    open spec fn signed_int() -> bool {
        false
    }

    open spec fn min_val() -> int {
        0
    }

    open spec fn max_val() -> int {
        usize::MAX as int
    }

    open spec fn val(self) -> int {
        self as int
    }

    open spec fn from_val(v: int) -> usize {
        v as usize
    }

    open spec fn signed_val(v: isize) -> int {
        v as int
    }

    open spec fn unsigned_val(v: usize) -> int {
        v as int
    }

    open spec fn shr_spec(self, s: u32) -> usize {
        self >> s
    }

    open spec fn shl_spec(self, s: u32) -> usize {
        self << s
    }

    open spec fn and_spec(self, rhs: usize) -> usize {
        self & rhs
    }

    open spec fn not_spec(self) -> usize {
        !self
    }

    open spec fn mask_spec(bits: u32) -> usize {
        ((1usize << bits) - 1) as usize
    }

    open spec fn high_bit_spec(bits: u32) -> usize {
        (1usize << bits) >> 1u32
    }

    proof fn lemma_model() {
        lemma_pow2_values();
        lemma_usize_link();
    }

    proof fn lemma_val(x: usize) {
    }

    proof fn lemma_from_val(v: int) {
    }

    proof fn lemma_bits(x: usize, y: usize, s: u32) {
        lemma_bits_usize(x, y, s);
        lemma_usize_link();
    }

    fn is_power_of_two(self) -> (r: bool) {
        usize_is_power_of_two(self)
    }

    fn ilog2(self) -> (r: u32) {
        usize_ilog2(self)
    }

    fn cast_signed(self) -> (r: isize) {
        proof {
            lemma_bits_usize(self, self, 0);
            lemma_pow2_values();
        }
        self as isize
    }

    fn cast_unsigned(self) -> (r: usize) {
        self
    }

    fn from_bool(b: bool) -> (r: usize) {
        if b {
            1
        } else {
            0
        }
    }

    fn is_zero(self) -> (r: bool) {
        self == 0
    }

    fn is_not_zero(self) -> (r: bool) {
        self != 0
    }

    fn checked_shl(self, rhs: u32) -> (r: Option<usize>) {
        if rhs < usize::BITS {
            Some(self << rhs)
        } else {
            None
        }
    }

    fn checked_add(self, rhs: usize) -> (r: Option<usize>) {
        self.checked_add(rhs)
    }

    fn mask(bits: u32) -> (r: usize) {
        proof {
            lemma_bits_usize(0, 0, bits);
        }
        (1usize << bits) - 1
    }

    fn highest_mask_bit(bits: u32) -> (r: usize) {
        (1usize << bits) >> 1u32
    }

    fn unchecked_mask(bits: u32) -> (r: usize) {
        proof {
            lemma_bits_usize(0, 0, bits);
        }
        (1usize << bits) - 1
    }

    fn unchecked_highest_mask_bit(bits: u32) -> (r: usize) {
        (1usize << bits) >> 1u32
    }

    fn trailing_zeros(self) -> (r: u32) {
        usize_trailing_zeros(self)
    }

    fn unchecked_shr(self, rhs: u32) -> (r: usize) {
        self >> rhs
    }

    fn unchecked_shl(self, rhs: u32) -> (r: usize) {
        self << rhs
    }

    fn saturating_sub(self, rhs: usize) -> (r: usize) {
        self.saturating_sub(rhs)
    }

    fn self_from_signed(rhs: isize) -> (r: usize) {
        proof {
            lemma_bits_isize(rhs, rhs, 0);
            lemma_pow2_values();
        }
        rhs as usize
    }

    fn self_from_unsigned(rhs: usize) -> (r: usize) {
        rhs
    }

    fn bit_and(self, rhs: usize) -> (r: usize) {
        self & rhs
    }

    fn bit_not(self) -> (r: usize) {
        !self
    }

    fn add_exact(self, rhs: usize) -> (r: usize) {
        self + rhs
    }

    fn sub_exact(self, rhs: usize) -> (r: usize) {
        self - rhs
    }

    fn less_than(self, rhs: usize) -> (r: bool) {
        self < rhs
    }

    fn same_as(self, rhs: usize) -> (r: bool) {
        self == rhs
    }

}

impl UnsignedInt for usize {
    proof fn lemma_unsigned() {
    }
}

#[verifier::rlimit(100)]
proof fn lemma_bits_isize_raw(x: isize, y: isize, s: u32)
    by (bit_vector)
    requires
        s < usize::BITS,
    ensures
        x >> 0u32 == x,
        x << 0u32 == x,
        s + 1 < usize::BITS ==> x >> ((s + 1) as u32) == (x >> s) >> 1u32,
        s + 1 < usize::BITS ==> x << ((s + 1) as u32) == (x << s) << 1u32,
        x == 2 * (x >> 1u32) + (x & 1isize),
        (x & 1isize) == 0 || (x & 1isize) == 1,
        ((!(((!0usize) >> 1u32) as isize)) >> 1u32) <= x <= ((((!0usize) >> 1u32) as isize) >> 1u32) ==> (x << 1u32) == 2 * x,
        !x == -1 - x,
        ((x << s) >> s == x) == ((((!(((!0usize) >> 1u32) as isize))) >> s) <= x && x <= ((((!0usize) >> 1u32) as isize) >> s)),
        0isize & y == 0,
        -1isize & y == y,
        y < 0 ==> (y as usize) == y + ((!0usize) as int + 1),
        y >= 0 ==> (y as usize) == y,
{
}

proof fn lemma_bits_isize(x: isize, y: isize, s: u32)
    requires
        s < usize::BITS,
    ensures
        x >> 0u32 == x,
        x << 0u32 == x,
        s + 1 < usize::BITS ==> x >> ((s + 1) as u32) == (x >> s) >> 1u32,
        s + 1 < usize::BITS ==> x << ((s + 1) as u32) == (x << s) << 1u32,
        x == 2 * (x >> 1u32) + (x & 1isize),
        (x & 1isize) == 0 || (x & 1isize) == 1,
        (isize::MIN >> 1u32) <= x <= (isize::MAX >> 1u32) ==> (x << 1u32) == 2 * x,
        !x == -1 - x,
        ((x << s) >> s == x) == (((isize::MIN) >> s) <= x && x <= (isize::MAX >> s)),
        0isize & y == 0,
        -1isize & y == y,
        y < 0 ==> (y as usize) == y + (usize::MAX as int + 1),
        y >= 0 ==> (y as usize) == y,
{
    lemma_bits_isize_raw(x, y, s);
    lemma_usize_link();
}

#[verifier::rlimit(100)]
proof fn lemma_mask_bits_isize_raw(x: isize, s: u32)
    by (bit_vector)
    requires
        s < usize::BITS,
    ensures
        x & ((((1usize << s) - 1) as usize) as isize) == x - ((x >> s) << s),
        x & !((((1usize << s) - 1) as usize) as isize) == ((x >> s) << s),
        (((!0usize) >> 1u32) as isize) & ((((1usize << s) - 1) as usize) as isize) == ((((1usize << s) - 1) as usize) as isize),
        s == 0 ==> (((1usize << s) >> 1u32) as isize) == 0,
        s >= 1 ==> (((1usize << s) >> 1u32) as isize) == ((((1usize << s) - 1) as usize) as isize) - (((((1usize << s) - 1) as usize) as isize) >> 1u32),
        s >= 1 ==> ((x & (((1usize << s) >> 1u32) as isize)) == 0) == (((x >> ((s - 1) as u32)) & 1isize) == 0),
{
}

proof fn lemma_mask_bits_isize(x: isize, s: u32)
    requires
        s < usize::BITS,
    ensures
        x & ((((1usize << s) - 1) as usize) as isize) == x - ((x >> s) << s),
        x & !((((1usize << s) - 1) as usize) as isize) == ((x >> s) << s),
        isize::MAX & ((((1usize << s) - 1) as usize) as isize) == ((((1usize << s) - 1) as usize) as isize),
        s == 0 ==> (((1usize << s) >> 1u32) as isize) == 0,
        s >= 1 ==> (((1usize << s) >> 1u32) as isize) == ((((1usize << s) - 1) as usize) as isize) - (((((1usize << s) - 1) as usize) as isize) >> 1u32),
        s >= 1 ==> ((x & (((1usize << s) >> 1u32) as isize)) == 0) == (((x >> ((s - 1) as u32)) & 1isize) == 0),
{
    lemma_mask_bits_isize_raw(x, s);
    lemma_usize_link();
}

impl Int for isize {
    type Signed = isize;

    type Unsigned = usize;

    const BITS: u32 = usize::BITS;

    const ZERO: isize = 0;

    const ONE: isize = 1;

    const MINUS_ONE: isize = -1;

    const MIN: isize = isize::MIN;

    const MAX: isize = isize::MAX;

    const IS_SIGNED: bool = true;

    const IS_UNSIGNED: bool = false;

    const SAFE_SHIFT: u32 = usize::BITS - 2;

    open spec fn width() -> nat {
        usize::BITS as nat
    }

    open spec fn signed_int() -> bool {
        true
    }

    open spec fn min_val() -> int {
        isize::MIN as int
    }

    open spec fn max_val() -> int {
        isize::MAX as int
    }

    open spec fn val(self) -> int {
        self as int
    }

    open spec fn from_val(v: int) -> isize {
        v as isize
    }

    open spec fn signed_val(v: isize) -> int {
        v as int
    }

    open spec fn unsigned_val(v: usize) -> int {
        v as int
    }

    open spec fn shr_spec(self, s: u32) -> isize {
        self >> s
    }

    open spec fn shl_spec(self, s: u32) -> isize {
        self << s
    }

    open spec fn and_spec(self, rhs: isize) -> isize {
        self & rhs
    }

    open spec fn not_spec(self) -> isize {
        !self
    }

    open spec fn mask_spec(bits: u32) -> isize {
        (((1usize << bits) - 1) as usize) as isize
    }

    open spec fn high_bit_spec(bits: u32) -> isize {
        ((1usize << bits) >> 1u32) as isize
    }

    proof fn lemma_model() {
        lemma_pow2_values();
        lemma_usize_link();
    }

    proof fn lemma_val(x: isize) {
    }

    proof fn lemma_from_val(v: int) {
    }

    proof fn lemma_bits(x: isize, y: isize, s: u32) {
        lemma_bits_isize(x, y, s);
        lemma_mask_bits_isize(x, s);
        lemma_usize_link();
    }

    fn is_power_of_two(self) -> (r: bool) {
        proof {
            lemma_bits_isize(self, self, 0);
            if self <= 0 {
                assert forall|e: nat| self as int != #[trigger] p2(e) by {
                    lemma_p2_pos(e);
                }
            }
        }
        self > 0 && usize_is_power_of_two(self as usize)
    }

    fn ilog2(self) -> (r: u32) {
        proof {
            lemma_bits_isize(self, self, 0);
        }
        usize_ilog2(self as usize)
    }

    fn cast_signed(self) -> (r: isize) {
        proof {
            lemma_pow2_values();
        }
        self
    }

    fn cast_unsigned(self) -> (r: usize) {
        proof {
            lemma_bits_isize(self, self, 0);
            lemma_pow2_values();
        }
        self as usize
    }

    fn from_bool(b: bool) -> (r: isize) {
        if b {
            1
        } else {
            0
        }
    }

    fn is_zero(self) -> (r: bool) {
        self == 0
    }

    fn is_not_zero(self) -> (r: bool) {
        self != 0
    }

    fn checked_shl(self, rhs: u32) -> (r: Option<isize>) {
        if rhs < usize::BITS {
            Some(self << rhs)
        } else {
            None
        }
    }

    fn checked_add(self, rhs: isize) -> (r: Option<isize>) {
        self.checked_add(rhs)
    }

    fn mask(bits: u32) -> (r: isize) {
        proof {
            lemma_bits_usize(0, 0, bits);
        }
        ((1usize << bits) - 1) as isize
    }

    fn highest_mask_bit(bits: u32) -> (r: isize) {
        ((1usize << bits) >> 1u32) as isize
    }

    fn unchecked_mask(bits: u32) -> (r: isize) {
        proof {
            lemma_bits_usize(0, 0, bits);
        }
        ((1usize << bits) - 1) as isize
    }

    fn unchecked_highest_mask_bit(bits: u32) -> (r: isize) {
        ((1usize << bits) >> 1u32) as isize
    }

    fn trailing_zeros(self) -> (r: u32) {
        let r = usize_trailing_zeros(self as usize);
        proof {
            lemma_bits_isize(self, self, 0);
            lemma_pow2_values();
            if self < 0 {
                lemma_mod_add_p2(self as int, r as nat, usize::BITS as nat);
                if r < usize::BITS {
                    lemma_mod_add_p2(self as int, r as nat + 1, usize::BITS as nat);
                }
            }
        }
        r
    }

    fn unchecked_shr(self, rhs: u32) -> (r: isize) {
        self >> rhs
    }

    fn unchecked_shl(self, rhs: u32) -> (r: isize) {
        self << rhs
    }

    fn saturating_sub(self, rhs: isize) -> (r: isize) {
        match self.checked_sub(rhs) {
            Some(v) => v,
            None => {
                if rhs > 0 {
                    isize::MIN
                } else {
                    isize::MAX
                }
            },
        }
    }

    fn self_from_signed(rhs: isize) -> (r: isize) {
        rhs
    }

    fn self_from_unsigned(rhs: usize) -> (r: isize) {
        proof {
            lemma_bits_usize(rhs, rhs, 0);
            lemma_pow2_values();
        }
        rhs as isize
    }

    fn bit_and(self, rhs: isize) -> (r: isize) {
        self & rhs
    }

    fn bit_not(self) -> (r: isize) {
        !self
    }

    fn add_exact(self, rhs: isize) -> (r: isize) {
        self + rhs
    }

    fn sub_exact(self, rhs: isize) -> (r: isize) {
        self - rhs
    }

    fn less_than(self, rhs: isize) -> (r: bool) {
        self < rhs
    }

    fn same_as(self, rhs: isize) -> (r: bool) {
        self == rhs
    }

}

impl SignedInt for isize {
    proof fn lemma_signed() {
    }
}

impl SealedInt for u8 {
}

impl SealedInt for u16 {
}

impl SealedInt for u32 {
}

impl SealedInt for u64 {
}

impl SealedInt for u128 {
}

impl SealedInt for usize {
}

impl SealedInt for i8 {
}

impl SealedInt for i16 {
}

impl SealedInt for i32 {
}

impl SealedInt for i64 {
}

impl SealedInt for i128 {
}

impl SealedInt for isize {
}

impl IntAtLeastAsWide<u8> for i8 {
    proof fn lemma_at_least_as_wide() {
    }
}

impl IntAtLeastAsWide<u8> for u8 {
    proof fn lemma_at_least_as_wide() {
    }
}

impl IntAtLeastAsWide<u8> for i16 {
    proof fn lemma_at_least_as_wide() {
    }
}

impl IntAtLeastAsWide<u8> for u16 {
    proof fn lemma_at_least_as_wide() {
    }
}

impl IntAtLeastAsWide<u8> for i32 {
    proof fn lemma_at_least_as_wide() {
    }
}

impl IntAtLeastAsWide<u8> for u32 {
    proof fn lemma_at_least_as_wide() {
    }
}

impl IntAtLeastAsWide<u8> for i64 {
    proof fn lemma_at_least_as_wide() {
    }
}

impl IntAtLeastAsWide<u8> for u64 {
    proof fn lemma_at_least_as_wide() {
    }
}

impl IntAtLeastAsWide<u8> for i128 {
    proof fn lemma_at_least_as_wide() {
    }
}

impl IntAtLeastAsWide<u8> for u128 {
    proof fn lemma_at_least_as_wide() {
    }
}

impl IntAtLeastAsWide<u8> for isize {
    proof fn lemma_at_least_as_wide() {
    }
}

impl IntAtLeastAsWide<u8> for usize {
    proof fn lemma_at_least_as_wide() {
    }
}

impl IntAtLeastAsWide<u16> for i16 {
    proof fn lemma_at_least_as_wide() {
    }
}

impl IntAtLeastAsWide<u16> for u16 {
    proof fn lemma_at_least_as_wide() {
    }
}

impl IntAtLeastAsWide<u16> for i32 {
    proof fn lemma_at_least_as_wide() {
    }
}

impl IntAtLeastAsWide<u16> for u32 {
    proof fn lemma_at_least_as_wide() {
    }
}

impl IntAtLeastAsWide<u16> for i64 {
    proof fn lemma_at_least_as_wide() {
    }
}

impl IntAtLeastAsWide<u16> for u64 {
    proof fn lemma_at_least_as_wide() {
    }
}

impl IntAtLeastAsWide<u16> for i128 {
    proof fn lemma_at_least_as_wide() {
    }
}

impl IntAtLeastAsWide<u16> for u128 {
    proof fn lemma_at_least_as_wide() {
    }
}

impl IntAtLeastAsWide<u16> for isize {
    proof fn lemma_at_least_as_wide() {
    }
}

impl IntAtLeastAsWide<u16> for usize {
    proof fn lemma_at_least_as_wide() {
    }
}

impl IntAtLeastAsWide<u32> for i32 {
    proof fn lemma_at_least_as_wide() {
    }
}

impl IntAtLeastAsWide<u32> for u32 {
    proof fn lemma_at_least_as_wide() {
    }
}

impl IntAtLeastAsWide<u32> for i64 {
    proof fn lemma_at_least_as_wide() {
    }
}

impl IntAtLeastAsWide<u32> for u64 {
    proof fn lemma_at_least_as_wide() {
    }
}

impl IntAtLeastAsWide<u32> for i128 {
    proof fn lemma_at_least_as_wide() {
    }
}

impl IntAtLeastAsWide<u32> for u128 {
    proof fn lemma_at_least_as_wide() {
    }
}

impl IntAtLeastAsWide<u32> for isize {
    proof fn lemma_at_least_as_wide() {
    }
}

impl IntAtLeastAsWide<u32> for usize {
    proof fn lemma_at_least_as_wide() {
    }
}

impl IntAtLeastAsWide<u64> for i64 {
    proof fn lemma_at_least_as_wide() {
    }
}

impl IntAtLeastAsWide<u64> for u64 {
    proof fn lemma_at_least_as_wide() {
    }
}

impl IntAtLeastAsWide<u64> for i128 {
    proof fn lemma_at_least_as_wide() {
    }
}

impl IntAtLeastAsWide<u64> for u128 {
    proof fn lemma_at_least_as_wide() {
    }
}

impl IntAtLeastAsWide<u128> for i128 {
    proof fn lemma_at_least_as_wide() {
    }
}

impl IntAtLeastAsWide<u128> for u128 {
    proof fn lemma_at_least_as_wide() {
    }
}

impl IntRounding for u8 {
    fn div_round_by(self, s: u32) -> (r: u8) {
        crate::ops::div_round_by::<u8, u8>(self, s)
    }

    fn round_to_multiple_by(self, s: u32) -> (r: u8) {
        crate::ops::round_multiple_by::<u8, u8>(self, s)
    }

    fn checked_round_to_multiple_by(self, s: u32) -> (r: Option<u8>) {
        crate::ops::checked_round_multiple_by::<u8, u8>(self, s)
    }

    fn unbounded_div_round_by(self, e: u8) -> (r: u8) {
        crate::ops::unbounded_round_div_by::<u8, u8>(self, e)
    }

    fn unbounded_round_to_multiple_by(self, e: u8) -> (r: Option<u8>) {
        crate::ops::unbounded_round_multiple_by::<u8, u8>(self, e)
    }
}

impl IntRounding for u16 {
    fn div_round_by(self, s: u32) -> (r: u16) {
        crate::ops::div_round_by::<u16, u16>(self, s)
    }

    fn round_to_multiple_by(self, s: u32) -> (r: u16) {
        crate::ops::round_multiple_by::<u16, u16>(self, s)
    }

    fn checked_round_to_multiple_by(self, s: u32) -> (r: Option<u16>) {
        crate::ops::checked_round_multiple_by::<u16, u16>(self, s)
    }

    fn unbounded_div_round_by(self, e: u8) -> (r: u16) {
        crate::ops::unbounded_round_div_by::<u16, u16>(self, e)
    }

    fn unbounded_round_to_multiple_by(self, e: u8) -> (r: Option<u16>) {
        crate::ops::unbounded_round_multiple_by::<u16, u16>(self, e)
    }
}

impl IntRounding for u32 {
    fn div_round_by(self, s: u32) -> (r: u32) {
        crate::ops::div_round_by::<u32, u32>(self, s)
    }

    fn round_to_multiple_by(self, s: u32) -> (r: u32) {
        crate::ops::round_multiple_by::<u32, u32>(self, s)
    }

    fn checked_round_to_multiple_by(self, s: u32) -> (r: Option<u32>) {
        crate::ops::checked_round_multiple_by::<u32, u32>(self, s)
    }

    fn unbounded_div_round_by(self, e: u8) -> (r: u32) {
        crate::ops::unbounded_round_div_by::<u32, u32>(self, e)
    }

    fn unbounded_round_to_multiple_by(self, e: u8) -> (r: Option<u32>) {
        crate::ops::unbounded_round_multiple_by::<u32, u32>(self, e)
    }
}

impl IntRounding for u64 {
    fn div_round_by(self, s: u32) -> (r: u64) {
        crate::ops::div_round_by::<u64, u64>(self, s)
    }

    fn round_to_multiple_by(self, s: u32) -> (r: u64) {
        crate::ops::round_multiple_by::<u64, u64>(self, s)
    }

    fn checked_round_to_multiple_by(self, s: u32) -> (r: Option<u64>) {
        crate::ops::checked_round_multiple_by::<u64, u64>(self, s)
    }

    fn unbounded_div_round_by(self, e: u8) -> (r: u64) {
        crate::ops::unbounded_round_div_by::<u64, u64>(self, e)
    }

    fn unbounded_round_to_multiple_by(self, e: u8) -> (r: Option<u64>) {
        crate::ops::unbounded_round_multiple_by::<u64, u64>(self, e)
    }
}

impl IntRounding for u128 {
    fn div_round_by(self, s: u32) -> (r: u128) {
        crate::ops::div_round_by::<u128, u128>(self, s)
    }

    fn round_to_multiple_by(self, s: u32) -> (r: u128) {
        crate::ops::round_multiple_by::<u128, u128>(self, s)
    }

    fn checked_round_to_multiple_by(self, s: u32) -> (r: Option<u128>) {
        crate::ops::checked_round_multiple_by::<u128, u128>(self, s)
    }

    fn unbounded_div_round_by(self, e: u8) -> (r: u128) {
        crate::ops::unbounded_round_div_by::<u128, u128>(self, e)
    }

    fn unbounded_round_to_multiple_by(self, e: u8) -> (r: Option<u128>) {
        crate::ops::unbounded_round_multiple_by::<u128, u128>(self, e)
    }
}

impl IntRounding for usize {
    fn div_round_by(self, s: u32) -> (r: usize) {
        crate::ops::div_round_by::<usize, usize>(self, s)
    }

    fn round_to_multiple_by(self, s: u32) -> (r: usize) {
        crate::ops::round_multiple_by::<usize, usize>(self, s)
    }

    fn checked_round_to_multiple_by(self, s: u32) -> (r: Option<usize>) {
        crate::ops::checked_round_multiple_by::<usize, usize>(self, s)
    }

    fn unbounded_div_round_by(self, e: u8) -> (r: usize) {
        crate::ops::unbounded_round_div_by::<usize, usize>(self, e)
    }

    fn unbounded_round_to_multiple_by(self, e: u8) -> (r: Option<usize>) {
        crate::ops::unbounded_round_multiple_by::<usize, usize>(self, e)
    }
}

impl IntRounding for i8 {
    fn div_round_by(self, s: u32) -> (r: i8) {
        crate::ops::div_round_by::<i8, u8>(self, s)
    }

    fn round_to_multiple_by(self, s: u32) -> (r: i8) {
        crate::ops::round_multiple_by::<i8, u8>(self, s)
    }

    fn checked_round_to_multiple_by(self, s: u32) -> (r: Option<i8>) {
        crate::ops::checked_round_multiple_by::<i8, u8>(self, s)
    }

    fn unbounded_div_round_by(self, e: u8) -> (r: i8) {
        crate::ops::unbounded_round_div_by::<i8, u8>(self, e)
    }

    fn unbounded_round_to_multiple_by(self, e: u8) -> (r: Option<i8>) {
        crate::ops::unbounded_round_multiple_by::<i8, u8>(self, e)
    }
}

impl IntRounding for i16 {
    fn div_round_by(self, s: u32) -> (r: i16) {
        crate::ops::div_round_by::<i16, u16>(self, s)
    }

    fn round_to_multiple_by(self, s: u32) -> (r: i16) {
        crate::ops::round_multiple_by::<i16, u16>(self, s)
    }

    fn checked_round_to_multiple_by(self, s: u32) -> (r: Option<i16>) {
        crate::ops::checked_round_multiple_by::<i16, u16>(self, s)
    }

    fn unbounded_div_round_by(self, e: u8) -> (r: i16) {
        crate::ops::unbounded_round_div_by::<i16, u16>(self, e)
    }

    fn unbounded_round_to_multiple_by(self, e: u8) -> (r: Option<i16>) {
        crate::ops::unbounded_round_multiple_by::<i16, u16>(self, e)
    }
}

impl IntRounding for i32 {
    fn div_round_by(self, s: u32) -> (r: i32) {
        crate::ops::div_round_by::<i32, u32>(self, s)
    }

    fn round_to_multiple_by(self, s: u32) -> (r: i32) {
        crate::ops::round_multiple_by::<i32, u32>(self, s)
    }

    fn checked_round_to_multiple_by(self, s: u32) -> (r: Option<i32>) {
        crate::ops::checked_round_multiple_by::<i32, u32>(self, s)
    }

    fn unbounded_div_round_by(self, e: u8) -> (r: i32) {
        crate::ops::unbounded_round_div_by::<i32, u32>(self, e)
    }

    fn unbounded_round_to_multiple_by(self, e: u8) -> (r: Option<i32>) {
        crate::ops::unbounded_round_multiple_by::<i32, u32>(self, e)
    }
}

impl IntRounding for i64 {
    fn div_round_by(self, s: u32) -> (r: i64) {
        crate::ops::div_round_by::<i64, u64>(self, s)
    }

    fn round_to_multiple_by(self, s: u32) -> (r: i64) {
        crate::ops::round_multiple_by::<i64, u64>(self, s)
    }

    fn checked_round_to_multiple_by(self, s: u32) -> (r: Option<i64>) {
        crate::ops::checked_round_multiple_by::<i64, u64>(self, s)
    }

    fn unbounded_div_round_by(self, e: u8) -> (r: i64) {
        crate::ops::unbounded_round_div_by::<i64, u64>(self, e)
    }

    fn unbounded_round_to_multiple_by(self, e: u8) -> (r: Option<i64>) {
        crate::ops::unbounded_round_multiple_by::<i64, u64>(self, e)
    }
}

impl IntRounding for i128 {
    fn div_round_by(self, s: u32) -> (r: i128) {
        crate::ops::div_round_by::<i128, u128>(self, s)
    }

    fn round_to_multiple_by(self, s: u32) -> (r: i128) {
        crate::ops::round_multiple_by::<i128, u128>(self, s)
    }

    fn checked_round_to_multiple_by(self, s: u32) -> (r: Option<i128>) {
        crate::ops::checked_round_multiple_by::<i128, u128>(self, s)
    }

    fn unbounded_div_round_by(self, e: u8) -> (r: i128) {
        crate::ops::unbounded_round_div_by::<i128, u128>(self, e)
    }

    fn unbounded_round_to_multiple_by(self, e: u8) -> (r: Option<i128>) {
        crate::ops::unbounded_round_multiple_by::<i128, u128>(self, e)
    }
}

impl IntRounding for isize {
    fn div_round_by(self, s: u32) -> (r: isize) {
        crate::ops::div_round_by::<isize, usize>(self, s)
    }

    fn round_to_multiple_by(self, s: u32) -> (r: isize) {
        crate::ops::round_multiple_by::<isize, usize>(self, s)
    }

    fn checked_round_to_multiple_by(self, s: u32) -> (r: Option<isize>) {
        crate::ops::checked_round_multiple_by::<isize, usize>(self, s)
    }

    fn unbounded_div_round_by(self, e: u8) -> (r: isize) {
        crate::ops::unbounded_round_div_by::<isize, usize>(self, e)
    }

    fn unbounded_round_to_multiple_by(self, e: u8) -> (r: Option<isize>) {
        crate::ops::unbounded_round_multiple_by::<isize, usize>(self, e)
    }
}

} // verus!
