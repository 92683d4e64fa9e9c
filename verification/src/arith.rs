//! Two's-complement arithmetic on register-width values, stated over
//! mathematical integers, with the executable conversions that realise it.
use vstd::prelude::*;
use vstd::arithmetic::power2::pow2;
use vstd::arithmetic::power2::lemma_pow2_pos;
use vstd::arithmetic::div_mod::lemma_fundamental_div_mod_converse;
use vstd::arithmetic::div_mod::lemma_fundamental_div_mod;
use vstd::arithmetic::div_mod::lemma_div_pos_is_pos;
use vstd::arithmetic::div_mod::lemma_mod_bound;
use vstd::arithmetic::div_mod::lemma_div_is_ordered_by_denominator;
use vstd::bits::lemma_u64_shr_is_div;
use vstd::bits::lemma_u64_shl_is_mul;
use vstd::bits::lemma_u64_pow2_no_overflow;

verus! {

/// The bit pattern of `x` read as a signed 64-bit number.
pub open spec fn signed64(x: u64) -> int {
    if x >= 0x8000_0000_0000_0000u64 {
        x as int - 0x1_0000_0000_0000_0000
    } else {
        x as int
    }
}

/// The 64-bit pattern that stands for the integer `x` modulo 2^64.
pub open spec fn wrap64(x: int) -> u64 {
    (x % 0x1_0000_0000_0000_0000) as u64
}

/// The low 32 bits of `x`.
pub open spec fn low32(x: u64) -> u32 {
    (x as int % 0x1_0000_0000) as u32
}

/// An 8-bit value sign-extended to 64 bits.
pub open spec fn sext8(x: u8) -> u64 {
    if x >= 0x80u8 {
        (x as int + 0xffff_ffff_ffff_ff00) as u64
    } else {
        x as u64
    }
}

/// A 16-bit value sign-extended to 64 bits.
pub open spec fn sext16(x: u16) -> u64 {
    if x >= 0x8000u16 {
        (x as int + 0xffff_ffff_ffff_0000) as u64
    } else {
        x as u64
    }
}

/// A 32-bit value sign-extended to 64 bits.
pub open spec fn sext32(x: u32) -> u64 {
    if x >= 0x8000_0000u32 {
        (x as int + 0xffff_ffff_0000_0000) as u64
    } else {
        x as u64
    }
}

/// Arithmetic right shift: the signed value of `x` divided by 2^`sh`,
/// rounded towards minus infinity.
pub open spec fn sra64(x: u64, sh: nat) -> u64 {
    wrap64(signed64(x) / (pow2(sh) as int))
}

/// The amount of a 64-bit shift: the low 6 bits of `v`.
pub open spec fn shamt6(v: u64) -> u32 {
    (v as int % 64) as u32
}

/// The amount of a 32-bit shift: the low 5 bits of `v`.
pub open spec fn shamt5(v: u64) -> u32 {
    (v as int % 32) as u32
}

/// `v` with its lowest bit cleared.
pub open spec fn clear_low_bit(v: u64) -> u64 {
    (v as int - v as int % 2) as u64
}

/// The 0/1 register value of a comparison.
pub open spec fn flag(b: bool) -> u64 {
    if b {
        1
    } else {
        0
    }
}

/// Floor division of a negative number, from the division of its complement.
proof fn lemma_div_of_negative(y: int, d: int)
    requires
        0 <= y,
        0 < d,
    ensures
        (-(y + 1)) / d == -(y / d) - 1,
{
    let q = y / d;
    let r = y % d;
    lemma_fundamental_div_mod(y, d);
    lemma_mod_bound(y, d);
    assert(-(y + 1) == (-q - 1) * d + (d - r - 1)) by (nonlinear_arith)
        requires
            y == d * q + r,
    ;
    lemma_fundamental_div_mod_converse(-(y + 1), d, -q - 1, d - r - 1);
}

/// A shift to the left by `n` is a multiplication by 2^`n`, modulo 2^64.
pub proof fn lemma_shift_left_is_multiplication(x: u64, n: u32)
    requires
        n < 64,
    ensures
        x << n == wrap64(x * pow2(n as nat)),
{
    assert((x << n) as int == (x as int * ((1u64 << n) as int)) % 0x1_0000_0000_0000_0000)
        by (bit_vector)
        requires
            n < 64,
    ;
    lemma_u64_pow2_no_overflow(n as nat);
    lemma_u64_shl_is_mul(1, n as u64);
    assert(1u64 << n == 1u64 << (n as u64)) by (bit_vector);
}

/// A shift to the right by `n`, zeros coming in, is a division by 2^`n`.
pub proof fn lemma_shift_right_is_division(x: u64, n: u32)
    requires
        n < 64,
    ensures
        x >> n == x as int / (pow2(n as nat) as int),
        x >> n <= x,
{
    lemma_u64_shr_is_div(x, n as u64);
    assert(x >> n == x >> (n as u64)) by (bit_vector);
    lemma_pow2_pos(n as nat);
    lemma_div_is_ordered_by_denominator(x as int, 1, pow2(n as nat) as int);
}

/// A sign extension keeps the signed value: 32 bits extended to 64 read as
/// the same number.
pub proof fn lemma_sext32_keeps_value(x: u32)
    ensures
        signed64(sext32(x)) == (if x >= 0x8000_0000u32 {
            x as int - 0x1_0000_0000
        } else {
            x as int
        }),
        low32(sext32(x)) == x,
{
}

/// `x` as a signed number.
pub fn to_signed(x: u64) -> (r: i64)
    ensures
        r as int == signed64(x),
{
    assert((x as i64) as int == (if x >= 0x8000_0000_0000_0000u64 {
        x as int - 0x1_0000_0000_0000_0000
    } else {
        x as int
    })) by (bit_vector);
    #[verifier::truncate]
    (x as i64)
}

/// Extends the sign of a byte through 64 bits.
pub fn sign_extend_byte(x: u8) -> (r: u64)
    ensures
        r == sext8(x),
{
    assert((x as i8) as i64 as u64 == sext8(x)) by (bit_vector);
    #[verifier::truncate]
    ((#[verifier::truncate]
    (x as i8)) as i64 as u64)
}

/// Extends the sign of a half word through 64 bits.
pub fn sign_extend_half(x: u16) -> (r: u64)
    ensures
        r == sext16(x),
{
    assert((x as i16) as i64 as u64 == sext16(x)) by (bit_vector);
    #[verifier::truncate]
    ((#[verifier::truncate]
    (x as i16)) as i64 as u64)
}

/// Extends the sign of a word through 64 bits.
pub fn sign_extend_word(x: u32) -> (r: u64)
    ensures
        r == sext32(x),
{
    assert((x as i32) as i64 as u64 == sext32(x)) by (bit_vector);
    #[verifier::truncate]
    ((#[verifier::truncate]
    (x as i32)) as i64 as u64)
}

/// The low word of `x`.
pub fn low_word(x: u64) -> (r: u32)
    ensures
        r == low32(x),
{
    assert(x as u32 == low32(x)) by (bit_vector);
    #[verifier::truncate]
    (x as u32)
}

/// The sum of `a` and `b`, wrapping round at 2^64.
pub fn wrapping_sum(a: u64, b: u64) -> (r: u64)
    ensures
        r == wrap64(a + b),
{
    a.wrapping_add(b)
}

/// The difference of `a` and `b`, wrapping round at 2^64.
pub fn wrapping_difference(a: u64, b: u64) -> (r: u64)
    ensures
        r == wrap64(a - b),
{
    a.wrapping_sub(b)
}

/// The amount of a 64-bit shift that `v` asks for.
pub fn shift_amount(v: u64) -> (r: u32)
    ensures
        r == shamt6(v),
        r < 64,
{
    assert((v & 0x3f) as int == v as int % 64) by (bit_vector);
    (v & 0x3f) as u32
}

/// The amount of a 32-bit shift that `v` asks for.
pub fn shift_amount_word(v: u64) -> (r: u32)
    ensures
        r == shamt5(v),
        r < 32,
{
    assert((v & 0x1f) as int == v as int % 32) by (bit_vector);
    (v & 0x1f) as u32
}

/// Clears the lowest bit of `v`.
pub fn align_even(v: u64) -> (r: u64)
    ensures
        r == clear_low_bit(v),
{
    assert((v & !0x1u64) as int == v as int - v as int % 2) by (bit_vector);
    v & !0x1u64
}

/// The register value of a comparison.
pub fn flag_of(b: bool) -> (r: u64)
    ensures
        r == flag(b),
{
    if b {
        1
    } else {
        0
    }
}

/// Shifts `x` to the right by `sh`, the sign coming in.
pub fn shift_right_arithmetic(x: u64, sh: u32) -> (r: u64)
    requires
        sh < 64,
    ensures
        r == sra64(x, sh as nat),
{
    let r: u64 = #[verifier::truncate]
    (((#[verifier::truncate]
    (x as i64)) >> sh) as u64);
    proof {
        let d = pow2(sh as nat) as int;
        lemma_pow2_pos(sh as nat);
        if x < 0x8000_0000_0000_0000u64 {
            // A number that is not negative is shifted as an unsigned one.
            assert(((x as i64) >> sh) as u64 == x >> sh) by (bit_vector)
                requires
                    x < 0x8000_0000_0000_0000u64,
                    sh < 64,
            ;
            lemma_shift_right_is_division(x, sh);
            lemma_div_pos_is_pos(x as int, d);
        } else {
            // A negative number is the complement of the shifted complement.
            let y: u64 = !x;
            assert(((x as i64) >> sh) as u64 == !((!x) >> sh) && (!x) as int == 0xffff_ffff_ffff_ffff
                - x as int && (!((!x) >> sh)) as int == 0xffff_ffff_ffff_ffff - ((!x) >> sh) as int)
                by (bit_vector)
                requires
                    x >= 0x8000_0000_0000_0000u64,
                    sh < 64,
            ;
            lemma_shift_right_is_division(y, sh);
            lemma_div_of_negative(y as int, d);
            lemma_div_pos_is_pos(y as int, d);
            assert(signed64(x) == -(y as int + 1));
        }
    }
    r
}

} // verus!
