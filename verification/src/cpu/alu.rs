//! The arithmetic of the instruction set on 64-bit register values: what each
//! operation yields, stated over the integers, and the functions that compute
//! it.
//!
//! A register value is a number from 0 up to `2^64`. Read as signed it stands
//! for an integer in two's complement. `pow2` is vstd's power of two; its
//! values are given by `vstd::arithmetic::power2::lemma2_to64`, and
//! `lemma_bit_level` states every operation here as the bit operation that
//! computes it.

use vstd::arithmetic::div_mod::{
    lemma_div_nonincreasing,
    lemma_div_pos_is_pos,
    lemma_fundamental_div_mod,
    lemma_fundamental_div_mod_converse,
    lemma_mod_mod,
};
use vstd::arithmetic::power2::{
    lemma2_to64,
    lemma2_to64_rest,
    lemma_pow2_strictly_increases,
    pow2,
};
use vstd::bits::{lemma_u64_pow2_no_overflow, lemma_u64_shl_is_mul, lemma_u64_shr_is_div};
use vstd::prelude::*;

verus! {

/// The register value that stands for the integer `x`: `x` modulo `2^64`.
pub open spec fn wrap64(x: int) -> u64 {
    (x % 0x1_0000_0000_0000_0000) as u64
}

/// The integer that `value` stands for in two's complement, `value` being one
/// of the `modulus` patterns of a field: the upper half of them stand for
/// negative numbers.
pub open spec fn as_signed(value: int, modulus: int) -> int {
    if 2 * value < modulus {
        value
    } else {
        value - modulus
    }
}

/// The field `value`, one of `modulus` patterns, sign-extended to 64 bits.
pub open spec fn sign_extend(value: int, modulus: int) -> u64 {
    wrap64(as_signed(value, modulus))
}

/// The integer that a register value stands for when it is read as signed.
pub open spec fn signed64(a: u64) -> int {
    as_signed(a as int, 0x1_0000_0000_0000_0000)
}

/// The low 32 bits of a register value.
pub open spec fn low32(a: u64) -> int {
    a as int % 0x1_0000_0000
}

/// The low 8 bits of a register value, sign-extended to 64 bits.
pub open spec fn spec_sext8(a: u64) -> u64 {
    sign_extend(a as int % 0x100, 0x100)
}

/// The low 16 bits of a register value, sign-extended to 64 bits.
pub open spec fn spec_sext16(a: u64) -> u64 {
    sign_extend(a as int % 0x1_0000, 0x1_0000)
}

/// The low 32 bits of a register value, sign-extended to 64 bits.
pub open spec fn spec_sext32(a: u64) -> u64 {
    sign_extend(low32(a), 0x1_0000_0000)
}

/// Sum, modulo `2^64`.
pub open spec fn spec_add64(a: u64, b: u64) -> u64 {
    wrap64(a + b)
}

/// Difference, modulo `2^64`.
pub open spec fn spec_sub64(a: u64, b: u64) -> u64 {
    wrap64(a - b)
}

/// Left shift by the low 6 bits of `amount`; bits shifted out at the top are lost.
pub open spec fn spec_sll64(a: u64, amount: u64) -> u64 {
    wrap64(a * pow2((amount % 64) as nat))
}

/// Logical right shift by the low 6 bits of `amount`: zeros come in at the top.
pub open spec fn spec_srl64(a: u64, amount: u64) -> u64 {
    (a as nat / pow2((amount % 64) as nat)) as u64
}

/// Arithmetic right shift by the low 6 bits of `amount`: the signed value is
/// divided, rounding down, so copies of the sign bit come in at the top.
pub open spec fn spec_sra64(a: u64, amount: u64) -> u64 {
    wrap64(signed64(a) / (pow2((amount % 64) as nat) as int))
}

/// 1 if `a` is less than `b`, both read as signed, else 0.
pub open spec fn spec_slt64(a: u64, b: u64) -> u64 {
    if signed64(a) < signed64(b) {
        1
    } else {
        0
    }
}

/// 1 if `a` is less than `b`, both read as unsigned, else 0.
pub open spec fn spec_sltu64(a: u64, b: u64) -> u64 {
    if a < b {
        1
    } else {
        0
    }
}

/// Sum of the low 32 bits, modulo `2^32`, sign-extended.
pub open spec fn spec_addw(a: u64, b: u64) -> u64 {
    sign_extend((a + b) % 0x1_0000_0000, 0x1_0000_0000)
}

/// Difference of the low 32 bits, modulo `2^32`, sign-extended.
pub open spec fn spec_subw(a: u64, b: u64) -> u64 {
    sign_extend((a - b) % 0x1_0000_0000, 0x1_0000_0000)
}

/// Left shift of the low 32 bits by the low 5 bits of `amount`, modulo `2^32`,
/// sign-extended.
pub open spec fn spec_sllw(a: u64, amount: u64) -> u64 {
    sign_extend((a * pow2((amount % 32) as nat)) % 0x1_0000_0000, 0x1_0000_0000)
}

/// Logical right shift of the low 32 bits by the low 5 bits of `amount`,
/// sign-extended.
pub open spec fn spec_srlw(a: u64, amount: u64) -> u64 {
    sign_extend(low32(a) / (pow2((amount % 32) as nat) as int), 0x1_0000_0000)
}

/// Arithmetic right shift of the low 32 bits, read as signed, by the low 5
/// bits of `amount`, sign-extended.
pub open spec fn spec_sraw(a: u64, amount: u64) -> u64 {
    wrap64(as_signed(low32(a), 0x1_0000_0000) / (pow2((amount % 32) as nat) as int))
}

/// Addition and subtraction are defined for all operands and wrap modulo
/// `2^64`. They are two's-complement operations: read as signed, the result
/// differs from the signed sum or difference by a multiple of `2^64`, and it
/// is that sum or difference wherever it fits in 64 bits.
pub proof fn lemma_add_sub_wrap(a: u64, b: u64)
    ensures
        spec_add64(a, b) == (a + b) % 0x1_0000_0000_0000_0000,
        spec_sub64(a, b) == (a - b) % 0x1_0000_0000_0000_0000,
        a + b <= u64::MAX ==> spec_add64(a, b) == a + b,
        a >= b ==> spec_sub64(a, b) == a - b,
        (signed64(spec_add64(a, b)) - (signed64(a) + signed64(b))) % 0x1_0000_0000_0000_0000 == 0,
        (signed64(spec_sub64(a, b)) - (signed64(a) - signed64(b))) % 0x1_0000_0000_0000_0000 == 0,
        i64::MIN <= signed64(a) + signed64(b) <= i64::MAX ==> signed64(spec_add64(a, b))
            == signed64(a) + signed64(b),
        i64::MIN <= signed64(a) - signed64(b) <= i64::MAX ==> signed64(spec_sub64(a, b))
            == signed64(a) - signed64(b),
        spec_sub64(spec_add64(a, b), b) == a,
{
}

/// A 64-bit shift uses the low 6 bits of its amount and no others.
pub proof fn lemma_shift_amount(a: u64, amount: u64, other: u64)
    requires
        amount % 64 == other % 64,
    ensures
        spec_sll64(a, amount) == spec_sll64(a, other),
        spec_srl64(a, amount) == spec_srl64(a, other),
        spec_sra64(a, amount) == spec_sra64(a, other),
{
}

/// A 32-bit shift uses the low 5 bits of its amount and no others.
pub proof fn lemma_word_shift_amount(a: u64, amount: u64, other: u64)
    requires
        amount % 32 == other % 32,
    ensures
        spec_sllw(a, amount) == spec_sllw(a, other),
        spec_srlw(a, amount) == spec_srlw(a, other),
        spec_sraw(a, amount) == spec_sraw(a, other),
{
}

/// A word operation reads the low 32 bits of its operands and no others, and
/// its result is a sign-extended 32-bit value.
pub proof fn lemma_word_results(a: u64, b: u64, c: u64, d: u64)
    requires
        low32(a) == low32(c),
        low32(b) == low32(d),
    ensures
        spec_addw(a, b) == spec_addw(c, d) == spec_sext32(spec_add64(a, b)),
        spec_subw(a, b) == spec_subw(c, d) == spec_sext32(spec_sub64(a, b)),
        spec_sllw(a, b) == spec_sllw(c, b) == spec_sext32(spec_sll64(a, (b % 32) as u64)),
        spec_srlw(a, b) == spec_srlw(c, b),
        spec_sraw(a, b) == spec_sraw(c, b) == spec_sra64(spec_sext32(a), (b % 32) as u64),
        spec_sext32(a) == spec_sext32(c),
        spec_sext32(spec_sext32(a)) == spec_sext32(a),
        -0x8000_0000 <= signed64(spec_sext32(a)) < 0x8000_0000,
{
    let m = 0x1_0000_0000int;
    let p = pow2((b % 32) as nat) as int;
    lemma_mod_mod(a + b, m, m);
    lemma_mod_mod(a - b, m, m);
    lemma_mod_mod(a * p, m, m);
    lemma_sext32_signed(a);
    vstd::arithmetic::div_mod::lemma_mul_mod_noop_left(a as int, p, m);
    vstd::arithmetic::div_mod::lemma_mul_mod_noop_left(c as int, p, m);
    vstd::arithmetic::div_mod::lemma_add_mod_noop(a as int, b as int, m);
    vstd::arithmetic::div_mod::lemma_add_mod_noop(c as int, d as int, m);
    vstd::arithmetic::div_mod::lemma_sub_mod_noop(a as int, b as int, m);
    vstd::arithmetic::div_mod::lemma_sub_mod_noop(c as int, d as int, m);
}

/// Each operation is the bit operation that computes it: reading as signed
/// and sign extension are casts, and the three shifts are the shifts of the
/// unsigned and of the signed value.
pub proof fn lemma_bit_level(a: u64, amount: u64)
    ensures
        signed64(a) == (a as i64) as int,
        spec_sext8(a) == a as u8 as i8 as i64 as u64,
        spec_sext16(a) == a as u16 as i16 as i64 as u64,
        spec_sext32(a) == a as u32 as i32 as i64 as u64,
        spec_sll64(a, amount) == a << (amount % 64),
        spec_srl64(a, amount) == a >> (amount % 64),
        spec_sra64(a, amount) == ((a as i64) >> (amount % 64)) as u64,
{
    let sh: u64 = amount % 64;
    lemma_casts(a);
    assert(a as u8 as i8 as i64 as u64 == spec_sext8(a)) by (bit_vector);
    assert(a as u16 as i16 as i64 as u64 == spec_sext16(a)) by (bit_vector);
    lemma_shifts(a, sh);
    lemma_one_shl(sh);
    lemma_u64_shr_is_div(a, sh);
    lemma_sra(a, sh);
}

proof fn lemma_casts(a: u64)
    by (bit_vector)
    ensures
        (a as i64) as int == signed64(a),
        (a as u32 as i32 as i64 as u64) == spec_sext32(a),
        !a == 0xffff_ffff_ffff_ffff - a,
{
}

proof fn lemma_shifts(a: u64, sh: u64)
    by (bit_vector)
    requires
        sh < 64,
    ensures
        a << sh == wrap64(a * (1u64 << sh)),
        ((a as i64) >> sh) as u64 == if a < 0x8000_0000_0000_0000 {
            a >> sh
        } else {
            !((!a) >> sh)
        },
{
}

/// `2^sh` for a shift amount below 64, as the shift of one.
proof fn lemma_one_shl(sh: u64)
    requires
        sh < 64,
    ensures
        1u64 << sh == pow2(sh as nat),
        0 < pow2(sh as nat) <= 0x8000_0000_0000_0000,
{
    lemma_u64_pow2_no_overflow(sh as nat);
    lemma_u64_shl_is_mul(1, sh);
    lemma2_to64();
    lemma2_to64_rest();
    if sh < 63 {
        lemma_pow2_strictly_increases(sh as nat, 63);
    }
}

/// The arithmetic right shift of the signed value is its division by a power
/// of two, rounded down.
proof fn lemma_sra(a: u64, sh: u64)
    requires
        sh < 64,
    ensures
        ((a as i64) >> sh) as u64 == wrap64(signed64(a) / (pow2(sh as nat) as int)),
{
    let d = pow2(sh as nat) as int;
    lemma_shifts(a, sh);
    lemma_one_shl(sh);
    if a < 0x8000_0000_0000_0000 {
        lemma_u64_shr_is_div(a, sh);
        lemma_div_nonincreasing(a as int, d);
        lemma_div_pos_is_pos(a as int, d);
    } else {
        let y: u64 = !a;
        lemma_casts(a);
        let q: u64 = y >> sh;
        lemma_casts(q);
        lemma_u64_shr_is_div(y, sh);
        lemma_fundamental_div_mod(y as int, d);
        let rem = y as int % d;
        assert(y == d * q + rem);
        assert(signed64(a) == (-(q + 1)) * d + (d - 1 - rem)) by (nonlinear_arith)
            requires
                signed64(a) == -(y + 1),
                y == d * q + rem,
        ;
        lemma_fundamental_div_mod_converse(signed64(a), d, -(q + 1), d - 1 - rem);
    }
}

/// The integer that a sign-extended 32-bit value stands for is the one that
/// its low 32 bits stand for.
proof fn lemma_sext32_signed(a: u64)
    ensures
        signed64(spec_sext32(a)) == as_signed(low32(a), 0x1_0000_0000),
        low32(spec_sext32(a)) == low32(a),
{
}

pub fn add64(a: u64, b: u64) -> (r: u64)
    ensures
        r == spec_add64(a, b),
{
    a.wrapping_add(b)
}

pub fn sub64(a: u64, b: u64) -> (r: u64)
    ensures
        r == spec_sub64(a, b),
{
    a.wrapping_sub(b)
}

pub fn sll64(a: u64, amount: u64) -> (r: u64)
    ensures
        r == spec_sll64(a, amount),
{
    proof {
        lemma_bit_level(a, amount);
    }
    a << (amount % 64)
}

pub fn srl64(a: u64, amount: u64) -> (r: u64)
    ensures
        r == spec_srl64(a, amount),
{
    proof {
        lemma_bit_level(a, amount);
    }
    a >> (amount % 64)
}

pub fn sra64(a: u64, amount: u64) -> (r: u64)
    ensures
        r == spec_sra64(a, amount),
{
    proof {
        lemma_bit_level(a, amount);
    }
    ((a as i64) >> (amount % 64)) as u64
}

pub fn slt64(a: u64, b: u64) -> (r: u64)
    ensures
        r == spec_slt64(a, b),
{
    proof {
        lemma_bit_level(a, 0);
        lemma_bit_level(b, 0);
    }
    if (a as i64) < (b as i64) {
        1
    } else {
        0
    }
}

pub fn sltu64(a: u64, b: u64) -> (r: u64)
    ensures
        r == spec_sltu64(a, b),
{
    if a < b {
        1
    } else {
        0
    }
}

/// Sign-extends the low 8 bits of `a`.
pub fn sext8(a: u64) -> (r: u64)
    ensures
        r == spec_sext8(a),
{
    proof {
        lemma_bit_level(a, 0);
    }
    a as u8 as i8 as i64 as u64
}

/// Sign-extends the low 16 bits of `a`.
pub fn sext16(a: u64) -> (r: u64)
    ensures
        r == spec_sext16(a),
{
    proof {
        lemma_bit_level(a, 0);
    }
    a as u16 as i16 as i64 as u64
}

/// Sign-extends the low 32 bits of `a`.
pub fn sext32(a: u64) -> (r: u64)
    ensures
        r == spec_sext32(a),
{
    proof {
        lemma_bit_level(a, 0);
    }
    a as u32 as i32 as i64 as u64
}

pub fn addw(a: u64, b: u64) -> (r: u64)
    ensures
        r == spec_addw(a, b),
{
    sext32(a.wrapping_add(b))
}

pub fn subw(a: u64, b: u64) -> (r: u64)
    ensures
        r == spec_subw(a, b),
{
    sext32(a.wrapping_sub(b))
}

pub fn sllw(a: u64, amount: u64) -> (r: u64)
    ensures
        r == spec_sllw(a, amount),
{
    proof {
        lemma_mod_mod(a * pow2((amount % 32) as nat), 0x1_0000_0000, 0x1_0000_0000);
    }
    sext32(sll64(a, amount % 32))
}

pub fn srlw(a: u64, amount: u64) -> (r: u64)
    ensures
        r == spec_srlw(a, amount),
{
    let sh: u64 = amount % 32;
    let low: u64 = a % 0x1_0000_0000;
    proof {
        lemma_one_shl(sh);
        lemma_div_nonincreasing(low as int, pow2(sh as nat) as int);
        lemma_div_pos_is_pos(low as int, pow2(sh as nat) as int);
    }
    sext32(srl64(low, sh))
}

pub fn sraw(a: u64, amount: u64) -> (r: u64)
    ensures
        r == spec_sraw(a, amount),
{
    proof {
        lemma_sext32_signed(a);
    }
    sra64(sext32(a), amount % 32)
}

} // verus!
