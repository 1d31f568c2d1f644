//! The fields of a 32-bit instruction word.
//!
//! Each field is stated as a number: a slice of the word is a quotient and a
//! remainder by powers of two, and an immediate is the two's-complement value
//! of the bits that the encoding scatters over the word, sign-extended to 64
//! bits. `lemma_field_bits` gives the same fields as shifts and masks.

use crate::cpu::alu::{as_signed, sign_extend, signed64};
use vstd::prelude::*;

verus! {

/// Bits 6..0: the major opcode.
pub open spec fn opcode(instr: u32) -> u32 {
    instr % 0x80
}

/// Bits 11..7: the index of the destination register.
pub open spec fn rd(instr: u32) -> u32 {
    (instr / 0x80) % 0x20
}

/// Bits 14..12.
pub open spec fn funct3(instr: u32) -> u32 {
    (instr / 0x1000) % 8
}

/// Bits 19..15: the index of the first source register, or a 5-bit unsigned
/// immediate.
pub open spec fn rs1(instr: u32) -> u32 {
    (instr / 0x8000) % 0x20
}

/// Bits 24..20: the index of the second source register, or the shift amount
/// of a 32-bit shift.
pub open spec fn rs2(instr: u32) -> u32 {
    (instr / 0x10_0000) % 0x20
}

/// Bits 25..20: the shift amount of a 64-bit shift.
pub open spec fn shamt(instr: u32) -> u32 {
    (instr / 0x10_0000) % 0x40
}

/// Bits 31..25.
pub open spec fn funct7(instr: u32) -> u32 {
    instr / 0x200_0000
}

/// Bits 31..26: what is left of `funct7` above a 6-bit shift amount.
pub open spec fn funct6(instr: u32) -> u32 {
    instr / 0x400_0000
}

/// Bits 31..20: the address of a control and status register.
pub open spec fn csr_addr(instr: u32) -> u32 {
    instr / 0x10_0000
}

/// The 12 bits of an I-type immediate: bits 31..20.
pub open spec fn imm_i_field(instr: u32) -> int {
    instr as int / 0x10_0000
}

/// The 12 bits of an S-type immediate: bits 31..25, then bits 11..7.
pub open spec fn imm_s_field(instr: u32) -> int {
    funct7(instr) * 0x20 + rd(instr)
}

/// The 13 bits of a B-type immediate: bit 31, bit 7, bits 30..25, bits 11..8
/// and a zero.
pub open spec fn imm_b_field(instr: u32) -> int {
    (instr / 0x8000_0000) * 0x1000 + ((instr / 0x80) % 2) * 0x800 + ((instr / 0x200_0000) % 0x40)
        * 0x20 + ((instr / 0x100) % 0x10) * 2
}

/// The 32 bits of a U-type immediate: bits 31..12 and twelve zeros.
pub open spec fn imm_u_field(instr: u32) -> int {
    (instr / 0x1000) * 0x1000
}

/// The 21 bits of a J-type immediate: bit 31, bits 19..12, bit 20, bits 30..21
/// and a zero.
pub open spec fn imm_j_field(instr: u32) -> int {
    (instr / 0x8000_0000) * 0x10_0000 + ((instr / 0x1000) % 0x100) * 0x1000 + ((instr
        / 0x10_0000) % 2) * 0x800 + ((instr / 0x20_0000) % 0x400) * 2
}

/// The I-type immediate, sign-extended from bit 11.
pub open spec fn imm_i(instr: u32) -> u64 {
    sign_extend(imm_i_field(instr), 0x1000)
}

/// The S-type immediate, sign-extended from bit 11.
pub open spec fn imm_s(instr: u32) -> u64 {
    sign_extend(imm_s_field(instr), 0x1000)
}

/// The B-type immediate, sign-extended from bit 12.
pub open spec fn imm_b(instr: u32) -> u64 {
    sign_extend(imm_b_field(instr), 0x2000)
}

/// The U-type immediate, sign-extended from bit 31.
pub open spec fn imm_u(instr: u32) -> u64 {
    sign_extend(imm_u_field(instr), 0x1_0000_0000)
}

/// The J-type immediate, sign-extended from bit 20.
pub open spec fn imm_j(instr: u32) -> u64 {
    sign_extend(imm_j_field(instr), 0x20_0000)
}

/// Every field is the slice of the word that shifts and masks cut out.
pub proof fn lemma_field_bits(instr: u32)
    by (bit_vector)
    ensures
        instr & 0x7f == opcode(instr),
        (instr >> 7) & 0x1f == rd(instr),
        (instr >> 12) & 0x07 == funct3(instr),
        (instr >> 15) & 0x1f == rs1(instr),
        (instr >> 20) & 0x1f == rs2(instr),
        (instr >> 20) & 0x3f == shamt(instr),
        (instr >> 25) & 0x7f == funct7(instr),
        (instr >> 26) & 0x3f == funct6(instr),
        (instr >> 20) & 0xfff == csr_addr(instr),
{
}

/// Every immediate is its bits, gathered by shifts and masks and sign-extended
/// by an arithmetic right shift.
pub proof fn lemma_immediate_bits(instr: u32)
    ensures
        ((instr as i32) >> 20) as i64 as u64 == imm_i(instr),
        ((((instr & 0xfe00_0000) as i32) >> 20) as i64 as u64) | (((instr >> 7) & 0x1f) as u64)
            == imm_s(instr),
        ((((((instr & 0x8000_0000) >> 19) | ((instr & 0x80) << 4) | ((instr >> 20) & 0x7e0) | ((
        instr >> 7) & 0x1e)) << 19) as i32) >> 19) as i64 as u64 == imm_b(instr),
        (instr & 0xffff_f000) as i32 as i64 as u64 == imm_u(instr),
        ((((((instr & 0x8000_0000) >> 11) | (instr & 0xf_f000) | ((instr >> 9) & 0x800) | ((instr
            >> 20) & 0x7fe)) << 11) as i32) >> 11) as i64 as u64 == imm_j(instr),
{
    assert(((instr as i32) >> 20) as i64 as u64 == imm_i(instr)) by (bit_vector);
    assert(((((instr & 0xfe00_0000) as i32) >> 20) as i64 as u64) | (((instr >> 7) & 0x1f) as u64)
        == imm_s(instr)) by (bit_vector);
    assert(((((((instr & 0x8000_0000) >> 19) | ((instr & 0x80) << 4) | ((instr >> 20) & 0x7e0) | ((
    instr >> 7) & 0x1e)) << 19) as i32) >> 19) as i64 as u64 == imm_b(instr)) by (bit_vector);
    assert((instr & 0xffff_f000) as i32 as i64 as u64 == imm_u(instr)) by (bit_vector);
    assert(((((((instr & 0x8000_0000) >> 11) | (instr & 0xf_f000) | ((instr >> 9) & 0x800) | ((instr
        >> 20) & 0x7fe)) << 11) as i32) >> 11) as i64 as u64 == imm_j(instr)) by (bit_vector);
}

/// An immediate, read as a signed register value, is the two's-complement
/// value of its field: sign extension has been applied, once, by the time the
/// immediate is handed out.
pub proof fn lemma_immediates_are_sign_extended(instr: u32)
    ensures
        signed64(imm_i(instr)) == as_signed(imm_i_field(instr), 0x1000),
        signed64(imm_s(instr)) == as_signed(imm_s_field(instr), 0x1000),
        signed64(imm_b(instr)) == as_signed(imm_b_field(instr), 0x2000),
        signed64(imm_u(instr)) == as_signed(imm_u_field(instr), 0x1_0000_0000),
        signed64(imm_j(instr)) == as_signed(imm_j_field(instr), 0x20_0000),
        -0x800 <= signed64(imm_i(instr)) < 0x800,
        -0x800 <= signed64(imm_s(instr)) < 0x800,
        -0x1000 <= signed64(imm_b(instr)) < 0x1000 && signed64(imm_b(instr)) % 2 == 0,
        -0x8000_0000 <= signed64(imm_u(instr)) < 0x8000_0000 && signed64(imm_u(instr)) % 0x1000
            == 0,
        -0x10_0000 <= signed64(imm_j(instr)) < 0x10_0000 && signed64(imm_j(instr)) % 2 == 0,
{
}

} // verus!
