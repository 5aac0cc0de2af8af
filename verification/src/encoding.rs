//! The six base encoding formats written the other way round: from fields to
//! the 32-bit word that holds them.
//!
//! The spec functions `r_word` to `j_word` are the ISA's format diagrams.
//! The executable encoders assemble the same words, and the laws at the end
//! of the file state that the accessors of the carriers read back exactly
//! what a word was assembled from.

use vstd::prelude::*;
use crate::instruction::{
    funct3_field, funct7_field, opcode_field, BType, IType, JType, RType, SType, UType,
};

verus! {

/// The two's complement pattern of `v` in a field of modulus `modulus`:
/// `v` itself where it is not negative, `v + modulus` where it is.
pub open spec fn twos_complement(v: int, modulus: int) -> u32 {
    (if v < 0 {
        v + modulus
    } else {
        v
    }) as u32
}

/// The R-type word: funct7 in bits 31:25, rs2 in 24:20, rs1 in 19:15, funct3
/// in 14:12, rd in 11:7 and the opcode in 6:0.
pub open spec fn r_word(opcode: u32, rd: u32, funct3: u32, rs1: u32, rs2: u32, funct7: u32) -> u32 {
    (funct7 << 25) | (rs2 << 20) | (rs1 << 15) | (funct3 << 12) | (rd << 7) | opcode
}

/// The I-type word: imm[11:0] in bits 31:20, rs1 in 19:15, funct3 in 14:12,
/// rd in 11:7 and the opcode in 6:0.
pub open spec fn i_word(opcode: u32, rd: u32, funct3: u32, rs1: u32, imm: int) -> u32 {
    (twos_complement(imm, 0x1000) << 20) | (rs1 << 15) | (funct3 << 12) | (rd << 7) | opcode
}

/// The S-type word: imm[11:5] in bits 31:25, rs2 in 24:20, rs1 in 19:15,
/// funct3 in 14:12, imm[4:0] in 11:7 and the opcode in 6:0.
pub open spec fn s_word(opcode: u32, funct3: u32, rs1: u32, rs2: u32, imm: int) -> u32 {
    let u = twos_complement(imm, 0x1000);
    (((u >> 5) & 0x7f) << 25) | (rs2 << 20) | (rs1 << 15) | (funct3 << 12) | ((u & 0x1f) << 7)
        | opcode
}

/// The B-type word: imm[12] in bit 31, imm[10:5] in bits 30:25, rs2 in
/// 24:20, rs1 in 19:15, funct3 in 14:12, imm[4:1] in 11:8, imm[11] in bit 7
/// and the opcode in 6:0.
pub open spec fn b_word(opcode: u32, funct3: u32, rs1: u32, rs2: u32, imm: int) -> u32 {
    let u = twos_complement(imm, 0x2000);
    (((u >> 12) & 1) << 31) | (((u >> 5) & 0x3f) << 25) | (rs2 << 20) | (rs1 << 15) | (funct3
        << 12) | (((u >> 1) & 0xf) << 8) | (((u >> 11) & 1) << 7) | opcode
}

/// The U-type word: imm[31:12] in bits 31:12, rd in 11:7 and the opcode in
/// 6:0. The immediate is the unsigned value of the upper twenty bits in
/// place.
pub open spec fn u_word(opcode: u32, rd: u32, imm: int) -> u32 {
    (imm as u32) | (rd << 7) | opcode
}

/// The J-type word: imm[20] in bit 31, imm[10:1] in bits 30:21, imm[11] in
/// bit 20, imm[19:12] in bits 19:12, rd in 11:7 and the opcode in 6:0.
pub open spec fn j_word(opcode: u32, rd: u32, imm: int) -> u32 {
    let u = twos_complement(imm, 0x200000);
    (((u >> 20) & 1) << 31) | (((u >> 1) & 0x3ff) << 21) | (((u >> 11) & 1) << 20) | (((u >> 12)
        & 0xff) << 12) | (rd << 7) | opcode
}

/// Assembles an R-type word.
pub fn encode_r(opcode: u32, rd: u32, funct3: u32, rs1: u32, rs2: u32, funct7: u32) -> (w: u32)
    requires
        opcode < 128,
        rd < 32,
        funct3 < 8,
        rs1 < 32,
        rs2 < 32,
        funct7 < 128,
    ensures
        w == r_word(opcode, rd, funct3, rs1, rs2, funct7),
{
    (funct7 << 25) | (rs2 << 20) | (rs1 << 15) | (funct3 << 12) | (rd << 7) | opcode
}

/// Assembles an I-type word.
pub fn encode_i(opcode: u32, rd: u32, funct3: u32, rs1: u32, imm: i32) -> (w: u32)
    requires
        opcode < 128,
        rd < 32,
        funct3 < 8,
        rs1 < 32,
        -2048 <= imm < 2048,
    ensures
        w == i_word(opcode, rd, funct3, rs1, imm as int),
{
    let u: u32 = if imm < 0 {
        (imm + 0x1000) as u32
    } else {
        imm as u32
    };
    (u << 20) | (rs1 << 15) | (funct3 << 12) | (rd << 7) | opcode
}

/// Assembles an S-type word.
pub fn encode_s(opcode: u32, funct3: u32, rs1: u32, rs2: u32, imm: i32) -> (w: u32)
    requires
        opcode < 128,
        funct3 < 8,
        rs1 < 32,
        rs2 < 32,
        -2048 <= imm < 2048,
    ensures
        w == s_word(opcode, funct3, rs1, rs2, imm as int),
{
    let u: u32 = if imm < 0 {
        (imm + 0x1000) as u32
    } else {
        imm as u32
    };
    let imm11_5: u32 = (u >> 5) & 0x7f;
    let imm4_0: u32 = u & 0x1f;
    (imm11_5 << 25) | (rs2 << 20) | (rs1 << 15) | (funct3 << 12) | (imm4_0 << 7) | opcode
}

/// Assembles a B-type word.
pub fn encode_b(opcode: u32, funct3: u32, rs1: u32, rs2: u32, imm: i32) -> (w: u32)
    requires
        opcode < 128,
        funct3 < 8,
        rs1 < 32,
        rs2 < 32,
        -4096 <= imm < 4096,
        imm % 2 == 0,
    ensures
        w == b_word(opcode, funct3, rs1, rs2, imm as int),
{
    let u: u32 = if imm < 0 {
        (imm + 0x2000) as u32
    } else {
        imm as u32
    };
    let imm2: u32 = ((u >> 6) & 0x40) | ((u >> 5) & 0x3f);
    let imm1: u32 = (u & 0x1e) | ((u >> 11) & 0x1);
    assert((imm2 << 25) | (rs2 << 20) | (rs1 << 15) | (funct3 << 12) | (imm1 << 7) | opcode == (((u
        >> 12) & 1) << 31) | (((u >> 5) & 0x3f) << 25) | (rs2 << 20) | (rs1 << 15) | (funct3 << 12)
        | (((u >> 1) & 0xf) << 8) | (((u >> 11) & 1) << 7) | opcode) by (bit_vector)
        requires
            imm2 == ((u >> 6) & 0x40) | ((u >> 5) & 0x3f),
            imm1 == (u & 0x1e) | ((u >> 11) & 0x1),
            u < 0x2000,
    ;
    (imm2 << 25) | (rs2 << 20) | (rs1 << 15) | (funct3 << 12) | (imm1 << 7) | opcode
}

/// Assembles a U-type word from an immediate that is a multiple of 4096.
pub fn encode_u(opcode: u32, rd: u32, imm: u32) -> (w: u32)
    requires
        opcode < 128,
        rd < 32,
        imm % 4096 == 0,
    ensures
        w == u_word(opcode, rd, imm as int),
{
    imm | (rd << 7) | opcode
}

/// Assembles a J-type word.
pub fn encode_j(opcode: u32, rd: u32, imm: i32) -> (w: u32)
    requires
        opcode < 128,
        rd < 32,
        -0x100000 <= imm < 0x100000,
        imm % 2 == 0,
    ensures
        w == j_word(opcode, rd, imm as int),
{
    let u: u32 = if imm < 0 {
        (imm + 0x200000) as u32
    } else {
        imm as u32
    };
    let field: u32 = ((u >> 1) & 0x80000) | ((u << 8) & 0x7fe00) | ((u >> 3) & 0x100) | ((u >> 12)
        & 0xff);
    assert((field << 12) | (rd << 7) | opcode == (((u >> 20) & 1) << 31) | (((u >> 1) & 0x3ff)
        << 21) | (((u >> 11) & 1) << 20) | (((u >> 12) & 0xff) << 12) | (rd << 7) | opcode)
        by (bit_vector)
        requires
            field == ((u >> 1) & 0x80000) | ((u << 8) & 0x7fe00) | ((u >> 3) & 0x100) | ((u >> 12)
                & 0xff),
            u < 0x200000,
    ;
    (field << 12) | (rd << 7) | opcode
}

/// An R-type word holds the fields it was assembled from: the accessors of
/// its carrier return the three registers, and the opcode and function
/// fields read back unchanged.
pub proof fn lemma_r_word_fields(opcode: u32, rd: u32, funct3: u32, rs1: u32, rs2: u32, funct7: u32)
    requires
        opcode < 128,
        rd < 32,
        funct3 < 8,
        rs1 < 32,
        rs2 < 32,
        funct7 < 128,
    ensures
        ({
            let w = r_word(opcode, rd, funct3, rs1, rs2, funct7);
            &&& opcode_field(w) == opcode
            &&& funct3_field(w) == funct3
            &&& funct7_field(w) == funct7
            &&& RType(w).rd() == rd
            &&& RType(w).rs1() == rs1
            &&& RType(w).rs2() == rs2
        }),
{
    let w = r_word(opcode, rd, funct3, rs1, rs2, funct7);
    assert(w & 0x7f == opcode && (w >> 7) & 0x1f == rd && (w >> 12) & 0x7 == funct3 && (w >> 15)
        & 0x1f == rs1 && (w >> 20) & 0x1f == rs2 && (w >> 25) & 0x7f == funct7) by (bit_vector)
        requires
            w == (funct7 << 25) | (rs2 << 20) | (rs1 << 15) | (funct3 << 12) | (rd << 7) | opcode,
            opcode < 128,
            rd < 32,
            funct3 < 8,
            rs1 < 32,
            rs2 < 32,
            funct7 < 128,
    ;
}

/// An I-type word holds the fields it was assembled from: the accessors of
/// its carrier return the two registers and the immediate with its sign, and
/// the opcode and funct3 read back unchanged.
pub proof fn lemma_i_word_fields(opcode: u32, rd: u32, funct3: u32, rs1: u32, imm: int)
    requires
        opcode < 128,
        rd < 32,
        funct3 < 8,
        rs1 < 32,
        -2048 <= imm < 2048,
    ensures
        ({
            let w = i_word(opcode, rd, funct3, rs1, imm);
            &&& opcode_field(w) == opcode
            &&& funct3_field(w) == funct3
            &&& IType(w).rd() == rd
            &&& IType(w).rs1() == rs1
            &&& IType(w).imm() == imm
        }),
{
    let u = twos_complement(imm, 0x1000);
    let w = i_word(opcode, rd, funct3, rs1, imm);
    assert(w & 0x7f == opcode && (w >> 7) & 0x1f == rd && (w >> 12) & 0x7 == funct3 && (w >> 15)
        & 0x1f == rs1 && (w >> 20) & 0xfff == u) by (bit_vector)
        requires
            w == (u << 20) | (rs1 << 15) | (funct3 << 12) | (rd << 7) | opcode,
            opcode < 128,
            rd < 32,
            funct3 < 8,
            rs1 < 32,
            u < 0x1000,
    ;
}

/// An S-type word holds the fields it was assembled from: the accessors of
/// its carrier return the two registers and the immediate with its sign, and
/// the opcode and funct3 read back unchanged.
pub proof fn lemma_s_word_fields(opcode: u32, funct3: u32, rs1: u32, rs2: u32, imm: int)
    requires
        opcode < 128,
        funct3 < 8,
        rs1 < 32,
        rs2 < 32,
        -2048 <= imm < 2048,
    ensures
        ({
            let w = s_word(opcode, funct3, rs1, rs2, imm);
            &&& opcode_field(w) == opcode
            &&& funct3_field(w) == funct3
            &&& SType(w).rs1() == rs1
            &&& SType(w).rs2() == rs2
            &&& SType(w).imm() == imm
        }),
{
    let u = twos_complement(imm, 0x1000);
    let w = s_word(opcode, funct3, rs1, rs2, imm);
    assert(w & 0x7f == opcode && (w >> 12) & 0x7 == funct3 && (w >> 15) & 0x1f == rs1 && (w
        >> 20) & 0x1f == rs2 && ((w >> 25) & 0x7f) * 32 + ((w >> 7) & 0x1f) == u) by (bit_vector)
        requires
            w == (((u >> 5) & 0x7f) << 25) | (rs2 << 20) | (rs1 << 15) | (funct3 << 12) | ((u
                & 0x1f) << 7) | opcode,
            opcode < 128,
            funct3 < 8,
            rs1 < 32,
            rs2 < 32,
            u < 0x1000,
    ;
}

/// A B-type word holds the fields it was assembled from. Every even offset
/// from -4096 to 4094, the two ends included, comes back from the carrier
/// with its sign and every bit in place.
pub proof fn lemma_b_word_fields(opcode: u32, funct3: u32, rs1: u32, rs2: u32, imm: int)
    requires
        opcode < 128,
        funct3 < 8,
        rs1 < 32,
        rs2 < 32,
        -4096 <= imm < 4096,
        imm % 2 == 0,
    ensures
        ({
            let w = b_word(opcode, funct3, rs1, rs2, imm);
            &&& opcode_field(w) == opcode
            &&& funct3_field(w) == funct3
            &&& BType(w).rs1() == rs1
            &&& BType(w).rs2() == rs2
            &&& BType(w).imm() == imm
        }),
{
    let u = twos_complement(imm, 0x2000);
    let w = b_word(opcode, funct3, rs1, rs2, imm);
    assert(w & 0x7f == opcode && (w >> 12) & 0x7 == funct3 && (w >> 15) & 0x1f == rs1 && (w
        >> 20) & 0x1f == rs2 && ((w >> 31) & 1) * 4096 + ((w >> 7) & 1) * 2048 + ((w >> 25) & 0x3f)
        * 32 + ((w >> 8) & 0xf) * 2 == u) by (bit_vector)
        requires
            w == (((u >> 12) & 1) << 31) | (((u >> 5) & 0x3f) << 25) | (rs2 << 20) | (rs1 << 15)
                | (funct3 << 12) | (((u >> 1) & 0xf) << 8) | (((u >> 11) & 1) << 7) | opcode,
            opcode < 128,
            funct3 < 8,
            rs1 < 32,
            rs2 < 32,
            u < 0x2000,
            u % 2 == 0,
    ;
}

/// A U-type word holds the fields it was assembled from: the carrier returns
/// the register and the immediate, unsigned.
pub proof fn lemma_u_word_fields(opcode: u32, rd: u32, imm: int)
    requires
        opcode < 128,
        rd < 32,
        0 <= imm < 0x1_0000_0000,
        imm % 4096 == 0,
    ensures
        ({
            let w = u_word(opcode, rd, imm);
            &&& opcode_field(w) == opcode
            &&& UType(w).rd() == rd
            &&& UType(w).imm() == imm
        }),
{
    let u = imm as u32;
    let w = u_word(opcode, rd, imm);
    assert(w & 0x7f == opcode && (w >> 7) & 0x1f == rd && ((w >> 12) & 0xfffff) * 4096 == u)
        by (bit_vector)
        requires
            w == u | (rd << 7) | opcode,
            opcode < 128,
            rd < 32,
            u % 4096 == 0,
    ;
}

/// A J-type word holds the fields it was assembled from. Every even offset
/// from -1048576 to 1048574, the two ends included, comes back from the
/// carrier with its sign and every bit in place.
pub proof fn lemma_j_word_fields(opcode: u32, rd: u32, imm: int)
    requires
        opcode < 128,
        rd < 32,
        -0x100000 <= imm < 0x100000,
        imm % 2 == 0,
    ensures
        ({
            let w = j_word(opcode, rd, imm);
            &&& opcode_field(w) == opcode
            &&& JType(w).rd() == rd
            &&& JType(w).imm() == imm
        }),
{
    let u = twos_complement(imm, 0x200000);
    let w = j_word(opcode, rd, imm);
    assert(w & 0x7f == opcode && (w >> 7) & 0x1f == rd && ((w >> 31) & 1) * 0x100000 + ((w >> 12)
        & 0xff) * 4096 + ((w >> 20) & 1) * 2048 + ((w >> 21) & 0x3ff) * 2 == u) by (bit_vector)
        requires
            w == (((u >> 20) & 1) << 31) | (((u >> 1) & 0x3ff) << 21) | (((u >> 11) & 1) << 20) | (((u
                >> 12) & 0xff) << 12) | (rd << 7) | opcode,
            opcode < 128,
            rd < 32,
            u < 0x200000,
            u % 2 == 0,
    ;
}

} // verus!
