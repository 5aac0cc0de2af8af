//! Decoder for RV64 instruction words: the base integer instructions with
//! the M, Zicsr and C extensions.

use vstd::prelude::*;

pub mod compressed;
pub mod csr_address;
pub mod encoding;
pub mod expanded;
pub mod instruction;
pub mod py_wrapper;

use crate::compressed::{
    decode_q00, decode_q01, decode_q10, spec_decode_q00, spec_decode_q01, spec_decode_q10,
};
use crate::instruction::{
    funct3_field, funct6_field, funct7_field, opcode_field, rd_field, BType, CsrIType, CsrType,
    FenceType, IType, Instruction, JType, RType, SType, ShiftType, UType,
};

verus! {

/// Why a word could not be decoded into an instruction.
#[derive(Copy, Clone, Debug, PartialEq, Eq, Structural)]
pub enum DecodingError {
    /// The word lies in encoding space that the decoder does not cover: an
    /// extension, an instruction length or a compressed form that is not
    /// decoded.
    Unimplemented,
    /// The word lies in encoding space that the decoder covers and is no
    /// instruction there.
    Illegal,
}

/// What decoding a word gives.
pub type DecodingResult = Result<Instruction, DecodingError>;

/// LOAD (0000011), by funct3.
pub open spec fn spec_decode_load(w: u32) -> DecodingResult {
    match funct3_field(w) {
        0 => Ok(Instruction::Lb(IType(w))),
        1 => Ok(Instruction::Lh(IType(w))),
        2 => Ok(Instruction::Lw(IType(w))),
        3 => Ok(Instruction::Ld(IType(w))),
        4 => Ok(Instruction::Lbu(IType(w))),
        5 => Ok(Instruction::Lhu(IType(w))),
        6 => Ok(Instruction::Lwu(IType(w))),
        _ => Err(DecodingError::Illegal),
    }
}

/// MISC-MEM (0001111), by funct3.
pub open spec fn spec_decode_misc_mem(w: u32) -> DecodingResult {
    match funct3_field(w) {
        0 => Ok(Instruction::Fence(FenceType(w))),
        1 => Ok(Instruction::FenceI),
        _ => Err(DecodingError::Illegal),
    }
}

/// OP-IMM (0010011), by funct3; the shifts also by bits 31:26, which leave
/// six bits for the shift amount.
pub open spec fn spec_decode_op_imm(w: u32) -> DecodingResult {
    match (funct3_field(w), funct6_field(w)) {
        (0, _) => Ok(Instruction::Addi(IType(w))),
        (1, 0) => Ok(Instruction::Slli(ShiftType(w))),
        (2, _) => Ok(Instruction::Slti(IType(w))),
        (3, _) => Ok(Instruction::Sltiu(IType(w))),
        (4, _) => Ok(Instruction::Xori(IType(w))),
        (5, 0) => Ok(Instruction::Srli(ShiftType(w))),
        (5, 0x10) => Ok(Instruction::Srai(ShiftType(w))),
        (6, _) => Ok(Instruction::Ori(IType(w))),
        (7, _) => Ok(Instruction::Andi(IType(w))),
        _ => Err(DecodingError::Illegal),
    }
}

/// OP-IMM-32 (0011011), by funct3; the shifts also by funct7, which leaves
/// five bits for the shift amount.
pub open spec fn spec_decode_op_imm_32(w: u32) -> DecodingResult {
    match (funct3_field(w), funct7_field(w)) {
        (0, _) => Ok(Instruction::Addiw(IType(w))),
        (1, 0) => Ok(Instruction::Slliw(ShiftType(w))),
        (5, 0) => Ok(Instruction::Srliw(ShiftType(w))),
        (5, 0x20) => Ok(Instruction::Sraiw(ShiftType(w))),
        _ => Err(DecodingError::Illegal),
    }
}

/// STORE (0100011), by funct3.
pub open spec fn spec_decode_store(w: u32) -> DecodingResult {
    match funct3_field(w) {
        0 => Ok(Instruction::Sb(SType(w))),
        1 => Ok(Instruction::Sh(SType(w))),
        2 => Ok(Instruction::Sw(SType(w))),
        3 => Ok(Instruction::Sd(SType(w))),
        _ => Err(DecodingError::Illegal),
    }
}

/// OP (0110011), by funct7 and funct3: the base operations under funct7
/// 0000000 and 0100000, multiplication and division under 0000001.
pub open spec fn spec_decode_op(w: u32) -> DecodingResult {
    match (funct7_field(w), funct3_field(w)) {
        (0x00, 0) => Ok(Instruction::Add(RType(w))),
        (0x20, 0) => Ok(Instruction::Sub(RType(w))),
        (0x00, 1) => Ok(Instruction::Sll(RType(w))),
        (0x00, 2) => Ok(Instruction::Slt(RType(w))),
        (0x00, 3) => Ok(Instruction::Sltu(RType(w))),
        (0x00, 4) => Ok(Instruction::Xor(RType(w))),
        (0x00, 5) => Ok(Instruction::Srl(RType(w))),
        (0x20, 5) => Ok(Instruction::Sra(RType(w))),
        (0x00, 6) => Ok(Instruction::Or(RType(w))),
        (0x00, 7) => Ok(Instruction::And(RType(w))),
        (0x01, 0) => Ok(Instruction::Mul(RType(w))),
        (0x01, 1) => Ok(Instruction::Mulh(RType(w))),
        (0x01, 2) => Ok(Instruction::Mulhsu(RType(w))),
        (0x01, 3) => Ok(Instruction::Mulhu(RType(w))),
        (0x01, 4) => Ok(Instruction::Div(RType(w))),
        (0x01, 5) => Ok(Instruction::Divu(RType(w))),
        (0x01, 6) => Ok(Instruction::Rem(RType(w))),
        (0x01, 7) => Ok(Instruction::Remu(RType(w))),
        _ => Err(DecodingError::Illegal),
    }
}

/// OP-32 (0111011), by funct7 and funct3.
pub open spec fn spec_decode_op_32(w: u32) -> DecodingResult {
    match (funct7_field(w), funct3_field(w)) {
        (0x00, 0) => Ok(Instruction::Addw(RType(w))),
        (0x20, 0) => Ok(Instruction::Subw(RType(w))),
        (0x00, 1) => Ok(Instruction::Sllw(RType(w))),
        (0x00, 5) => Ok(Instruction::Srlw(RType(w))),
        (0x20, 5) => Ok(Instruction::Sraw(RType(w))),
        (0x01, 0) => Ok(Instruction::Mulw(RType(w))),
        (0x01, 4) => Ok(Instruction::Divw(RType(w))),
        (0x01, 5) => Ok(Instruction::Divuw(RType(w))),
        (0x01, 6) => Ok(Instruction::Remw(RType(w))),
        (0x01, 7) => Ok(Instruction::Remuw(RType(w))),
        _ => Err(DecodingError::Illegal),
    }
}

/// BRANCH (1100011), by funct3.
pub open spec fn spec_decode_branch(w: u32) -> DecodingResult {
    match funct3_field(w) {
        0 => Ok(Instruction::Beq(BType(w))),
        1 => Ok(Instruction::Bne(BType(w))),
        4 => Ok(Instruction::Blt(BType(w))),
        5 => Ok(Instruction::Bge(BType(w))),
        6 => Ok(Instruction::Bltu(BType(w))),
        7 => Ok(Instruction::Bgeu(BType(w))),
        _ => Err(DecodingError::Illegal),
    }
}

/// JALR (1100111): funct3 is 000.
pub open spec fn spec_decode_jalr(w: u32) -> DecodingResult {
    match funct3_field(w) {
        0 => Ok(Instruction::Jalr(IType(w))),
        _ => Err(DecodingError::Illegal),
    }
}

/// SYSTEM (1110011): the six instructions without operands are single
/// words; SFENCE.VMA has funct3 000, funct7 0001001 and rd 00000; the CSR
/// accesses go by funct3.
pub open spec fn spec_decode_system(w: u32) -> DecodingResult {
    if w == 0x0000_0073 {
        Ok(Instruction::Ecall)
    } else if w == 0x0010_0073 {
        Ok(Instruction::Ebreak)
    } else if w == 0x0020_0073 {
        Ok(Instruction::Uret)
    } else if w == 0x1020_0073 {
        Ok(Instruction::Sret)
    } else if w == 0x3020_0073 {
        Ok(Instruction::Mret)
    } else if w == 0x1050_0073 {
        Ok(Instruction::Wfi)
    } else {
        match (funct3_field(w), funct7_field(w)) {
            (0, 0x09) => if rd_field(w) == 0 {
                Ok(Instruction::SfenceVma(RType(w)))
            } else {
                Err(DecodingError::Illegal)
            },
            (1, _) => Ok(Instruction::Csrrw(CsrType(w))),
            (2, _) => Ok(Instruction::Csrrs(CsrType(w))),
            (3, _) => Ok(Instruction::Csrrc(CsrType(w))),
            (5, _) => Ok(Instruction::Csrrwi(CsrIType(w))),
            (6, _) => Ok(Instruction::Csrrsi(CsrIType(w))),
            (7, _) => Ok(Instruction::Csrrci(CsrIType(w))),
            _ => Err(DecodingError::Illegal),
        }
    }
}

/// What a word in standard form (bits 1:0 both set) decodes to, by its
/// opcode.
///
/// The opcodes of RV64I, M and Zicsr lead to the tables above. The opcodes
/// of the floating-point and atomic extensions (LOAD-FP, STORE-FP, AMO,
/// MADD, MSUB, NMSUB, NMADD, OP-FP), the four custom opcodes and the
/// prefixes of instructions longer than 32 bits are not covered. What is
/// left is reserved.
pub open spec fn spec_decode_standard(w: u32) -> DecodingResult {
    match opcode_field(w) {
        0x03 => spec_decode_load(w),
        0x0f => spec_decode_misc_mem(w),
        0x13 => spec_decode_op_imm(w),
        0x17 => Ok(Instruction::Auipc(UType(w))),
        0x1b => spec_decode_op_imm_32(w),
        0x23 => spec_decode_store(w),
        0x33 => spec_decode_op(w),
        0x37 => Ok(Instruction::Lui(UType(w))),
        0x3b => spec_decode_op_32(w),
        0x63 => spec_decode_branch(w),
        0x67 => spec_decode_jalr(w),
        0x6f => Ok(Instruction::Jal(JType(w))),
        0x73 => spec_decode_system(w),
        0x07 | 0x27 | 0x2f | 0x43 | 0x47 | 0x4b | 0x4f | 0x53 => Err(DecodingError::Unimplemented),
        0x0b | 0x2b | 0x5b | 0x7b => Err(DecodingError::Unimplemented),
        0x1f | 0x3f | 0x5f | 0x7f => Err(DecodingError::Unimplemented),
        _ => Err(DecodingError::Illegal),
    }
}

/// What a word decodes to: bits 1:0 tell the three compressed quadrants,
/// each with its direct decoder, from the standard form.
pub open spec fn spec_decode(w: u32) -> DecodingResult {
    match w & 0x3 {
        0 => spec_decode_q00(w),
        1 => spec_decode_q01(w),
        2 => spec_decode_q10(w),
        _ => spec_decode_standard(w),
    }
}

/// How the fields that the decoder reads with plain shifts relate to the
/// fields of the ISA.
proof fn lemma_dispatch_fields(i: u32)
    by (bit_vector)
    ensures
        i & 0x3 <= 3,
        i & 0x3 == 3 ==> i & 0x7f == ((i >> 2) & 0x1f) * 4 + 3,
        (i >> 2) & 0x1f <= 0x1f,
        (i >> 12) & 0x7 <= 0x7,
        i >> 25 == (i >> 25) & 0x7f,
        i >> 26 == (i >> 26) & 0x3f,
{
}

fn decode_load(i: u32) -> (r: DecodingResult)
    ensures
        r == spec_decode_load(i),
{
    match (i >> 12) & 0b111 {
        0b000 => Ok(Instruction::Lb(IType(i))),
        0b001 => Ok(Instruction::Lh(IType(i))),
        0b010 => Ok(Instruction::Lw(IType(i))),
        0b011 => Ok(Instruction::Ld(IType(i))),
        0b100 => Ok(Instruction::Lbu(IType(i))),
        0b101 => Ok(Instruction::Lhu(IType(i))),
        0b110 => Ok(Instruction::Lwu(IType(i))),
        _ => Err(DecodingError::Illegal),
    }
}

fn decode_misc_mem(i: u32) -> (r: DecodingResult)
    ensures
        r == spec_decode_misc_mem(i),
{
    match (i >> 12) & 0b111 {
        0b000 => Ok(Instruction::Fence(FenceType(i))),
        0b001 => Ok(Instruction::FenceI),
        _ => Err(DecodingError::Illegal),
    }
}

fn decode_op_imm(i: u32) -> (r: DecodingResult)
    ensures
        r == spec_decode_op_imm(i),
{
    proof {
        lemma_dispatch_fields(i);
    }
    match (i >> 12) & 0b111 {
        0b000 => Ok(Instruction::Addi(IType(i))),
        0b001 => match i >> 26 {
            0 => Ok(Instruction::Slli(ShiftType(i))),
            _ => Err(DecodingError::Illegal),
        },
        0b010 => Ok(Instruction::Slti(IType(i))),
        0b011 => Ok(Instruction::Sltiu(IType(i))),
        0b100 => Ok(Instruction::Xori(IType(i))),
        0b101 => match i >> 26 {
            0b000000 => Ok(Instruction::Srli(ShiftType(i))),
            0b010000 => Ok(Instruction::Srai(ShiftType(i))),
            _ => Err(DecodingError::Illegal),
        },
        0b110 => Ok(Instruction::Ori(IType(i))),
        0b111 => Ok(Instruction::Andi(IType(i))),
        _ => Err(DecodingError::Illegal),
    }
}

fn decode_op_imm_32(i: u32) -> (r: DecodingResult)
    ensures
        r == spec_decode_op_imm_32(i),
{
    proof {
        lemma_dispatch_fields(i);
    }
    match (i >> 25, (i >> 12) & 0b111) {
        (_, 0b000) => Ok(Instruction::Addiw(IType(i))),
        (0b0000000, 0b001) => Ok(Instruction::Slliw(ShiftType(i))),
        (0b0000000, 0b101) => Ok(Instruction::Srliw(ShiftType(i))),
        (0b0100000, 0b101) => Ok(Instruction::Sraiw(ShiftType(i))),
        _ => Err(DecodingError::Illegal),
    }
}

fn decode_store(i: u32) -> (r: DecodingResult)
    ensures
        r == spec_decode_store(i),
{
    match (i >> 12) & 0b111 {
        0b000 => Ok(Instruction::Sb(SType(i))),
        0b001 => Ok(Instruction::Sh(SType(i))),
        0b010 => Ok(Instruction::Sw(SType(i))),
        0b011 => Ok(Instruction::Sd(SType(i))),
        _ => Err(DecodingError::Illegal),
    }
}

fn decode_op(i: u32) -> (r: DecodingResult)
    ensures
        r == spec_decode_op(i),
{
    proof {
        lemma_dispatch_fields(i);
    }
    match (i >> 25, (i >> 12) & 0b111) {
        (0b0000000, 0b000) => Ok(Instruction::Add(RType(i))),
        (0b0100000, 0b000) => Ok(Instruction::Sub(RType(i))),
        (0b0000000, 0b001) => Ok(Instruction::Sll(RType(i))),
        (0b0000000, 0b010) => Ok(Instruction::Slt(RType(i))),
        (0b0000000, 0b011) => Ok(Instruction::Sltu(RType(i))),
        (0b0000000, 0b100) => Ok(Instruction::Xor(RType(i))),
        (0b0000000, 0b101) => Ok(Instruction::Srl(RType(i))),
        (0b0100000, 0b101) => Ok(Instruction::Sra(RType(i))),
        (0b0000000, 0b110) => Ok(Instruction::Or(RType(i))),
        (0b0000000, 0b111) => Ok(Instruction::And(RType(i))),
        (0b0000001, 0b000) => Ok(Instruction::Mul(RType(i))),
        (0b0000001, 0b001) => Ok(Instruction::Mulh(RType(i))),
        (0b0000001, 0b010) => Ok(Instruction::Mulhsu(RType(i))),
        (0b0000001, 0b011) => Ok(Instruction::Mulhu(RType(i))),
        (0b0000001, 0b100) => Ok(Instruction::Div(RType(i))),
        (0b0000001, 0b101) => Ok(Instruction::Divu(RType(i))),
        (0b0000001, 0b110) => Ok(Instruction::Rem(RType(i))),
        (0b0000001, 0b111) => Ok(Instruction::Remu(RType(i))),
        _ => Err(DecodingError::Illegal),
    }
}

fn decode_op_32(i: u32) -> (r: DecodingResult)
    ensures
        r == spec_decode_op_32(i),
{
    proof {
        lemma_dispatch_fields(i);
    }
    match (i >> 25, (i >> 12) & 0b111) {
        (0b0000000, 0b000) => Ok(Instruction::Addw(RType(i))),
        (0b0100000, 0b000) => Ok(Instruction::Subw(RType(i))),
        (0b0000000, 0b001) => Ok(Instruction::Sllw(RType(i))),
        (0b0000000, 0b101) => Ok(Instruction::Srlw(RType(i))),
        (0b0100000, 0b101) => Ok(Instruction::Sraw(RType(i))),
        (0b0000001, 0b000) => Ok(Instruction::Mulw(RType(i))),
        (0b0000001, 0b100) => Ok(Instruction::Divw(RType(i))),
        (0b0000001, 0b101) => Ok(Instruction::Divuw(RType(i))),
        (0b0000001, 0b110) => Ok(Instruction::Remw(RType(i))),
        (0b0000001, 0b111) => Ok(Instruction::Remuw(RType(i))),
        _ => Err(DecodingError::Illegal),
    }
}

fn decode_branch(i: u32) -> (r: DecodingResult)
    ensures
        r == spec_decode_branch(i),
{
    match (i >> 12) & 0b111 {
        0b000 => Ok(Instruction::Beq(BType(i))),
        0b001 => Ok(Instruction::Bne(BType(i))),
        0b100 => Ok(Instruction::Blt(BType(i))),
        0b101 => Ok(Instruction::Bge(BType(i))),
        0b110 => Ok(Instruction::Bltu(BType(i))),
        0b111 => Ok(Instruction::Bgeu(BType(i))),
        _ => Err(DecodingError::Illegal),
    }
}

fn decode_jalr(i: u32) -> (r: DecodingResult)
    ensures
        r == spec_decode_jalr(i),
{
    match (i >> 12) & 0b111 {
        0b000 => Ok(Instruction::Jalr(IType(i))),
        _ => Err(DecodingError::Illegal),
    }
}

fn decode_system(i: u32) -> (r: DecodingResult)
    ensures
        r == spec_decode_system(i),
{
    proof {
        lemma_dispatch_fields(i);
    }
    match i {
        // Environment call and breakpoint
        0b000000000000_00000_000_00000_1110011 => return Ok(Instruction::Ecall),
        0b000000000001_00000_000_00000_1110011 => return Ok(Instruction::Ebreak),
        // Trap return
        0b0000000_00010_00000_000_00000_1110011 => return Ok(Instruction::Uret),
        0b0001000_00010_00000_000_00000_1110011 => return Ok(Instruction::Sret),
        0b0011000_00010_00000_000_00000_1110011 => return Ok(Instruction::Mret),
        // Interrupt management
        0b0001000_00101_00000_000_00000_1110011 => return Ok(Instruction::Wfi),
        _ => {},
    }
    match (i >> 12) & 0b111 {
        // Memory management
        0b000 => match (i >> 25, (i >> 7) & 0b11111) {
            (0b0001001, 0b00000) => Ok(Instruction::SfenceVma(RType(i))),
            _ => Err(DecodingError::Illegal),
        },
        0b001 => Ok(Instruction::Csrrw(CsrType(i))),
        0b010 => Ok(Instruction::Csrrs(CsrType(i))),
        0b011 => Ok(Instruction::Csrrc(CsrType(i))),
        0b101 => Ok(Instruction::Csrrwi(CsrIType(i))),
        0b110 => Ok(Instruction::Csrrsi(CsrIType(i))),
        0b111 => Ok(Instruction::Csrrci(CsrIType(i))),
        _ => Err(DecodingError::Illegal),
    }
}

/// Decodes one instruction word.
///
/// A word whose bits 1:0 are not both set is a compressed instruction and
/// goes to the direct decoder of its quadrant; the all-zero word among them
/// is `Instruction::Illegal`. Any other word is in standard form and is
/// decoded by opcode, funct3 and funct7; the carrier of the result then
/// holds the word itself.
pub fn decode(i: u32) -> (r: DecodingResult)
    ensures
        r == spec_decode(i),
{
    proof {
        lemma_dispatch_fields(i);
    }
    match i & 0b11 {
        0b00 => decode_q00(i),
        0b01 => decode_q01(i),
        0b10 => decode_q10(i),
        _ => match (i >> 2) & 0b11111 {
            0b00000 => decode_load(i),
            0b00001 => Err(DecodingError::Unimplemented),  // LOAD-FP
            0b00010 => Err(DecodingError::Unimplemented),  // custom-0
            0b00011 => decode_misc_mem(i),
            0b00100 => decode_op_imm(i),
            0b00101 => Ok(Instruction::Auipc(UType(i))),
            0b00110 => decode_op_imm_32(i),
            0b00111 => Err(DecodingError::Unimplemented),  // 48-bit instruction
            0b01000 => decode_store(i),
            0b01001 => Err(DecodingError::Unimplemented),  // STORE-FP
            0b01010 => Err(DecodingError::Unimplemented),  // custom-1
            0b01011 => Err(DecodingError::Unimplemented),  // AMO
            0b01100 => decode_op(i),
            0b01101 => Ok(Instruction::Lui(UType(i))),
            0b01110 => decode_op_32(i),
            0b01111 => Err(DecodingError::Unimplemented),  // 64-bit instruction
            0b10000 => Err(DecodingError::Unimplemented),  // MADD
            0b10001 => Err(DecodingError::Unimplemented),  // MSUB
            0b10010 => Err(DecodingError::Unimplemented),  // NMSUB
            0b10011 => Err(DecodingError::Unimplemented),  // NMADD
            0b10100 => Err(DecodingError::Unimplemented),  // OP-FP
            0b10101 => Err(DecodingError::Illegal),  // reserved
            0b10110 => Err(DecodingError::Unimplemented),  // custom-2
            0b10111 => Err(DecodingError::Unimplemented),  // 48-bit instruction
            0b11000 => decode_branch(i),
            0b11001 => decode_jalr(i),
            0b11010 => Err(DecodingError::Illegal),  // reserved
            0b11011 => Ok(Instruction::Jal(JType(i))),
            0b11100 => decode_system(i),
            0b11101 => Err(DecodingError::Illegal),  // reserved
            0b11110 => Err(DecodingError::Unimplemented),  // custom-3
            _ => Err(DecodingError::Unimplemented),  // 80 bits or more
        },
    }
}

/// A decoded instruction is a reflection of its source bits: the carrier of
/// what a word in standard form decodes to holds that very word.
pub proof fn lemma_standard_decoding_keeps_the_word(w: u32)
    requires
        w & 0x3 == 3,
    ensures
        spec_decode(w) matches Ok(inst) ==> (inst.spec_word() matches Some(c) ==> c == w),
{
    lemma_dispatch_fields(w);
}

} // verus!
