//! The instruction model: one carrier type per encoding format, each holding
//! nothing but the 32-bit word, and the closed set of decoded instructions.
//!
//! Every register index, immediate, shift amount, CSR address and fence mask
//! is a function of the carried word. The spec functions in this file define
//! those fields from the ISA's bit-position tables; the accessors compute
//! them with shifts and masks and are proved equal to the definitions.

use vstd::prelude::*;

verus! {

/// Bits 6:0 of a word: the major opcode.
pub open spec fn opcode_field(w: u32) -> u32 {
    w & 0x7f
}

/// Bits 11:7 of a word: the destination register of most formats.
pub open spec fn rd_field(w: u32) -> u32 {
    (w >> 7) & 0x1f
}

/// Bits 14:12 of a word.
pub open spec fn funct3_field(w: u32) -> u32 {
    (w >> 12) & 0x7
}

/// Bits 19:15 of a word: the first source register of most formats.
pub open spec fn rs1_field(w: u32) -> u32 {
    (w >> 15) & 0x1f
}

/// Bits 24:20 of a word: the second source register of most formats.
pub open spec fn rs2_field(w: u32) -> u32 {
    (w >> 20) & 0x1f
}

/// Bits 31:25 of a word.
pub open spec fn funct7_field(w: u32) -> u32 {
    (w >> 25) & 0x7f
}

/// Bits 31:26 of a word: what tells the 64-bit immediate shifts apart.
pub open spec fn funct6_field(w: u32) -> u32 {
    (w >> 26) & 0x3f
}

/// Bits 31:20 of a word: an I-type immediate before sign extension, or a
/// CSR address.
pub open spec fn imm12_field(w: u32) -> u32 {
    (w >> 20) & 0xfff
}

/// The number that `raw` stands for in two's complement, where `sign` is the
/// weight of the sign bit: `raw` itself below `sign`, and `raw - 2 * sign`
/// from `sign` on.
pub open spec fn from_twos_complement(raw: int, sign: int) -> int {
    if raw >= sign {
        raw - 2 * sign
    } else {
        raw
    }
}

/// The I-type immediate of `w`: bits 31:20, sign-extended from bit 31.
pub open spec fn i_immediate(w: u32) -> int {
    from_twos_complement(imm12_field(w) as int, 0x800)
}

/// The S-type immediate of `w`: imm[11:5] in bits 31:25 and imm[4:0] in bits
/// 11:7, sign-extended from bit 31.
pub open spec fn s_immediate(w: u32) -> int {
    from_twos_complement(((w >> 25) & 0x7f) * 32 + ((w >> 7) & 0x1f), 0x800)
}

/// The B-type immediate of `w`: imm[12] in bit 31, imm[10:5] in bits 30:25,
/// imm[4:1] in bits 11:8 and imm[11] in bit 7; bit 0 is zero and the value
/// is sign-extended from bit 12.
pub open spec fn b_immediate(w: u32) -> int {
    from_twos_complement(
        ((w >> 31) & 1) * 4096 + ((w >> 7) & 1) * 2048 + ((w >> 25) & 0x3f) * 32 + ((w >> 8)
            & 0xf) * 2,
        0x1000,
    )
}

/// The U-type immediate of `w`: bits 31:12 in place, bits 11:0 zero, read as
/// an unsigned number.
pub open spec fn u_immediate(w: u32) -> int {
    ((w >> 12) & 0xfffff) * 4096
}

/// The J-type immediate of `w`: imm[20] in bit 31, imm[10:1] in bits 30:21,
/// imm[11] in bit 20 and imm[19:12] in bits 19:12; bit 0 is zero and the
/// value is sign-extended from bit 20.
pub open spec fn j_immediate(w: u32) -> int {
    from_twos_complement(
        ((w >> 31) & 1) * 0x100000 + ((w >> 12) & 0xff) * 4096 + ((w >> 20) & 1) * 2048 + ((w
            >> 21) & 0x3ff) * 2,
        0x100000,
    )
}

/// The shift amount of an immediate shift: bits 24:20 where the opcode is
/// that of the 32-bit shifts (0011011), bits 25:20 otherwise.
pub open spec fn shift_amount(w: u32) -> u32 {
    if opcode_field(w) == 0x1b {
        (w >> 20) & 0x1f
    } else {
        (w >> 20) & 0x3f
    }
}

/// What a mask leaves is no larger than the mask.
pub proof fn lemma_mask_bounds(x: u32)
    by (bit_vector)
    ensures
        x & 0x1 <= 0x1,
        x & 0x3 <= 0x3,
        x & 0x7 <= 0x7,
        x & 0xf <= 0xf,
        x & 0x1f <= 0x1f,
        x & 0x3f <= 0x3f,
        x & 0x7f <= 0x7f,
        x & 0xff <= 0xff,
        x & 0x3ff <= 0x3ff,
        x & 0xfff <= 0xfff,
        x & 0xfffff <= 0xfffff,
{
}

/// R-type: two source registers and a destination.
#[derive(Copy, Clone, Debug, PartialEq, Eq, Structural)]
pub struct RType(pub u32);

/// I-type: a source register, a destination and a 12-bit signed immediate.
#[derive(Copy, Clone, Debug, PartialEq, Eq, Structural)]
pub struct IType(pub u32);

/// S-type: two source registers and a 12-bit signed immediate.
#[derive(Copy, Clone, Debug, PartialEq, Eq, Structural)]
pub struct SType(pub u32);

/// B-type: two source registers and a 13-bit signed, even branch offset.
#[derive(Copy, Clone, Debug, PartialEq, Eq, Structural)]
pub struct BType(pub u32);

/// U-type: a destination and a 20-bit immediate placed in bits 31:12.
#[derive(Copy, Clone, Debug, PartialEq, Eq, Structural)]
pub struct UType(pub u32);

/// J-type: a destination and a 21-bit signed, even jump offset.
#[derive(Copy, Clone, Debug, PartialEq, Eq, Structural)]
pub struct JType(pub u32);

/// An immediate shift: a source register, a destination and a shift amount.
#[derive(Copy, Clone, Debug, PartialEq, Eq, Structural)]
pub struct ShiftType(pub u32);

/// A memory fence: its predecessor and successor sets.
#[derive(Copy, Clone, Debug, PartialEq, Eq, Structural)]
pub struct FenceType(pub u32);

/// A CSR access with a register operand.
#[derive(Copy, Clone, Debug, PartialEq, Eq, Structural)]
pub struct CsrType(pub u32);

/// A CSR access with a 5-bit unsigned immediate operand.
#[derive(Copy, Clone, Debug, PartialEq, Eq, Structural)]
pub struct CsrIType(pub u32);

/// The shift-and-mask assembly of each split immediate gives the sum of its
/// parts, each at its weight.
pub proof fn lemma_immediate_layouts(w: u32)
    by (bit_vector)
    ensures
        ((w >> 20) & 0xfe0) | ((w >> 7) & 0x1f) == ((w >> 25) & 0x7f) * 32 + ((w >> 7) & 0x1f),
        ((w >> 19) & 0x1000) | ((w << 4) & 0x800) | ((w >> 20) & 0x7e0) | ((w >> 7) & 0x1e) == ((w
            >> 31) & 1) * 4096 + ((w >> 7) & 1) * 2048 + ((w >> 25) & 0x3f) * 32 + ((w >> 8) & 0xf)
            * 2,
        w & 0xfffff000 == ((w >> 12) & 0xfffff) * 4096,
        ((w >> 11) & 0x100000) | (w & 0xff000) | ((w >> 9) & 0x800) | ((w >> 20) & 0x7fe) == ((w
            >> 31) & 1) * 0x100000 + ((w >> 12) & 0xff) * 4096 + ((w >> 20) & 1) * 2048 + ((w
            >> 21) & 0x3ff) * 2,
        (w >> 25) & 0x7f <= 0x7f,
        (w >> 7) & 0x1f <= 0x1f,
        (w >> 31) & 1 <= 1,
        (w >> 7) & 1 <= 1,
        (w >> 25) & 0x3f <= 0x3f,
        (w >> 8) & 0xf <= 0xf,
        (w >> 12) & 0xfffff <= 0xfffff,
        (w >> 12) & 0xff <= 0xff,
        (w >> 20) & 1 <= 1,
        (w >> 21) & 0x3ff <= 0x3ff,
{
}

impl RType {
    /// What `rd` returns.
    pub open spec fn spec_rd(&self) -> u64 {
        rd_field(self.0) as u64
    }

    /// What `rs1` returns.
    pub open spec fn spec_rs1(&self) -> u64 {
        rs1_field(self.0) as u64
    }

    /// What `rs2` returns.
    pub open spec fn spec_rs2(&self) -> u64 {
        rs2_field(self.0) as u64
    }

    /// The destination register.
    #[verifier::when_used_as_spec(spec_rd)]
    pub fn rd(&self) -> (r: u64)
        ensures
            r == rd_field(self.0),
            r < 32,
    {
        proof {
            lemma_mask_bounds(self.0 >> 7);
        }
        ((self.0 >> 7) & 0x1f) as u64
    }

    /// The first source register.
    #[verifier::when_used_as_spec(spec_rs1)]
    pub fn rs1(&self) -> (r: u64)
        ensures
            r == rs1_field(self.0),
            r < 32,
    {
        proof {
            lemma_mask_bounds(self.0 >> 15);
        }
        ((self.0 >> 15) & 0x1f) as u64
    }

    /// The second source register.
    #[verifier::when_used_as_spec(spec_rs2)]
    pub fn rs2(&self) -> (r: u64)
        ensures
            r == rs2_field(self.0),
            r < 32,
    {
        proof {
            lemma_mask_bounds(self.0 >> 20);
        }
        ((self.0 >> 20) & 0x1f) as u64
    }
}

impl IType {
    /// What `rd` returns.
    pub open spec fn spec_rd(&self) -> u64 {
        rd_field(self.0) as u64
    }

    /// What `rs1` returns.
    pub open spec fn spec_rs1(&self) -> u64 {
        rs1_field(self.0) as u64
    }

    /// What `imm` returns.
    pub open spec fn spec_imm(&self) -> i64 {
        i_immediate(self.0) as i64
    }

    /// The destination register.
    #[verifier::when_used_as_spec(spec_rd)]
    pub fn rd(&self) -> (r: u64)
        ensures
            r == rd_field(self.0),
            r < 32,
    {
        proof {
            lemma_mask_bounds(self.0 >> 7);
        }
        ((self.0 >> 7) & 0x1f) as u64
    }

    /// The source register.
    #[verifier::when_used_as_spec(spec_rs1)]
    pub fn rs1(&self) -> (r: u64)
        ensures
            r == rs1_field(self.0),
            r < 32,
    {
        proof {
            lemma_mask_bounds(self.0 >> 15);
        }
        ((self.0 >> 15) & 0x1f) as u64
    }

    /// The immediate, sign-extended.
    #[verifier::when_used_as_spec(spec_imm)]
    pub fn imm(&self) -> (r: i64)
        ensures
            r == i_immediate(self.0),
            -2048 <= r < 2048,
    {
        proof {
            lemma_mask_bounds(self.0 >> 20);
        }
        let raw: u32 = (self.0 >> 20) & 0xfff;
        if raw >= 0x800 {
            raw as i64 - 0x1000
        } else {
            raw as i64
        }
    }
}

impl SType {
    /// What `rs1` returns.
    pub open spec fn spec_rs1(&self) -> u64 {
        rs1_field(self.0) as u64
    }

    /// What `rs2` returns.
    pub open spec fn spec_rs2(&self) -> u64 {
        rs2_field(self.0) as u64
    }

    /// What `imm` returns.
    pub open spec fn spec_imm(&self) -> i64 {
        s_immediate(self.0) as i64
    }

    /// The first source register.
    #[verifier::when_used_as_spec(spec_rs1)]
    pub fn rs1(&self) -> (r: u64)
        ensures
            r == rs1_field(self.0),
            r < 32,
    {
        proof {
            lemma_mask_bounds(self.0 >> 15);
        }
        ((self.0 >> 15) & 0x1f) as u64
    }

    /// The second source register.
    #[verifier::when_used_as_spec(spec_rs2)]
    pub fn rs2(&self) -> (r: u64)
        ensures
            r == rs2_field(self.0),
            r < 32,
    {
        proof {
            lemma_mask_bounds(self.0 >> 20);
        }
        ((self.0 >> 20) & 0x1f) as u64
    }

    /// The immediate, sign-extended.
    #[verifier::when_used_as_spec(spec_imm)]
    pub fn imm(&self) -> (r: i64)
        ensures
            r == s_immediate(self.0),
            -2048 <= r < 2048,
    {
        proof {
            lemma_immediate_layouts(self.0);
        }
        let raw: u32 = ((self.0 >> 20) & 0xfe0) | ((self.0 >> 7) & 0x1f);
        if raw >= 0x800 {
            raw as i64 - 0x1000
        } else {
            raw as i64
        }
    }
}

impl BType {
    /// What `rs1` returns.
    pub open spec fn spec_rs1(&self) -> u64 {
        rs1_field(self.0) as u64
    }

    /// What `rs2` returns.
    pub open spec fn spec_rs2(&self) -> u64 {
        rs2_field(self.0) as u64
    }

    /// What `imm` returns.
    pub open spec fn spec_imm(&self) -> i64 {
        b_immediate(self.0) as i64
    }

    /// The first source register.
    #[verifier::when_used_as_spec(spec_rs1)]
    pub fn rs1(&self) -> (r: u64)
        ensures
            r == rs1_field(self.0),
            r < 32,
    {
        proof {
            lemma_mask_bounds(self.0 >> 15);
        }
        ((self.0 >> 15) & 0x1f) as u64
    }

    /// The second source register.
    #[verifier::when_used_as_spec(spec_rs2)]
    pub fn rs2(&self) -> (r: u64)
        ensures
            r == rs2_field(self.0),
            r < 32,
    {
        proof {
            lemma_mask_bounds(self.0 >> 20);
        }
        ((self.0 >> 20) & 0x1f) as u64
    }

    /// The branch offset in bytes, sign-extended.
    #[verifier::when_used_as_spec(spec_imm)]
    pub fn imm(&self) -> (r: i64)
        ensures
            r == b_immediate(self.0),
            -4096 <= r < 4096,
            r % 2 == 0,
    {
        proof {
            lemma_immediate_layouts(self.0);
        }
        let raw: u32 = ((self.0 >> 19) & 0x1000) | ((self.0 << 4) & 0x800) | ((self.0 >> 20)
            & 0x7e0) | ((self.0 >> 7) & 0x1e);
        if raw >= 0x1000 {
            raw as i64 - 0x2000
        } else {
            raw as i64
        }
    }
}

impl UType {
    /// What `rd` returns.
    pub open spec fn spec_rd(&self) -> u64 {
        rd_field(self.0) as u64
    }

    /// What `imm` returns.
    pub open spec fn spec_imm(&self) -> u64 {
        u_immediate(self.0) as u64
    }

    /// The destination register.
    #[verifier::when_used_as_spec(spec_rd)]
    pub fn rd(&self) -> (r: u64)
        ensures
            r == rd_field(self.0),
            r < 32,
    {
        proof {
            lemma_mask_bounds(self.0 >> 7);
        }
        ((self.0 >> 7) & 0x1f) as u64
    }

    /// The immediate: bits 31:12 of the word in place, unsigned.
    #[verifier::when_used_as_spec(spec_imm)]
    pub fn imm(&self) -> (r: u64)
        ensures
            r == u_immediate(self.0),
            r < 0x1_0000_0000,
            r % 4096 == 0,
    {
        proof {
            lemma_immediate_layouts(self.0);
        }
        (self.0 & 0xfffff000) as u64
    }
}

impl JType {
    /// What `rd` returns.
    pub open spec fn spec_rd(&self) -> u64 {
        rd_field(self.0) as u64
    }

    /// What `imm` returns.
    pub open spec fn spec_imm(&self) -> i64 {
        j_immediate(self.0) as i64
    }

    /// The destination register.
    #[verifier::when_used_as_spec(spec_rd)]
    pub fn rd(&self) -> (r: u64)
        ensures
            r == rd_field(self.0),
            r < 32,
    {
        proof {
            lemma_mask_bounds(self.0 >> 7);
        }
        ((self.0 >> 7) & 0x1f) as u64
    }

    /// The jump offset in bytes, sign-extended.
    #[verifier::when_used_as_spec(spec_imm)]
    pub fn imm(&self) -> (r: i64)
        ensures
            r == j_immediate(self.0),
            -0x100000 <= r < 0x100000,
            r % 2 == 0,
    {
        proof {
            lemma_immediate_layouts(self.0);
        }
        let raw: u32 = ((self.0 >> 11) & 0x100000) | (self.0 & 0xff000) | ((self.0 >> 9) & 0x800)
            | ((self.0 >> 20) & 0x7fe);
        if raw >= 0x100000 {
            raw as i64 - 0x200000
        } else {
            raw as i64
        }
    }
}

impl ShiftType {
    /// What `rd` returns.
    pub open spec fn spec_rd(&self) -> u64 {
        rd_field(self.0) as u64
    }

    /// What `rs1` returns.
    pub open spec fn spec_rs1(&self) -> u64 {
        rs1_field(self.0) as u64
    }

    /// What `shamt` returns.
    pub open spec fn spec_shamt(&self) -> u64 {
        shift_amount(self.0) as u64
    }

    /// The destination register.
    #[verifier::when_used_as_spec(spec_rd)]
    pub fn rd(&self) -> (r: u64)
        ensures
            r == rd_field(self.0),
            r < 32,
    {
        proof {
            lemma_mask_bounds(self.0 >> 7);
        }
        ((self.0 >> 7) & 0x1f) as u64
    }

    /// The source register.
    #[verifier::when_used_as_spec(spec_rs1)]
    pub fn rs1(&self) -> (r: u64)
        ensures
            r == rs1_field(self.0),
            r < 32,
    {
        proof {
            lemma_mask_bounds(self.0 >> 15);
        }
        ((self.0 >> 15) & 0x1f) as u64
    }

    /// The shift amount: six bits, or five where the word is a 32-bit shift.
    #[verifier::when_used_as_spec(spec_shamt)]
    pub fn shamt(&self) -> (r: u64)
        ensures
            r == shift_amount(self.0),
            r < 64,
            opcode_field(self.0) == 0x1b ==> r < 32,
    {
        proof {
            lemma_mask_bounds(self.0 >> 20);
        }
        if self.0 & 0x7f == 0x1b {
            ((self.0 >> 20) & 0x1f) as u64
        } else {
            ((self.0 >> 20) & 0x3f) as u64
        }
    }
}

impl FenceType {
    /// What `pred` returns.
    pub open spec fn spec_pred(&self) -> u64 {
        ((self.0 >> 24) & 0xf) as u64
    }

    /// What `succ` returns.
    pub open spec fn spec_succ(&self) -> u64 {
        ((self.0 >> 20) & 0xf) as u64
    }

    /// The predecessor set, bits 27:24: one bit each for I, O, R and W.
    #[verifier::when_used_as_spec(spec_pred)]
    pub fn pred(&self) -> (r: u64)
        ensures
            r == (self.0 >> 24) & 0xf,
            r < 16,
    {
        proof {
            lemma_mask_bounds(self.0 >> 24);
        }
        ((self.0 >> 24) & 0xf) as u64
    }

    /// The successor set, bits 23:20: one bit each for I, O, R and W.
    #[verifier::when_used_as_spec(spec_succ)]
    pub fn succ(&self) -> (r: u64)
        ensures
            r == (self.0 >> 20) & 0xf,
            r < 16,
    {
        proof {
            lemma_mask_bounds(self.0 >> 20);
        }
        ((self.0 >> 20) & 0xf) as u64
    }
}

impl CsrType {
    /// What `csr` returns.
    pub open spec fn spec_csr(&self) -> u64 {
        imm12_field(self.0) as u64
    }

    /// What `rs1` returns.
    pub open spec fn spec_rs1(&self) -> u64 {
        rs1_field(self.0) as u64
    }

    /// What `rd` returns.
    pub open spec fn spec_rd(&self) -> u64 {
        rd_field(self.0) as u64
    }

    /// The CSR address, bits 31:20.
    #[verifier::when_used_as_spec(spec_csr)]
    pub fn csr(&self) -> (r: u64)
        ensures
            r == imm12_field(self.0),
            r < 4096,
    {
        proof {
            lemma_mask_bounds(self.0 >> 20);
        }
        ((self.0 >> 20) & 0xfff) as u64
    }

    /// The source register.
    #[verifier::when_used_as_spec(spec_rs1)]
    pub fn rs1(&self) -> (r: u64)
        ensures
            r == rs1_field(self.0),
            r < 32,
    {
        proof {
            lemma_mask_bounds(self.0 >> 15);
        }
        ((self.0 >> 15) & 0x1f) as u64
    }

    /// The destination register.
    #[verifier::when_used_as_spec(spec_rd)]
    pub fn rd(&self) -> (r: u64)
        ensures
            r == rd_field(self.0),
            r < 32,
    {
        proof {
            lemma_mask_bounds(self.0 >> 7);
        }
        ((self.0 >> 7) & 0x1f) as u64
    }
}

impl CsrIType {
    /// What `csr` returns.
    pub open spec fn spec_csr(&self) -> u64 {
        imm12_field(self.0) as u64
    }

    /// What `zimm` returns.
    pub open spec fn spec_zimm(&self) -> u64 {
        rs1_field(self.0) as u64
    }

    /// What `rd` returns.
    pub open spec fn spec_rd(&self) -> u64 {
        rd_field(self.0) as u64
    }

    /// The CSR address, bits 31:20.
    #[verifier::when_used_as_spec(spec_csr)]
    pub fn csr(&self) -> (r: u64)
        ensures
            r == imm12_field(self.0),
            r < 4096,
    {
        proof {
            lemma_mask_bounds(self.0 >> 20);
        }
        ((self.0 >> 20) & 0xfff) as u64
    }

    /// The immediate operand: bits 19:15, unsigned.
    #[verifier::when_used_as_spec(spec_zimm)]
    pub fn zimm(&self) -> (r: u64)
        ensures
            r == rs1_field(self.0),
            r < 32,
    {
        proof {
            lemma_mask_bounds(self.0 >> 15);
        }
        ((self.0 >> 15) & 0x1f) as u64
    }

    /// The destination register.
    #[verifier::when_used_as_spec(spec_rd)]
    pub fn rd(&self) -> (r: u64)
        ensures
            r == rd_field(self.0),
            r < 32,
    {
        proof {
            lemma_mask_bounds(self.0 >> 7);
        }
        ((self.0 >> 7) & 0x1f) as u64
    }
}

/// A decoded instruction: one variant for each operation, holding the carrier
/// of its format where the operation has operands.
#[derive(Copy, Clone, Debug, PartialEq, Eq, Structural)]
pub enum Instruction {
    // Upper immediates
    Lui(UType),
    Auipc(UType),
    // Jumps
    Jal(JType),
    Jalr(IType),
    // Conditional branches
    Beq(BType),
    Bne(BType),
    Blt(BType),
    Bge(BType),
    Bltu(BType),
    Bgeu(BType),
    // Loads
    Lb(IType),
    Lh(IType),
    Lw(IType),
    Lbu(IType),
    Lhu(IType),
    Lwu(IType),
    Ld(IType),
    // Stores
    Sb(SType),
    Sh(SType),
    Sw(SType),
    Sd(SType),
    // Operations with an immediate
    Addi(IType),
    Slti(IType),
    Sltiu(IType),
    Xori(IType),
    Ori(IType),
    Andi(IType),
    Slli(ShiftType),
    Srli(ShiftType),
    Srai(ShiftType),
    // Operations on registers
    Add(RType),
    Sub(RType),
    Sll(RType),
    Slt(RType),
    Sltu(RType),
    Xor(RType),
    Srl(RType),
    Sra(RType),
    Or(RType),
    And(RType),
    Mul(RType),
    Mulh(RType),
    Mulhsu(RType),
    Mulhu(RType),
    Div(RType),
    Divu(RType),
    Rem(RType),
    Remu(RType),
    // Fences
    Fence(FenceType),
    FenceI,
    // System
    Ecall,
    Ebreak,
    Uret,
    Sret,
    Mret,
    Wfi,
    SfenceVma(RType),
    Csrrw(CsrType),
    Csrrs(CsrType),
    Csrrc(CsrType),
    Csrrwi(CsrIType),
    Csrrsi(CsrIType),
    Csrrci(CsrIType),
    // 32-bit operations with an immediate
    Addiw(IType),
    Slliw(ShiftType),
    Srliw(ShiftType),
    Sraiw(ShiftType),
    // 32-bit operations on registers
    Addw(RType),
    Subw(RType),
    Sllw(RType),
    Srlw(RType),
    Sraw(RType),
    Mulw(RType),
    Divw(RType),
    Divuw(RType),
    Remw(RType),
    Remuw(RType),
    // The all-zero word, which the ISA keeps illegal
    Illegal,
}

impl Instruction {
    /// The word that the carrier of an instruction holds. An instruction
    /// without operands has no carrier.
    pub open spec fn spec_word(self) -> Option<u32> {
        match self {
            Instruction::Lui(c) | Instruction::Auipc(c) => Some(c.0),
            Instruction::Jal(c) => Some(c.0),
            Instruction::Jalr(c) | Instruction::Lb(c) | Instruction::Lh(c) | Instruction::Lw(c)
            | Instruction::Lbu(c) | Instruction::Lhu(c) | Instruction::Lwu(c)
            | Instruction::Ld(c) | Instruction::Addi(c) | Instruction::Slti(c)
            | Instruction::Sltiu(c) | Instruction::Xori(c) | Instruction::Ori(c)
            | Instruction::Andi(c) | Instruction::Addiw(c) => Some(c.0),
            Instruction::Beq(c) | Instruction::Bne(c) | Instruction::Blt(c)
            | Instruction::Bge(c) | Instruction::Bltu(c) | Instruction::Bgeu(c) => Some(c.0),
            Instruction::Sb(c) | Instruction::Sh(c) | Instruction::Sw(c) | Instruction::Sd(c) => Some(c.0),
            Instruction::Slli(c) | Instruction::Srli(c) | Instruction::Srai(c)
            | Instruction::Slliw(c) | Instruction::Srliw(c) | Instruction::Sraiw(c) => Some(c.0),
            Instruction::Add(c) | Instruction::Sub(c) | Instruction::Sll(c)
            | Instruction::Slt(c) | Instruction::Sltu(c) | Instruction::Xor(c)
            | Instruction::Srl(c) | Instruction::Sra(c) | Instruction::Or(c)
            | Instruction::And(c) | Instruction::Mul(c) | Instruction::Mulh(c)
            | Instruction::Mulhsu(c) | Instruction::Mulhu(c) | Instruction::Div(c)
            | Instruction::Divu(c) | Instruction::Rem(c) | Instruction::Remu(c)
            | Instruction::SfenceVma(c) | Instruction::Addw(c) | Instruction::Subw(c)
            | Instruction::Sllw(c) | Instruction::Srlw(c) | Instruction::Sraw(c)
            | Instruction::Mulw(c) | Instruction::Divw(c) | Instruction::Divuw(c)
            | Instruction::Remw(c) | Instruction::Remuw(c) => Some(c.0),
            Instruction::Fence(c) => Some(c.0),
            Instruction::Csrrw(c) | Instruction::Csrrs(c) | Instruction::Csrrc(c) => Some(c.0),
            Instruction::Csrrwi(c) | Instruction::Csrrsi(c) | Instruction::Csrrci(c) => Some(c.0),
            _ => None,
        }
    }
}

} // verus!
