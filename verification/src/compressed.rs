//! The compressed (16-bit) instructions: their fields and immediates, the
//! table that says which encodings are legal, the expansion of a legal
//! encoding into the standard word that it stands for, and the direct decoder
//! of quadrant 0.

use vstd::prelude::*;
use crate::encoding::{
    b_word, encode_b, encode_i, encode_j, encode_r, encode_s, encode_u, i_word, j_word, r_word,
    s_word, u_word,
};
use crate::instruction::{from_twos_complement, lemma_mask_bounds, IType, Instruction, SType};
use crate::{DecodingError, DecodingResult};

verus! {

/// What the expander returns for a halfword that it does not expand. All
/// bits are set: the opcode field alone shows that no expansion looks so.
pub const SENTINEL: u32 = 0xffff_ffff;

/// Bits 1:0 of a halfword: its quadrant.
pub open spec fn quadrant(h: u32) -> u32 {
    h & 0x3
}

/// Bits 15:13 of a halfword: the sub-form within its quadrant.
pub open spec fn c_funct3(h: u32) -> u32 {
    (h >> 13) & 0x7
}

/// Bits 11:7 of a halfword: a full register index, rd or rs1.
pub open spec fn c_rd(h: u32) -> u32 {
    (h >> 7) & 0x1f
}

/// Bits 6:2 of a halfword: a full register index, rs2.
pub open spec fn c_rs2(h: u32) -> u32 {
    (h >> 2) & 0x1f
}

/// The register x8 to x15 that the three-bit field in bits 9:7 names: rs1'
/// of the loads, stores and branches, rd' of the arithmetic forms.
pub open spec fn c_rs1_prime(h: u32) -> u32 {
    (((h >> 7) & 0x7) + 8) as u32
}

/// The register x8 to x15 that the three-bit field in bits 4:2 names: rd' of
/// the loads and of C.ADDI4SPN, rs2' of the stores and the arithmetic forms.
pub open spec fn c_rs2_prime(h: u32) -> u32 {
    (((h >> 2) & 0x7) + 8) as u32
}

/// Bits 11:10 of a halfword: the sub-form among the arithmetic forms of
/// quadrant 1.
pub open spec fn c_funct2(h: u32) -> u32 {
    (h >> 10) & 0x3
}

/// The immediate of C.ADDI4SPN: nzuimm[5:4] in bits 12:11, nzuimm[9:6] in
/// 10:7, nzuimm[2] in bit 6 and nzuimm[3] in bit 5; unsigned.
pub open spec fn spec_addi4spn_imm(h: u32) -> int {
    ((h >> 6) & 1) * 4 + ((h >> 5) & 1) * 8 + ((h >> 11) & 0x3) * 16 + ((h >> 7) & 0xf) * 64
}

/// The offset of the doubleword loads and stores on a register: uimm[5:3]
/// in bits 12:10 and uimm[7:6] in 6:5; unsigned.
pub open spec fn spec_d_offset(h: u32) -> int {
    ((h >> 10) & 0x7) * 8 + ((h >> 5) & 0x3) * 64
}

/// The offset of the word loads and stores on a register: uimm[5:3] in bits
/// 12:10, uimm[2] in bit 6 and uimm[6] in bit 5; unsigned.
pub open spec fn spec_w_offset(h: u32) -> int {
    ((h >> 6) & 1) * 4 + ((h >> 10) & 0x7) * 8 + ((h >> 5) & 1) * 64
}

/// The six-bit immediate of C.ADDI, C.ADDIW, C.LI and C.ANDI: imm[5] in bit
/// 12 and imm[4:0] in bits 6:2; sign-extended from imm[5].
pub open spec fn spec_ci_imm(h: u32) -> int {
    from_twos_complement(((h >> 12) & 1) * 32 + ((h >> 2) & 0x1f), 32)
}

/// The immediate of C.ADDI16SP: nzimm[9] in bit 12, nzimm[4] in bit 6,
/// nzimm[6] in bit 5, nzimm[8:7] in bits 4:3 and nzimm[5] in bit 2;
/// sign-extended from nzimm[9].
pub open spec fn spec_addi16sp_imm(h: u32) -> int {
    from_twos_complement(
        ((h >> 12) & 1) * 512 + ((h >> 6) & 1) * 16 + ((h >> 5) & 1) * 64 + ((h >> 3) & 0x3) * 128
            + ((h >> 2) & 1) * 32,
        512,
    )
}

/// The immediate of C.LUI as the U-type immediate that it expands to:
/// nzimm[17] in bit 12 and nzimm[16:12] in bits 6:2, sign-extended from
/// nzimm[17] to 32 bits and read as an unsigned number.
pub open spec fn spec_lui_imm(h: u32) -> int {
    let v = spec_ci_imm(h) * 4096;
    if v < 0 {
        v + 0x1_0000_0000
    } else {
        v
    }
}

/// The shift amount of C.SLLI, C.SRLI and C.SRAI: shamt[5] in bit 12 and
/// shamt[4:0] in bits 6:2; unsigned.
pub open spec fn spec_shamt(h: u32) -> int {
    ((h >> 12) & 1) * 32 + ((h >> 2) & 0x1f)
}

/// The offset of C.J: offset[11] in bit 12, offset[4] in bit 11,
/// offset[9:8] in bits 10:9, offset[10] in bit 8, offset[6] in bit 7,
/// offset[7] in bit 6, offset[3:1] in bits 5:3 and offset[5] in bit 2;
/// sign-extended from offset[11].
pub open spec fn spec_j_offset(h: u32) -> int {
    from_twos_complement(
        ((h >> 12) & 1) * 2048 + ((h >> 11) & 1) * 16 + ((h >> 9) & 0x3) * 256 + ((h >> 8) & 1)
            * 1024 + ((h >> 7) & 1) * 64 + ((h >> 6) & 1) * 128 + ((h >> 3) & 0x7) * 2 + ((h >> 2)
            & 1) * 32,
        2048,
    )
}

/// The offset of C.BEQZ and C.BNEZ: offset[8] in bit 12, offset[4:3] in bits
/// 11:10, offset[7:6] in bits 6:5, offset[2:1] in bits 4:3 and offset[5] in
/// bit 2; sign-extended from offset[8].
pub open spec fn spec_b_offset(h: u32) -> int {
    from_twos_complement(
        ((h >> 12) & 1) * 256 + ((h >> 10) & 0x3) * 8 + ((h >> 5) & 0x3) * 64 + ((h >> 3) & 0x3)
            * 2 + ((h >> 2) & 1) * 32,
        256,
    )
}

/// The offset of the doubleword loads from the stack: uimm[5] in bit 12,
/// uimm[4:3] in bits 6:5 and uimm[8:6] in bits 4:2; unsigned.
pub open spec fn spec_ldsp_offset(h: u32) -> int {
    ((h >> 12) & 1) * 32 + ((h >> 5) & 0x3) * 8 + ((h >> 2) & 0x7) * 64
}

/// The offset of the word load from the stack: uimm[5] in bit 12, uimm[4:2]
/// in bits 6:4 and uimm[7:6] in bits 3:2; unsigned.
pub open spec fn spec_lwsp_offset(h: u32) -> int {
    ((h >> 12) & 1) * 32 + ((h >> 4) & 0x7) * 4 + ((h >> 2) & 0x3) * 64
}

/// The offset of the doubleword stores to the stack: uimm[5:3] in bits
/// 12:10 and uimm[8:6] in bits 9:7; unsigned.
pub open spec fn spec_sdsp_offset(h: u32) -> int {
    ((h >> 10) & 0x7) * 8 + ((h >> 7) & 0x7) * 64
}

/// The offset of the word store to the stack: uimm[5:2] in bits 12:9 and
/// uimm[7:6] in bits 8:7; unsigned.
pub open spec fn spec_swsp_offset(h: u32) -> int {
    ((h >> 9) & 0xf) * 4 + ((h >> 7) & 0x3) * 64
}

/// The unsigned immediates of the loads and stores on a register and of
/// C.ADDI4SPN, assembled with shifts and masks, are the sums of their parts.
proof fn lemma_register_form_immediates(h: u32)
    by (bit_vector)
    ensures
        ((h >> 7) & 0x30) | ((h >> 1) & 0x3c0) | ((h >> 4) & 0x4) | ((h >> 2) & 0x8) == ((h >> 6)
            & 1) * 4 + ((h >> 5) & 1) * 8 + ((h >> 11) & 0x3) * 16 + ((h >> 7) & 0xf) * 64,
        ((h >> 7) & 0x38) | ((h << 1) & 0xc0) == ((h >> 10) & 0x7) * 8 + ((h >> 5) & 0x3) * 64,
        ((h >> 7) & 0x38) | ((h >> 4) & 0x4) | ((h << 1) & 0x40) == ((h >> 6) & 1) * 4 + ((h >> 10)
            & 0x7) * 8 + ((h >> 5) & 1) * 64,
        ((h >> 6) & 1) * 4 + ((h >> 5) & 1) * 8 + ((h >> 11) & 0x3) * 16 + ((h >> 7) & 0xf) * 64
            < 1024,
        ((h >> 10) & 0x7) * 8 + ((h >> 5) & 0x3) * 64 < 256,
        ((h >> 6) & 1) * 4 + ((h >> 10) & 0x7) * 8 + ((h >> 5) & 1) * 64 < 128,
{
}

/// The immediates of the forms with a full register in bits 11:7,
/// assembled with shifts and masks, are the sums of their parts.
proof fn lemma_full_register_form_immediates(h: u32)
    by (bit_vector)
    ensures
        ((h >> 7) & 0x20) | ((h >> 2) & 0x1f) == ((h >> 12) & 1) * 32 + ((h >> 2) & 0x1f),
        ((h >> 12) & 1) * 32 + ((h >> 2) & 0x1f) < 64,
        ((h >> 3) & 0x200) | ((h >> 2) & 0x10) | ((h << 1) & 0x40) | ((h << 4) & 0x180) | ((h << 3)
            & 0x20) == ((h >> 12) & 1) * 512 + ((h >> 6) & 1) * 16 + ((h >> 5) & 1) * 64 + ((h
            >> 3) & 0x3) * 128 + ((h >> 2) & 1) * 32,
        ((h >> 12) & 1) * 512 + ((h >> 6) & 1) * 16 + ((h >> 5) & 1) * 64 + ((h >> 3) & 0x3) * 128
            + ((h >> 2) & 1) * 32 < 1024,
        h & 0x1000 == 0x1000 ==> 0xfffc0000u32 | ((h << 5) & 0x20000) | ((h << 10) & 0x1f000) == (((h
            >> 12) & 1) * 32 + ((h >> 2) & 0x1f)) * 4096 + 0xfffc0000 && ((h >> 12) & 1) * 32 + ((h
            >> 2) & 0x1f) >= 32,
        h & 0x1000 != 0x1000 ==> 0u32 | ((h << 5) & 0x20000) | ((h << 10) & 0x1f000) == (((h >> 12)
            & 1) * 32 + ((h >> 2) & 0x1f)) * 4096 && ((h >> 12) & 1) * 32 + ((h >> 2) & 0x1f) < 32,
        ((h >> 7) & 0x20) | ((h >> 2) & 0x18) | ((h << 4) & 0x1c0) == ((h >> 12) & 1) * 32 + ((h
            >> 5) & 0x3) * 8 + ((h >> 2) & 0x7) * 64,
        ((h >> 12) & 1) * 32 + ((h >> 5) & 0x3) * 8 + ((h >> 2) & 0x7) * 64 < 512,
        ((h >> 7) & 0x20) | ((h >> 2) & 0x1c) | ((h << 4) & 0xc0) == ((h >> 12) & 1) * 32 + ((h
            >> 4) & 0x7) * 4 + ((h >> 2) & 0x3) * 64,
        ((h >> 12) & 1) * 32 + ((h >> 4) & 0x7) * 4 + ((h >> 2) & 0x3) * 64 < 256,
        ((h >> 7) & 0x38) | ((h >> 1) & 0x1c0) == ((h >> 10) & 0x7) * 8 + ((h >> 7) & 0x7) * 64,
        ((h >> 10) & 0x7) * 8 + ((h >> 7) & 0x7) * 64 < 512,
        ((h >> 7) & 0x3c) | ((h >> 1) & 0xc0) == ((h >> 9) & 0xf) * 4 + ((h >> 7) & 0x3) * 64,
        ((h >> 9) & 0xf) * 4 + ((h >> 7) & 0x3) * 64 < 256,
{
}

/// The offsets of the jump and of the two branches, assembled with shifts
/// and masks, are the sums of their parts, and even.
proof fn lemma_control_transfer_offsets(h: u32)
    by (bit_vector)
    ensures
        ((h >> 1) & 0x800) | ((h >> 7) & 0x10) | ((h >> 1) & 0x300) | ((h << 2) & 0x400) | ((h >> 1)
            & 0x40) | ((h << 1) & 0x80) | ((h >> 2) & 0xe) | ((h << 3) & 0x20) == ((h >> 12) & 1)
            * 2048 + ((h >> 11) & 1) * 16 + ((h >> 9) & 0x3) * 256 + ((h >> 8) & 1) * 1024 + ((h
            >> 7) & 1) * 64 + ((h >> 6) & 1) * 128 + ((h >> 3) & 0x7) * 2 + ((h >> 2) & 1) * 32,
        (((h >> 1) & 0x800) | ((h >> 7) & 0x10) | ((h >> 1) & 0x300) | ((h << 2) & 0x400) | ((h >> 1)
            & 0x40) | ((h << 1) & 0x80) | ((h >> 2) & 0xe) | ((h << 3) & 0x20)) % 2 == 0,
        ((h >> 12) & 1) * 2048 + ((h >> 11) & 1) * 16 + ((h >> 9) & 0x3) * 256 + ((h >> 8) & 1)
            * 1024 + ((h >> 7) & 1) * 64 + ((h >> 6) & 1) * 128 + ((h >> 3) & 0x7) * 2 + ((h >> 2)
            & 1) * 32 < 4096,
        ((h >> 4) & 0x100) | ((h >> 7) & 0x18) | ((h << 1) & 0xc0) | ((h >> 2) & 0x6) | ((h << 3)
            & 0x20) == ((h >> 12) & 1) * 256 + ((h >> 10) & 0x3) * 8 + ((h >> 5) & 0x3) * 64 + ((h
            >> 3) & 0x3) * 2 + ((h >> 2) & 1) * 32,
        (((h >> 4) & 0x100) | ((h >> 7) & 0x18) | ((h << 1) & 0xc0) | ((h >> 2) & 0x6) | ((h << 3)
            & 0x20)) % 2 == 0,
        ((h >> 12) & 1) * 256 + ((h >> 10) & 0x3) * 8 + ((h >> 5) & 0x3) * 64 + ((h >> 3) & 0x3) * 2
            + ((h >> 2) & 1) * 32 < 512,
{
}

/// The immediate of C.ADDI4SPN.
pub fn addi4spn_imm(h: u32) -> (r: u32)
    ensures
        r == spec_addi4spn_imm(h),
        r < 1024,
{
    proof {
        lemma_register_form_immediates(h);
    }
    ((h >> 7) & 0x30) | ((h >> 1) & 0x3c0) | ((h >> 4) & 0x4) | ((h >> 2) & 0x8)
}

/// The offset of C.FLD, C.LD, C.FSD and C.SD.
pub fn d_offset(h: u32) -> (r: u32)
    ensures
        r == spec_d_offset(h),
        r < 256,
{
    proof {
        lemma_register_form_immediates(h);
    }
    ((h >> 7) & 0x38) | ((h << 1) & 0xc0)
}

/// The offset of C.LW and C.SW.
pub fn w_offset(h: u32) -> (r: u32)
    ensures
        r == spec_w_offset(h),
        r < 128,
{
    proof {
        lemma_register_form_immediates(h);
    }
    ((h >> 7) & 0x38) | ((h >> 4) & 0x4) | ((h << 1) & 0x40)
}

/// The immediate of C.ADDI, C.ADDIW, C.LI and C.ANDI.
pub fn ci_imm(h: u32) -> (r: i32)
    ensures
        r == spec_ci_imm(h),
        -32 <= r < 32,
{
    proof {
        lemma_full_register_form_immediates(h);
    }
    let raw: u32 = ((h >> 7) & 0x20) | ((h >> 2) & 0x1f);
    if raw >= 32 {
        raw as i32 - 64
    } else {
        raw as i32
    }
}

/// The immediate of C.ADDI16SP.
pub fn addi16sp_imm(h: u32) -> (r: i32)
    ensures
        r == spec_addi16sp_imm(h),
        -512 <= r < 512,
{
    proof {
        lemma_full_register_form_immediates(h);
    }
    let raw: u32 = ((h >> 3) & 0x200) | ((h >> 2) & 0x10) | ((h << 1) & 0x40) | ((h << 4) & 0x180)
        | ((h << 3) & 0x20);
    if raw >= 512 {
        raw as i32 - 1024
    } else {
        raw as i32
    }
}

/// The immediate of C.LUI, as the unsigned upper immediate of the LUI that
/// it expands to.
pub fn lui_imm(h: u32) -> (r: u32)
    ensures
        r == spec_lui_imm(h),
        r % 4096 == 0,
{
    proof {
        lemma_full_register_form_immediates(h);
    }
    let sign: u32 = match h & 0x1000 {
        0x1000 => 0xfffc0000,
        _ => 0,
    };
    sign | ((h << 5) & 0x20000) | ((h << 10) & 0x1f000)
}

/// The shift amount of C.SLLI, C.SRLI and C.SRAI.
pub fn shamt(h: u32) -> (r: u32)
    ensures
        r == spec_shamt(h),
        r < 64,
{
    proof {
        lemma_full_register_form_immediates(h);
    }
    ((h >> 7) & 0x20) | ((h >> 2) & 0x1f)
}

/// The offset of C.J.
pub fn j_offset(h: u32) -> (r: i32)
    ensures
        r == spec_j_offset(h),
        -2048 <= r < 2048,
        r % 2 == 0,
{
    proof {
        lemma_control_transfer_offsets(h);
    }
    let raw: u32 = ((h >> 1) & 0x800) | ((h >> 7) & 0x10) | ((h >> 1) & 0x300) | ((h << 2) & 0x400)
        | ((h >> 1) & 0x40) | ((h << 1) & 0x80) | ((h >> 2) & 0xe) | ((h << 3) & 0x20);
    if raw >= 2048 {
        raw as i32 - 4096
    } else {
        raw as i32
    }
}

/// The offset of C.BEQZ and C.BNEZ.
pub fn b_offset(h: u32) -> (r: i32)
    ensures
        r == spec_b_offset(h),
        -256 <= r < 256,
        r % 2 == 0,
{
    proof {
        lemma_control_transfer_offsets(h);
    }
    let raw: u32 = ((h >> 4) & 0x100) | ((h >> 7) & 0x18) | ((h << 1) & 0xc0) | ((h >> 2) & 0x6) | ((h
        << 3) & 0x20);
    if raw >= 256 {
        raw as i32 - 512
    } else {
        raw as i32
    }
}

/// The offset of C.FLDSP and C.LDSP.
pub fn ldsp_offset(h: u32) -> (r: u32)
    ensures
        r == spec_ldsp_offset(h),
        r < 512,
{
    proof {
        lemma_full_register_form_immediates(h);
    }
    ((h >> 7) & 0x20) | ((h >> 2) & 0x18) | ((h << 4) & 0x1c0)
}

/// The offset of C.LWSP.
pub fn lwsp_offset(h: u32) -> (r: u32)
    ensures
        r == spec_lwsp_offset(h),
        r < 256,
{
    proof {
        lemma_full_register_form_immediates(h);
    }
    ((h >> 7) & 0x20) | ((h >> 2) & 0x1c) | ((h << 4) & 0xc0)
}

/// The offset of C.FSDSP and C.SDSP.
pub fn sdsp_offset(h: u32) -> (r: u32)
    ensures
        r == spec_sdsp_offset(h),
        r < 512,
{
    proof {
        lemma_full_register_form_immediates(h);
    }
    ((h >> 7) & 0x38) | ((h >> 1) & 0x1c0)
}

/// The offset of C.SWSP.
pub fn swsp_offset(h: u32) -> (r: u32)
    ensures
        r == spec_swsp_offset(h),
        r < 256,
{
    proof {
        lemma_full_register_form_immediates(h);
    }
    ((h >> 7) & 0x3c) | ((h >> 1) & 0xc0)
}

/// Whether a halfword is an instruction, and if not, why not.
#[derive(Copy, Clone, Debug, PartialEq, Eq, Structural)]
pub enum Legality {
    /// An instruction of the C extension.
    Legal,
    /// An encoding that the ISA reserves.
    Reserved,
    /// An encoding that the ISA sets aside for hints. Hints are not expanded.
    Hint,
    /// A halfword of quadrant 3, where a standard 32-bit instruction begins.
    NotCompressed,
}

/// The legality of every halfword, by quadrant and sub-form. Only bits 15:0
/// count.
///
/// Quadrant 0: C.ADDI4SPN with a zero immediate is reserved (this includes
/// the all-zero halfword), and so is sub-form 100.
///
/// Quadrant 1: C.NOP has rd = 0 and a zero immediate; C.ADDI has neither;
/// one of the two alone is a hint. C.ADDIW with rd = 0 is reserved. C.LI
/// with rd = 0 is a hint. C.ADDI16SP (rd = 2) and C.LUI with a zero
/// immediate are reserved, and C.LUI with rd = 0 is a hint. C.SRLI and
/// C.SRAI with a zero shift amount are hints. Of the register-register
/// forms with bit 12 set, only C.SUBW and C.ADDW exist.
///
/// Quadrant 2: C.SLLI with rd = 0 or a zero shift amount is a hint. C.LWSP
/// and C.LDSP with rd = 0 are reserved. C.JR with rs1 = 0 is reserved;
/// C.MV and C.ADD with rd = 0 are hints.
pub open spec fn spec_legality(h: u32) -> Legality {
    match (quadrant(h), c_funct3(h)) {
        (0, 0) => if spec_addi4spn_imm(h) == 0 {
            Legality::Reserved
        } else {
            Legality::Legal
        },
        (0, 4) => Legality::Reserved,
        (0, _) => Legality::Legal,
        (1, 0) => if (c_rd(h) == 0) == (spec_ci_imm(h) == 0) {
            Legality::Legal
        } else {
            Legality::Hint
        },
        (1, 1) => if c_rd(h) == 0 {
            Legality::Reserved
        } else {
            Legality::Legal
        },
        (1, 2) => if c_rd(h) == 0 {
            Legality::Hint
        } else {
            Legality::Legal
        },
        (1, 3) => if c_rd(h) == 2 {
            if spec_addi16sp_imm(h) == 0 {
                Legality::Reserved
            } else {
                Legality::Legal
            }
        } else if spec_lui_imm(h) == 0 {
            Legality::Reserved
        } else if c_rd(h) == 0 {
            Legality::Hint
        } else {
            Legality::Legal
        },
        (1, 4) => match c_funct2(h) {
            0 | 1 => if spec_shamt(h) == 0 {
                Legality::Hint
            } else {
                Legality::Legal
            },
            2 => Legality::Legal,
            _ => if (h >> 12) & 1 == 1 && (h >> 5) & 0x3 >= 2 {
                Legality::Reserved
            } else {
                Legality::Legal
            },
        },
        (1, _) => Legality::Legal,
        (2, 0) => if c_rd(h) == 0 || spec_shamt(h) == 0 {
            Legality::Hint
        } else {
            Legality::Legal
        },
        (2, 1) => Legality::Legal,
        (2, 2) | (2, 3) => if c_rd(h) == 0 {
            Legality::Reserved
        } else {
            Legality::Legal
        },
        (2, 4) => if c_rs2(h) == 0 {
            if c_rd(h) == 0 && (h >> 12) & 1 == 0 {
                Legality::Reserved
            } else {
                Legality::Legal
            }
        } else if c_rd(h) == 0 {
            Legality::Hint
        } else {
            Legality::Legal
        },
        (2, _) => Legality::Legal,
        _ => Legality::NotCompressed,
    }
}

/// The standard word that a legal halfword stands for, by quadrant and
/// sub-form. (On a halfword that is not legal the value has no meaning.)
///
/// | form       | expansion                       |
/// |------------|---------------------------------|
/// | C.ADDI4SPN | `addi rd', x2, nzuimm`          |
/// | C.FLD      | `fld rd', offset(rs1')`         |
/// | C.LW       | `lw rd', offset(rs1')`          |
/// | C.LD       | `ld rd', offset(rs1')`          |
/// | C.FSD      | `fsd rs2', offset(rs1')`        |
/// | C.SW       | `sw rs2', offset(rs1')`         |
/// | C.SD       | `sd rs2', offset(rs1')`         |
/// | C.NOP      | `addi x0, x0, 0`                |
/// | C.ADDI     | `addi rd, rd, nzimm`            |
/// | C.ADDIW    | `addiw rd, rd, imm`             |
/// | C.LI       | `addi rd, x0, imm`              |
/// | C.ADDI16SP | `addi x2, x2, nzimm`            |
/// | C.LUI      | `lui rd, nzimm`                 |
/// | C.SRLI     | `srli rd', rd', shamt`          |
/// | C.SRAI     | `srai rd', rd', shamt`          |
/// | C.ANDI     | `andi rd', rd', imm`            |
/// | C.SUB      | `sub rd', rd', rs2'`            |
/// | C.XOR      | `xor rd', rd', rs2'`            |
/// | C.OR       | `or rd', rd', rs2'`             |
/// | C.AND      | `and rd', rd', rs2'`            |
/// | C.SUBW     | `subw rd', rd', rs2'`           |
/// | C.ADDW     | `addw rd', rd', rs2'`           |
/// | C.J        | `jal x0, offset`                |
/// | C.BEQZ     | `beq rs1', x0, offset`          |
/// | C.BNEZ     | `bne rs1', x0, offset`          |
/// | C.SLLI     | `slli rd, rd, shamt`            |
/// | C.FLDSP    | `fld rd, offset(x2)`            |
/// | C.LWSP     | `lw rd, offset(x2)`             |
/// | C.LDSP     | `ld rd, offset(x2)`             |
/// | C.JR       | `jalr x0, 0(rs1)`               |
/// | C.MV       | `add rd, x0, rs2`               |
/// | C.EBREAK   | `ebreak`                        |
/// | C.JALR     | `jalr x1, 0(rs1)`               |
/// | C.ADD      | `add rd, rd, rs2`               |
/// | C.FSDSP    | `fsd rs2, offset(x2)`           |
/// | C.SWSP     | `sw rs2, offset(x2)`            |
/// | C.SDSP     | `sd rs2, offset(x2)`            |
pub open spec fn spec_expansion(h: u32) -> u32 {
    let rd = c_rd(h);
    let rs2 = c_rs2(h);
    let rs1p = c_rs1_prime(h);
    let rs2p = c_rs2_prime(h);
    match (quadrant(h), c_funct3(h)) {
        (0, 0) => i_word(0x13, rs2p, 0, 2, spec_addi4spn_imm(h)),
        (0, 1) => i_word(0x07, rs2p, 3, rs1p, spec_d_offset(h)),
        (0, 2) => i_word(0x03, rs2p, 2, rs1p, spec_w_offset(h)),
        (0, 3) => i_word(0x03, rs2p, 3, rs1p, spec_d_offset(h)),
        (0, 5) => s_word(0x27, 3, rs1p, rs2p, spec_d_offset(h)),
        (0, 6) => s_word(0x23, 2, rs1p, rs2p, spec_w_offset(h)),
        (0, 7) => s_word(0x23, 3, rs1p, rs2p, spec_d_offset(h)),
        (1, 0) => i_word(0x13, rd, 0, rd, spec_ci_imm(h)),
        (1, 1) => i_word(0x1b, rd, 0, rd, spec_ci_imm(h)),
        (1, 2) => i_word(0x13, rd, 0, 0, spec_ci_imm(h)),
        (1, 3) => if rd == 2 {
            i_word(0x13, 2, 0, 2, spec_addi16sp_imm(h))
        } else {
            u_word(0x37, rd, spec_lui_imm(h))
        },
        (1, 4) => match c_funct2(h) {
            0 => i_word(0x13, rs1p, 5, rs1p, spec_shamt(h)),
            1 => i_word(0x13, rs1p, 5, rs1p, 0x400 + spec_shamt(h)),
            2 => i_word(0x13, rs1p, 7, rs1p, spec_ci_imm(h)),
            _ => match ((h >> 12) & 1, (h >> 5) & 0x3) {
                (0, 0) => r_word(0x33, rs1p, 0, rs1p, rs2p, 0x20),
                (0, 1) => r_word(0x33, rs1p, 4, rs1p, rs2p, 0),
                (0, 2) => r_word(0x33, rs1p, 6, rs1p, rs2p, 0),
                (0, _) => r_word(0x33, rs1p, 7, rs1p, rs2p, 0),
                (_, 0) => r_word(0x3b, rs1p, 0, rs1p, rs2p, 0x20),
                (_, _) => r_word(0x3b, rs1p, 0, rs1p, rs2p, 0),
            },
        },
        (1, 5) => j_word(0x6f, 0, spec_j_offset(h)),
        (1, 6) => b_word(0x63, 0, rs1p, 0, spec_b_offset(h)),
        (1, 7) => b_word(0x63, 1, rs1p, 0, spec_b_offset(h)),
        (2, 0) => i_word(0x13, rd, 1, rd, spec_shamt(h)),
        (2, 1) => i_word(0x07, rd, 3, 2, spec_ldsp_offset(h)),
        (2, 2) => i_word(0x03, rd, 2, 2, spec_lwsp_offset(h)),
        (2, 3) => i_word(0x03, rd, 3, 2, spec_ldsp_offset(h)),
        (2, 4) => if (h >> 12) & 1 == 0 {
            if rs2 == 0 {
                i_word(0x67, 0, 0, rd, 0)
            } else {
                r_word(0x33, rd, 0, 0, rs2, 0)
            }
        } else {
            if rs2 == 0 {
                if rd == 0 {
                    0x0010_0073
                } else {
                    i_word(0x67, 1, 0, rd, 0)
                }
            } else {
                r_word(0x33, rd, 0, rd, rs2, 0)
            }
        },
        (2, 5) => s_word(0x27, 3, 2, rs2, spec_sdsp_offset(h)),
        (2, 6) => s_word(0x23, 2, 2, rs2, spec_swsp_offset(h)),
        (2, 7) => s_word(0x23, 3, 2, rs2, spec_sdsp_offset(h)),
        _ => SENTINEL,
    }
}

/// What the expander returns: the expansion of a legal halfword, and the
/// sentinel for every other.
pub open spec fn spec_uncompress(h: u32) -> u32 {
    if spec_legality(h) == Legality::Legal {
        spec_expansion(h)
    } else {
        SENTINEL
    }
}

/// The full register in bits 11:7.
fn rd_of(h: u32) -> (r: u32)
    ensures
        r == c_rd(h),
        r < 32,
{
    proof {
        lemma_mask_bounds(h >> 7);
    }
    (h >> 7) & 0x1f
}

/// The full register in bits 6:2.
fn rs2_of(h: u32) -> (r: u32)
    ensures
        r == c_rs2(h),
        r < 32,
{
    proof {
        lemma_mask_bounds(h >> 2);
    }
    (h >> 2) & 0x1f
}

/// The register x8 to x15 named in bits 9:7.
fn rs1_prime_of(h: u32) -> (r: u32)
    ensures
        r == c_rs1_prime(h),
        8 <= r < 16,
{
    proof {
        lemma_mask_bounds(h >> 7);
    }
    ((h >> 7) & 0x7) + 8
}

/// The register x8 to x15 named in bits 4:2.
fn rs2_prime_of(h: u32) -> (r: u32)
    ensures
        r == c_rs2_prime(h),
        8 <= r < 16,
{
    proof {
        lemma_mask_bounds(h >> 2);
    }
    ((h >> 2) & 0x7) + 8
}

/// Expands a compressed instruction into the standard 32-bit word that it
/// stands for. Returns `SENTINEL` for a halfword that is reserved, a hint,
/// or no compressed encoding. Only bits 15:0 of the argument count.
pub fn uncompress(halfword: u32) -> (word: u32)
    ensures
        word == spec_uncompress(halfword),
{
    let op = halfword & 0x3;
    let funct3 = (halfword >> 13) & 0x7;
    proof {
        lemma_mask_bounds(halfword);
        lemma_mask_bounds(halfword >> 13);
        lemma_mask_bounds(halfword >> 12);
        lemma_mask_bounds(halfword >> 10);
        lemma_mask_bounds(halfword >> 5);
    }
    match op {
        0 => match funct3 {
            0 => {
                // C.ADDI4SPN
                let rd = rs2_prime_of(halfword);
                let nzuimm = addi4spn_imm(halfword);
                if nzuimm != 0 {
                    return encode_i(0x13, rd, 0, 2, nzuimm as i32);
                }
            },
            1 => {
                // C.FLD
                let rd = rs2_prime_of(halfword);
                let rs1 = rs1_prime_of(halfword);
                return encode_i(0x07, rd, 3, rs1, d_offset(halfword) as i32);
            },
            2 => {
                // C.LW
                let rd = rs2_prime_of(halfword);
                let rs1 = rs1_prime_of(halfword);
                return encode_i(0x03, rd, 2, rs1, w_offset(halfword) as i32);
            },
            3 => {
                // C.LD
                let rd = rs2_prime_of(halfword);
                let rs1 = rs1_prime_of(halfword);
                return encode_i(0x03, rd, 3, rs1, d_offset(halfword) as i32);
            },
            4 => {
                // reserved
            },
            5 => {
                // C.FSD
                let rs1 = rs1_prime_of(halfword);
                let rs2 = rs2_prime_of(halfword);
                return encode_s(0x27, 3, rs1, rs2, d_offset(halfword) as i32);
            },
            6 => {
                // C.SW
                let rs1 = rs1_prime_of(halfword);
                let rs2 = rs2_prime_of(halfword);
                return encode_s(0x23, 2, rs1, rs2, w_offset(halfword) as i32);
            },
            _ => {
                // C.SD
                let rs1 = rs1_prime_of(halfword);
                let rs2 = rs2_prime_of(halfword);
                return encode_s(0x23, 3, rs1, rs2, d_offset(halfword) as i32);
            },
        },
        1 => match funct3 {
            0 => {
                let r = rd_of(halfword);
                let imm = ci_imm(halfword);
                if r == 0 && imm == 0 {
                    // C.NOP
                    return encode_i(0x13, 0, 0, 0, 0);
                } else if r != 0 && imm != 0 {
                    // C.ADDI
                    return encode_i(0x13, r, 0, r, imm);
                }
                // r == 0 or imm == 0 alone: a hint
            },
            1 => {
                // C.ADDIW
                let r = rd_of(halfword);
                let imm = ci_imm(halfword);
                if r != 0 {
                    return encode_i(0x1b, r, 0, r, imm);
                }
                // r == 0: reserved
            },
            2 => {
                // C.LI
                let r = rd_of(halfword);
                let imm = ci_imm(halfword);
                if r != 0 {
                    return encode_i(0x13, r, 0, 0, imm);
                }
                // r == 0: a hint
            },
            3 => {
                let r = rd_of(halfword);
                if r == 2 {
                    // C.ADDI16SP
                    let imm = addi16sp_imm(halfword);
                    if imm != 0 {
                        return encode_i(0x13, r, 0, r, imm);
                    }
                    // imm == 0: reserved
                }
                if r != 0 && r != 2 {
                    // C.LUI
                    let nzimm = lui_imm(halfword);
                    if nzimm != 0 {
                        return encode_u(0x37, r, nzimm);
                    }
                    // nzimm == 0: reserved
                }
                // r == 0: a hint, or reserved with a zero immediate
            },
            4 => {
                let funct2 = (halfword >> 10) & 0x3;
                match funct2 {
                    0 => {
                        // C.SRLI
                        let amount = shamt(halfword);
                        let rs1 = rs1_prime_of(halfword);
                        if amount != 0 {
                            return encode_i(0x13, rs1, 5, rs1, amount as i32);
                        }
                        // amount == 0: a hint
                    },
                    1 => {
                        // C.SRAI
                        let amount = shamt(halfword);
                        let rs1 = rs1_prime_of(halfword);
                        if amount != 0 {
                            return encode_i(0x13, rs1, 5, rs1, 0x400 + amount as i32);
                        }
                        // amount == 0: a hint
                    },
                    2 => {
                        // C.ANDI
                        let r = rs1_prime_of(halfword);
                        let imm = ci_imm(halfword);
                        return encode_i(0x13, r, 7, r, imm);
                    },
                    _ => {
                        let funct1 = (halfword >> 12) & 1;
                        let funct2_2 = (halfword >> 5) & 0x3;
                        let rs1 = rs1_prime_of(halfword);
                        let rs2 = rs2_prime_of(halfword);
                        match funct1 {
                            0 => match funct2_2 {
                                0 => {
                                    // C.SUB
                                    return encode_r(0x33, rs1, 0, rs1, rs2, 0x20);
                                },
                                1 => {
                                    // C.XOR
                                    return encode_r(0x33, rs1, 4, rs1, rs2, 0);
                                },
                                2 => {
                                    // C.OR
                                    return encode_r(0x33, rs1, 6, rs1, rs2, 0);
                                },
                                _ => {
                                    // C.AND
                                    return encode_r(0x33, rs1, 7, rs1, rs2, 0);
                                },
                            },
                            _ => match funct2_2 {
                                0 => {
                                    // C.SUBW
                                    return encode_r(0x3b, rs1, 0, rs1, rs2, 0x20);
                                },
                                1 => {
                                    // C.ADDW
                                    return encode_r(0x3b, rs1, 0, rs1, rs2, 0);
                                },
                                _ => {
                                    // reserved
                                },
                            },
                        }
                    },
                }
            },
            5 => {
                // C.J
                return encode_j(0x6f, 0, j_offset(halfword));
            },
            6 => {
                // C.BEQZ
                let r = rs1_prime_of(halfword);
                return encode_b(0x63, 0, r, 0, b_offset(halfword));
            },
            _ => {
                // C.BNEZ
                let r = rs1_prime_of(halfword);
                return encode_b(0x63, 1, r, 0, b_offset(halfword));
            },
        },
        2 => match funct3 {
            0 => {
                // C.SLLI
                let r = rd_of(halfword);
                let amount = shamt(halfword);
                if r != 0 && amount != 0 {
                    return encode_i(0x13, r, 1, r, amount as i32);
                }
                // r == 0 or amount == 0: a hint
            },
            1 => {
                // C.FLDSP
                let rd = rd_of(halfword);
                return encode_i(0x07, rd, 3, 2, ldsp_offset(halfword) as i32);
            },
            2 => {
                // C.LWSP
                let r = rd_of(halfword);
                if r != 0 {
                    return encode_i(0x03, r, 2, 2, lwsp_offset(halfword) as i32);
                }
                // r == 0: reserved
            },
            3 => {
                // C.LDSP
                let rd = rd_of(halfword);
                if rd != 0 {
                    return encode_i(0x03, rd, 3, 2, ldsp_offset(halfword) as i32);
                }
                // rd == 0: reserved
            },
            4 => {
                let funct1 = (halfword >> 12) & 1;
                let rs1 = rd_of(halfword);
                let rs2 = rs2_of(halfword);
                match funct1 {
                    0 => {
                        if rs1 != 0 && rs2 == 0 {
                            // C.JR
                            return encode_i(0x67, 0, 0, rs1, 0);
                        }
                        // rs1 == 0 with rs2 == 0: reserved

                        if rs1 != 0 && rs2 != 0 {
                            // C.MV
                            return encode_r(0x33, rs1, 0, 0, rs2, 0);
                        }
                        // rs1 == 0 with rs2 != 0: a hint
                    },
                    _ => {
                        if rs1 == 0 && rs2 == 0 {
                            // C.EBREAK
                            return 0x0010_0073;
                        }
                        if rs1 != 0 && rs2 == 0 {
                            // C.JALR
                            return encode_i(0x67, 1, 0, rs1, 0);
                        }
                        if rs1 != 0 && rs2 != 0 {
                            // C.ADD
                            return encode_r(0x33, rs1, 0, rs1, rs2, 0);
                        }
                        // rs1 == 0 with rs2 != 0: a hint
                    },
                }
            },
            5 => {
                // C.FSDSP
                let rs2 = rs2_of(halfword);
                return encode_s(0x27, 3, 2, rs2, sdsp_offset(halfword) as i32);
            },
            6 => {
                // C.SWSP
                let rs2 = rs2_of(halfword);
                return encode_s(0x23, 2, 2, rs2, swsp_offset(halfword) as i32);
            },
            _ => {
                // C.SDSP
                let rs2 = rs2_of(halfword);
                return encode_s(0x23, 3, 2, rs2, sdsp_offset(halfword) as i32);
            },
        },
        _ => {
            // quadrant 3: not a compressed encoding
        },
    }
    SENTINEL
}

/// The word that the direct decoder of quadrant 0 carries, for the two load
/// and the two store forms: assembled in one step from the bits of the
/// halfword, it is the I-type or S-type word of the expansion.
proof fn lemma_q00_words(i: u32, w: u32, d: u32, rs1p: u32, rs2p: u32)
    by (bit_vector)
    requires
        w == ((i >> 6) & 1) * 4 + ((i >> 10) & 0x7) * 8 + ((i >> 5) & 1) * 64,
        d == ((i >> 10) & 0x7) * 8 + ((i >> 5) & 0x3) * 64,
        rs1p == ((i >> 7) & 0x7) + 8,
        rs2p == ((i >> 2) & 0x7) + 8,
        i <= 0xffff,
    ensures
        ((i & 0x1c00) << 13) | ((i & 0x380) << 8) | ((i & 0x40) << 16) | ((i & 0x20) << 21) | ((i
            & 0x1c) << 5) | 0b_01000_010_01000_0000011 == (w << 20) | (rs1p << 15) | (2u32 << 12) | (
        rs2p << 7) | 0x03,
        ((i & 0x1c00) << 13) | ((i & 0x380) << 8) | ((i & 0x60) << 21) | ((i & 0x1c) << 5)
            | 0b_01000_011_01000_0000011 == (d << 20) | (rs1p << 15) | (3u32 << 12) | (rs2p << 7)
            | 0x03,
        ((i & 0x1000) << 13) | (i & 0xc00) | ((i & 0x380) << 8) | ((i & 0x40) << 3) | ((i & 0x20)
            << 21) | ((i & 0x1c) << 18) | 0b_01000_01000_010_00000_0100011 == (((w >> 5) & 0x7f)
            << 25) | (rs2p << 20) | (rs1p << 15) | (2u32 << 12) | ((w & 0x1f) << 7) | 0x23,
        ((i & 0x1000) << 13) | (i & 0xc00) | ((i & 0x380) << 8) | ((i & 0x60) << 21) | ((i & 0x1c)
            << 18) | 0b_01000_01000_011_00000_0100011 == (((d >> 5) & 0x7f) << 25) | (rs2p << 20)
            | (rs1p << 15) | (3u32 << 12) | ((d & 0x1f) << 7) | 0x23,
{
}

/// What the direct decoder of quadrant 0 gives, by bits 31:13 of its
/// argument: the all-zero word is the illegal instruction; sub-forms 010 and
/// 011 are the loads `lw rd', offset(rs1')` and `ld rd', offset(rs1')`;
/// sub-forms 110 and 111 are the stores `sw rs2', offset(rs1')` and
/// `sd rs2', offset(rs1')`. Everything else is not covered, and neither is
/// an argument with a bit above bit 15 set.
pub open spec fn spec_decode_q00(i: u32) -> DecodingResult {
    let rs1p = c_rs1_prime(i);
    let rs2p = c_rs2_prime(i);
    if i == 0 {
        Ok(Instruction::Illegal)
    } else if i >> 13 == 2 {
        Ok(Instruction::Lw(IType(i_word(0x03, rs2p, 2, rs1p, spec_w_offset(i)))))
    } else if i >> 13 == 3 {
        Ok(Instruction::Ld(IType(i_word(0x03, rs2p, 3, rs1p, spec_d_offset(i)))))
    } else if i >> 13 == 6 {
        Ok(Instruction::Sw(SType(s_word(0x23, 2, rs1p, rs2p, spec_w_offset(i)))))
    } else if i >> 13 == 7 {
        Ok(Instruction::Sd(SType(s_word(0x23, 3, rs1p, rs2p, spec_d_offset(i)))))
    } else {
        Err(DecodingError::Unimplemented)
    }
}

/// Decodes a halfword of quadrant 0 directly.
pub fn decode_q00(i: u32) -> (r: DecodingResult)
    ensures
        r == spec_decode_q00(i),
{
    proof {
        assert((i >> 13 == 2 || i >> 13 == 3 || i >> 13 == 6 || i >> 13 == 7 ==> 0 < i <= 0xffff)
            && (i == 0 ==> i >> 13 == 0)) by (bit_vector);
        if i <= 0xffff {
            lemma_register_form_immediates(i);
            lemma_mask_bounds(i >> 7);
            lemma_mask_bounds(i >> 2);
            lemma_q00_words(
                i,
                spec_w_offset(i) as u32,
                spec_d_offset(i) as u32,
                c_rs1_prime(i),
                c_rs2_prime(i),
            );
        }
    }
    match i >> 13 {
        0b000 if i == 0 => Ok(Instruction::Illegal),
        0b000 => Err(DecodingError::Unimplemented),  // C.ADDI4SPN
        0b001 => Err(DecodingError::Unimplemented),  // C.FLD
        0b010 => Ok(
            Instruction::Lw(
                IType(
                    ((i & 0x1c00) << 13)  // imm[5:3]
                     | ((i & 0x380) << 8)  // rs1[2:0]
                     | ((i & 0x40) << 16)  // imm[2]
                     | ((i & 0x20) << 21)  // imm[6]
                     | ((i & 0x1c) << 5)  // rd[2:0]
                     | 0b_01000_010_01000_0000011,
                ),
            ),
        ),
        0b011 => Ok(
            Instruction::Ld(
                IType(
                    ((i & 0x1c00) << 13)  // imm[5:3]
                     | ((i & 0x380) << 8)  // rs1[2:0]
                     | ((i & 0x60) << 21)  // imm[7:6]
                     | ((i & 0x1c) << 5)  // rd[2:0]
                     | 0b_01000_011_01000_0000011,
                ),
            ),
        ),
        0b100 => Err(DecodingError::Unimplemented),  // reserved
        0b101 => Err(DecodingError::Unimplemented),  // C.FSD
        0b110 => Ok(
            Instruction::Sw(
                SType(
                    ((i & 0x1000) << 13)  // imm[5]
                     | (i & 0xc00)  // imm[4:3]
                     | ((i & 0x380) << 8)  // rs1[2:0]
                     | ((i & 0x40) << 3)  // imm[2]
                     | ((i & 0x20) << 21)  // imm[6]
                     | ((i & 0x1c) << 18)  // rs2[2:0]
                     | 0b_01000_01000_010_00000_0100011,
                ),
            ),
        ),
        0b111 => Ok(
            Instruction::Sd(
                SType(
                    ((i & 0x1000) << 13)  // imm[5]
                     | (i & 0xc00)  // imm[4:3]
                     | ((i & 0x380) << 8)  // rs1[2:0]
                     | ((i & 0x60) << 21)  // imm[7:6]
                     | ((i & 0x1c) << 18)  // rs2[2:0]
                     | 0b_01000_01000_011_00000_0100011,
                ),
            ),
        ),
        _ => Err(DecodingError::Unimplemented),
    }
}

/// What the direct decoder of quadrant 1 gives: nothing is covered.
pub open spec fn spec_decode_q01(i: u32) -> DecodingResult {
    Err(DecodingError::Unimplemented)
}

/// Decodes a halfword of quadrant 1 directly. No form is covered.
pub fn decode_q01(_i: u32) -> (r: DecodingResult)
    ensures
        r == spec_decode_q01(_i),
{
    Err(DecodingError::Unimplemented)
}

/// What the direct decoder of quadrant 2 gives: nothing is covered.
pub open spec fn spec_decode_q10(i: u32) -> DecodingResult {
    Err(DecodingError::Unimplemented)
}

/// Decodes a halfword of quadrant 2 directly. No form is covered.
pub fn decode_q10(_i: u32) -> (r: DecodingResult)
    ensures
        r == spec_decode_q10(_i),
{
    Err(DecodingError::Unimplemented)
}

/// The bounds of the fields and immediates of a halfword: a register index
/// is below 32, a primed register is x8 to x15, each immediate lies in the
/// range of its form, and the offsets of jumps and branches are even.
pub proof fn lemma_compressed_fields(h: u32)
    ensures
        quadrant(h) <= 3,
        c_funct3(h) <= 7,
        c_funct2(h) <= 3,
        (h >> 12) & 1 <= 1,
        (h >> 5) & 0x3 <= 3,
        c_rd(h) < 32,
        c_rs2(h) < 32,
        8 <= c_rs1_prime(h) < 16,
        8 <= c_rs2_prime(h) < 16,
        0 <= spec_addi4spn_imm(h) < 1024,
        0 <= spec_d_offset(h) < 256,
        0 <= spec_w_offset(h) < 128,
        -32 <= spec_ci_imm(h) < 32,
        -512 <= spec_addi16sp_imm(h) < 512,
        0 <= spec_lui_imm(h) < 0x1_0000_0000,
        spec_lui_imm(h) % 4096 == 0,
        spec_lui_imm(h) == 0 <==> spec_ci_imm(h) == 0,
        0 <= spec_shamt(h) < 64,
        -2048 <= spec_j_offset(h) < 2048,
        spec_j_offset(h) % 2 == 0,
        -256 <= spec_b_offset(h) < 256,
        spec_b_offset(h) % 2 == 0,
        0 <= spec_ldsp_offset(h) < 512,
        0 <= spec_lwsp_offset(h) < 256,
        0 <= spec_sdsp_offset(h) < 512,
        0 <= spec_swsp_offset(h) < 256,
{
    lemma_mask_bounds(h);
    lemma_mask_bounds(h >> 13);
    lemma_mask_bounds(h >> 12);
    lemma_mask_bounds(h >> 10);
    lemma_mask_bounds(h >> 7);
    lemma_mask_bounds(h >> 5);
    lemma_mask_bounds(h >> 2);
    lemma_register_form_immediates(h);
    lemma_full_register_form_immediates(h);
    lemma_control_transfer_offsets(h);
}

/// Looks a halfword up in the legality table.
pub fn legality(halfword: u32) -> (r: Legality)
    ensures
        r == spec_legality(halfword),
{
    proof {
        lemma_compressed_fields(halfword);
    }
    let funct3 = (halfword >> 13) & 0x7;
    let rd = rd_of(halfword);
    let rs2 = rs2_of(halfword);
    let bit12 = (halfword >> 12) & 1;
    match halfword & 0x3 {
        0 => match funct3 {
            0 => if addi4spn_imm(halfword) == 0 {
                Legality::Reserved
            } else {
                Legality::Legal
            },
            4 => Legality::Reserved,
            _ => Legality::Legal,
        },
        1 => match funct3 {
            0 => if (rd == 0) == (ci_imm(halfword) == 0) {
                Legality::Legal
            } else {
                Legality::Hint
            },
            1 => if rd == 0 {
                Legality::Reserved
            } else {
                Legality::Legal
            },
            2 => if rd == 0 {
                Legality::Hint
            } else {
                Legality::Legal
            },
            3 => if rd == 2 {
                if addi16sp_imm(halfword) == 0 {
                    Legality::Reserved
                } else {
                    Legality::Legal
                }
            } else if lui_imm(halfword) == 0 {
                Legality::Reserved
            } else if rd == 0 {
                Legality::Hint
            } else {
                Legality::Legal
            },
            4 => match (halfword >> 10) & 0x3 {
                0 | 1 => if shamt(halfword) == 0 {
                    Legality::Hint
                } else {
                    Legality::Legal
                },
                2 => Legality::Legal,
                _ => if bit12 == 1 && (halfword >> 5) & 0x3 >= 2 {
                    Legality::Reserved
                } else {
                    Legality::Legal
                },
            },
            _ => Legality::Legal,
        },
        2 => match funct3 {
            0 => if rd == 0 || shamt(halfword) == 0 {
                Legality::Hint
            } else {
                Legality::Legal
            },
            1 => Legality::Legal,
            2 | 3 => if rd == 0 {
                Legality::Reserved
            } else {
                Legality::Legal
            },
            4 => if rs2 == 0 {
                if rd == 0 && bit12 == 0 {
                    Legality::Reserved
                } else {
                    Legality::Legal
                }
            } else if rd == 0 {
                Legality::Hint
            } else {
                Legality::Legal
            },
            _ => Legality::Legal,
        },
        _ => Legality::NotCompressed,
    }
}

/// Every field of a halfword lies in bits 15:0.
proof fn lemma_fields_of_low_halfword(h: u32)
    by (bit_vector)
    ensures
        (h & 0xffff) & 0x3 == h & 0x3,
        ((h & 0xffff) >> 13) & 0x7 == (h >> 13) & 0x7,
        ((h & 0xffff) >> 7) & 0x1f == (h >> 7) & 0x1f,
        ((h & 0xffff) >> 2) & 0x1f == (h >> 2) & 0x1f,
        ((h & 0xffff) >> 7) & 0x7 == (h >> 7) & 0x7,
        ((h & 0xffff) >> 2) & 0x7 == (h >> 2) & 0x7,
        ((h & 0xffff) >> 10) & 0x3 == (h >> 10) & 0x3,
        ((h & 0xffff) >> 6) & 1 == (h >> 6) & 1,
        ((h & 0xffff) >> 5) & 1 == (h >> 5) & 1,
        ((h & 0xffff) >> 11) & 0x3 == (h >> 11) & 0x3,
        ((h & 0xffff) >> 7) & 0xf == (h >> 7) & 0xf,
        ((h & 0xffff) >> 10) & 0x7 == (h >> 10) & 0x7,
        ((h & 0xffff) >> 5) & 0x3 == (h >> 5) & 0x3,
        ((h & 0xffff) >> 12) & 1 == (h >> 12) & 1,
        ((h & 0xffff) >> 3) & 0x3 == (h >> 3) & 0x3,
        ((h & 0xffff) >> 2) & 1 == (h >> 2) & 1,
        ((h & 0xffff) >> 11) & 1 == (h >> 11) & 1,
        ((h & 0xffff) >> 9) & 0x3 == (h >> 9) & 0x3,
        ((h & 0xffff) >> 8) & 1 == (h >> 8) & 1,
        ((h & 0xffff) >> 7) & 1 == (h >> 7) & 1,
        ((h & 0xffff) >> 3) & 0x7 == (h >> 3) & 0x7,
        ((h & 0xffff) >> 4) & 0x7 == (h >> 4) & 0x7,
        ((h & 0xffff) >> 2) & 0x3 == (h >> 2) & 0x3,
        ((h & 0xffff) >> 9) & 0xf == (h >> 9) & 0xf,
        ((h & 0xffff) >> 7) & 0x3 == (h >> 7) & 0x3,
{
}

/// Only bits 15:0 count: the legality and the expansion of a word are those
/// of its low halfword.
pub proof fn lemma_only_the_low_halfword_counts(h: u32)
    ensures
        spec_legality(h) == spec_legality(h & 0xffff),
        spec_expansion(h) == spec_expansion(h & 0xffff),
        spec_uncompress(h) == spec_uncompress(h & 0xffff),
{
    lemma_fields_of_low_halfword(h);
}

} // verus!
