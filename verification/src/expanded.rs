//! Decoding a compressed instruction by way of its expansion, and how that
//! route relates to the direct decoders of the quadrants.

use vstd::prelude::*;
use crate::compressed::{
    c_funct2, c_funct3, c_rd, c_rs1_prime, c_rs2, c_rs2_prime, legality, lemma_compressed_fields,
    quadrant, spec_addi16sp_imm, spec_addi4spn_imm, spec_b_offset, spec_ci_imm, spec_d_offset,
    spec_expansion, spec_j_offset, spec_ldsp_offset, spec_legality, spec_lui_imm,
    spec_lwsp_offset, spec_sdsp_offset, spec_shamt, spec_swsp_offset, spec_uncompress,
    spec_w_offset, uncompress, Legality, SENTINEL,
};
use crate::encoding::{
    lemma_b_word_fields, lemma_i_word_fields, lemma_j_word_fields, lemma_r_word_fields,
    lemma_s_word_fields, lemma_u_word_fields,
};
use crate::instruction::{
    lemma_mask_bounds, BType, IType, Instruction, JType, RType, SType, ShiftType, UType,
};
use crate::{decode, spec_decode, spec_decode_standard, DecodingError, DecodingResult};

verus! {

/// What the expansion of a legal halfword decodes to, by quadrant and
/// sub-form: the instruction that the compressed form abbreviates, carrying
/// the expansion. The four floating-point loads and stores expand to words
/// that the decoder does not cover.
pub open spec fn spec_expanded_instruction(h: u32) -> DecodingResult {
    let w = spec_expansion(h);
    match (quadrant(h), c_funct3(h)) {
        (0, 0) => Ok(Instruction::Addi(IType(w))),
        (0, 1) => Err(DecodingError::Unimplemented),
        (0, 2) => Ok(Instruction::Lw(IType(w))),
        (0, 3) => Ok(Instruction::Ld(IType(w))),
        (0, 5) => Err(DecodingError::Unimplemented),
        (0, 6) => Ok(Instruction::Sw(SType(w))),
        (0, 7) => Ok(Instruction::Sd(SType(w))),
        (1, 0) => Ok(Instruction::Addi(IType(w))),
        (1, 1) => Ok(Instruction::Addiw(IType(w))),
        (1, 2) => Ok(Instruction::Addi(IType(w))),
        (1, 3) => if c_rd(h) == 2 {
            Ok(Instruction::Addi(IType(w)))
        } else {
            Ok(Instruction::Lui(UType(w)))
        },
        (1, 4) => match c_funct2(h) {
            0 => Ok(Instruction::Srli(ShiftType(w))),
            1 => Ok(Instruction::Srai(ShiftType(w))),
            2 => Ok(Instruction::Andi(IType(w))),
            _ => match ((h >> 12) & 1, (h >> 5) & 0x3) {
                (0, 0) => Ok(Instruction::Sub(RType(w))),
                (0, 1) => Ok(Instruction::Xor(RType(w))),
                (0, 2) => Ok(Instruction::Or(RType(w))),
                (0, _) => Ok(Instruction::And(RType(w))),
                (_, 0) => Ok(Instruction::Subw(RType(w))),
                (_, _) => Ok(Instruction::Addw(RType(w))),
            },
        },
        (1, 5) => Ok(Instruction::Jal(JType(w))),
        (1, 6) => Ok(Instruction::Beq(BType(w))),
        (1, 7) => Ok(Instruction::Bne(BType(w))),
        (2, 0) => Ok(Instruction::Slli(ShiftType(w))),
        (2, 1) => Err(DecodingError::Unimplemented),
        (2, 2) => Ok(Instruction::Lw(IType(w))),
        (2, 3) => Ok(Instruction::Ld(IType(w))),
        (2, 4) => if c_rs2(h) != 0 {
            Ok(Instruction::Add(RType(w)))
        } else if c_rd(h) != 0 {
            Ok(Instruction::Jalr(IType(w)))
        } else {
            Ok(Instruction::Ebreak)
        },
        (2, 5) => Err(DecodingError::Unimplemented),
        (2, 6) => Ok(Instruction::Sw(SType(w))),
        (2, 7) => Ok(Instruction::Sd(SType(w))),
        _ => Err(DecodingError::Illegal),
    }
}

/// What decoding a compressed instruction by way of its expansion gives.
/// Only bits 15:0 count. The all-zero halfword is the illegal instruction.
/// A legal halfword gives what the standard decoder makes of its expansion.
/// A hint is not covered. A reserved halfword, and one of quadrant 3, is no
/// compressed instruction.
pub open spec fn spec_decode_compressed(h: u32) -> DecodingResult {
    if h & 0xffff == 0 {
        Ok(Instruction::Illegal)
    } else {
        match spec_legality(h) {
            Legality::Legal => spec_decode_standard(spec_expansion(h)),
            Legality::Hint => Err(DecodingError::Unimplemented),
            Legality::Reserved => Err(DecodingError::Illegal),
            Legality::NotCompressed => Err(DecodingError::Illegal),
        }
    }
}

/// Bits 1:0 and the sentinel, read off the opcode field; and bits 31:26 of
/// a word, read off its upper twelve bits.
proof fn lemma_word_shape(w: u32)
    by (bit_vector)
    ensures
        w & 0x3 == (w & 0x7f) % 4,
        w == 0xffff_ffff ==> w & 0x7f == 0x7f,
        (w >> 26) & 0x3f == ((w >> 20) & 0xfff) / 64,
        (w >> 25) & 0x7f == ((w >> 20) & 0xfff) / 32,
{
}

/// The expansion of every legal halfword is a word in standard form, other
/// than the sentinel, and the standard decoder reads it as the instruction
/// that the compressed form abbreviates.
pub proof fn lemma_expansion_decodes(h: u32)
    requires
        spec_legality(h) == Legality::Legal,
    ensures
        spec_expansion(h) != SENTINEL,
        spec_expansion(h) & 0x3 == 3,
        spec_decode(spec_expansion(h)) == spec_expanded_instruction(h),
        spec_decode_standard(spec_expansion(h)) == spec_expanded_instruction(h),
{
    let w = spec_expansion(h);
    let rd = c_rd(h);
    let rs2 = c_rs2(h);
    let rs1p = c_rs1_prime(h);
    let rs2p = c_rs2_prime(h);
    lemma_compressed_fields(h);
    lemma_word_shape(w);
    lemma_mask_bounds(w >> 20);
    let q = quadrant(h);
    let f = c_funct3(h);
    if q == 0 {
        if f == 0 {
            lemma_i_word_fields(0x13, rs2p, 0, 2, spec_addi4spn_imm(h));
        } else if f == 1 {
            lemma_i_word_fields(0x07, rs2p, 3, rs1p, spec_d_offset(h));
        } else if f == 2 {
            lemma_i_word_fields(0x03, rs2p, 2, rs1p, spec_w_offset(h));
        } else if f == 3 {
            lemma_i_word_fields(0x03, rs2p, 3, rs1p, spec_d_offset(h));
        } else if f == 5 {
            lemma_s_word_fields(0x27, 3, rs1p, rs2p, spec_d_offset(h));
        } else if f == 6 {
            lemma_s_word_fields(0x23, 2, rs1p, rs2p, spec_w_offset(h));
        } else if f == 7 {
            lemma_s_word_fields(0x23, 3, rs1p, rs2p, spec_d_offset(h));
        }
    } else if q == 1 {
        if f == 0 {
            lemma_i_word_fields(0x13, rd, 0, rd, spec_ci_imm(h));
        } else if f == 1 {
            lemma_i_word_fields(0x1b, rd, 0, rd, spec_ci_imm(h));
        } else if f == 2 {
            lemma_i_word_fields(0x13, rd, 0, 0, spec_ci_imm(h));
        } else if f == 3 {
            if rd == 2 {
                lemma_i_word_fields(0x13, 2, 0, 2, spec_addi16sp_imm(h));
            } else {
                lemma_u_word_fields(0x37, rd, spec_lui_imm(h));
            }
        } else if f == 4 {
            let f2 = c_funct2(h);
            if f2 == 0 {
                lemma_i_word_fields(0x13, rs1p, 5, rs1p, spec_shamt(h));
            } else if f2 == 1 {
                lemma_i_word_fields(0x13, rs1p, 5, rs1p, 0x400 + spec_shamt(h));
            } else if f2 == 2 {
                lemma_i_word_fields(0x13, rs1p, 7, rs1p, spec_ci_imm(h));
            } else {
                let f1 = (h >> 12) & 1;
                let f22 = (h >> 5) & 0x3;
                if f1 == 0 {
                    if f22 == 0 {
                        lemma_r_word_fields(0x33, rs1p, 0, rs1p, rs2p, 0x20);
                    } else if f22 == 1 {
                        lemma_r_word_fields(0x33, rs1p, 4, rs1p, rs2p, 0);
                    } else if f22 == 2 {
                        lemma_r_word_fields(0x33, rs1p, 6, rs1p, rs2p, 0);
                    } else {
                        lemma_r_word_fields(0x33, rs1p, 7, rs1p, rs2p, 0);
                    }
                } else {
                    if f22 == 0 {
                        lemma_r_word_fields(0x3b, rs1p, 0, rs1p, rs2p, 0x20);
                    } else {
                        lemma_r_word_fields(0x3b, rs1p, 0, rs1p, rs2p, 0);
                    }
                }
            }
        } else if f == 5 {
            lemma_j_word_fields(0x6f, 0, spec_j_offset(h));
        } else if f == 6 {
            lemma_b_word_fields(0x63, 0, rs1p, 0, spec_b_offset(h));
        } else {
            lemma_b_word_fields(0x63, 1, rs1p, 0, spec_b_offset(h));
        }
    } else if q == 2 {
        if f == 0 {
            lemma_i_word_fields(0x13, rd, 1, rd, spec_shamt(h));
        } else if f == 1 {
            lemma_i_word_fields(0x07, rd, 3, 2, spec_ldsp_offset(h));
        } else if f == 2 {
            lemma_i_word_fields(0x03, rd, 2, 2, spec_lwsp_offset(h));
        } else if f == 3 {
            lemma_i_word_fields(0x03, rd, 3, 2, spec_ldsp_offset(h));
        } else if f == 4 {
            if (h >> 12) & 1 == 0 {
                if rs2 == 0 {
                    lemma_i_word_fields(0x67, 0, 0, rd, 0);
                } else {
                    lemma_r_word_fields(0x33, rd, 0, 0, rs2, 0);
                }
            } else {
                if rs2 == 0 {
                    if rd == 0 {
                        assert(0x0010_0073u32 & 0x7f == 0x73) by (bit_vector);
                    } else {
                        lemma_i_word_fields(0x67, 1, 0, rd, 0);
                    }
                } else {
                    lemma_r_word_fields(0x33, rd, 0, rd, rs2, 0);
                }
            }
        } else if f == 5 {
            lemma_s_word_fields(0x27, 3, 2, rs2, spec_sdsp_offset(h));
        } else if f == 6 {
            lemma_s_word_fields(0x23, 2, 2, rs2, spec_swsp_offset(h));
        } else {
            lemma_s_word_fields(0x23, 3, 2, rs2, spec_sdsp_offset(h));
        }
    }
}

/// Decodes a compressed instruction by expanding it and decoding the
/// expansion. The sentinel of the expander never reaches the decoder: a
/// halfword without expansion is answered here.
pub fn decode_compressed(halfword: u32) -> (r: DecodingResult)
    ensures
        r == spec_decode_compressed(halfword),
{
    if halfword & 0xffff == 0 {
        return Ok(Instruction::Illegal);
    }
    let word = uncompress(halfword);
    proof {
        if spec_legality(halfword) == Legality::Legal {
            lemma_expansion_decodes(halfword);
        }
    }
    if word == SENTINEL {
        match legality(halfword) {
            Legality::Hint => Err(DecodingError::Unimplemented),
            _ => Err(DecodingError::Illegal),
        }
    } else {
        decode(word)
    }
}

/// What the direct decoder of quadrant 0 reads off bits 31:13, in terms of
/// the fields of a halfword; and the fields of the all-zero word.
proof fn lemma_q00_selector(h: u32)
    by (bit_vector)
    ensures
        h >> 13 == 2 || h >> 13 == 3 || h >> 13 == 6 || h >> 13 == 7 ==> (h >> 13) & 0x7 == h >> 13
            && h & 0xffff != 0,
        h & 0xffff == 0 ==> h & 0x3 == 0 && (h >> 13) & 0x7 == 0 && ((h >> 6) & 1) * 4 + ((h >> 5)
            & 1) * 8 + ((h >> 11) & 0x3) * 16 + ((h >> 7) & 0xf) * 64 == 0,
        h == 0 ==> h & 0xffff == 0,
        (h >> 13) & 0x7 == 4 ==> h != 0,
{
}

/// The two routes agree wherever both decode: if the expander expands a
/// compressed halfword and the direct decoder of its quadrant covers it,
/// decoding the expansion gives the very instruction that the direct decoder
/// gives.
pub proof fn lemma_expansion_agrees_with_direct_decoder(h: u32)
    requires
        h & 0x3 != 3,
        spec_uncompress(h) != SENTINEL,
        spec_decode(h) != Err::<Instruction, DecodingError>(DecodingError::Unimplemented),
    ensures
        spec_decode(spec_uncompress(h)) == spec_decode(h),
{
    lemma_compressed_fields(h);
    lemma_q00_selector(h);
    if spec_legality(h) == Legality::Legal {
        lemma_expansion_decodes(h);
    }
}

/// The two routes agree on what is not decodable: a compressed halfword,
/// other than the all-zero one, for which the expander returns the sentinel
/// is one that the direct decoder of its quadrant does not cover. This
/// holds in particular of every quadrant and sub-form without an expansion.
pub proof fn lemma_sentinel_is_not_decoded_directly(h: u32)
    requires
        h & 0x3 != 3,
        h != 0,
        spec_uncompress(h) == SENTINEL,
    ensures
        spec_decode(h) == Err::<Instruction, DecodingError>(DecodingError::Unimplemented),
{
    lemma_compressed_fields(h);
    lemma_q00_selector(h);
    if spec_legality(h) == Legality::Legal {
        lemma_expansion_decodes(h);
    }
}

/// Sub-form 100 of quadrant 0 is the one quadrant and sub-form of a
/// compressed halfword without any expansion. There the expander returns the
/// sentinel and the direct decoder does not cover the halfword.
pub proof fn lemma_sub_form_without_expansion(h: u32)
    requires
        quadrant(h) == 0,
        c_funct3(h) == 4,
    ensures
        spec_uncompress(h) == SENTINEL,
        spec_decode(h) == Err::<Instruction, DecodingError>(DecodingError::Unimplemented),
{
    lemma_q00_selector(h);
}

/// Decoding by way of the expansion gives what the direct decoder gives,
/// wherever the direct decoder covers a compressed halfword, the all-zero
/// one included.
pub proof fn lemma_decode_compressed_agrees_with_direct_decoder(h: u32)
    requires
        h & 0x3 != 3,
        spec_decode(h) != Err::<Instruction, DecodingError>(DecodingError::Unimplemented),
    ensures
        spec_decode_compressed(h) == spec_decode(h),
{
    lemma_compressed_fields(h);
    lemma_q00_selector(h);
    if spec_legality(h) == Legality::Legal {
        lemma_expansion_decodes(h);
    }
}

/// The sentinel stands for nothing else: the expander returns it exactly
/// for the halfwords that are not legal.
pub proof fn lemma_sentinel_iff_not_legal(h: u32)
    ensures
        spec_uncompress(h) == SENTINEL <==> spec_legality(h) != Legality::Legal,
{
    if spec_legality(h) == Legality::Legal {
        lemma_expansion_decodes(h);
    }
}

/// The sentinel itself is no instruction: all its bits are set, which is the
/// prefix of an instruction of 80 bits or more.
pub proof fn lemma_sentinel_is_no_instruction()
    ensures
        spec_decode(SENTINEL) == Err::<Instruction, DecodingError>(DecodingError::Unimplemented),
{
    assert(0xffff_ffffu32 & 0x3 == 3 && 0xffff_ffffu32 & 0x7f == 0x7f) by (bit_vector);
}

/// Without an expansion there is no instruction: decoding by way of the
/// expansion fails on every halfword, other than the all-zero one, for which
/// the expander returns the sentinel.
pub proof fn lemma_sentinel_is_not_decoded(h: u32)
    requires
        h & 0xffff != 0,
        spec_uncompress(h) == SENTINEL,
    ensures
        spec_decode_compressed(h) is Err,
{
    lemma_sentinel_iff_not_legal(h);
}

/// Decoding and expanding are functions of the word alone: equal words give
/// equal results.
pub proof fn lemma_results_depend_on_the_word_alone(a: u32, b: u32)
    requires
        a == b,
    ensures
        spec_decode(a) == spec_decode(b),
        spec_uncompress(a) == spec_uncompress(b),
        spec_decode_compressed(a) == spec_decode_compressed(b),
{
}

} // verus!
