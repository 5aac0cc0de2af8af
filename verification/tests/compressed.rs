use rustdecoder::compressed::{
    addi16sp_imm, addi4spn_imm, b_offset, ci_imm, d_offset, decode_q00, decode_q01, decode_q10,
    j_offset, ldsp_offset, legality, lui_imm, lwsp_offset, sdsp_offset, shamt, swsp_offset,
    uncompress, w_offset, Legality, SENTINEL,
};
use rustdecoder::instruction::Instruction::{Illegal, Ld, Lw, Sd, Sw};
use rustdecoder::instruction::{IType, SType};
use rustdecoder::DecodingError;

#[test]
fn q00() {
    assert_eq!(decode_q00(0x6188).unwrap(), Ld(IType(0x0005b503))); // ld a0,0(a1)
    assert_eq!(decode_q00(0x75e0).unwrap(), Ld(IType(0x0e85b403))); // ld s0,232(a1)
    assert_eq!(decode_q00(0x43b0).unwrap(), Lw(IType(0x0407a603))); // lw a2,64(a5)
    assert_eq!(decode_q00(0xe188).unwrap(), Sd(SType(0x00a5b023))); // sd a0,0(a1)
    assert_eq!(decode_q00(0xf5e0).unwrap(), Sd(SType(0x0e85b423))); // sd s0,232(a1)
    assert_eq!(decode_q00(0xc3b0).unwrap(), Sw(SType(0x04c7a023))); // sw a2,64(a5)
}

#[test]
fn q00_all_zero_is_illegal() {
    assert_eq!(decode_q00(0), Ok(Illegal));
}

#[test]
fn q00_other_forms_are_unimplemented() {
    assert_eq!(decode_q00(0x0800), Err(DecodingError::Unimplemented)); // c.addi4spn
    assert_eq!(decode_q00(0x2000), Err(DecodingError::Unimplemented)); // c.fld
    assert_eq!(decode_q00(0x8000), Err(DecodingError::Unimplemented)); // reserved
    assert_eq!(decode_q00(0xa000), Err(DecodingError::Unimplemented)); // c.fsd
}

#[test]
fn q00_bits_above_the_halfword_are_not_covered() {
    assert_eq!(decode_q00(0x0001_6188), Err(DecodingError::Unimplemented));
    assert_eq!(decode_q00(0x0001_0000), Err(DecodingError::Unimplemented));
}

#[test]
fn q01_and_q10_cover_nothing() {
    assert_eq!(decode_q01(0x0001), Err(DecodingError::Unimplemented));
    assert_eq!(decode_q01(0x0505), Err(DecodingError::Unimplemented));
    assert_eq!(decode_q10(0x8082), Err(DecodingError::Unimplemented));
    assert_eq!(decode_q10(0x0002), Err(DecodingError::Unimplemented));
}

#[test]
fn sentinel_is_all_ones() {
    assert_eq!(SENTINEL, 0xffff_ffff);
}

#[test]
fn all_zero_halfword_expands_to_the_sentinel() {
    assert_eq!(uncompress(0x0000), 0xffff_ffff);
    assert_eq!(legality(0x0000), Legality::Reserved);
}

#[test]
fn quadrant_0_expansions() {
    assert_eq!(uncompress(0x0800), 0x0101_0413); // addi s0,sp,16
    assert_eq!(uncompress(0x43b0), 0x0407_a603); // lw a2,64(a5)
    assert_eq!(uncompress(0x6188), 0x0005_b503); // ld a0,0(a1)
    assert_eq!(uncompress(0x75e0), 0x0e85_b403); // ld s0,232(a1)
    assert_eq!(uncompress(0xc3b0), 0x04c7_a023); // sw a2,64(a5)
    assert_eq!(uncompress(0xe188), 0x00a5_b023); // sd a0,0(a1)
    assert_eq!(uncompress(0xf5e0), 0x0e85_b423); // sd s0,232(a1)
    assert_eq!(uncompress(0x2188), 0x0005_b507); // fld fa0,0(a1)
    assert_eq!(uncompress(0xa188), 0x00a5_b027); // fsd fa0,0(a1)
}

#[test]
fn quadrant_0_without_expansion() {
    assert_eq!(uncompress(0x8000), SENTINEL); // sub-form 100
    assert_eq!(uncompress(0x9ffc), SENTINEL); // sub-form 100, other bits set
    assert_eq!(uncompress(0x001c), SENTINEL); // c.addi4spn with a zero immediate
    assert_eq!(legality(0x8000), Legality::Reserved);
    assert_eq!(legality(0x001c), Legality::Reserved);
}

#[test]
fn quadrant_1_expansions() {
    assert_eq!(uncompress(0x0001), 0x0000_0013); // nop
    assert_eq!(uncompress(0x0505), 0x0015_0513); // addi a0,a0,1
    assert_eq!(uncompress(0x1101), 0xfe01_0113); // addi sp,sp,-32
    assert_eq!(uncompress(0x2505), 0x0015_051b); // addiw a0,a0,1
    assert_eq!(uncompress(0x2501), 0x0005_051b); // addiw a0,a0,0
    assert_eq!(uncompress(0x557d), 0xfff0_0513); // li a0,-1
    assert_eq!(uncompress(0x7139), 0xfc01_0113); // addi sp,sp,-64
    assert_eq!(uncompress(0x6505), 0x0000_1537); // lui a0,0x1
    assert_eq!(uncompress(0x77fd), 0xffff_f7b7); // lui a5,0xfffff
    assert_eq!(uncompress(0x8105), 0x0015_5513); // srli a0,a0,1
    assert_eq!(uncompress(0x8505), 0x4015_5513); // srai a0,a0,1
    assert_eq!(uncompress(0x997d), 0xfff5_7513); // andi a0,a0,-1
    assert_eq!(uncompress(0x8d0d), 0x40b5_0533); // sub a0,a0,a1
    assert_eq!(uncompress(0x8d2d), 0x00b5_4533); // xor a0,a0,a1
    assert_eq!(uncompress(0x8d4d), 0x00b5_6533); // or a0,a0,a1
    assert_eq!(uncompress(0x8d6d), 0x00b5_7533); // and a0,a0,a1
    assert_eq!(uncompress(0x9d0d), 0x40b5_053b); // subw a0,a0,a1
    assert_eq!(uncompress(0x9d2d), 0x00b5_053b); // addw a0,a0,a1
    assert_eq!(uncompress(0xa001), 0x0000_006f); // j .
    assert_eq!(uncompress(0xc101), 0x0005_0063); // beqz a0,.
    assert_eq!(uncompress(0xe101), 0x0005_1063); // bnez a0,.
}

#[test]
fn shifts_by_thirty_two_and_more() {
    assert_eq!(uncompress(0x9105), 0x0215_5513); // srli a0,a0,33
    assert_eq!(uncompress(0x9505), 0x4215_5513); // srai a0,a0,33
    assert_eq!(uncompress(0x157e), 0x03f5_1513); // slli a0,a0,63
}

#[test]
fn quadrant_1_reserved_and_hints() {
    assert_eq!(uncompress(0x0005), SENTINEL); // c.nop with an immediate
    assert_eq!(legality(0x0005), Legality::Hint);
    assert_eq!(uncompress(0x0501), SENTINEL); // c.addi a0,0
    assert_eq!(legality(0x0501), Legality::Hint);
    assert_eq!(uncompress(0x2005), SENTINEL); // c.addiw with rd = 0
    assert_eq!(legality(0x2005), Legality::Reserved);
    assert_eq!(uncompress(0x4005), SENTINEL); // c.li with rd = 0
    assert_eq!(legality(0x4005), Legality::Hint);
    assert_eq!(uncompress(0x6101), SENTINEL); // c.addi16sp with a zero immediate
    assert_eq!(legality(0x6101), Legality::Reserved);
    assert_eq!(uncompress(0x6501), SENTINEL); // c.lui with a zero immediate
    assert_eq!(legality(0x6501), Legality::Reserved);
    assert_eq!(uncompress(0x6001), SENTINEL); // c.lui with rd = 0 and a zero immediate
    assert_eq!(legality(0x6001), Legality::Reserved);
    assert_eq!(uncompress(0x6005), SENTINEL); // c.lui with rd = 0
    assert_eq!(legality(0x6005), Legality::Hint);
    assert_eq!(uncompress(0x8101), SENTINEL); // c.srli a0,0
    assert_eq!(legality(0x8101), Legality::Hint);
    assert_eq!(uncompress(0x8501), SENTINEL); // c.srai a0,0
    assert_eq!(legality(0x8501), Legality::Hint);
    assert_eq!(uncompress(0x9d4d), SENTINEL); // bit 12 set, sub-form 10
    assert_eq!(legality(0x9d4d), Legality::Reserved);
    assert_eq!(uncompress(0x9d6d), SENTINEL); // bit 12 set, sub-form 11
    assert_eq!(legality(0x9d6d), Legality::Reserved);
}

#[test]
fn quadrant_2_expansions() {
    assert_eq!(uncompress(0x0506), 0x0015_1513); // slli a0,a0,1
    assert_eq!(uncompress(0x4502), 0x0001_2503); // lw a0,0(sp)
    assert_eq!(uncompress(0x60a2), 0x0081_3083); // ld ra,8(sp)
    assert_eq!(uncompress(0x2502), 0x0001_3507); // fld fa0,0(sp)
    assert_eq!(uncompress(0x2002), 0x0001_3007); // fld ft0,0(sp)
    assert_eq!(uncompress(0x8082), 0x0000_8067); // ret
    assert_eq!(uncompress(0x852e), 0x00b0_0533); // mv a0,a1
    assert_eq!(uncompress(0x9002), 0x0010_0073); // ebreak
    assert_eq!(uncompress(0x9782), 0x0007_80e7); // jalr a5
    assert_eq!(uncompress(0x952e), 0x00b5_0533); // add a0,a0,a1
    assert_eq!(uncompress(0xa406), 0x0011_3427); // fsd ft1,8(sp)
    assert_eq!(uncompress(0xc22a), 0x00a1_2223); // sw a0,4(sp)
    assert_eq!(uncompress(0xe406), 0x0011_3423); // sd ra,8(sp)
}

#[test]
fn quadrant_2_reserved_and_hints() {
    assert_eq!(uncompress(0x0006), SENTINEL); // c.slli with rd = 0
    assert_eq!(legality(0x0006), Legality::Hint);
    assert_eq!(uncompress(0x0502), SENTINEL); // c.slli a0,0
    assert_eq!(legality(0x0502), Legality::Hint);
    assert_eq!(uncompress(0x4002), SENTINEL); // c.lwsp with rd = 0
    assert_eq!(legality(0x4002), Legality::Reserved);
    assert_eq!(uncompress(0x6002), SENTINEL); // c.ldsp with rd = 0
    assert_eq!(legality(0x6002), Legality::Reserved);
    assert_eq!(uncompress(0x8002), SENTINEL); // c.jr with rs1 = 0
    assert_eq!(legality(0x8002), Legality::Reserved);
    assert_eq!(uncompress(0x802e), SENTINEL); // c.mv with rd = 0
    assert_eq!(legality(0x802e), Legality::Hint);
    assert_eq!(uncompress(0x902e), SENTINEL); // c.add with rd = 0
    assert_eq!(legality(0x902e), Legality::Hint);
}

#[test]
fn quadrant_3_is_not_compressed() {
    assert_eq!(uncompress(0x0003), SENTINEL);
    assert_eq!(uncompress(0xffff), SENTINEL);
    assert_eq!(uncompress(0xb503), SENTINEL);
    assert_eq!(legality(0xb503), Legality::NotCompressed);
}

#[test]
fn jump_offsets_at_both_ends() {
    assert_eq!(j_offset(0xb001), -2048);
    assert_eq!(uncompress(0xb001), 0x801f_f06f); // jal x0,-2048
    assert_eq!(j_offset(0xaffd), 2046);
    assert_eq!(uncompress(0xaffd), 0x7fe0_006f); // jal x0,2046
    assert_eq!(j_offset(0xbffd), -2);
    assert_eq!(uncompress(0xbffd), 0xfff_ff06f); // jal x0,-2
}

#[test]
fn branch_offsets_at_both_ends() {
    assert_eq!(b_offset(0xf381), -256);
    assert_eq!(uncompress(0xf381), 0xf007_90e3); // bne a5,x0,-256
    assert_eq!(b_offset(0xcd7d), 254);
    assert_eq!(uncompress(0xcd7d), 0x0e05_0f63); // beq a0,x0,254
}

#[test]
fn branch_register_is_the_first_source() {
    // beq s0,x0,. : rs1 = 8 in bits 19:15, rs2 = 0 in bits 24:20
    assert_eq!(uncompress(0xc001), 0x0004_0063);
    // bne a5,x0,.
    assert_eq!(uncompress(0xe381), 0x0007_9063);
}

#[test]
fn immediates_of_each_form() {
    assert_eq!(addi4spn_imm(0x0800), 16);
    assert_eq!(addi4spn_imm(0x1fe0), 1020);
    assert_eq!(addi4spn_imm(0x0040), 4);
    assert_eq!(addi4spn_imm(0x0020), 8);
    assert_eq!(d_offset(0x75e0), 232);
    assert_eq!(d_offset(0x7c60), 248);
    assert_eq!(w_offset(0x43b0), 64);
    assert_eq!(w_offset(0x5c60), 124);
    assert_eq!(ci_imm(0x557d), -1);
    assert_eq!(ci_imm(0x1101), -32);
    assert_eq!(ci_imm(0x057d), 31);
    assert_eq!(addi16sp_imm(0x7139), -64);
    assert_eq!(addi16sp_imm(0x7101), -512);
    assert_eq!(addi16sp_imm(0x617d), 496);
    assert_eq!(lui_imm(0x6505), 0x1000);
    assert_eq!(lui_imm(0x77fd), 0xffff_f000);
    assert_eq!(lui_imm(0x7501), 0xfffe_0000);
    assert_eq!(lui_imm(0x657d), 0x0001_f000);
    assert_eq!(shamt(0x157e), 63);
    assert_eq!(shamt(0x0506), 1);
    assert_eq!(ldsp_offset(0x60a2), 8);
    assert_eq!(ldsp_offset(0x70fe), 504);
    assert_eq!(lwsp_offset(0x4502), 0);
    assert_eq!(lwsp_offset(0x557e), 252);
    assert_eq!(sdsp_offset(0xe406), 8);
    assert_eq!(sdsp_offset(0xff86), 504);
    assert_eq!(swsp_offset(0xc22a), 4);
    assert_eq!(swsp_offset(0xdfaa), 252);
}

#[test]
fn bits_above_the_halfword_do_not_count_in_the_expander() {
    assert_eq!(uncompress(0xdead_6188), 0x0005_b503);
    assert_eq!(uncompress(0xffff_0000), SENTINEL);
    assert_eq!(legality(0x1234_8082), Legality::Legal);
}

#[test]
fn expanding_twice_gives_the_same_word() {
    for h in [0x0000u32, 0x6188, 0x8082, 0xb001, 0x0501, 0xffff] {
        assert_eq!(uncompress(h), uncompress(h));
        assert_eq!(decode_q00(h), decode_q00(h));
    }
}

#[test]
fn sentinel_exactly_where_not_legal() {
    let mut h: u32 = 0;
    while h <= 0xffff {
        assert_eq!(uncompress(h) == SENTINEL, legality(h) != Legality::Legal);
        h += 1;
    }
}

/// The value of an immediate when only bit `bit` of the halfword is set.
fn weights(f: fn(u32) -> i64) -> [i64; 16] {
    let mut w = [0i64; 16];
    let mut bit = 0;
    while bit < 16 {
        w[bit] = f(1u32 << bit);
        bit += 1;
    }
    w
}

#[test]
fn weight_of_each_bit_in_each_immediate() {
    // index: bit of the halfword, 0 to 15
    assert_eq!(
        weights(|h| addi4spn_imm(h) as i64),
        [0, 0, 0, 0, 0, 8, 4, 64, 128, 256, 512, 16, 32, 0, 0, 0]
    );
    assert_eq!(
        weights(|h| d_offset(h) as i64),
        [0, 0, 0, 0, 0, 64, 128, 0, 0, 0, 8, 16, 32, 0, 0, 0]
    );
    assert_eq!(
        weights(|h| w_offset(h) as i64),
        [0, 0, 0, 0, 0, 64, 4, 0, 0, 0, 8, 16, 32, 0, 0, 0]
    );
    assert_eq!(
        weights(|h| ci_imm(h) as i64),
        [0, 0, 1, 2, 4, 8, 16, 0, 0, 0, 0, 0, -32, 0, 0, 0]
    );
    assert_eq!(
        weights(|h| addi16sp_imm(h) as i64),
        [0, 0, 32, 128, 256, 64, 16, 0, 0, 0, 0, 0, -512, 0, 0, 0]
    );
    assert_eq!(
        weights(|h| lui_imm(h) as i64),
        [0, 0, 0x1000, 0x2000, 0x4000, 0x8000, 0x10000, 0, 0, 0, 0, 0, 0xfffe_0000, 0, 0, 0]
    );
    assert_eq!(
        weights(|h| shamt(h) as i64),
        [0, 0, 1, 2, 4, 8, 16, 0, 0, 0, 0, 0, 32, 0, 0, 0]
    );
    assert_eq!(
        weights(|h| j_offset(h) as i64),
        [0, 0, 32, 2, 4, 8, 128, 64, 1024, 256, 512, 16, -2048, 0, 0, 0]
    );
    assert_eq!(
        weights(|h| b_offset(h) as i64),
        [0, 0, 32, 2, 4, 64, 128, 0, 0, 0, 8, 16, -256, 0, 0, 0]
    );
    assert_eq!(
        weights(|h| ldsp_offset(h) as i64),
        [0, 0, 64, 128, 256, 8, 16, 0, 0, 0, 0, 0, 32, 0, 0, 0]
    );
    assert_eq!(
        weights(|h| lwsp_offset(h) as i64),
        [0, 0, 64, 128, 4, 8, 16, 0, 0, 0, 0, 0, 32, 0, 0, 0]
    );
    assert_eq!(
        weights(|h| sdsp_offset(h) as i64),
        [0, 0, 0, 0, 0, 0, 0, 64, 128, 256, 8, 16, 32, 0, 0, 0]
    );
    assert_eq!(
        weights(|h| swsp_offset(h) as i64),
        [0, 0, 0, 0, 0, 0, 0, 64, 128, 4, 8, 16, 32, 0, 0, 0]
    );
}
