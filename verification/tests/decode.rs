use rustdecoder::compressed::{decode_q00, decode_q01, decode_q10, uncompress, SENTINEL};
use rustdecoder::encoding::{encode_b, encode_i, encode_j, encode_r, encode_s, encode_u};
use rustdecoder::expanded::decode_compressed;
use rustdecoder::instruction::Instruction;
use rustdecoder::instruction::{
    BType, CsrIType, CsrType, FenceType, IType, JType, RType, SType, ShiftType, UType,
};
use rustdecoder::{decode, DecodingError};

#[test]
fn load_doubleword_golden_encoding() {
    let inst = decode(0x0005_b503).unwrap(); // ld a0,0(a1)
    assert_eq!(inst, Instruction::Ld(IType(0x0005_b503)));
    let carrier = IType(0x0005_b503);
    assert_eq!(carrier.rs1(), 11);
    assert_eq!(carrier.rd(), 10);
    assert_eq!(carrier.imm(), 0);
}

#[test]
fn all_zero_word_is_the_illegal_instruction() {
    assert_eq!(decode(0), Ok(Instruction::Illegal));
}

#[test]
fn compressed_words_go_to_the_quadrant_decoders() {
    assert_eq!(decode(0x6188), Ok(Instruction::Ld(IType(0x0005_b503))));
    assert_eq!(decode(0xc3b0), Ok(Instruction::Sw(SType(0x04c7_a023))));
    assert_eq!(decode(0x0505), Err(DecodingError::Unimplemented));
    assert_eq!(decode(0x8082), Err(DecodingError::Unimplemented));
    for w in [0x6188u32, 0x0800, 0x0505, 0x8082, 0x0001_6188] {
        let direct = match w & 3 {
            0 => decode_q00(w),
            1 => decode_q01(w),
            _ => decode_q10(w),
        };
        assert_eq!(decode(w), direct);
    }
}

#[test]
fn upper_immediates() {
    assert_eq!(decode(0x0000_1537), Ok(Instruction::Lui(UType(0x0000_1537)))); // lui a0,0x1
    assert_eq!(decode(0x0000_1517), Ok(Instruction::Auipc(UType(0x0000_1517)))); // auipc a0,0x1
    assert_eq!(UType(0x0000_1537).imm(), 0x1000);
    assert_eq!(UType(0x0000_1537).rd(), 10);
    assert_eq!(UType(0xffff_f7b7).imm(), 0xffff_f000); // lui a5,0xfffff
    assert_eq!(UType(0xffff_f7b7).rd(), 15);
}

#[test]
fn jumps() {
    assert_eq!(decode(0x0000_006f), Ok(Instruction::Jal(JType(0x0000_006f))));
    assert_eq!(decode(0x0000_8067), Ok(Instruction::Jalr(IType(0x0000_8067)))); // ret
    assert_eq!(JType(0x0080_00ef).imm(), 8); // jal ra,8
    assert_eq!(JType(0x0080_00ef).rd(), 1);
    assert_eq!(JType(0xffdf_f06f).imm(), -4); // j .-4
    assert_eq!(IType(0x0000_8067).rs1(), 1);
    assert_eq!(IType(0x0000_8067).rd(), 0);
    assert_eq!(IType(0x0000_8067).imm(), 0);
}

#[test]
fn branches() {
    let words: [(u32, Instruction); 6] = [
        (0x00b5_0463, Instruction::Beq(BType(0x00b5_0463))), // beq a0,a1,8
        (0x00b5_1463, Instruction::Bne(BType(0x00b5_1463))),
        (0x00b5_4463, Instruction::Blt(BType(0x00b5_4463))),
        (0x00b5_5463, Instruction::Bge(BType(0x00b5_5463))),
        (0x00b5_6463, Instruction::Bltu(BType(0x00b5_6463))),
        (0x00b5_7463, Instruction::Bgeu(BType(0x00b5_7463))),
    ];
    for (w, inst) in words {
        assert_eq!(decode(w), Ok(inst));
    }
    let b = BType(0x00b5_0463);
    assert_eq!(b.rs1(), 10);
    assert_eq!(b.rs2(), 11);
    assert_eq!(b.imm(), 8);
    assert_eq!(BType(0xfeb5_0ee3).imm(), -4); // beq a0,a1,.-4
    assert_eq!(decode(0x00b5_2463), Err(DecodingError::Illegal));
    assert_eq!(decode(0x00b5_3463), Err(DecodingError::Illegal));
}

#[test]
fn loads() {
    let words: [(u32, Instruction); 7] = [
        (0x0005_8503, Instruction::Lb(IType(0x0005_8503))),
        (0x0005_9503, Instruction::Lh(IType(0x0005_9503))),
        (0x0005_a503, Instruction::Lw(IType(0x0005_a503))),
        (0x0005_b503, Instruction::Ld(IType(0x0005_b503))),
        (0x0005_c503, Instruction::Lbu(IType(0x0005_c503))),
        (0x0005_d503, Instruction::Lhu(IType(0x0005_d503))),
        (0x0005_e503, Instruction::Lwu(IType(0x0005_e503))),
    ];
    for (w, inst) in words {
        assert_eq!(decode(w), Ok(inst));
    }
    assert_eq!(decode(0x0005_f503), Err(DecodingError::Illegal));
    assert_eq!(IType(0xff85_b503).imm(), -8); // ld a0,-8(a1)
    assert_eq!(IType(0x7ff5_b503).imm(), 2047);
    assert_eq!(IType(0x8005_b503).imm(), -2048);
}

#[test]
fn stores() {
    let words: [(u32, Instruction); 4] = [
        (0x00a5_8023, Instruction::Sb(SType(0x00a5_8023))),
        (0x00a5_9023, Instruction::Sh(SType(0x00a5_9023))),
        (0x00a5_a023, Instruction::Sw(SType(0x00a5_a023))),
        (0x00a5_b023, Instruction::Sd(SType(0x00a5_b023))),
    ];
    for (w, inst) in words {
        assert_eq!(decode(w), Ok(inst));
    }
    assert_eq!(decode(0x00a5_c023), Err(DecodingError::Illegal));
    let s = SType(0x0e85_b423); // sd s0,232(a1)
    assert_eq!(s.rs1(), 11);
    assert_eq!(s.rs2(), 8);
    assert_eq!(s.imm(), 232);
    assert_eq!(SType(0xfea5_bc23).imm(), -8); // sd a0,-8(a1)
    assert_eq!(SType(0x7ea5_bfa3).imm(), 2047);
    assert_eq!(SType(0x80a5_b023).imm(), -2048);
}

#[test]
fn operations_with_an_immediate() {
    let words: [(u32, Instruction); 9] = [
        (0x0015_0513, Instruction::Addi(IType(0x0015_0513))),
        (0x0015_2513, Instruction::Slti(IType(0x0015_2513))),
        (0x0015_3513, Instruction::Sltiu(IType(0x0015_3513))),
        (0x0015_4513, Instruction::Xori(IType(0x0015_4513))),
        (0x0015_6513, Instruction::Ori(IType(0x0015_6513))),
        (0x0015_7513, Instruction::Andi(IType(0x0015_7513))),
        (0x03f5_1513, Instruction::Slli(ShiftType(0x03f5_1513))),
        (0x03f5_5513, Instruction::Srli(ShiftType(0x03f5_5513))),
        (0x43f5_5513, Instruction::Srai(ShiftType(0x43f5_5513))),
    ];
    for (w, inst) in words {
        assert_eq!(decode(w), Ok(inst));
    }
    assert_eq!(decode(0x0400_1013), Err(DecodingError::Illegal)); // slli, bit 26 set
    assert_eq!(decode(0x8000_5013), Err(DecodingError::Illegal)); // srli, bit 31 set
    let s = ShiftType(0x43f5_5513); // srai a0,a0,63
    assert_eq!(s.shamt(), 63);
    assert_eq!(s.rs1(), 10);
    assert_eq!(s.rd(), 10);
}

#[test]
fn operations_on_registers() {
    let words: [(u32, Instruction); 18] = [
        (0x00b5_0533, Instruction::Add(RType(0x00b5_0533))),
        (0x40b5_0533, Instruction::Sub(RType(0x40b5_0533))),
        (0x00b5_1533, Instruction::Sll(RType(0x00b5_1533))),
        (0x00b5_2533, Instruction::Slt(RType(0x00b5_2533))),
        (0x00b5_3533, Instruction::Sltu(RType(0x00b5_3533))),
        (0x00b5_4533, Instruction::Xor(RType(0x00b5_4533))),
        (0x00b5_5533, Instruction::Srl(RType(0x00b5_5533))),
        (0x40b5_5533, Instruction::Sra(RType(0x40b5_5533))),
        (0x00b5_6533, Instruction::Or(RType(0x00b5_6533))),
        (0x00b5_7533, Instruction::And(RType(0x00b5_7533))),
        (0x02b5_0533, Instruction::Mul(RType(0x02b5_0533))),
        (0x02b5_1533, Instruction::Mulh(RType(0x02b5_1533))),
        (0x02b5_2533, Instruction::Mulhsu(RType(0x02b5_2533))),
        (0x02b5_3533, Instruction::Mulhu(RType(0x02b5_3533))),
        (0x02b5_4533, Instruction::Div(RType(0x02b5_4533))),
        (0x02b5_5533, Instruction::Divu(RType(0x02b5_5533))),
        (0x02b5_6533, Instruction::Rem(RType(0x02b5_6533))),
        (0x02b5_7533, Instruction::Remu(RType(0x02b5_7533))),
    ];
    for (w, inst) in words {
        assert_eq!(decode(w), Ok(inst));
    }
    assert_eq!(decode(0x40b5_1533), Err(DecodingError::Illegal));
    assert_eq!(decode(0x04b5_0533), Err(DecodingError::Illegal));
    let r = RType(0x40b5_0533); // sub a0,a0,a1
    assert_eq!(r.rd(), 10);
    assert_eq!(r.rs1(), 10);
    assert_eq!(r.rs2(), 11);
}

#[test]
fn narrow_operations() {
    let words: [(u32, Instruction); 14] = [
        (0x0015_051b, Instruction::Addiw(IType(0x0015_051b))),
        (0x01f5_151b, Instruction::Slliw(ShiftType(0x01f5_151b))),
        (0x01f5_551b, Instruction::Srliw(ShiftType(0x01f5_551b))),
        (0x41f5_551b, Instruction::Sraiw(ShiftType(0x41f5_551b))),
        (0x00b5_053b, Instruction::Addw(RType(0x00b5_053b))),
        (0x40b5_053b, Instruction::Subw(RType(0x40b5_053b))),
        (0x00b5_153b, Instruction::Sllw(RType(0x00b5_153b))),
        (0x00b5_553b, Instruction::Srlw(RType(0x00b5_553b))),
        (0x40b5_553b, Instruction::Sraw(RType(0x40b5_553b))),
        (0x02b5_053b, Instruction::Mulw(RType(0x02b5_053b))),
        (0x02b5_453b, Instruction::Divw(RType(0x02b5_453b))),
        (0x02b5_553b, Instruction::Divuw(RType(0x02b5_553b))),
        (0x02b5_653b, Instruction::Remw(RType(0x02b5_653b))),
        (0x02b5_753b, Instruction::Remuw(RType(0x02b5_753b))),
    ];
    for (w, inst) in words {
        assert_eq!(decode(w), Ok(inst));
    }
    assert_eq!(decode(0x0205_151b), Err(DecodingError::Illegal)); // slliw, bit 25 set
    assert_eq!(decode(0x00b5_253b), Err(DecodingError::Illegal));
    assert_eq!(decode(0x0015_251b), Err(DecodingError::Illegal));
    assert_eq!(ShiftType(0x41f5_551b).shamt(), 31);
}

#[test]
fn shift_amount_has_five_bits_in_a_narrow_shift() {
    // bits 25:20 all set: six bits under OP-IMM, five under OP-IMM-32
    assert_eq!(ShiftType(0x03f5_1513).shamt(), 63);
    assert_eq!(ShiftType(0x03f5_151b).shamt(), 31);
}

#[test]
fn fences() {
    assert_eq!(decode(0x0ff0_000f), Ok(Instruction::Fence(FenceType(0x0ff0_000f))));
    assert_eq!(decode(0x0000_100f), Ok(Instruction::FenceI));
    assert_eq!(decode(0x0000_200f), Err(DecodingError::Illegal));
    assert_eq!(FenceType(0x0ff0_000f).pred(), 0xf);
    assert_eq!(FenceType(0x0ff0_000f).succ(), 0xf);
    assert_eq!(FenceType(0x0310_000f).pred(), 0x3); // fence rw,w
    assert_eq!(FenceType(0x0310_000f).succ(), 0x1);
}

#[test]
fn system_instructions() {
    assert_eq!(decode(0x0000_0073), Ok(Instruction::Ecall));
    assert_eq!(decode(0x0010_0073), Ok(Instruction::Ebreak));
    assert_eq!(decode(0x0020_0073), Ok(Instruction::Uret));
    assert_eq!(decode(0x1020_0073), Ok(Instruction::Sret));
    assert_eq!(decode(0x3020_0073), Ok(Instruction::Mret));
    assert_eq!(decode(0x1050_0073), Ok(Instruction::Wfi));
    assert_eq!(decode(0x1200_0073), Ok(Instruction::SfenceVma(RType(0x1200_0073))));
    assert_eq!(decode(0x12b5_0073), Ok(Instruction::SfenceVma(RType(0x12b5_0073))));
    assert_eq!(decode(0x0030_0073), Err(DecodingError::Illegal));
    assert_eq!(decode(0x0000_4073), Err(DecodingError::Illegal));
}

#[test]
fn csr_accesses() {
    assert_eq!(decode(0x3005_1073), Ok(Instruction::Csrrw(CsrType(0x3005_1073))));
    assert_eq!(decode(0x3005_2573), Ok(Instruction::Csrrs(CsrType(0x3005_2573))));
    assert_eq!(decode(0x3005_3573), Ok(Instruction::Csrrc(CsrType(0x3005_3573))));
    assert_eq!(decode(0x3002_d073), Ok(Instruction::Csrrwi(CsrIType(0x3002_d073))));
    assert_eq!(decode(0x3002_e573), Ok(Instruction::Csrrsi(CsrIType(0x3002_e573))));
    assert_eq!(decode(0x3002_f573), Ok(Instruction::Csrrci(CsrIType(0x3002_f573))));
    let c = CsrType(0x3005_2573); // csrrs a0,mstatus,a0
    assert_eq!(c.csr(), 0x300);
    assert_eq!(c.rs1(), 10);
    assert_eq!(c.rd(), 10);
    let ci = CsrIType(0x3002_e573); // csrrsi a0,mstatus,5
    assert_eq!(ci.csr(), 0x300);
    assert_eq!(ci.zimm(), 5);
    assert_eq!(ci.rd(), 10);
    assert_eq!(CsrIType(0xfffff_0f3 | 0x0000_5000).zimm(), 31);
    assert_eq!(CsrType(0xfff0_1073).csr(), 0xfff);
}

#[test]
fn opcodes_that_are_not_covered() {
    assert_eq!(decode(0x0005_2007), Err(DecodingError::Unimplemented)); // flw
    assert_eq!(decode(0x0005_2027), Err(DecodingError::Unimplemented)); // fsw
    assert_eq!(decode(0x0000_202f), Err(DecodingError::Unimplemented)); // amo
    assert_eq!(decode(0x0000_0043), Err(DecodingError::Unimplemented)); // fmadd
    assert_eq!(decode(0x0000_0047), Err(DecodingError::Unimplemented)); // fmsub
    assert_eq!(decode(0x0000_004b), Err(DecodingError::Unimplemented)); // fnmsub
    assert_eq!(decode(0x0000_004f), Err(DecodingError::Unimplemented)); // fnmadd
    assert_eq!(decode(0x0000_0053), Err(DecodingError::Unimplemented)); // fadd.s
    assert_eq!(decode(0x0000_000b), Err(DecodingError::Unimplemented)); // custom-0
    assert_eq!(decode(0x0000_002b), Err(DecodingError::Unimplemented)); // custom-1
    assert_eq!(decode(0x0000_005b), Err(DecodingError::Unimplemented)); // custom-2
    assert_eq!(decode(0x0000_007b), Err(DecodingError::Unimplemented)); // custom-3
    assert_eq!(decode(0x0000_001f), Err(DecodingError::Unimplemented)); // 48 bits
    assert_eq!(decode(0x0000_003f), Err(DecodingError::Unimplemented)); // 64 bits
    assert_eq!(decode(0x0000_005f), Err(DecodingError::Unimplemented)); // 48 bits
    assert_eq!(decode(0x0000_007f), Err(DecodingError::Unimplemented)); // 80 bits or more
}

#[test]
fn reserved_fields_are_illegal() {
    assert_eq!(decode(0x0000_9067), Err(DecodingError::Illegal)); // jalr with funct3 = 1
    assert_eq!(decode(0x0000_f067), Err(DecodingError::Illegal)); // jalr with funct3 = 7
    assert_eq!(decode(0x1200_0573), Err(DecodingError::Illegal)); // sfence.vma with rd = 10
    assert_eq!(decode(0x1400_0073), Err(DecodingError::Illegal)); // funct7 next to sfence.vma
}

#[test]
fn reserved_opcodes_are_illegal() {
    assert_eq!(decode(0x0000_0057), Err(DecodingError::Illegal));
    assert_eq!(decode(0x0000_006b), Err(DecodingError::Illegal));
    assert_eq!(decode(0x0000_0077), Err(DecodingError::Illegal));
}

#[test]
fn sentinel_is_no_instruction() {
    assert_eq!(decode(SENTINEL), Err(DecodingError::Unimplemented));
}

#[test]
fn branch_offsets_at_both_ends_come_back() {
    let low = encode_b(0x63, 0, 10, 11, -4096);
    assert_eq!(low, 0x80b5_0063);
    assert_eq!(BType(low).imm(), -4096);
    assert_eq!(BType(low).rs1(), 10);
    assert_eq!(BType(low).rs2(), 11);
    let high = encode_b(0x63, 0, 10, 11, 4094);
    assert_eq!(high, 0x7eb5_0fe3);
    assert_eq!(BType(high).imm(), 4094);
    assert_eq!(BType(encode_b(0x63, 1, 0, 0, -2)).imm(), -2);
    assert_eq!(BType(encode_b(0x63, 1, 0, 0, 2048)).imm(), 2048);
    assert_eq!(BType(encode_b(0x63, 1, 0, 0, -2048)).imm(), -2048);
}

#[test]
fn jump_offsets_at_both_ends_come_back() {
    let low = encode_j(0x6f, 1, -1048576);
    assert_eq!(low, 0x8000_00ef);
    assert_eq!(JType(low).imm(), -1048576);
    assert_eq!(JType(low).rd(), 1);
    let high = encode_j(0x6f, 1, 1048574);
    assert_eq!(high, 0x7fff_f0ef);
    assert_eq!(JType(high).imm(), 1048574);
    assert_eq!(JType(encode_j(0x6f, 0, -2)).imm(), -2);
    assert_eq!(JType(encode_j(0x6f, 0, 2048)).imm(), 2048);
    assert_eq!(JType(encode_j(0x6f, 0, 4096)).imm(), 4096);
}

#[test]
fn every_branch_offset_comes_back() {
    let mut imm: i32 = -4096;
    while imm < 4096 {
        let w = encode_b(0x63, 5, 31, 17, imm);
        assert_eq!(BType(w).imm(), imm as i64);
        assert_eq!(BType(w).rs1(), 31);
        assert_eq!(BType(w).rs2(), 17);
        assert_eq!(decode(w), Ok(Instruction::Bge(BType(w))));
        imm += 2;
    }
}

#[test]
fn every_immediate_of_twelve_bits_comes_back() {
    let mut imm: i32 = -2048;
    while imm < 2048 {
        let i = encode_i(0x03, 7, 3, 9, imm);
        assert_eq!(IType(i).imm(), imm as i64);
        assert_eq!(IType(i).rd(), 7);
        assert_eq!(IType(i).rs1(), 9);
        let s = encode_s(0x23, 3, 9, 7, imm);
        assert_eq!(SType(s).imm(), imm as i64);
        assert_eq!(SType(s).rs1(), 9);
        assert_eq!(SType(s).rs2(), 7);
        imm += 1;
    }
}

#[test]
fn encoders_give_the_known_words() {
    assert_eq!(encode_i(0x03, 10, 3, 11, 0), 0x0005_b503); // ld a0,0(a1)
    assert_eq!(encode_i(0x13, 10, 0, 0, -1), 0xfff0_0513); // li a0,-1
    assert_eq!(encode_s(0x23, 3, 11, 8, 232), 0x0e85_b423); // sd s0,232(a1)
    assert_eq!(encode_r(0x33, 10, 0, 10, 11, 0x20), 0x40b5_0533); // sub a0,a0,a1
    assert_eq!(encode_u(0x37, 15, 0xffff_f000), 0xffff_f7b7); // lui a5,0xfffff
    assert_eq!(encode_b(0x63, 0, 10, 11, 8), 0x00b5_0463); // beq a0,a1,8
    assert_eq!(encode_j(0x6f, 1, 8), 0x0080_00ef); // jal ra,8
}

#[test]
fn decoding_twice_gives_the_same_result() {
    for w in [0u32, 0x0005_b503, 0x6188, 0xffff_ffff, 0x3005_1073, 0x0000_006b] {
        assert_eq!(decode(w), decode(w));
        assert_eq!(decode_compressed(w), decode_compressed(w));
    }
}

#[test]
fn expansion_decodes_to_what_the_quadrant_decoder_gives() {
    for h in [0x6188u32, 0x75e0, 0x43b0, 0xe188, 0xf5e0, 0xc3b0] {
        assert_eq!(decode(uncompress(h)), decode_q00(h));
        assert_eq!(decode_compressed(h), decode_q00(h));
    }
}

#[test]
fn the_two_routes_agree_over_quadrant_0() {
    let mut h: u32 = 0;
    while h <= 0xffff {
        let direct = decode_q00(h);
        let expanded = uncompress(h);
        if expanded != SENTINEL && direct != Err(DecodingError::Unimplemented) {
            assert_eq!(decode(expanded), direct);
        }
        if expanded == SENTINEL && h != 0 {
            assert_eq!(direct, Err(DecodingError::Unimplemented));
        }
        if direct != Err(DecodingError::Unimplemented) {
            assert_eq!(decode_compressed(h), direct);
        }
        h += 4;
    }
}

#[test]
fn compressed_by_way_of_the_expansion() {
    assert_eq!(decode_compressed(0x0000), Ok(Instruction::Illegal));
    assert_eq!(decode_compressed(0x0001), Ok(Instruction::Addi(IType(0x0000_0013))));
    assert_eq!(decode_compressed(0x0505), Ok(Instruction::Addi(IType(0x0015_0513))));
    assert_eq!(decode_compressed(0x0800), Ok(Instruction::Addi(IType(0x0101_0413))));
    assert_eq!(decode_compressed(0x2505), Ok(Instruction::Addiw(IType(0x0015_051b))));
    assert_eq!(decode_compressed(0x6505), Ok(Instruction::Lui(UType(0x0000_1537))));
    assert_eq!(decode_compressed(0x8105), Ok(Instruction::Srli(ShiftType(0x0015_5513))));
    assert_eq!(decode_compressed(0x9505), Ok(Instruction::Srai(ShiftType(0x4215_5513))));
    assert_eq!(decode_compressed(0x997d), Ok(Instruction::Andi(IType(0xfff5_7513))));
    assert_eq!(decode_compressed(0x8d0d), Ok(Instruction::Sub(RType(0x40b5_0533))));
    assert_eq!(decode_compressed(0x8d2d), Ok(Instruction::Xor(RType(0x00b5_4533))));
    assert_eq!(decode_compressed(0x8d4d), Ok(Instruction::Or(RType(0x00b5_6533))));
    assert_eq!(decode_compressed(0x8d6d), Ok(Instruction::And(RType(0x00b5_7533))));
    assert_eq!(decode_compressed(0x9d0d), Ok(Instruction::Subw(RType(0x40b5_053b))));
    assert_eq!(decode_compressed(0x9d2d), Ok(Instruction::Addw(RType(0x00b5_053b))));
    assert_eq!(decode_compressed(0xa001), Ok(Instruction::Jal(JType(0x0000_006f))));
    assert_eq!(decode_compressed(0xc101), Ok(Instruction::Beq(BType(0x0005_0063))));
    assert_eq!(decode_compressed(0xe101), Ok(Instruction::Bne(BType(0x0005_1063))));
    assert_eq!(decode_compressed(0x0506), Ok(Instruction::Slli(ShiftType(0x0015_1513))));
    assert_eq!(decode_compressed(0x4502), Ok(Instruction::Lw(IType(0x0001_2503))));
    assert_eq!(decode_compressed(0x60a2), Ok(Instruction::Ld(IType(0x0081_3083))));
    assert_eq!(decode_compressed(0x8082), Ok(Instruction::Jalr(IType(0x0000_8067))));
    assert_eq!(decode_compressed(0x852e), Ok(Instruction::Add(RType(0x00b0_0533))));
    assert_eq!(decode_compressed(0x9002), Ok(Instruction::Ebreak));
    assert_eq!(decode_compressed(0x9782), Ok(Instruction::Jalr(IType(0x0007_80e7))));
    assert_eq!(decode_compressed(0x952e), Ok(Instruction::Add(RType(0x00b5_0533))));
    assert_eq!(decode_compressed(0xc22a), Ok(Instruction::Sw(SType(0x00a1_2223))));
    assert_eq!(decode_compressed(0xe406), Ok(Instruction::Sd(SType(0x0011_3423))));
}

#[test]
fn compressed_floating_point_forms_are_not_covered() {
    assert_eq!(decode_compressed(0x2188), Err(DecodingError::Unimplemented)); // c.fld
    assert_eq!(decode_compressed(0xa188), Err(DecodingError::Unimplemented)); // c.fsd
    assert_eq!(decode_compressed(0x2502), Err(DecodingError::Unimplemented)); // c.fldsp
    assert_eq!(decode_compressed(0xa406), Err(DecodingError::Unimplemented)); // c.fsdsp
}

#[test]
fn compressed_without_expansion() {
    assert_eq!(decode_compressed(0x8000), Err(DecodingError::Illegal)); // reserved
    assert_eq!(decode_compressed(0x6101), Err(DecodingError::Illegal)); // reserved
    assert_eq!(decode_compressed(0x0501), Err(DecodingError::Unimplemented)); // hint
    assert_eq!(decode_compressed(0x802e), Err(DecodingError::Unimplemented)); // hint
    assert_eq!(decode_compressed(0xb503), Err(DecodingError::Illegal)); // quadrant 3
    assert_eq!(decode_compressed(0xabcd_0000), Ok(Instruction::Illegal));
}

#[test]
fn no_expansion_is_the_sentinel_or_fails_to_be_standard() {
    let mut h: u32 = 0;
    while h <= 0xffff {
        let w = uncompress(h);
        if w != SENTINEL {
            assert_eq!(w & 3, 3);
            assert!(decode(w) != Err(DecodingError::Illegal));
        }
        h += 1;
    }
}
