use rustdecoder::csr_address::{
    CSR_MEPC_ADDRESS, CSR_MSTATUS_ADDRESS, CSR_SEPC_ADDRESS, CSR_SSTATUS_ADDRESS,
    CSR_UEPC_ADDRESS, CSR_USTATUS_ADDRESS,
};
use rustdecoder::instruction::Instruction;
use rustdecoder::instruction::{IType, RType};
use rustdecoder::py_wrapper::{
    decode_instruction, error_name, transcribe, DecodingResultPy, InstructionPy,
};
use rustdecoder::DecodingError;

fn int_reg(n: u64) -> (String, u64) {
    (String::from("int"), n)
}

fn csr_reg(n: u64) -> (String, u64) {
    (String::from("csr"), n)
}

fn record(word: u32) -> InstructionPy {
    let out = decode_instruction(word);
    assert_eq!(out.decode_error, None);
    out.inst.unwrap()
}

#[test]
fn new_records_are_empty() {
    let i = InstructionPy::new();
    assert_eq!(i.name, "");
    assert_eq!(i.imm, None);
    assert_eq!(i.zimm, None);
    assert_eq!(i.shamt, None);
    assert_eq!(i.pred_succ, None);
    assert_eq!(i.read_reg, None);
    assert_eq!(i.write_reg, None);
    let r = DecodingResultPy::new();
    assert_eq!(r.inst, None);
    assert_eq!(r.decode_error, None);
}

#[test]
fn csr_addresses() {
    assert_eq!(CSR_USTATUS_ADDRESS, 0x000);
    assert_eq!(CSR_UEPC_ADDRESS, 0x041);
    assert_eq!(CSR_SSTATUS_ADDRESS, 0x100);
    assert_eq!(CSR_SEPC_ADDRESS, 0x141);
    assert_eq!(CSR_MSTATUS_ADDRESS, 0x300);
    assert_eq!(CSR_MEPC_ADDRESS, 0x341);
}

#[test]
fn record_of_a_load() {
    let r = record(0x0005_b503); // ld a0,0(a1)
    assert_eq!(r.name, "LD");
    assert_eq!(r.imm, Some(0));
    assert_eq!(r.zimm, None);
    assert_eq!(r.shamt, None);
    assert_eq!(r.pred_succ, None);
    assert_eq!(r.read_reg, Some(vec![int_reg(11)]));
    assert_eq!(r.write_reg, Some(vec![int_reg(10)]));
}

#[test]
fn record_of_an_upper_immediate() {
    let r = record(0xffff_f7b7); // lui a5,0xfffff
    assert_eq!(r.name, "LUI");
    assert_eq!(r.imm, Some(0xffff_f000));
    assert_eq!(r.read_reg, None);
    assert_eq!(r.write_reg, Some(vec![int_reg(15)]));
    let r = record(0x0000_1517); // auipc a0,0x1
    assert_eq!(r.name, "AUIPC");
    assert_eq!(r.imm, Some(0x1000));
    assert_eq!(r.write_reg, Some(vec![int_reg(10)]));
}

#[test]
fn record_of_jumps() {
    let r = record(0xffdf_f06f); // j .-4
    assert_eq!(r.name, "JAL");
    assert_eq!(r.imm, Some(-4));
    assert_eq!(r.read_reg, None);
    assert_eq!(r.write_reg, Some(vec![int_reg(0)]));
    let r = record(0x0007_80e7); // jalr a5
    assert_eq!(r.name, "JALR");
    assert_eq!(r.imm, Some(0));
    assert_eq!(r.read_reg, Some(vec![int_reg(15)]));
    assert_eq!(r.write_reg, Some(vec![int_reg(1)]));
}

#[test]
fn record_of_a_branch() {
    let r = record(0xfeb5_0ee3); // beq a0,a1,.-4
    assert_eq!(r.name, "BEQ");
    assert_eq!(r.imm, Some(-4));
    assert_eq!(r.read_reg, Some(vec![int_reg(10), int_reg(11)]));
    assert_eq!(r.write_reg, None);
}

#[test]
fn record_of_a_store() {
    let r = record(0x0e85_b423); // sd s0,232(a1)
    assert_eq!(r.name, "SD");
    assert_eq!(r.imm, Some(232));
    assert_eq!(r.read_reg, Some(vec![int_reg(11), int_reg(8)]));
    assert_eq!(r.write_reg, None);
}

#[test]
fn record_of_a_shift() {
    let r = record(0x43f5_5513); // srai a0,a0,63
    assert_eq!(r.name, "SRAI");
    assert_eq!(r.imm, None);
    assert_eq!(r.shamt, Some(63));
    assert_eq!(r.read_reg, Some(vec![int_reg(10)]));
    assert_eq!(r.write_reg, Some(vec![int_reg(10)]));
    let r = record(0x01f5_151b); // slliw a0,a0,31
    assert_eq!(r.name, "SLLIW");
    assert_eq!(r.shamt, Some(31));
}

#[test]
fn record_of_an_operation_on_registers() {
    let r = record(0x40b5_0533); // sub a0,a0,a1
    assert_eq!(r.name, "SUB");
    assert_eq!(r.imm, None);
    assert_eq!(r.read_reg, Some(vec![int_reg(10), int_reg(11)]));
    assert_eq!(r.write_reg, Some(vec![int_reg(10)]));
    let r = record(0x02b5_753b); // remuw a0,a0,a1
    assert_eq!(r.name, "REMUW");
}

#[test]
fn record_of_a_fence() {
    let r = record(0x0310_000f); // fence rw,w
    assert_eq!(r.name, "FENCE");
    assert_eq!(r.pred_succ, Some((3, 1)));
    assert_eq!(r.read_reg, None);
    assert_eq!(r.write_reg, None);
    let r = record(0x0000_100f);
    assert_eq!(r.name, "FENCEI");
    assert_eq!(r.pred_succ, None);
}

#[test]
fn record_of_system_instructions() {
    assert_eq!(record(0x0000_0073).name, "ECALL");
    assert_eq!(record(0x0010_0073).name, "EBREAK");
    assert_eq!(record(0x1050_0073).name, "WFI");
    let r = record(0x0020_0073);
    assert_eq!(r.name, "URET");
    assert_eq!(r.read_reg, Some(vec![csr_reg(0x041), csr_reg(0x000)]));
    assert_eq!(r.write_reg, Some(vec![csr_reg(0x000)]));
    let r = record(0x1020_0073);
    assert_eq!(r.name, "SRET");
    assert_eq!(r.read_reg, Some(vec![csr_reg(0x141), csr_reg(0x100)]));
    assert_eq!(r.write_reg, Some(vec![csr_reg(0x100)]));
    let r = record(0x3020_0073);
    assert_eq!(r.name, "MRET");
    assert_eq!(r.read_reg, Some(vec![csr_reg(0x341), csr_reg(0x300)]));
    assert_eq!(r.write_reg, Some(vec![csr_reg(0x300)]));
    let r = record(0x12b5_0073); // sfence.vma a0,a1
    assert_eq!(r.name, "SFENCEVMA");
    assert_eq!(r.read_reg, Some(vec![int_reg(10), int_reg(11)]));
    assert_eq!(r.write_reg, Some(vec![int_reg(0)]));
}

#[test]
fn record_of_csr_accesses() {
    let r = record(0x3005_2573); // csrrs a0,mstatus,a0
    assert_eq!(r.name, "CSRRS");
    assert_eq!(r.zimm, None);
    assert_eq!(r.read_reg, Some(vec![csr_reg(0x300), int_reg(10)]));
    assert_eq!(r.write_reg, Some(vec![csr_reg(0x300), int_reg(10)]));
    let r = record(0x3002_e573); // csrrsi a0,mstatus,5
    assert_eq!(r.name, "CSRRSI");
    assert_eq!(r.zimm, Some(5));
    assert_eq!(r.imm, None);
    assert_eq!(r.read_reg, Some(vec![csr_reg(0x300)]));
    assert_eq!(r.write_reg, Some(vec![csr_reg(0x300), int_reg(10)]));
}

#[test]
fn record_of_the_illegal_instruction() {
    let r = record(0);
    assert_eq!(r.name, "ILLEGAL");
    assert_eq!(r.imm, None);
    assert_eq!(r.read_reg, None);
    assert_eq!(r.write_reg, None);
}

#[test]
fn record_of_an_error() {
    let out = decode_instruction(0x0005_2007); // flw
    assert_eq!(out.inst, None);
    assert_eq!(out.decode_error, Some(String::from("Unimplemented")));
    let out = decode_instruction(0x0000_006b);
    assert_eq!(out.inst, None);
    assert_eq!(out.decode_error, Some(String::from("Illegal")));
    assert_eq!(error_name(DecodingError::Unimplemented), "Unimplemented");
    assert_eq!(error_name(DecodingError::Illegal), "Illegal");
}

#[test]
fn names_of_all_instructions() {
    let i = IType(0);
    let r = RType(0);
    assert_eq!(transcribe(Instruction::Addi(i)).name, "ADDI");
    assert_eq!(transcribe(Instruction::Lwu(i)).name, "LWU");
    assert_eq!(transcribe(Instruction::Mulhsu(r)).name, "MULHSU");
    assert_eq!(transcribe(Instruction::Divuw(r)).name, "DIVUW");
    let words: [(u32, &str); 30] = [
        (0x0005_8503, "LB"),
        (0x0005_9503, "LH"),
        (0x0005_a503, "LW"),
        (0x0005_c503, "LBU"),
        (0x0005_d503, "LHU"),
        (0x00a5_8023, "SB"),
        (0x00a5_9023, "SH"),
        (0x00a5_a023, "SW"),
        (0x0015_2513, "SLTI"),
        (0x0015_3513, "SLTIU"),
        (0x0015_4513, "XORI"),
        (0x0015_6513, "ORI"),
        (0x0015_7513, "ANDI"),
        (0x03f5_1513, "SLLI"),
        (0x03f5_5513, "SRLI"),
        (0x00b5_0533, "ADD"),
        (0x00b5_1533, "SLL"),
        (0x00b5_2533, "SLT"),
        (0x00b5_3533, "SLTU"),
        (0x00b5_4533, "XOR"),
        (0x00b5_5533, "SRL"),
        (0x40b5_5533, "SRA"),
        (0x00b5_6533, "OR"),
        (0x00b5_7533, "AND"),
        (0x02b5_0533, "MUL"),
        (0x02b5_4533, "DIV"),
        (0x0015_051b, "ADDIW"),
        (0x00b5_053b, "ADDW"),
        (0x3005_1073, "CSRRW"),
        (0x3002_d073, "CSRRWI"),
    ];
    for (w, name) in words {
        assert_eq!(record(w).name, name);
    }
}
