//! The record that a host binding hands out for a decoded word: the name
//! of the instruction, its immediates, and the registers that it reads and
//! writes, each with its class.
//!
//! `spec_transcribe` says what the record of each instruction holds, format
//! by format; `transcribe` fills the record in instruction by instruction
//! and is proved to give exactly that.

use vstd::prelude::*;
use vstd::string::StringExecFns;
use crate::csr_address::{
    CSR_MEPC_ADDRESS, CSR_MSTATUS_ADDRESS, CSR_SEPC_ADDRESS, CSR_SSTATUS_ADDRESS,
    CSR_UEPC_ADDRESS, CSR_USTATUS_ADDRESS,
};
use crate::instruction::Instruction;
use crate::{decode, spec_decode, DecodingError};

verus! {

/// What is known of one decoded instruction.
#[derive(Clone, Debug, PartialEq, Eq)]
pub struct InstructionPy {
    /// The mnemonic, in upper case.
    pub name: String,
    /// The immediate of the formats that have one.
    pub imm: Option<i64>,
    /// The unsigned immediate of the CSR accesses that have one.
    pub zimm: Option<u64>,
    /// The shift amount of the immediate shifts.
    pub shamt: Option<i64>,
    /// The predecessor and successor sets of a fence.
    pub pred_succ: Option<(u64, u64)>,
    /// The registers read, in order: the class (`int` or `csr`) and the
    /// number of each.
    pub read_reg: Option<Vec<(String, u64)>>,
    /// The registers written, in order: the class (`int` or `csr`) and the
    /// number of each.
    pub write_reg: Option<Vec<(String, u64)>>,
}

/// What decoding one word gave: the instruction, or the name of the error.
#[derive(Clone, Debug, PartialEq, Eq)]
pub struct DecodingResultPy {
    pub inst: Option<InstructionPy>,
    pub decode_error: Option<String>,
}

/// A list of registers as plain values: class and number.
pub type RegisterList = Seq<(Seq<char>, u64)>;

/// The contents of an `InstructionPy`.
pub struct InstructionRecord {
    pub name: Seq<char>,
    pub imm: Option<i64>,
    pub zimm: Option<u64>,
    pub shamt: Option<i64>,
    pub pred_succ: Option<(u64, u64)>,
    pub read_reg: Option<RegisterList>,
    pub write_reg: Option<RegisterList>,
}

/// The contents of a `DecodingResultPy`.
pub struct DecodingRecord {
    pub inst: Option<InstructionRecord>,
    pub decode_error: Option<Seq<char>>,
}

/// The contents of a list of registers.
pub open spec fn register_list(v: Seq<(String, u64)>) -> RegisterList {
    v.map_values(|p: (String, u64)| (p.0@, p.1))
}

/// The contents of a list of registers that may be absent.
pub open spec fn optional_register_list(v: Option<Vec<(String, u64)>>) -> Option<RegisterList> {
    match v {
        Some(v) => Some(register_list(v@)),
        None => None,
    }
}

impl View for InstructionPy {
    type V = InstructionRecord;

    open spec fn view(&self) -> InstructionRecord {
        InstructionRecord {
            name: self.name@,
            imm: self.imm,
            zimm: self.zimm,
            shamt: self.shamt,
            pred_succ: self.pred_succ,
            read_reg: optional_register_list(self.read_reg),
            write_reg: optional_register_list(self.write_reg),
        }
    }
}

impl View for DecodingResultPy {
    type V = DecodingRecord;

    open spec fn view(&self) -> DecodingRecord {
        DecodingRecord {
            inst: match self.inst {
                Some(i) => Some(i@),
                None => None,
            },
            decode_error: match self.decode_error {
                Some(e) => Some(e@),
                None => None,
            },
        }
    }
}

/// An integer register, as an entry of a register list.
pub open spec fn int_reg(n: u64) -> (Seq<char>, u64) {
    ("int"@, n)
}

/// A control and status register, as an entry of a register list.
pub open spec fn csr_reg(n: u64) -> (Seq<char>, u64) {
    ("csr"@, n)
}

/// The mnemonic of an instruction.
pub open spec fn spec_name(inst: Instruction) -> Seq<char> {
    match inst {
        Instruction::Lui(_) => "LUI"@,
        Instruction::Auipc(_) => "AUIPC"@,
        Instruction::Jal(_) => "JAL"@,
        Instruction::Jalr(_) => "JALR"@,
        Instruction::Beq(_) => "BEQ"@,
        Instruction::Bne(_) => "BNE"@,
        Instruction::Blt(_) => "BLT"@,
        Instruction::Bge(_) => "BGE"@,
        Instruction::Bltu(_) => "BLTU"@,
        Instruction::Bgeu(_) => "BGEU"@,
        Instruction::Lb(_) => "LB"@,
        Instruction::Lh(_) => "LH"@,
        Instruction::Lw(_) => "LW"@,
        Instruction::Lbu(_) => "LBU"@,
        Instruction::Lhu(_) => "LHU"@,
        Instruction::Lwu(_) => "LWU"@,
        Instruction::Ld(_) => "LD"@,
        Instruction::Sb(_) => "SB"@,
        Instruction::Sh(_) => "SH"@,
        Instruction::Sw(_) => "SW"@,
        Instruction::Sd(_) => "SD"@,
        Instruction::Addi(_) => "ADDI"@,
        Instruction::Slti(_) => "SLTI"@,
        Instruction::Sltiu(_) => "SLTIU"@,
        Instruction::Xori(_) => "XORI"@,
        Instruction::Ori(_) => "ORI"@,
        Instruction::Andi(_) => "ANDI"@,
        Instruction::Slli(_) => "SLLI"@,
        Instruction::Srli(_) => "SRLI"@,
        Instruction::Srai(_) => "SRAI"@,
        Instruction::Add(_) => "ADD"@,
        Instruction::Sub(_) => "SUB"@,
        Instruction::Sll(_) => "SLL"@,
        Instruction::Slt(_) => "SLT"@,
        Instruction::Sltu(_) => "SLTU"@,
        Instruction::Xor(_) => "XOR"@,
        Instruction::Srl(_) => "SRL"@,
        Instruction::Sra(_) => "SRA"@,
        Instruction::Or(_) => "OR"@,
        Instruction::And(_) => "AND"@,
        Instruction::Mul(_) => "MUL"@,
        Instruction::Mulh(_) => "MULH"@,
        Instruction::Mulhsu(_) => "MULHSU"@,
        Instruction::Mulhu(_) => "MULHU"@,
        Instruction::Div(_) => "DIV"@,
        Instruction::Divu(_) => "DIVU"@,
        Instruction::Rem(_) => "REM"@,
        Instruction::Remu(_) => "REMU"@,
        Instruction::Fence(_) => "FENCE"@,
        Instruction::FenceI => "FENCEI"@,
        Instruction::Ecall => "ECALL"@,
        Instruction::Ebreak => "EBREAK"@,
        Instruction::Uret => "URET"@,
        Instruction::Sret => "SRET"@,
        Instruction::Mret => "MRET"@,
        Instruction::Wfi => "WFI"@,
        Instruction::SfenceVma(_) => "SFENCEVMA"@,
        Instruction::Csrrw(_) => "CSRRW"@,
        Instruction::Csrrs(_) => "CSRRS"@,
        Instruction::Csrrc(_) => "CSRRC"@,
        Instruction::Csrrwi(_) => "CSRRWI"@,
        Instruction::Csrrsi(_) => "CSRRSI"@,
        Instruction::Csrrci(_) => "CSRRCI"@,
        Instruction::Addiw(_) => "ADDIW"@,
        Instruction::Slliw(_) => "SLLIW"@,
        Instruction::Srliw(_) => "SRLIW"@,
        Instruction::Sraiw(_) => "SRAIW"@,
        Instruction::Addw(_) => "ADDW"@,
        Instruction::Subw(_) => "SUBW"@,
        Instruction::Sllw(_) => "SLLW"@,
        Instruction::Srlw(_) => "SRLW"@,
        Instruction::Sraw(_) => "SRAW"@,
        Instruction::Mulw(_) => "MULW"@,
        Instruction::Divw(_) => "DIVW"@,
        Instruction::Divuw(_) => "DIVUW"@,
        Instruction::Remw(_) => "REMW"@,
        Instruction::Remuw(_) => "REMUW"@,
        Instruction::Illegal => "ILLEGAL"@,
    }
}

/// The immediate: of a U-type instruction the upper immediate, of a J-type,
/// I-type, B-type or S-type instruction the sign-extended one. The shifts
/// and the CSR accesses have none here.
pub open spec fn spec_imm(inst: Instruction) -> Option<i64> {
    match inst {
        Instruction::Lui(u) | Instruction::Auipc(u) => Some(u.imm() as i64),
        Instruction::Jal(j) => Some(j.imm()),
        Instruction::Jalr(i) | Instruction::Lb(i) | Instruction::Lh(i) | Instruction::Lw(i)
        | Instruction::Lbu(i) | Instruction::Lhu(i) | Instruction::Lwu(i) | Instruction::Ld(i)
        | Instruction::Addi(i) | Instruction::Slti(i) | Instruction::Sltiu(i)
        | Instruction::Xori(i) | Instruction::Ori(i) | Instruction::Andi(i)
        | Instruction::Addiw(i) => Some(i.imm()),
        Instruction::Beq(b) | Instruction::Bne(b) | Instruction::Blt(b) | Instruction::Bge(b)
        | Instruction::Bltu(b) | Instruction::Bgeu(b) => Some(b.imm()),
        Instruction::Sb(s) | Instruction::Sh(s) | Instruction::Sw(s) | Instruction::Sd(s) => Some(
            s.imm(),
        ),
        _ => None,
    }
}

/// The unsigned immediate of the CSR accesses with an immediate operand.
pub open spec fn spec_zimm(inst: Instruction) -> Option<u64> {
    match inst {
        Instruction::Csrrwi(c) | Instruction::Csrrsi(c) | Instruction::Csrrci(c) => Some(c.zimm()),
        _ => None,
    }
}

/// The shift amount of the immediate shifts.
pub open spec fn spec_shamt(inst: Instruction) -> Option<i64> {
    match inst {
        Instruction::Slli(s) | Instruction::Srli(s) | Instruction::Srai(s)
        | Instruction::Slliw(s) | Instruction::Srliw(s) | Instruction::Sraiw(s) => Some(
            s.shamt() as i64,
        ),
        _ => None,
    }
}

/// The predecessor and successor sets of FENCE.
pub open spec fn spec_pred_succ(inst: Instruction) -> Option<(u64, u64)> {
    match inst {
        Instruction::Fence(f) => Some((f.pred(), f.succ())),
        _ => None,
    }
}

/// The registers that an instruction reads. A jump-and-link-register, a
/// load, an operation with an immediate and a shift read rs1; a branch, a
/// store and an operation on registers read rs1 and rs2; a CSR access reads
/// the CSR, and rs1 where it has one; a trap return reads the exception
/// program counter and the status register of its privilege level.
pub open spec fn spec_read_reg(inst: Instruction) -> Option<RegisterList> {
    match inst {
        Instruction::Jalr(i) | Instruction::Lb(i) | Instruction::Lh(i) | Instruction::Lw(i)
        | Instruction::Lbu(i) | Instruction::Lhu(i) | Instruction::Lwu(i) | Instruction::Ld(i)
        | Instruction::Addi(i) | Instruction::Slti(i) | Instruction::Sltiu(i)
        | Instruction::Xori(i) | Instruction::Ori(i) | Instruction::Andi(i)
        | Instruction::Addiw(i) => Some(seq![int_reg(i.rs1())]),
        Instruction::Slli(s) | Instruction::Srli(s) | Instruction::Srai(s)
        | Instruction::Slliw(s) | Instruction::Srliw(s) | Instruction::Sraiw(s) => Some(
            seq![int_reg(s.rs1())],
        ),
        Instruction::Beq(b) | Instruction::Bne(b) | Instruction::Blt(b) | Instruction::Bge(b)
        | Instruction::Bltu(b) | Instruction::Bgeu(b) => Some(
            seq![int_reg(b.rs1()), int_reg(b.rs2())],
        ),
        Instruction::Sb(s) | Instruction::Sh(s) | Instruction::Sw(s) | Instruction::Sd(s) => Some(
            seq![int_reg(s.rs1()), int_reg(s.rs2())],
        ),
        Instruction::Add(r) | Instruction::Sub(r) | Instruction::Sll(r) | Instruction::Slt(r)
        | Instruction::Sltu(r) | Instruction::Xor(r) | Instruction::Srl(r)
        | Instruction::Sra(r) | Instruction::Or(r) | Instruction::And(r) | Instruction::Mul(r)
        | Instruction::Mulh(r) | Instruction::Mulhsu(r) | Instruction::Mulhu(r)
        | Instruction::Div(r) | Instruction::Divu(r) | Instruction::Rem(r)
        | Instruction::Remu(r) | Instruction::SfenceVma(r) | Instruction::Addw(r)
        | Instruction::Subw(r) | Instruction::Sllw(r) | Instruction::Srlw(r)
        | Instruction::Sraw(r) | Instruction::Mulw(r) | Instruction::Divw(r)
        | Instruction::Divuw(r) | Instruction::Remw(r) | Instruction::Remuw(r) => Some(
            seq![int_reg(r.rs1()), int_reg(r.rs2())],
        ),
        Instruction::Csrrw(c) | Instruction::Csrrs(c) | Instruction::Csrrc(c) => Some(
            seq![csr_reg(c.csr()), int_reg(c.rs1())],
        ),
        Instruction::Csrrwi(c) | Instruction::Csrrsi(c) | Instruction::Csrrci(c) => Some(
            seq![csr_reg(c.csr())],
        ),
        Instruction::Uret => Some(
            seq![csr_reg(CSR_UEPC_ADDRESS as u64), csr_reg(CSR_USTATUS_ADDRESS as u64)],
        ),
        Instruction::Sret => Some(
            seq![csr_reg(CSR_SEPC_ADDRESS as u64), csr_reg(CSR_SSTATUS_ADDRESS as u64)],
        ),
        Instruction::Mret => Some(
            seq![csr_reg(CSR_MEPC_ADDRESS as u64), csr_reg(CSR_MSTATUS_ADDRESS as u64)],
        ),
        _ => None,
    }
}

/// The registers that an instruction writes. Every instruction with a
/// destination writes rd; a CSR access writes the CSR and rd; a trap return
/// writes the status register of its privilege level.
pub open spec fn spec_write_reg(inst: Instruction) -> Option<RegisterList> {
    match inst {
        Instruction::Lui(u) | Instruction::Auipc(u) => Some(seq![int_reg(u.rd())]),
        Instruction::Jal(j) => Some(seq![int_reg(j.rd())]),
        Instruction::Jalr(i) | Instruction::Lb(i) | Instruction::Lh(i) | Instruction::Lw(i)
        | Instruction::Lbu(i) | Instruction::Lhu(i) | Instruction::Lwu(i) | Instruction::Ld(i)
        | Instruction::Addi(i) | Instruction::Slti(i) | Instruction::Sltiu(i)
        | Instruction::Xori(i) | Instruction::Ori(i) | Instruction::Andi(i)
        | Instruction::Addiw(i) => Some(seq![int_reg(i.rd())]),
        Instruction::Slli(s) | Instruction::Srli(s) | Instruction::Srai(s)
        | Instruction::Slliw(s) | Instruction::Srliw(s) | Instruction::Sraiw(s) => Some(
            seq![int_reg(s.rd())],
        ),
        Instruction::Add(r) | Instruction::Sub(r) | Instruction::Sll(r) | Instruction::Slt(r)
        | Instruction::Sltu(r) | Instruction::Xor(r) | Instruction::Srl(r)
        | Instruction::Sra(r) | Instruction::Or(r) | Instruction::And(r) | Instruction::Mul(r)
        | Instruction::Mulh(r) | Instruction::Mulhsu(r) | Instruction::Mulhu(r)
        | Instruction::Div(r) | Instruction::Divu(r) | Instruction::Rem(r)
        | Instruction::Remu(r) | Instruction::SfenceVma(r) | Instruction::Addw(r)
        | Instruction::Subw(r) | Instruction::Sllw(r) | Instruction::Srlw(r)
        | Instruction::Sraw(r) | Instruction::Mulw(r) | Instruction::Divw(r)
        | Instruction::Divuw(r) | Instruction::Remw(r) | Instruction::Remuw(r) => Some(
            seq![int_reg(r.rd())],
        ),
        Instruction::Csrrw(c) | Instruction::Csrrs(c) | Instruction::Csrrc(c) => Some(
            seq![csr_reg(c.csr()), int_reg(c.rd())],
        ),
        Instruction::Csrrwi(c) | Instruction::Csrrsi(c) | Instruction::Csrrci(c) => Some(
            seq![csr_reg(c.csr()), int_reg(c.rd())],
        ),
        Instruction::Uret => Some(seq![csr_reg(CSR_USTATUS_ADDRESS as u64)]),
        Instruction::Sret => Some(seq![csr_reg(CSR_SSTATUS_ADDRESS as u64)]),
        Instruction::Mret => Some(seq![csr_reg(CSR_MSTATUS_ADDRESS as u64)]),
        _ => None,
    }
}

/// The record of an instruction.
pub open spec fn spec_transcribe(inst: Instruction) -> InstructionRecord {
    InstructionRecord {
        name: spec_name(inst),
        imm: spec_imm(inst),
        zimm: spec_zimm(inst),
        shamt: spec_shamt(inst),
        pred_succ: spec_pred_succ(inst),
        read_reg: spec_read_reg(inst),
        write_reg: spec_write_reg(inst),
    }
}

/// The name of a decoding error.
pub open spec fn spec_error_name(e: DecodingError) -> Seq<char> {
    match e {
        DecodingError::Unimplemented => "Unimplemented"@,
        DecodingError::Illegal => "Illegal"@,
    }
}

/// The record of decoding a word: the record of the instruction and no
/// error, or no instruction and the name of the error.
pub open spec fn spec_decode_instruction(word: u32) -> DecodingRecord {
    match spec_decode(word) {
        Ok(inst) => DecodingRecord { inst: Some(spec_transcribe(inst)), decode_error: None },
        Err(e) => DecodingRecord { inst: None, decode_error: Some(spec_error_name(e)) },
    }
}

impl DecodingResultPy {
    /// A result that holds neither an instruction nor an error.
    pub fn new() -> (r: Self)
        ensures
            r@ == (DecodingRecord { inst: None, decode_error: None }),
    {
        DecodingResultPy { inst: None, decode_error: None }
    }
}

impl InstructionPy {
    /// A record with an empty name and nothing else.
    pub fn new() -> (r: Self)
        ensures
            r@ == (InstructionRecord {
                name: Seq::<char>::empty(),
                imm: None,
                zimm: None,
                shamt: None,
                pred_succ: None,
                read_reg: None,
                write_reg: None,
            }),
    {
        InstructionPy {
            name: String::new(),
            imm: None,
            zimm: None,
            shamt: None,
            pred_succ: None,
            read_reg: None,
            write_reg: None,
        }
    }
}

/// A register list of one entry.
fn one_reg(class: &str, n: u64) -> (v: Vec<(String, u64)>)
    ensures
        register_list(v@) == seq![(class@, n)],
{
    let v = vec![(String::from_str(class), n)];
    assert(register_list(v@) =~= seq![(class@, n)]);
    v
}

/// A register list of two entries.
fn two_regs(class1: &str, n1: u64, class2: &str, n2: u64) -> (v: Vec<(String, u64)>)
    ensures
        register_list(v@) == seq![(class1@, n1), (class2@, n2)],
{
    let v = vec![(String::from_str(class1), n1), (String::from_str(class2), n2)];
    assert(register_list(v@) =~= seq![(class1@, n1), (class2@, n2)]);
    v
}

/// The name of a decoding error, as text.
pub fn error_name(e: DecodingError) -> (r: String)
    ensures
        r@ == spec_error_name(e),
{
    match e {
        DecodingError::Unimplemented => String::from_str("Unimplemented"),
        DecodingError::Illegal => String::from_str("Illegal"),
    }
}

/// Fills in the record of an instruction.
pub fn transcribe(inst: Instruction) -> (r: InstructionPy)
    ensures
        r@ == spec_transcribe(inst),
{
    let mut result_inst = InstructionPy::new();
    match inst {
        // LUI
        Instruction::Lui(u_type_inst) => {
            result_inst.imm = Some(u_type_inst.imm() as i64);
            result_inst.write_reg = Some(one_reg("int", u_type_inst.rd()));
            result_inst.name = String::from_str("LUI");
        },
        // AUIPC
        Instruction::Auipc(u_type_inst) => {
            result_inst.imm = Some(u_type_inst.imm() as i64);
            result_inst.write_reg = Some(one_reg("int", u_type_inst.rd()));
            result_inst.name = String::from_str("AUIPC");
        },
        // JAL
        Instruction::Jal(j_type_inst) => {
            result_inst.imm = Some(j_type_inst.imm());
            result_inst.write_reg = Some(one_reg("int", j_type_inst.rd()));
            result_inst.name = String::from_str("JAL");
        },
        // JALR
        Instruction::Jalr(i_type_inst) => {
            result_inst.imm = Some(i_type_inst.imm());
            result_inst.read_reg = Some(one_reg("int", i_type_inst.rs1()));
            result_inst.write_reg = Some(one_reg("int", i_type_inst.rd()));
            result_inst.name = String::from_str("JALR");
        },
        // Branch
        Instruction::Beq(b_type_inst) => {
            result_inst.imm = Some(b_type_inst.imm());
            result_inst.read_reg = Some(two_regs("int", b_type_inst.rs1(), "int", b_type_inst.rs2()));
            result_inst.name = String::from_str("BEQ");
        },
        Instruction::Bne(b_type_inst) => {
            result_inst.imm = Some(b_type_inst.imm());
            result_inst.read_reg = Some(two_regs("int", b_type_inst.rs1(), "int", b_type_inst.rs2()));
            result_inst.name = String::from_str("BNE");
        },
        Instruction::Blt(b_type_inst) => {
            result_inst.imm = Some(b_type_inst.imm());
            result_inst.read_reg = Some(two_regs("int", b_type_inst.rs1(), "int", b_type_inst.rs2()));
            result_inst.name = String::from_str("BLT");
        },
        Instruction::Bge(b_type_inst) => {
            result_inst.imm = Some(b_type_inst.imm());
            result_inst.read_reg = Some(two_regs("int", b_type_inst.rs1(), "int", b_type_inst.rs2()));
            result_inst.name = String::from_str("BGE");
        },
        Instruction::Bltu(b_type_inst) => {
            result_inst.imm = Some(b_type_inst.imm());
            result_inst.read_reg = Some(two_regs("int", b_type_inst.rs1(), "int", b_type_inst.rs2()));
            result_inst.name = String::from_str("BLTU");
        },
        Instruction::Bgeu(b_type_inst) => {
            result_inst.imm = Some(b_type_inst.imm());
            result_inst.read_reg = Some(two_regs("int", b_type_inst.rs1(), "int", b_type_inst.rs2()));
            result_inst.name = String::from_str("BGEU");
        },
        // Load
        Instruction::Lb(i_type_inst) => {
            result_inst.imm = Some(i_type_inst.imm());
            result_inst.read_reg = Some(one_reg("int", i_type_inst.rs1()));
            result_inst.write_reg = Some(one_reg("int", i_type_inst.rd()));
            result_inst.name = String::from_str("LB");
        },
        Instruction::Lh(i_type_inst) => {
            result_inst.imm = Some(i_type_inst.imm());
            result_inst.read_reg = Some(one_reg("int", i_type_inst.rs1()));
            result_inst.write_reg = Some(one_reg("int", i_type_inst.rd()));
            result_inst.name = String::from_str("LH");
        },
        Instruction::Lw(i_type_inst) => {
            result_inst.imm = Some(i_type_inst.imm());
            result_inst.read_reg = Some(one_reg("int", i_type_inst.rs1()));
            result_inst.write_reg = Some(one_reg("int", i_type_inst.rd()));
            result_inst.name = String::from_str("LW");
        },
        Instruction::Lbu(i_type_inst) => {
            result_inst.imm = Some(i_type_inst.imm());
            result_inst.read_reg = Some(one_reg("int", i_type_inst.rs1()));
            result_inst.write_reg = Some(one_reg("int", i_type_inst.rd()));
            result_inst.name = String::from_str("LBU");
        },
        Instruction::Lhu(i_type_inst) => {
            result_inst.imm = Some(i_type_inst.imm());
            result_inst.read_reg = Some(one_reg("int", i_type_inst.rs1()));
            result_inst.write_reg = Some(one_reg("int", i_type_inst.rd()));
            result_inst.name = String::from_str("LHU");
        },
        Instruction::Lwu(i_type_inst) => {
            result_inst.imm = Some(i_type_inst.imm());
            result_inst.read_reg = Some(one_reg("int", i_type_inst.rs1()));
            result_inst.write_reg = Some(one_reg("int", i_type_inst.rd()));
            result_inst.name = String::from_str("LWU");
        },
        Instruction::Ld(i_type_inst) => {
            result_inst.imm = Some(i_type_inst.imm());
            result_inst.read_reg = Some(one_reg("int", i_type_inst.rs1()));
            result_inst.write_reg = Some(one_reg("int", i_type_inst.rd()));
            result_inst.name = String::from_str("LD");
        },
        // Store
        Instruction::Sb(s_type_inst) => {
            result_inst.imm = Some(s_type_inst.imm());
            result_inst.read_reg = Some(two_regs("int", s_type_inst.rs1(), "int", s_type_inst.rs2()));
            result_inst.name = String::from_str("SB");
        },
        Instruction::Sh(s_type_inst) => {
            result_inst.imm = Some(s_type_inst.imm());
            result_inst.read_reg = Some(two_regs("int", s_type_inst.rs1(), "int", s_type_inst.rs2()));
            result_inst.name = String::from_str("SH");
        },
        Instruction::Sw(s_type_inst) => {
            result_inst.imm = Some(s_type_inst.imm());
            result_inst.read_reg = Some(two_regs("int", s_type_inst.rs1(), "int", s_type_inst.rs2()));
            result_inst.name = String::from_str("SW");
        },
        Instruction::Sd(s_type_inst) => {
            result_inst.imm = Some(s_type_inst.imm());
            result_inst.read_reg = Some(two_regs("int", s_type_inst.rs1(), "int", s_type_inst.rs2()));
            result_inst.name = String::from_str("SD");
        },
        // OP-IMM
        Instruction::Addi(i_type_inst) => {
            result_inst.imm = Some(i_type_inst.imm());
            result_inst.read_reg = Some(one_reg("int", i_type_inst.rs1()));
            result_inst.write_reg = Some(one_reg("int", i_type_inst.rd()));
            result_inst.name = String::from_str("ADDI");
        },
        Instruction::Slti(i_type_inst) => {
            result_inst.imm = Some(i_type_inst.imm());
            result_inst.read_reg = Some(one_reg("int", i_type_inst.rs1()));
            result_inst.write_reg = Some(one_reg("int", i_type_inst.rd()));
            result_inst.name = String::from_str("SLTI");
        },
        Instruction::Sltiu(i_type_inst) => {
            result_inst.imm = Some(i_type_inst.imm());
            result_inst.read_reg = Some(one_reg("int", i_type_inst.rs1()));
            result_inst.write_reg = Some(one_reg("int", i_type_inst.rd()));
            result_inst.name = String::from_str("SLTIU");
        },
        Instruction::Xori(i_type_inst) => {
            result_inst.imm = Some(i_type_inst.imm());
            result_inst.read_reg = Some(one_reg("int", i_type_inst.rs1()));
            result_inst.write_reg = Some(one_reg("int", i_type_inst.rd()));
            result_inst.name = String::from_str("XORI");
        },
        Instruction::Ori(i_type_inst) => {
            result_inst.imm = Some(i_type_inst.imm());
            result_inst.read_reg = Some(one_reg("int", i_type_inst.rs1()));
            result_inst.write_reg = Some(one_reg("int", i_type_inst.rd()));
            result_inst.name = String::from_str("ORI");
        },
        Instruction::Andi(i_type_inst) => {
            result_inst.imm = Some(i_type_inst.imm());
            result_inst.read_reg = Some(one_reg("int", i_type_inst.rs1()));
            result_inst.write_reg = Some(one_reg("int", i_type_inst.rd()));
            result_inst.name = String::from_str("ANDI");
        },
        Instruction::Slli(shift_type_inst) => {
            result_inst.shamt = Some(shift_type_inst.shamt() as i64);
            result_inst.read_reg = Some(one_reg("int", shift_type_inst.rs1()));
            result_inst.write_reg = Some(one_reg("int", shift_type_inst.rd()));
            result_inst.name = String::from_str("SLLI");
        },
        Instruction::Srli(shift_type_inst) => {
            result_inst.shamt = Some(shift_type_inst.shamt() as i64);
            result_inst.read_reg = Some(one_reg("int", shift_type_inst.rs1()));
            result_inst.write_reg = Some(one_reg("int", shift_type_inst.rd()));
            result_inst.name = String::from_str("SRLI");
        },
        Instruction::Srai(shift_type_inst) => {
            result_inst.shamt = Some(shift_type_inst.shamt() as i64);
            result_inst.read_reg = Some(one_reg("int", shift_type_inst.rs1()));
            result_inst.write_reg = Some(one_reg("int", shift_type_inst.rd()));
            result_inst.name = String::from_str("SRAI");
        },
        // OP
        Instruction::Add(r_type_inst) => {
            result_inst.read_reg = Some(two_regs("int", r_type_inst.rs1(), "int", r_type_inst.rs2()));
            result_inst.write_reg = Some(one_reg("int", r_type_inst.rd()));
            result_inst.name = String::from_str("ADD");
        },
        Instruction::Sub(r_type_inst) => {
            result_inst.read_reg = Some(two_regs("int", r_type_inst.rs1(), "int", r_type_inst.rs2()));
            result_inst.write_reg = Some(one_reg("int", r_type_inst.rd()));
            result_inst.name = String::from_str("SUB");
        },
        Instruction::Sll(r_type_inst) => {
            result_inst.read_reg = Some(two_regs("int", r_type_inst.rs1(), "int", r_type_inst.rs2()));
            result_inst.write_reg = Some(one_reg("int", r_type_inst.rd()));
            result_inst.name = String::from_str("SLL");
        },
        Instruction::Slt(r_type_inst) => {
            result_inst.read_reg = Some(two_regs("int", r_type_inst.rs1(), "int", r_type_inst.rs2()));
            result_inst.write_reg = Some(one_reg("int", r_type_inst.rd()));
            result_inst.name = String::from_str("SLT");
        },
        Instruction::Sltu(r_type_inst) => {
            result_inst.read_reg = Some(two_regs("int", r_type_inst.rs1(), "int", r_type_inst.rs2()));
            result_inst.write_reg = Some(one_reg("int", r_type_inst.rd()));
            result_inst.name = String::from_str("SLTU");
        },
        Instruction::Xor(r_type_inst) => {
            result_inst.read_reg = Some(two_regs("int", r_type_inst.rs1(), "int", r_type_inst.rs2()));
            result_inst.write_reg = Some(one_reg("int", r_type_inst.rd()));
            result_inst.name = String::from_str("XOR");
        },
        Instruction::Srl(r_type_inst) => {
            result_inst.read_reg = Some(two_regs("int", r_type_inst.rs1(), "int", r_type_inst.rs2()));
            result_inst.write_reg = Some(one_reg("int", r_type_inst.rd()));
            result_inst.name = String::from_str("SRL");
        },
        Instruction::Sra(r_type_inst) => {
            result_inst.read_reg = Some(two_regs("int", r_type_inst.rs1(), "int", r_type_inst.rs2()));
            result_inst.write_reg = Some(one_reg("int", r_type_inst.rd()));
            result_inst.name = String::from_str("SRA");
        },
        Instruction::Or(r_type_inst) => {
            result_inst.read_reg = Some(two_regs("int", r_type_inst.rs1(), "int", r_type_inst.rs2()));
            result_inst.write_reg = Some(one_reg("int", r_type_inst.rd()));
            result_inst.name = String::from_str("OR");
        },
        Instruction::And(r_type_inst) => {
            result_inst.read_reg = Some(two_regs("int", r_type_inst.rs1(), "int", r_type_inst.rs2()));
            result_inst.write_reg = Some(one_reg("int", r_type_inst.rd()));
            result_inst.name = String::from_str("AND");
        },
        Instruction::Mul(r_type_inst) => {
            result_inst.read_reg = Some(two_regs("int", r_type_inst.rs1(), "int", r_type_inst.rs2()));
            result_inst.write_reg = Some(one_reg("int", r_type_inst.rd()));
            result_inst.name = String::from_str("MUL");
        },
        Instruction::Mulh(r_type_inst) => {
            result_inst.read_reg = Some(two_regs("int", r_type_inst.rs1(), "int", r_type_inst.rs2()));
            result_inst.write_reg = Some(one_reg("int", r_type_inst.rd()));
            result_inst.name = String::from_str("MULH");
        },
        Instruction::Mulhsu(r_type_inst) => {
            result_inst.read_reg = Some(two_regs("int", r_type_inst.rs1(), "int", r_type_inst.rs2()));
            result_inst.write_reg = Some(one_reg("int", r_type_inst.rd()));
            result_inst.name = String::from_str("MULHSU");
        },
        Instruction::Mulhu(r_type_inst) => {
            result_inst.read_reg = Some(two_regs("int", r_type_inst.rs1(), "int", r_type_inst.rs2()));
            result_inst.write_reg = Some(one_reg("int", r_type_inst.rd()));
            result_inst.name = String::from_str("MULHU");
        },
        Instruction::Div(r_type_inst) => {
            result_inst.read_reg = Some(two_regs("int", r_type_inst.rs1(), "int", r_type_inst.rs2()));
            result_inst.write_reg = Some(one_reg("int", r_type_inst.rd()));
            result_inst.name = String::from_str("DIV");
        },
        Instruction::Divu(r_type_inst) => {
            result_inst.read_reg = Some(two_regs("int", r_type_inst.rs1(), "int", r_type_inst.rs2()));
            result_inst.write_reg = Some(one_reg("int", r_type_inst.rd()));
            result_inst.name = String::from_str("DIVU");
        },
        Instruction::Rem(r_type_inst) => {
            result_inst.read_reg = Some(two_regs("int", r_type_inst.rs1(), "int", r_type_inst.rs2()));
            result_inst.write_reg = Some(one_reg("int", r_type_inst.rd()));
            result_inst.name = String::from_str("REM");
        },
        Instruction::Remu(r_type_inst) => {
            result_inst.read_reg = Some(two_regs("int", r_type_inst.rs1(), "int", r_type_inst.rs2()));
            result_inst.write_reg = Some(one_reg("int", r_type_inst.rd()));
            result_inst.name = String::from_str("REMU");
        },
        // MISC-MEM
        Instruction::Fence(fence_type_inst) => {
            result_inst.name = String::from_str("FENCE");
            result_inst.pred_succ = Some((fence_type_inst.pred(), fence_type_inst.succ()));
        },
        Instruction::FenceI => {
            result_inst.name = String::from_str("FENCEI");
        },
        // System
        Instruction::Ecall => {
            result_inst.name = String::from_str("ECALL");
        },
        Instruction::Ebreak => {
            result_inst.name = String::from_str("EBREAK");
        },
        Instruction::Uret => {
            result_inst.name = String::from_str("URET");
            result_inst.read_reg = Some(
                two_regs("csr", CSR_UEPC_ADDRESS as u64, "csr", CSR_USTATUS_ADDRESS as u64),
            );
            result_inst.write_reg = Some(one_reg("csr", CSR_USTATUS_ADDRESS as u64));
        },
        Instruction::Sret => {
            result_inst.name = String::from_str("SRET");
            result_inst.read_reg = Some(
                two_regs("csr", CSR_SEPC_ADDRESS as u64, "csr", CSR_SSTATUS_ADDRESS as u64),
            );
            result_inst.write_reg = Some(one_reg("csr", CSR_SSTATUS_ADDRESS as u64));
        },
        Instruction::Mret => {
            result_inst.name = String::from_str("MRET");
            result_inst.read_reg = Some(
                two_regs("csr", CSR_MEPC_ADDRESS as u64, "csr", CSR_MSTATUS_ADDRESS as u64),
            );
            result_inst.write_reg = Some(one_reg("csr", CSR_MSTATUS_ADDRESS as u64));
        },
        Instruction::Wfi => {
            result_inst.name = String::from_str("WFI");
        },
        Instruction::SfenceVma(r_type_inst) => {
            result_inst.read_reg = Some(two_regs("int", r_type_inst.rs1(), "int", r_type_inst.rs2()));
            result_inst.write_reg = Some(one_reg("int", r_type_inst.rd()));
            result_inst.name = String::from_str("SFENCEVMA");
        },
        Instruction::Csrrw(csr_type_inst) => {
            result_inst.name = String::from_str("CSRRW");
            result_inst.read_reg = Some(two_regs("csr", csr_type_inst.csr(), "int", csr_type_inst.rs1()));
            result_inst.write_reg = Some(two_regs("csr", csr_type_inst.csr(), "int", csr_type_inst.rd()));
        },
        Instruction::Csrrs(csr_type_inst) => {
            result_inst.name = String::from_str("CSRRS");
            result_inst.read_reg = Some(two_regs("csr", csr_type_inst.csr(), "int", csr_type_inst.rs1()));
            result_inst.write_reg = Some(two_regs("csr", csr_type_inst.csr(), "int", csr_type_inst.rd()));
        },
        Instruction::Csrrc(csr_type_inst) => {
            result_inst.name = String::from_str("CSRRC");
            result_inst.read_reg = Some(two_regs("csr", csr_type_inst.csr(), "int", csr_type_inst.rs1()));
            result_inst.write_reg = Some(two_regs("csr", csr_type_inst.csr(), "int", csr_type_inst.rd()));
        },
        Instruction::Csrrwi(csri_type_inst) => {
            result_inst.name = String::from_str("CSRRWI");
            result_inst.zimm = Some(csri_type_inst.zimm());
            result_inst.read_reg = Some(one_reg("csr", csri_type_inst.csr()));
            result_inst.write_reg = Some(two_regs("csr", csri_type_inst.csr(), "int", csri_type_inst.rd()));
        },
        Instruction::Csrrsi(csri_type_inst) => {
            result_inst.name = String::from_str("CSRRSI");
            result_inst.zimm = Some(csri_type_inst.zimm());
            result_inst.read_reg = Some(one_reg("csr", csri_type_inst.csr()));
            result_inst.write_reg = Some(two_regs("csr", csri_type_inst.csr(), "int", csri_type_inst.rd()));
        },
        Instruction::Csrrci(csri_type_inst) => {
            result_inst.name = String::from_str("CSRRCI");
            result_inst.zimm = Some(csri_type_inst.zimm());
            result_inst.read_reg = Some(one_reg("csr", csri_type_inst.csr()));
            result_inst.write_reg = Some(two_regs("csr", csri_type_inst.csr(), "int", csri_type_inst.rd()));
        },
        // OP-IMM-32
        Instruction::Addiw(i_type_inst) => {
            result_inst.imm = Some(i_type_inst.imm());
            result_inst.read_reg = Some(one_reg("int", i_type_inst.rs1()));
            result_inst.write_reg = Some(one_reg("int", i_type_inst.rd()));
            result_inst.name = String::from_str("ADDIW");
        },
        Instruction::Slliw(shift_type_inst) => {
            result_inst.shamt = Some(shift_type_inst.shamt() as i64);
            result_inst.read_reg = Some(one_reg("int", shift_type_inst.rs1()));
            result_inst.write_reg = Some(one_reg("int", shift_type_inst.rd()));
            result_inst.name = String::from_str("SLLIW");
        },
        Instruction::Srliw(shift_type_inst) => {
            result_inst.shamt = Some(shift_type_inst.shamt() as i64);
            result_inst.read_reg = Some(one_reg("int", shift_type_inst.rs1()));
            result_inst.write_reg = Some(one_reg("int", shift_type_inst.rd()));
            result_inst.name = String::from_str("SRLIW");
        },
        Instruction::Sraiw(shift_type_inst) => {
            result_inst.shamt = Some(shift_type_inst.shamt() as i64);
            result_inst.read_reg = Some(one_reg("int", shift_type_inst.rs1()));
            result_inst.write_reg = Some(one_reg("int", shift_type_inst.rd()));
            result_inst.name = String::from_str("SRAIW");
        },
        // OP-32
        Instruction::Addw(r_type_inst) => {
            result_inst.read_reg = Some(two_regs("int", r_type_inst.rs1(), "int", r_type_inst.rs2()));
            result_inst.write_reg = Some(one_reg("int", r_type_inst.rd()));
            result_inst.name = String::from_str("ADDW");
        },
        Instruction::Subw(r_type_inst) => {
            result_inst.read_reg = Some(two_regs("int", r_type_inst.rs1(), "int", r_type_inst.rs2()));
            result_inst.write_reg = Some(one_reg("int", r_type_inst.rd()));
            result_inst.name = String::from_str("SUBW");
        },
        Instruction::Sllw(r_type_inst) => {
            result_inst.read_reg = Some(two_regs("int", r_type_inst.rs1(), "int", r_type_inst.rs2()));
            result_inst.write_reg = Some(one_reg("int", r_type_inst.rd()));
            result_inst.name = String::from_str("SLLW");
        },
        Instruction::Srlw(r_type_inst) => {
            result_inst.read_reg = Some(two_regs("int", r_type_inst.rs1(), "int", r_type_inst.rs2()));
            result_inst.write_reg = Some(one_reg("int", r_type_inst.rd()));
            result_inst.name = String::from_str("SRLW");
        },
        Instruction::Sraw(r_type_inst) => {
            result_inst.read_reg = Some(two_regs("int", r_type_inst.rs1(), "int", r_type_inst.rs2()));
            result_inst.write_reg = Some(one_reg("int", r_type_inst.rd()));
            result_inst.name = String::from_str("SRAW");
        },
        Instruction::Mulw(r_type_inst) => {
            result_inst.read_reg = Some(two_regs("int", r_type_inst.rs1(), "int", r_type_inst.rs2()));
            result_inst.write_reg = Some(one_reg("int", r_type_inst.rd()));
            result_inst.name = String::from_str("MULW");
        },
        Instruction::Divw(r_type_inst) => {
            result_inst.read_reg = Some(two_regs("int", r_type_inst.rs1(), "int", r_type_inst.rs2()));
            result_inst.write_reg = Some(one_reg("int", r_type_inst.rd()));
            result_inst.name = String::from_str("DIVW");
        },
        Instruction::Divuw(r_type_inst) => {
            result_inst.read_reg = Some(two_regs("int", r_type_inst.rs1(), "int", r_type_inst.rs2()));
            result_inst.write_reg = Some(one_reg("int", r_type_inst.rd()));
            result_inst.name = String::from_str("DIVUW");
        },
        Instruction::Remw(r_type_inst) => {
            result_inst.read_reg = Some(two_regs("int", r_type_inst.rs1(), "int", r_type_inst.rs2()));
            result_inst.write_reg = Some(one_reg("int", r_type_inst.rd()));
            result_inst.name = String::from_str("REMW");
        },
        Instruction::Remuw(r_type_inst) => {
            result_inst.read_reg = Some(two_regs("int", r_type_inst.rs1(), "int", r_type_inst.rs2()));
            result_inst.write_reg = Some(one_reg("int", r_type_inst.rd()));
            result_inst.name = String::from_str("REMUW");
        },
        // Illegal
        Instruction::Illegal => {
            result_inst.name = String::from_str("ILLEGAL");
        },
    }
    result_inst
}

/// Decodes a word and hands out the record of what came of it.
pub fn decode_instruction(word: u32) -> (out: DecodingResultPy)
    ensures
        out@ == spec_decode_instruction(word),
{
    let mut out = DecodingResultPy::new();
    match decode(word) {
        Ok(inst) => {
            out.inst = Some(transcribe(inst));
        },
        Err(decoding_error) => {
            out.decode_error = Some(error_name(decoding_error));
        },
    }
    out
}

} // verus!
