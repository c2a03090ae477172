use riscv_5stage_simulator::alu::{AluOp, AluSrc};
use riscv_5stage_simulator::consts::{
    FUNCT3_MASK, FUNCT7_MASK, OPCODE_MASK, RD_MASK, RS1_MASK, RS2_MASK,
};
use riscv_5stage_simulator::instruction::{DecodeError, Format, Function, Instruction, Opcode};

/// Masks should cover entire instruction without overlapping
#[test]
fn instruction_masks() {
    assert_eq!(
        FUNCT7_MASK ^ FUNCT3_MASK ^ RS1_MASK ^ RS2_MASK ^ RD_MASK ^ OPCODE_MASK,
        0xffffffff
    );
}

#[test]
fn parse_type_r() {
    // add x5, x6, x7
    let raw_insn = 0x7302b3;
    let parsed_insn = Instruction::new(raw_insn).unwrap();
    assert_eq!(parsed_insn.opcode, Opcode::Op);
    assert_eq!(parsed_insn.fields.funct3.unwrap(), 0x0);
    assert_eq!(parsed_insn.fields.rd.unwrap(), 0x05);
    assert_eq!(parsed_insn.fields.rs1.unwrap(), 0x06);
    assert_eq!(parsed_insn.fields.rs2.unwrap(), 0x07);
}

#[test]
fn parse_type_i_arithmetic() {
    // addi x5, x6, 20
    let raw_insn = 0x1430293;
    let parsed_insn = Instruction::new(raw_insn).unwrap();
    assert_eq!(parsed_insn.opcode, Opcode::OpImm);
    assert_eq!(parsed_insn.fields.funct3.unwrap(), 0x0);
    assert_eq!(parsed_insn.fields.rd.unwrap(), 0x05);
    assert_eq!(parsed_insn.fields.rs1.unwrap(), 0x06);
    assert_eq!(parsed_insn.fields.imm.unwrap(), 20);
}

#[test]
fn parse_type_i_shift() {
    // slli x5, x6, 3
    let raw_insn = 0x331293;
    let parsed_insn = Instruction::new(raw_insn).unwrap();
    assert_eq!(parsed_insn.opcode, Opcode::OpImm);
    assert_eq!(parsed_insn.fields.funct3.unwrap(), 0x1);
    assert_eq!(parsed_insn.fields.rd.unwrap(), 0x05);
    assert_eq!(parsed_insn.fields.rs1.unwrap(), 0x06);
    // The shift amount is held as the immediate.
    assert_eq!(parsed_insn.fields.imm.unwrap(), 3);
}

#[test]
fn parse_type_s() {
    // sw x5, 40(x6)
    let raw_insn = 0x2532423;
    let parsed_insn = Instruction::new(raw_insn).unwrap();
    assert_eq!(parsed_insn.opcode, Opcode::Store);
    assert_eq!(parsed_insn.fields.funct3.unwrap(), 0x2);
    assert_eq!(parsed_insn.fields.rs1.unwrap(), 0x06);
    assert_eq!(parsed_insn.fields.rs2.unwrap(), 0x05);
    assert_eq!(parsed_insn.fields.imm.unwrap(), 40);
}

#[test]
fn parse_type_b() {
    // beq x5, x6, 100
    let raw_insn = 0x6628263;
    let parsed_insn = Instruction::new(raw_insn).unwrap();
    assert_eq!(parsed_insn.opcode, Opcode::Branch);
    assert_eq!(parsed_insn.fields.funct3.unwrap(), 0x0);
    assert_eq!(parsed_insn.fields.rs1.unwrap(), 0x05);
    assert_eq!(parsed_insn.fields.rs2.unwrap(), 0x06);
    assert_eq!(parsed_insn.fields.imm.unwrap(), 100);
}

#[test]
fn parse_type_u() {
    // lui x5, 0x12345
    let raw_insn = 0x123452b7;
    let parsed_insn = Instruction::new(raw_insn).unwrap();
    assert_eq!(parsed_insn.opcode, Opcode::Lui);
    assert_eq!(parsed_insn.fields.rd.unwrap(), 0x05);
    assert_eq!(parsed_insn.fields.imm.unwrap(), 0x12345000);
}

#[test]
fn parse_type_j() {
    // jal x1, 100
    let raw_insn = 0x64000ef;
    let parsed_insn = Instruction::new(raw_insn).unwrap();
    assert_eq!(parsed_insn.opcode, Opcode::Jal);
    assert_eq!(parsed_insn.fields.rd.unwrap(), 0x01);
    assert_eq!(parsed_insn.fields.imm.unwrap(), 100);
}

/// Instruction::default() should be a NOP
#[test]
fn nop() {
    let insn = Instruction::default();
    assert_eq!(insn.fields.rd, Some(0));
    assert_eq!(insn.fields.rs1, Some(0));
    assert_eq!(insn.fields.rs2, None);
    assert_eq!(insn.fields.imm, Some(0));
    assert!(!insn.semantics.branch);
    assert!(!insn.semantics.mem_read);
    assert!(!insn.semantics.mem_to_reg);
    assert_eq!(insn.semantics.alu_op, AluOp::Add);
    assert_eq!(insn.semantics.alu_src, AluSrc::Imm);
    assert!(insn.semantics.reg_write);
}

#[test]
fn nop_decodes_like_default() {
    let decoded = Instruction::new(0x13).unwrap();
    let nop = Instruction::default();
    assert_eq!(decoded.as_u32(), nop.as_u32());
    assert_eq!(decoded.fields, nop.fields);
    assert_eq!(decoded.function, Function::Addi);
    assert_eq!(decoded.semantics, nop.semantics);
}

#[test]
fn unknown_opcode_is_rejected() {
    assert_eq!(Instruction::new(0x7f).unwrap_err(), DecodeError::UnknownOpcode(0x7f));
    assert_eq!(Instruction::new(0xffff_ff00).unwrap_err(), DecodeError::UnknownOpcode(0));
}

#[test]
fn unknown_function_is_rejected() {
    // A branch with funct3 = 0b010
    let word = 0x0000_2063;
    assert_eq!(Instruction::new(word).unwrap_err(), DecodeError::UnknownFunction(word));
    // A load with funct3 = 0b011
    let word = 0x0000_3003;
    assert_eq!(Instruction::new(word).unwrap_err(), DecodeError::UnknownFunction(word));
}

#[test]
fn halt_decodes() {
    let insn = Instruction::new(0x3f).unwrap();
    assert_eq!(insn.opcode, Opcode::Halt);
    assert_eq!(insn.format, Format::U);
    assert_eq!(insn.function, Function::Halt);
    assert!(!insn.semantics.reg_write);
    assert!(!insn.semantics.mem_write);
    assert!(!insn.semantics.mem_read);
}

#[test]
fn mnemonics_by_funct3_and_bit30() {
    // sub x2, x1, x3
    assert_eq!(Instruction::new(0x403080b3).unwrap().function, Function::Sub);
    // srai x5, x6, 3
    let srai = Instruction::new(0x40335293).unwrap();
    assert_eq!(srai.function, Function::Srai);
    assert_eq!(srai.semantics.alu_op, AluOp::ShiftRightArithmetic);
    // srli x5, x6, 3
    assert_eq!(Instruction::new(0x00335293).unwrap().function, Function::Srli);
    // lhu x5, 0(x6)
    let lhu = Instruction::new(0x00035283).unwrap();
    assert_eq!(lhu.function, Function::Lhu);
    assert_eq!(lhu.semantics.mem_size, 2);
    assert!(lhu.semantics.mem_to_reg);
    // auipc x5, 1
    let auipc = Instruction::new(0x00001297).unwrap();
    assert_eq!(auipc.function, Function::AuiPc);
    assert_eq!(auipc.semantics.alu_op, AluOp::Add);
    assert_eq!(auipc.semantics.alu_src, AluSrc::Imm);
    // jal x1, 100 compares equal operands to force the jump
    let jal = Instruction::new(0x64000ef).unwrap();
    assert_eq!(jal.semantics.alu_op, AluOp::BranchOnEqual);
    assert_eq!(jal.semantics.alu_src, AluSrc::Reg);
    assert!(jal.semantics.branch && jal.semantics.reg_write);
}
