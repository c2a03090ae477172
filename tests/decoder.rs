use riscv_5stage_simulator::consts::{
    FUNCT3_MASK, FUNCT7_MASK, OPCODE_MASK, RD_MASK, RS1_MASK, RS2_MASK,
};
use riscv_5stage_simulator::instruction::decoder::{
    parse_type_b, parse_type_i, parse_type_j, parse_type_r, parse_type_s, parse_type_u,
};

/// Masks should cover entire instruction without overlapping
#[test]
fn decoder_masks() {
    assert_eq!(
        FUNCT7_MASK ^ FUNCT3_MASK ^ RS1_MASK ^ RS2_MASK ^ RD_MASK ^ OPCODE_MASK,
        0xffffffff
    );
}

#[test]
fn type_r() {
    // add x5, x6, x7
    let insn = 0x7302b3;
    let fields = parse_type_r(insn);
    assert_eq!(fields.funct3.unwrap(), 0x0);
    assert_eq!(fields.rd.unwrap(), 0x05);
    assert_eq!(fields.rs1.unwrap(), 0x06);
    assert_eq!(fields.rs2.unwrap(), 0x07);
}

#[test]
fn type_i_arithmetic() {
    // addi x5, x6, 20
    let insn = 0x1430293;
    let fields = parse_type_i(insn);
    assert_eq!(fields.funct3.unwrap(), 0x0);
    assert_eq!(fields.rd.unwrap(), 0x05);
    assert_eq!(fields.rs1.unwrap(), 0x06);
    assert_eq!(fields.imm.unwrap(), 20);
}

#[test]
fn type_i_shift() {
    // slli x5, x6, 3
    let insn = 0x331293;
    let fields = parse_type_i(insn);
    assert_eq!(fields.funct3.unwrap(), 0x1);
    assert_eq!(fields.rd.unwrap(), 0x05);
    assert_eq!(fields.rs1.unwrap(), 0x06);
    assert_eq!(fields.imm.unwrap(), 3);
}

#[test]
fn type_s() {
    // sw x5, 40(x6)
    let insn = 0x2532423;
    let fields = parse_type_s(insn);
    assert_eq!(fields.funct3.unwrap(), 0x2);
    assert_eq!(fields.rs1.unwrap(), 0x06);
    assert_eq!(fields.rs2.unwrap(), 0x05);
    assert_eq!(fields.imm.unwrap(), 40);
}

#[test]
fn type_b() {
    // beq x5, x6, 100
    let insn = 0x6628263;
    let fields = parse_type_b(insn);
    assert_eq!(fields.funct3.unwrap(), 0x0);
    assert_eq!(fields.rs1.unwrap(), 0x05);
    assert_eq!(fields.rs2.unwrap(), 0x06);
    assert_eq!(fields.imm.unwrap(), 100);
}

#[test]
fn type_u() {
    // lui x5, 0x12345
    let insn = 0x123452b7;
    let fields = parse_type_u(insn);
    assert_eq!(fields.rd.unwrap(), 0x05);
    assert_eq!(fields.imm.unwrap(), 0x12345000);
}

#[test]
fn type_j() {
    // jal x1, 100
    let insn = 0x64000ef;
    let fields = parse_type_j(insn);
    assert_eq!(fields.rd.unwrap(), 0x01);
    assert_eq!(fields.imm.unwrap(), 100);
}

#[test]
fn type_j_uses_bits_30_to_21() {
    // jal x0, 0x7fe: imm[10:1] all set, bit 20 (imm[11]) clear
    let fields = parse_type_j(0x7fe0006f);
    assert_eq!(fields.imm.unwrap(), 0x7fe);
    // jal x0, -4
    let fields = parse_type_j(0xffdff06f);
    assert_eq!(fields.imm.unwrap(), 0x1ffffc);
}

#[test]
fn type_b_negative_offset() {
    // bge x11, x10, -4
    let fields = parse_type_b(0xfea5dee3);
    assert_eq!(fields.imm.unwrap(), 0x1ffc);
    assert_eq!(fields.rs1.unwrap(), 11);
    assert_eq!(fields.rs2.unwrap(), 10);
}
