use riscv_5stage_simulator::immediates::gen;
use riscv_5stage_simulator::instruction::Instruction;

#[test]
fn branch_back() {
    // bge x11, x10, -4
    let insn = Instruction::new(0xfea5dee3).unwrap();
    let imm = gen(&insn).unwrap() as i32;
    assert_eq!(imm, -4);
}

#[test]
fn branch_forward() {
    // bltu x13, x14, 16
    let insn = Instruction::new(0x00e6e863).unwrap();
    let imm = gen(&insn).unwrap() as i32;
    assert_eq!(imm, 16);
}

#[test]
fn negative_i_immediate() {
    // addi x1, x0, -1
    let insn = Instruction::new(0xfff00093).unwrap();
    assert_eq!(gen(&insn).unwrap() as i32, -1);
}

#[test]
fn negative_s_immediate() {
    // sw x5, -8(x6)
    let insn = Instruction::new(0xfe532c23).unwrap();
    assert_eq!(gen(&insn).unwrap() as i32, -8);
}

#[test]
fn upper_immediate_is_unchanged() {
    // lui x5, 0x80000
    let insn = Instruction::new(0x800002b7).unwrap();
    assert_eq!(gen(&insn).unwrap(), 0x80000000);
}

#[test]
fn jump_immediate_backwards() {
    // jal x0, -4
    let insn = Instruction::new(0xffdff06f).unwrap();
    assert_eq!(gen(&insn).unwrap() as i32, -4);
}
