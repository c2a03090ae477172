use riscv_5stage_simulator::consts;
use riscv_5stage_simulator::error::SimError;
use riscv_5stage_simulator::hazards::{
    ex_hazard_src1, ex_hazard_src2, load_hazard, mem_hazard_src1, mem_hazard_src2,
    reg_hazard_src1, reg_hazard_src2,
};
use riscv_5stage_simulator::instruction::{DecodeError, Instruction};
use riscv_5stage_simulator::memory::data::DataMemory;
use riscv_5stage_simulator::memory::instruction::TestInstructionMemory;
use riscv_5stage_simulator::memory::MemError;
use riscv_5stage_simulator::pipeline::stages::{
    access_memory, execute, insn_decode, insn_fetch, reg_writeback,
};
use riscv_5stage_simulator::pipeline::Pipeline;
use riscv_5stage_simulator::register::RegisterFile;

fn insn(word: u32) -> Instruction {
    Instruction::new(word).unwrap()
}

#[test]
fn back_to_back_forwards_from_ex_mem() {
    let mut pl = Pipeline::new();
    pl.ex_mem.insn = insn(0x40308133); // sub x2, x1, x3
    pl.ex_mem.alu_result = 11;
    pl.id_ex.insn = insn(0x00517633); // and x12, x2, x5
    pl.id_ex.rs1 = 99;
    pl.id_ex.rs2 = 3;
    assert!(ex_hazard_src1(&pl));
    assert!(!ex_hazard_src2(&pl));
    assert!(!mem_hazard_src1(&pl));
    assert!(!load_hazard(&pl));

    let mut write = pl;
    execute(&pl, &mut write, 0);
    // 11 & 3
    assert_eq!(write.ex_mem.alu_result, 3);
    assert_eq!(write.ex_mem.rs2, 3);
}

#[test]
fn two_apart_forwards_from_mem_wb() {
    let mut pl = Pipeline::new();
    pl.mem_wb.insn = insn(0x40308133); // sub x2, x1, x3
    pl.mem_wb.alu_result = 6;
    pl.id_ex.insn = insn(0x002366b3); // or x13, x6, x2
    pl.id_ex.rs1 = 1;
    pl.id_ex.rs2 = 99;
    assert!(!ex_hazard_src2(&pl));
    assert!(mem_hazard_src2(&pl));
    let mut write = pl;
    execute(&pl, &mut write, 0);
    assert_eq!(write.ex_mem.alu_result, 7);

    // EX/MEM wins when both write the source.
    pl.ex_mem.insn = insn(0x00100113); // addi x2, x0, 1
    pl.ex_mem.alu_result = 8;
    assert!(ex_hazard_src2(&pl));
    assert!(!mem_hazard_src2(&pl));
    let mut write = pl;
    execute(&pl, &mut write, 0);
    assert_eq!(write.ex_mem.alu_result, 9);
}

#[test]
fn loaded_value_forwards_from_mem_wb() {
    let mut pl = Pipeline::new();
    pl.mem_wb.insn = insn(0x0140a103); // lw x2, 20(x1)
    pl.mem_wb.alu_result = 20;
    pl.mem_wb.mem_result = 5;
    pl.id_ex.insn = insn(0x00616433); // or x8, x2, x6
    pl.id_ex.rs1 = 99;
    pl.id_ex.rs2 = 2;
    assert!(mem_hazard_src1(&pl));
    let mut write = pl;
    execute(&pl, &mut write, 0);
    assert_eq!(write.ex_mem.alu_result, 7);
}

#[test]
fn writes_to_x0_never_forward() {
    let mut pl = Pipeline::new();
    pl.ex_mem.insn = insn(0x02a00013); // addi x0, x0, 42
    pl.mem_wb.insn = insn(0x02a00013);
    pl.id_ex.insn = insn(0x00000033); // add x0, x0, x0
    assert!(!ex_hazard_src1(&pl));
    assert!(!ex_hazard_src2(&pl));
    assert!(!mem_hazard_src1(&pl));
    assert!(!mem_hazard_src2(&pl));
    let consumer = insn(0x00000033);
    assert!(!reg_hazard_src1(&consumer, &pl));
    assert!(!reg_hazard_src2(&consumer, &pl));
}

#[test]
fn load_use_is_detected_from_the_raw_word() {
    let mut pl = Pipeline::new();
    pl.id_ex.insn = insn(0x0140a103); // lw x2, 20(x1)
    pl.if_id.raw_insn = 0x00517233; // and x4, x2, x5
    assert!(load_hazard(&pl));
    pl.if_id.raw_insn = 0x00228233; // add x4, x5, x2
    assert!(load_hazard(&pl));
    pl.if_id.raw_insn = 0x00628233; // add x4, x5, x6
    assert!(!load_hazard(&pl));
    // A non-load producer never stalls.
    pl.id_ex.insn = insn(0x00100113); // addi x2, x0, 1
    pl.if_id.raw_insn = 0x00517233;
    assert!(!load_hazard(&pl));
}

#[test]
fn write_back_forwards_to_decode() {
    let mut pl = Pipeline::new();
    pl.mem_wb.insn = insn(0x40308133); // sub x2, x1, x3
    pl.mem_wb.alu_result = 4;
    pl.if_id.raw_insn = 0x00210733; // add x14, x2, x2
    pl.if_id.pc = 12;
    let consumer = insn(0x00210733);
    assert!(reg_hazard_src1(&consumer, &pl));
    assert!(reg_hazard_src2(&consumer, &pl));

    let mut reg = RegisterFile::new(0);
    let mut write = pl;
    insn_decode(&pl, &mut write, &mut reg, 0);
    assert_eq!(write.id_ex.pc, 12);
    assert_eq!(write.id_ex.rs1, 4);
    assert_eq!(write.id_ex.rs2, 4);
    assert_eq!(write.id_ex.fault, None);
}

#[test]
fn fetch_advances_and_records_faults() {
    let insns = TestInstructionMemory::new(vec![0x00100113]);
    let mut reg = RegisterFile::new(0);
    let mut pl = Pipeline::new();
    insn_fetch(&mut pl, &insns, &mut reg, 0);
    assert_eq!(pl.if_id.raw_insn, 0x00100113);
    assert_eq!(pl.if_id.pc, 0);
    assert_eq!(pl.if_id.fault, None);
    assert_eq!(reg.pc.read(), 4);
    insn_fetch(&mut pl, &insns, &mut reg, 0);
    assert_eq!(pl.if_id.raw_insn, consts::NOP);
    assert_eq!(pl.if_id.fault, Some(MemError::OutOfRange(4)));
    assert_eq!(reg.pc.read(), 8);

    // The fault travels to EX/MEM.
    let read = pl;
    let mut write = read;
    insn_decode(&read, &mut write, &mut reg, 0);
    assert_eq!(write.id_ex.fault, Some(SimError::Memory(MemError::OutOfRange(4))));
    let read = write;
    execute(&read, &mut write, 0);
    assert_eq!(write.ex_mem.fault, Some(SimError::Memory(MemError::OutOfRange(4))));
    assert_eq!(write.ex_mem.halt_addr, None);
}

#[test]
fn undecodable_word_becomes_a_faulted_bubble() {
    let mut pl = Pipeline::new();
    pl.if_id.raw_insn = 0xffffffff;
    pl.if_id.pc = 8;
    let mut reg = RegisterFile::new(0);
    let mut write = pl;
    insn_decode(&pl, &mut write, &mut reg, 0);
    assert_eq!(write.id_ex.pc, 8);
    assert_eq!(write.id_ex.fault, Some(SimError::Decode(DecodeError::UnknownOpcode(0x7f))));
    assert_eq!(write.id_ex.insn.as_u32(), consts::NOP);
}

#[test]
fn halt_in_execute_records_its_address() {
    let mut pl = Pipeline::new();
    pl.id_ex.insn = insn(consts::HALT);
    pl.id_ex.pc = 0x20;
    let mut write = pl;
    execute(&pl, &mut write, 0);
    assert_eq!(write.ex_mem.halt_addr, Some(0x20));
}

#[test]
fn taken_branch_redirects_and_flushes() {
    let mut pl = Pipeline::new();
    pl.ex_mem.insn = insn(0x00000463); // beq x0, x0, +8
    pl.ex_mem.pc = 16;
    pl.ex_mem.alu_result = 0;
    pl.if_id.raw_insn = 0x00100293;
    pl.id_ex.insn = insn(0x00100293);
    let mut write = pl;
    write.ex_mem.insn = insn(0x00200293);
    write.ex_mem.halt_addr = Some(4);
    let mut mem = DataMemory::new(4);
    let mut reg = RegisterFile::new(20);
    access_memory(&pl, &mut write, &mut mem, &mut reg, 0).unwrap();
    assert_eq!(reg.pc.read(), 24);
    assert_eq!(write.if_id.raw_insn, consts::NOP);
    assert_eq!(write.id_ex.insn.as_u32(), consts::NOP);
    assert_eq!(write.ex_mem.insn.as_u32(), consts::NOP);
    assert_eq!(write.ex_mem.halt_addr, None);
    assert_eq!(write.mem_wb.pc, 16);
}

#[test]
fn untaken_branch_keeps_the_pipeline() {
    let mut pl = Pipeline::new();
    pl.ex_mem.insn = insn(0x00101463); // bne x0, x1, +8
    pl.ex_mem.alu_result = 1;
    pl.if_id.raw_insn = 0x00100293;
    let mut write = pl;
    let mut mem = DataMemory::new(4);
    let mut reg = RegisterFile::new(20);
    access_memory(&pl, &mut write, &mut mem, &mut reg, 0).unwrap();
    assert_eq!(reg.pc.read(), 20);
    assert_eq!(write.if_id.raw_insn, 0x00100293);
}

#[test]
fn jalr_target_clears_low_bit() {
    let mut pl = Pipeline::new();
    pl.ex_mem.insn = insn(0x000082e7); // jalr x5, 0(x1)
    pl.ex_mem.alu_result = 0x80000013u32 as i32;
    let mut write = pl;
    let mut mem = DataMemory::new(4);
    let mut reg = RegisterFile::new(0);
    access_memory(&pl, &mut write, &mut mem, &mut reg, 0).unwrap();
    assert_eq!(reg.pc.read(), 0x80000012);
}

#[test]
fn store_and_load_in_memory_stage() {
    let mut pl = Pipeline::new();
    pl.ex_mem.insn = insn(0x00f11123); // sh x15, 2(x2)
    pl.ex_mem.alu_result = 6;
    pl.ex_mem.rs2 = 0x1234abcd;
    let mut write = pl;
    let mut mem = DataMemory::new(4);
    let mut reg = RegisterFile::new(0);
    access_memory(&pl, &mut write, &mut mem, &mut reg, 0).unwrap();
    assert_eq!(mem.read(4, 4), Ok(0xabcd0000));
    assert_eq!(write.mem_wb.mem_result, 0);

    pl.ex_mem.insn = insn(0x00611103); // lh x2, 6(x2)
    let mut write = pl;
    access_memory(&pl, &mut write, &mut mem, &mut reg, 0).unwrap();
    assert_eq!(write.mem_wb.mem_result, 0xabcd);

    pl.ex_mem.alu_result = 7;
    let mut write = pl;
    assert_eq!(
        access_memory(&pl, &mut write, &mut mem, &mut reg, 0),
        Err(MemError::Unaligned(7))
    );
}

#[test]
fn write_back_selects_its_value() {
    let mut reg = RegisterFile::new(0);
    let mut pl = Pipeline::new();
    pl.mem_wb.insn = insn(0x123452b7); // lui x5, 0x12345
    pl.mem_wb.alu_result = 1;
    reg_writeback(&pl, &mut reg, 0);
    assert_eq!(reg.gpr[5].read(), 0x12345000);

    pl.mem_wb.insn = insn(0x008000ef); // jal x1, +8
    pl.mem_wb.pc = 0x40;
    reg_writeback(&pl, &mut reg, 0);
    assert_eq!(reg.gpr[1].read(), 0x44);

    pl.mem_wb.insn = insn(0x0140a103); // lw x2, 20(x1)
    pl.mem_wb.mem_result = 77;
    reg_writeback(&pl, &mut reg, 0);
    assert_eq!(reg.gpr[2].read(), 77);

    pl.mem_wb.insn = insn(0x40308133); // sub x2, x1, x3
    pl.mem_wb.alu_result = -1;
    reg_writeback(&pl, &mut reg, 0);
    assert_eq!(reg.gpr[2].read(), 0xffffffff);

    pl.mem_wb.insn = insn(0x02a00013); // addi x0, x0, 42
    pl.mem_wb.alu_result = 42;
    reg_writeback(&pl, &mut reg, 0);
    assert_eq!(reg.gpr[0].read(), 0);
}

#[test]
fn absent_fields_never_match() {
    // A producer that writes a register but names none, and consumers
    // without source fields (lui has neither rs1 nor rs2).
    let mut producer = insn(0x00100113); // addi x2, x0, 1
    producer.fields.rd = None;
    let consumer = insn(0x123452b7); // lui x5, 0x12345
    let mut pl = Pipeline::new();
    pl.ex_mem.insn = producer;
    pl.mem_wb.insn = producer;
    pl.id_ex.insn = consumer;
    assert!(!ex_hazard_src1(&pl));
    assert!(!ex_hazard_src2(&pl));
    assert!(!mem_hazard_src1(&pl));
    assert!(!mem_hazard_src2(&pl));
    assert!(!reg_hazard_src1(&consumer, &pl));
    assert!(!reg_hazard_src2(&consumer, &pl));
}
