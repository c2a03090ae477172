//! The five stages with pipeline control: forwarding, stalls and flushes.
use vstd::prelude::*;

use crate::consts;
use crate::error::SimError;
use crate::hazards::{
    ex_forwards_src1, ex_forwards_src2, ex_hazard_src1, ex_hazard_src2, mem_forwards_src1,
    mem_forwards_src2, mem_hazard_src1, mem_hazard_src2, reg_hazard_src1, reg_hazard_src2,
    retiring_writes,
};
use crate::instruction::{decode_error, nop_spec, regs_valid, Function, Instruction, Opcode};
use crate::memory::data::DataMemory;
use crate::memory::instruction::{fetch_spec, InstructionMemory};
use crate::memory::MemError;
use crate::pipeline::{ExMemRegister, IdExRegister, IfIdRegister, MemWbRegister, Pipeline};
use crate::register::RegisterFile;
use crate::stages;
use crate::stages::{
    access_spec, execute_spec, jump_target, reg_value, takes_jump, writeback_dest, writeback_value,
    written_back,
};

verus! {

/// The value that the instruction in MEM/WB hands on: the loaded value for
/// a load, else its ALU result.
pub open spec fn mem_wb_value(pl: Pipeline) -> i32 {
    if pl.mem_wb.insn.semantics.mem_read {
        pl.mem_wb.mem_result as i32
    } else {
        pl.mem_wb.alu_result
    }
}

/// The decode stage's value for source `src`: forwarded from the
/// instruction retiring from MEM/WB, else read from the register file.
pub open spec fn decode_operand(pl: Pipeline, reg: RegisterFile, src: Option<u32>) -> i32 {
    if retiring_writes(pl, src) {
        mem_wb_value(pl)
    } else {
        reg_value(reg, src)
    }
}

/// The execute stage's first source: forwarded from EX/MEM, else from
/// MEM/WB, else as read at decode.
pub open spec fn forwarded_src1(pl: Pipeline) -> i32 {
    if ex_forwards_src1(pl) {
        pl.ex_mem.alu_result
    } else if mem_forwards_src1(pl) {
        mem_wb_value(pl)
    } else {
        pl.id_ex.rs1
    }
}

/// The execute stage's second source: forwarded from EX/MEM, else from
/// MEM/WB, else as read at decode.
pub open spec fn forwarded_src2(pl: Pipeline) -> i32 {
    if ex_forwards_src2(pl) {
        pl.ex_mem.alu_result
    } else if mem_forwards_src2(pl) {
        mem_wb_value(pl)
    } else {
        pl.id_ex.rs2
    }
}

/// The ALU's first operand: the PC for AUIPC, else the forwarded first
/// source.
pub open spec fn alu_src1(pl: Pipeline) -> i32 {
    if pl.id_ex.insn.opcode == Opcode::AuiPc {
        pl.id_ex.pc as i32
    } else {
        forwarded_src1(pl)
    }
}

/// What the execute stage writes to EX/MEM: the result of the instruction
/// in ID/EX, with its address if it is a HALT; or a NOP that passes on the
/// fault it carries.
pub open spec fn ex_stage(pl: Pipeline) -> ExMemRegister {
    match pl.id_ex.fault {
        Some(e) => ExMemRegister {
            pc: pl.id_ex.pc,
            insn: nop_spec(),
            alu_result: 0,
            rs2: 0,
            halt_addr: None,
            fault: Some(e),
        },
        None => ExMemRegister {
            pc: pl.id_ex.pc,
            insn: pl.id_ex.insn,
            alu_result: execute_spec(pl.id_ex.insn, alu_src1(pl), forwarded_src2(pl)),
            rs2: forwarded_src2(pl),
            halt_addr: if pl.id_ex.insn.function == Function::Halt {
                Some(pl.id_ex.pc as usize)
            } else {
                None
            },
            fault: None,
        },
    }
}

/// The instruction in `ex` changes the flow of control: it is a jump, or a
/// conditional branch whose ALU result says taken.
pub open spec fn redirects(ex: ExMemRegister) -> bool {
    takes_jump(ex.insn, ex.alu_result)
}

/// Where a redirecting instruction sends the PC: the ALU result with its
/// low bit cleared for JALR, else its PC plus its immediate.
pub open spec fn branch_target(ex: ExMemRegister) -> u32 {
    jump_target(ex.pc, ex.insn, ex.alu_result)
}

/// `p` with IF/ID, ID/EX and EX/MEM flushed to NOPs, their faults dropped
/// and the captured halt address cleared.
pub open spec fn flush(p: Pipeline) -> Pipeline {
    Pipeline {
        if_id: IfIdRegister { raw_insn: consts::NOP, fault: None, ..p.if_id },
        id_ex: IdExRegister { insn: nop_spec(), fault: None, ..p.id_ex },
        ex_mem: ExMemRegister { insn: nop_spec(), halt_addr: None, fault: None, ..p.ex_mem },
        ..p
    }
}

/// `new` is `old` with IF/ID, ID/EX and EX/MEM flushed to NOPs, their
/// faults dropped and the captured halt address cleared.
pub open spec fn flushed(old: Pipeline, new: Pipeline) -> bool {
    &&& new.if_id == IfIdRegister { raw_insn: consts::NOP, fault: None, ..old.if_id }
    &&& new.id_ex == IdExRegister { insn: nop_spec(), fault: None, ..old.id_ex }
    &&& new.ex_mem == ExMemRegister {
        insn: nop_spec(),
        halt_addr: None,
        fault: None,
        ..old.ex_mem
    }
}

/// What the fetch stage writes to IF/ID for address `pc`: the word there,
/// or a NOP with the fault that the fetch met.
pub open spec fn fetch_latch(words: Seq<u32>, pc: u32) -> IfIdRegister {
    match fetch_spec(words, pc as usize) {
        Ok(w) => IfIdRegister { pc, raw_insn: w, fault: None },
        Err(e) => IfIdRegister { pc, raw_insn: consts::NOP, fault: Some(e) },
    }
}

/// A bubble in ID/EX at `pc` that raises `fault` when it is executed.
pub open spec fn faulted_id_ex(pc: u32, fault: SimError) -> IdExRegister {
    IdExRegister { pc, insn: nop_spec(), rs1: 0, rs2: 0, fault: Some(fault) }
}

/// IF: Fetches the word at the PC into IF/ID and advances the PC.
pub fn insn_fetch<M: InstructionMemory>(
    write_pipeline: &mut Pipeline,
    insns: &M,
    reg: &mut RegisterFile,
    _clk: u64,
)
    requires
        old(reg).wf(),
    ensures
        final(reg).wf(),
        final(reg).gpr == old(reg).gpr,
        final(reg).pc.value() == old(reg).pc.value().wrapping_add(4),
        *final(write_pipeline) == (Pipeline {
            if_id: fetch_latch(insns.words(), old(reg).pc.value()),
            ..*old(write_pipeline)
        }),
{
    // Read and increment program counter
    let pc = reg.pc.read();
    reg.pc.write(pc.wrapping_add(4));
    write_pipeline.if_id = match stages::insn_fetch(insns, pc, _clk) {
        Ok(raw_insn) => IfIdRegister { pc, raw_insn, fault: None },
        Err(e) => IfIdRegister { pc, raw_insn: consts::NOP, fault: Some(e) },
    };
}

/// ID: Decodes the word in IF/ID and reads its sources into ID/EX,
/// forwarding a value that is being written back this cycle.
pub fn insn_decode(
    read_pipeline: &Pipeline,
    write_pipeline: &mut Pipeline,
    reg: &mut RegisterFile,
    _clk: u64,
)
    requires
        old(reg).wf(),
    ensures
        *final(reg) == *old(reg),
        final(write_pipeline).if_id == old(write_pipeline).if_id,
        final(write_pipeline).ex_mem == old(write_pipeline).ex_mem,
        final(write_pipeline).mem_wb == old(write_pipeline).mem_wb,
        regs_valid(final(write_pipeline).id_ex.insn),
        match (read_pipeline.if_id.fault, decode_error(read_pipeline.if_id.raw_insn)) {
            (Some(e), _) => final(write_pipeline).id_ex == faulted_id_ex(
                read_pipeline.if_id.pc,
                SimError::Memory(e),
            ),
            (None, Some(e)) => final(write_pipeline).id_ex == faulted_id_ex(
                read_pipeline.if_id.pc,
                SimError::Decode(e),
            ),
            (None, None) => {
                &&& final(write_pipeline).id_ex.insn.decodes(read_pipeline.if_id.raw_insn)
                &&& final(write_pipeline).id_ex.pc == read_pipeline.if_id.pc
                &&& final(write_pipeline).id_ex.fault is None
                &&& final(write_pipeline).id_ex.rs1 == decode_operand(
                    *old(write_pipeline),
                    *old(reg),
                    final(write_pipeline).id_ex.insn.fields.rs1,
                )
                &&& final(write_pipeline).id_ex.rs2 == decode_operand(
                    *old(write_pipeline),
                    *old(reg),
                    final(write_pipeline).id_ex.insn.fields.rs2,
                )
            },
        },
{
    let pc = read_pipeline.if_id.pc;
    if let Some(e) = read_pipeline.if_id.fault {
        write_pipeline.id_ex = IdExRegister {
            pc,
            insn: Instruction::nop(),
            rs1: 0,
            rs2: 0,
            fault: Some(SimError::Memory(e)),
        };
        return ;
    }
    let insn = match stages::insn_decode(read_pipeline.if_id.raw_insn, _clk) {
        Ok(insn) => insn,
        Err(e) => {
            write_pipeline.id_ex = IdExRegister {
                pc,
                insn: Instruction::nop(),
                rs1: 0,
                rs2: 0,
                fault: Some(SimError::Decode(e)),
            };
            return ;
        },
    };
    // Forward a value that is being written back this cycle.
    let rs1: i32 = if reg_hazard_src1(&insn, write_pipeline) {
        if write_pipeline.mem_wb.insn.semantics.mem_read {
            #[verifier::truncate]
            (write_pipeline.mem_wb.mem_result as i32)
        } else {
            write_pipeline.mem_wb.alu_result
        }
    } else {
        stages::read_source(reg, insn.fields.rs1)
    };
    let rs2: i32 = if reg_hazard_src2(&insn, write_pipeline) {
        if write_pipeline.mem_wb.insn.semantics.mem_read {
            #[verifier::truncate]
            (write_pipeline.mem_wb.mem_result as i32)
        } else {
            write_pipeline.mem_wb.alu_result
        }
    } else {
        stages::read_source(reg, insn.fields.rs2)
    };
    write_pipeline.id_ex = IdExRegister { pc, insn, rs1, rs2, fault: None };
}

/// EX: Executes the instruction in ID/EX on its forwarded operands, or
/// passes on the fault that it carries.
pub fn execute(read_pipeline: &Pipeline, write_pipeline: &mut Pipeline, _clk: u64)
    ensures
        *final(write_pipeline) == (Pipeline { ex_mem: ex_stage(*read_pipeline), ..*old(write_pipeline) }),
{
    if let Some(e) = read_pipeline.id_ex.fault {
        write_pipeline.ex_mem = ExMemRegister {
            pc: read_pipeline.id_ex.pc,
            insn: Instruction::nop(),
            alu_result: 0,
            rs2: 0,
            halt_addr: None,
            fault: Some(e),
        };
        return ;
    }
    let pc = read_pipeline.id_ex.pc;
    let mut insn = read_pipeline.id_ex.insn;
    let rs1: i32 = if ex_hazard_src1(read_pipeline) {
        read_pipeline.ex_mem.alu_result
    } else if mem_hazard_src1(read_pipeline) {
        if read_pipeline.mem_wb.insn.semantics.mem_read {
            #[verifier::truncate]
            (read_pipeline.mem_wb.mem_result as i32)
        } else {
            read_pipeline.mem_wb.alu_result
        }
    } else {
        read_pipeline.id_ex.rs1
    };
    let rs2: i32 = if ex_hazard_src2(read_pipeline) {
        read_pipeline.ex_mem.alu_result
    } else if mem_hazard_src2(read_pipeline) {
        if read_pipeline.mem_wb.insn.semantics.mem_read {
            #[verifier::truncate]
            (read_pipeline.mem_wb.mem_result as i32)
        } else {
            read_pipeline.mem_wb.alu_result
        }
    } else {
        read_pipeline.id_ex.rs2
    };
    // AUIPC adds its immediate to its own address.
    let src1: i32 = if insn.opcode == Opcode::AuiPc {
        #[verifier::truncate]
        (pc as i32)
    } else {
        rs1
    };
    let alu_result = stages::execute(&mut insn, src1, rs2, _clk);
    let halt_addr = if insn.function == Function::Halt {
        Some(pc as usize)
    } else {
        None
    };
    write_pipeline.ex_mem = ExMemRegister { pc, insn, alu_result, rs2, halt_addr, fault: None };
}

/// MEM: Performs the load or store of the instruction in EX/MEM; a jump
/// or taken branch then redirects the PC and flushes the three younger
/// instructions.
pub fn access_memory(
    read_pipeline: &Pipeline,
    write_pipeline: &mut Pipeline,
    mem: &mut DataMemory,
    reg: &mut RegisterFile,
    _clk: u64,
) -> (r: Result<(), MemError>)
    requires
        old(reg).wf(),
    ensures
        final(reg).wf(),
        final(reg).gpr == old(reg).gpr,
        ({
            let ex = read_pipeline.ex_mem;
            let (res, words) = access_spec(ex.insn, old(mem).words(), ex.alu_result, ex.rs2);
            &&& final(mem).words() == words
            &&& match res {
                Err(e) => {
                    &&& r == Err::<(), MemError>(e)
                    &&& *final(reg) == *old(reg)
                    &&& *final(write_pipeline) == *old(write_pipeline)
                },
                Ok(m) => {
                    &&& r is Ok
                    &&& final(write_pipeline).mem_wb == (MemWbRegister {
                        pc: ex.pc,
                        insn: ex.insn,
                        alu_result: ex.alu_result,
                        mem_result: m,
                    })
                    &&& if redirects(ex) {
                        &&& final(reg).pc.value() == branch_target(ex)
                        &&& flushed(*old(write_pipeline), *final(write_pipeline))
                    } else {
                        &&& final(reg).pc == old(reg).pc
                        &&& final(write_pipeline).if_id == old(write_pipeline).if_id
                        &&& final(write_pipeline).id_ex == old(write_pipeline).id_ex
                        &&& final(write_pipeline).ex_mem == old(write_pipeline).ex_mem
                    }
                },
            }
        }),
{
    let pc = read_pipeline.ex_mem.pc;
    let insn = read_pipeline.ex_mem.insn;
    let alu_result = read_pipeline.ex_mem.alu_result;
    let rs2 = read_pipeline.ex_mem.rs2;
    let mem_result = stages::access_memory(&insn, mem, alu_result, rs2, _clk)?;

    // Modify program counter for branch or jump
    if insn.semantics.branch && !(insn.opcode == Opcode::Branch && alu_result != 0) {
        let npc: u32 = match insn.opcode {
            // LSB -> 0
            Opcode::Jalr => (#[verifier::truncate] (alu_result as u32)) & 0xfffffffe,
            _ => {
                let imm: u32 = match crate::immediates::gen(&insn) {
                    Some(v) => v,
                    None => 0,
                };
                pc.wrapping_add(imm)
            },
        };
        reg.pc.write(npc);

        // Branching - flush
        write_pipeline.if_id.raw_insn = consts::NOP;
        write_pipeline.if_id.fault = None;
        write_pipeline.id_ex.insn = Instruction::nop();
        write_pipeline.id_ex.fault = None;
        write_pipeline.ex_mem.insn = Instruction::nop();
        write_pipeline.ex_mem.halt_addr = None;
        write_pipeline.ex_mem.fault = None;
    }
    write_pipeline.mem_wb = MemWbRegister { pc, insn, alu_result, mem_result };
    Ok(())
}

/// WB: Writes the result of the instruction in MEM/WB back to its register.
pub fn reg_writeback(read_pipeline: &Pipeline, reg: &mut RegisterFile, _clk: u64)
    requires
        old(reg).wf(),
        regs_valid(read_pipeline.mem_wb.insn),
    ensures
        final(reg).wf(),
        written_back(
            *old(reg),
            *final(reg),
            read_pipeline.mem_wb.pc,
            read_pipeline.mem_wb.insn,
            read_pipeline.mem_wb.alu_result,
            read_pipeline.mem_wb.mem_result,
        ),
        writeback_dest(read_pipeline.mem_wb.insn) matches Some(d) ==> final(reg).x(d as int)
            == writeback_value(
            read_pipeline.mem_wb.pc,
            read_pipeline.mem_wb.insn,
            read_pipeline.mem_wb.alu_result,
            read_pipeline.mem_wb.mem_result,
        ),
{
    let pc = read_pipeline.mem_wb.pc;
    let insn = read_pipeline.mem_wb.insn;
    let alu_result = read_pipeline.mem_wb.alu_result;
    let mem_result = read_pipeline.mem_wb.mem_result;
    stages::reg_writeback(pc, &insn, reg, alu_result, mem_result, _clk);
}

} // verus!
