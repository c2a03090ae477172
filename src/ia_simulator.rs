//! Instruction-accurate RISC-V 32I simulator that completes one
//! instruction per step, with no pipelining.
use vstd::prelude::*;

use crate::ca_simulator::halts_at;
use crate::error::SimError;
use crate::immediates::gen;
use crate::instruction::{decode_error, decoded, lemma_decodes_unique, Function, Opcode};
use crate::memory::data::DataMemory;
use crate::memory::instruction::{fetch_spec, InstructionMemory};
use crate::register::RegisterFile;
use crate::stages::{
    access_memory, access_spec, execute, execute_spec, gpr_written_back, insn_decode, insn_fetch,
    jump_target, reg_read, reg_value, reg_writeback, takes_jump,
};

verus! {

/// One step on instructions `words`, from registers `reg` and data memory
/// `mem` to `reg2` and `mem2`, with outcome `r`: the instruction at the PC
/// is fetched, decoded, executed, and its load or store and write-back
/// done; `Ok(None)` to go on, `Ok(Some(a))` after the HALT at `a`, or the
/// error that ends the run.
pub open spec fn step_spec(
    words: Seq<u32>,
    reg: RegisterFile,
    mem: Seq<u32>,
    reg2: RegisterFile,
    mem2: Seq<u32>,
    r: Result<Option<usize>, SimError>,
) -> bool {
    let pc = reg.pc.value();
    match fetch_spec(words, pc as usize) {
        Err(e) => r == Err::<Option<usize>, SimError>(SimError::Memory(e)),
        Ok(w) => match decode_error(w) {
            Some(e) => r == Err::<Option<usize>, SimError>(SimError::Decode(e)),
            None => {
                let insn = decoded(w);
                let rs2 = reg_value(reg, insn.fields.rs2);
                let src1 = if insn.opcode == Opcode::AuiPc {
                    pc as i32
                } else {
                    reg_value(reg, insn.fields.rs1)
                };
                let alu_result = execute_spec(insn, src1, rs2);
                let (res, mem_after) = access_spec(insn, mem, alu_result, rs2);
                match res {
                    Err(e) => r == Err::<Option<usize>, SimError>(SimError::Memory(e)),
                    Ok(m) => {
                        &&& mem2 == mem_after
                        &&& gpr_written_back(reg.gpr@, reg2.gpr@, pc, insn, alu_result, m)
                        &&& if insn.function == Function::Halt {
                            &&& r == Ok::<Option<usize>, SimError>(Some(pc as usize))
                            &&& reg2.pc.value() == pc.wrapping_add(4)
                        } else {
                            &&& r == Ok::<Option<usize>, SimError>(None)
                            &&& reg2.pc.value() == if takes_jump(insn, alu_result) {
                                jump_target(pc, insn, alu_result)
                            } else {
                                pc.wrapping_add(4)
                            }
                        }
                    },
                }
            },
        },
    }
}

/// `trace` is a run of steps on `words` that starts from registers `reg`
/// and data memory `mem`, each step but the last going on into the next.
pub open spec fn ia_trace(
    words: Seq<u32>,
    trace: Seq<(RegisterFile, Seq<u32>)>,
    reg: RegisterFile,
    mem: Seq<u32>,
) -> bool {
    &&& trace.len() >= 1
    &&& trace[0] == (reg, mem)
    &&& forall|i: int|
        0 <= i < trace.len() - 1 ==> #[trigger] step_spec(
            words,
            trace[i].0,
            trace[i].1,
            trace[i + 1].0,
            trace[i + 1].1,
            Ok(None),
        )
}

/// Stepping through `words` from registers `reg0` and memory `mem0` can
/// take some number of steps and then end, in one more step, with
/// registers `reg`, memory `mem` and result `r`.
pub open spec fn ia_run(
    words: Seq<u32>,
    reg0: RegisterFile,
    mem0: Seq<u32>,
    reg: RegisterFile,
    mem: Seq<u32>,
    r: Result<usize, SimError>,
) -> bool {
    exists|trace: Seq<(RegisterFile, Seq<u32>)>|
        #![trigger ia_trace(words, trace, reg0, mem0)]
        ia_trace(words, trace, reg0, mem0) && step_spec(
            words,
            trace.last().0,
            trace.last().1,
            reg,
            mem,
            match r {
                Ok(a) => Ok(Some(a)),
                Err(e) => Err(e),
            },
        )
}

/// Executes the instruction at the PC.
pub fn step<M: InstructionMemory>(
    insns: &M,
    mem: &mut DataMemory,
    reg: &mut RegisterFile,
    clock: u64,
) -> (r: Result<Option<usize>, SimError>)
    requires
        old(reg).wf(),
    ensures
        final(reg).wf(),
        final(mem).words().len() == old(mem).words().len(),
        step_spec(insns.words(), *old(reg), old(mem).words(), *final(reg), final(mem).words(), r),
        r matches Ok(Some(a)) ==> halts_at(insns.words(), a),
        r != Err::<Option<usize>, SimError>(SimError::ClockExhausted),
{
    // Read and increment program counter
    let pc = reg.pc.read();
    reg.pc.write(pc.wrapping_add(4));

    // IF: Instruction fetch
    let raw_insn = match insn_fetch(insns, pc, clock) {
        Ok(w) => w,
        Err(e) => return Err(SimError::Memory(e)),
    };

    // ID: Instruction decode and register file read
    let mut insn = match insn_decode(raw_insn, clock) {
        Ok(insn) => insn,
        Err(e) => return Err(SimError::Decode(e)),
    };
    proof {
        lemma_decodes_unique(insn, raw_insn);
    }
    let (rs1, rs2) = reg_read(&insn, reg, clock);

    // EX: Execution or address calculation; AUIPC adds to its own address.
    let src1: i32 = if insn.opcode == Opcode::AuiPc {
        #[verifier::truncate]
        (pc as i32)
    } else {
        rs1
    };
    let alu_result = execute(&mut insn, src1, rs2, clock);

    // MEM: Data memory access
    let mem_result = match access_memory(&insn, mem, alu_result, rs2, clock) {
        Ok(v) => v,
        Err(e) => return Err(SimError::Memory(e)),
    };

    // WB: Write result back to register
    reg_writeback(pc, &insn, reg, alu_result, mem_result, clock);

    if insn.function == Function::Halt {
        return Ok(Some(pc as usize));
    }

    // Modify program counter for branch or jump
    if insn.semantics.branch && !(insn.opcode == Opcode::Branch && alu_result != 0) {
        let npc: u32 = match insn.opcode {
            // LSB -> 0
            Opcode::Jalr => (#[verifier::truncate] (alu_result as u32)) & 0xfffffffe,
            _ => {
                let imm: u32 = match gen(&insn) {
                    Some(v) => v,
                    None => 0,
                };
                pc.wrapping_add(imm)
            },
        };
        reg.pc.write(npc);
    }
    Ok(None)
}

/// Runs an instruction-accurate RISC-V 32I simulation of `insns` on `mem`
/// and `reg`.
///
/// Returns the address of the HALT instruction that ends the run.
pub fn run<M: InstructionMemory>(insns: &M, mem: &mut DataMemory, reg: &mut RegisterFile) -> (r:
    Result<usize, SimError>)
    requires
        old(reg).wf(),
    ensures
        final(reg).wf(),
        final(mem).words().len() == old(mem).words().len(),
        r matches Ok(addr) ==> halts_at(insns.words(), addr),
        r != Err::<usize, SimError>(SimError::ClockExhausted) ==> ia_run(
            insns.words(),
            *old(reg),
            old(mem).words(),
            *final(reg),
            final(mem).words(),
            r,
        ),
        r == Err::<usize, SimError>(SimError::ClockExhausted) ==> exists|
            trace: Seq<(RegisterFile, Seq<u32>)>,
        |
            #![trigger ia_trace(insns.words(), trace, *old(reg), old(mem).words())]
            ia_trace(insns.words(), trace, *old(reg), old(mem).words()) && trace.len() > u64::MAX,
{
    // The clock bounds the run and aids debugging.
    let mut clock: u64 = 0;
    let ghost words = insns.words();
    let ghost reg0 = *reg;
    let ghost mem0 = mem.words();
    let ghost mut trace: Seq<(RegisterFile, Seq<u32>)> = seq![(*reg, mem.words())];

    loop
        invariant
            reg.wf(),
            mem.words().len() == old(mem).words().len(),
            words == insns.words(),
            reg0 == *old(reg),
            mem0 == old(mem).words(),
            ia_trace(words, trace, reg0, mem0),
            trace.last() == (*reg, mem.words()),
            trace.len() == clock + 1,
        decreases u64::MAX - clock,
    {
        let ghost last = trace.last();
        match step(insns, mem, reg, clock) {
            Ok(None) => {},
            Ok(Some(addr)) => {
                assert(ia_trace(words, trace, reg0, mem0));
                return Ok(addr);
            },
            Err(e) => {
                assert(ia_trace(words, trace, reg0, mem0));
                return Err(e);
            },
        }
        proof {
            let old_trace = trace;
            trace = trace.push((*reg, mem.words()));
            assert forall|i: int| 0 <= i < trace.len() - 1 implies #[trigger] step_spec(
                words,
                trace[i].0,
                trace[i].1,
                trace[i + 1].0,
                trace[i + 1].1,
                Ok(None),
            ) by {
                if i < old_trace.len() - 1 {
                    assert(trace[i] == old_trace[i] && trace[i + 1] == old_trace[i + 1]);
                } else {
                    assert(trace[i] == last);
                }
            }
        }

        if clock == u64::MAX {
            assert(ia_trace(words, trace, reg0, mem0) && trace.len() > u64::MAX);
            return Err(SimError::ClockExhausted);
        }
        clock = clock + 1;
    }
}

} // verus!
