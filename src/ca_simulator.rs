//! Cycle-accurate five-stage pipelined RISC-V 32I simulator.
use vstd::prelude::*;

use crate::consts;
use crate::error::SimError;
use crate::hazards::{self, load_use};
use crate::instruction::decoder::lemma_nop_fields;
use crate::instruction::{
    decode_error, decoded, lemma_decodes_unique, nop_spec, opcode_of, Function, Instruction, Opcode,
};
use crate::memory::data::DataMemory;
use crate::memory::instruction::{fetch_spec, InstructionMemory};
use crate::hazards::writes_to;
use crate::pipeline::stages::{
    access_memory, alu_src1, branch_target, decode_operand, ex_stage, execute, faulted_id_ex,
    fetch_latch, flush, forwarded_src2, insn_decode, insn_fetch, mem_wb_value, redirects,
    reg_writeback,
};
use crate::pipeline::{IdExRegister, IfIdRegister, MemWbRegister, Pipeline};
use crate::register::RegisterFile;
use crate::stages::{access_spec, execute_spec, gpr_written_back};

verus! {

/// The word at byte address `addr` of `words` is a HALT.
pub open spec fn halts_at(words: Seq<u32>, addr: usize) -> bool {
    fetch_spec(words, addr) matches Ok(w) && opcode_of(w) == Some(Opcode::Halt)
}

/// IF/ID holds a NOP, or the word fetched from its PC.
pub open spec fn fetched(words: Seq<u32>, if_id: IfIdRegister) -> bool {
    if_id.raw_insn == consts::NOP || fetch_spec(words, if_id.pc as usize) == Ok::<
        u32,
        crate::memory::MemError,
    >(if_id.raw_insn)
}

/// `insn` is the decoding of its own word.
pub open spec fn is_decoding(insn: Instruction) -> bool {
    decode_error(insn.value) is None && insn == decoded(insn.value)
}

/// What holds of the pipeline between cycles: its instructions are
/// decodings that name valid registers, IF/ID holds a fetched word or a
/// NOP, a HALT in ID/EX was fetched from its PC, and a fault in ID/EX is a
/// fetch or decode error carried by a NOP.
pub open spec fn pipeline_inv(words: Seq<u32>, pl: Pipeline) -> bool {
    &&& pl.wf()
    &&& is_decoding(pl.id_ex.insn)
    &&& is_decoding(pl.ex_mem.insn)
    &&& is_decoding(pl.mem_wb.insn)
    &&& (pl.id_ex.fault is Some ==> pl.id_ex.insn == nop_spec())
    &&& fetched(words, pl.if_id)
    &&& (pl.id_ex.insn.function == Function::Halt ==> halts_at(words, pl.id_ex.pc as usize))
    &&& pl.id_ex.fault != Some(SimError::ClockExhausted)
}

/// What the decode stage writes to ID/EX in a cycle that starts from
/// `read` with registers `reg`: the decoded instruction and its forwarded
/// sources, or a bubble carrying the fault that the fetch or the decoding
/// met.
pub open spec fn decode_latch(read: Pipeline, reg: RegisterFile) -> IdExRegister {
    let pc = read.if_id.pc;
    let raw = read.if_id.raw_insn;
    match (read.if_id.fault, decode_error(raw)) {
        (Some(e), _) => faulted_id_ex(pc, SimError::Memory(e)),
        (None, Some(e)) => faulted_id_ex(pc, SimError::Decode(e)),
        (None, None) => IdExRegister {
            pc,
            insn: decoded(raw),
            rs1: decode_operand(read, reg, decoded(raw).fields.rs1),
            rs2: decode_operand(read, reg, decoded(raw).fields.rs2),
            fault: None,
        },
    }
}

/// The pipeline after the fetch, decode and execute stages of a cycle that
/// starts from `read`. On a load-use hazard a bubble enters ID/EX and
/// IF/ID holds its word.
pub open spec fn front_end(words: Seq<u32>, read: Pipeline, reg: RegisterFile) -> Pipeline {
    let front = if load_use(read) {
        Pipeline { id_ex: IdExRegister { insn: nop_spec(), fault: None, ..read.id_ex }, ..read }
    } else {
        Pipeline {
            if_id: fetch_latch(words, reg.pc.value()),
            id_ex: decode_latch(read, reg),
            ..read
        }
    };
    Pipeline { ex_mem: ex_stage(read), ..front }
}

/// The PC after the fetch stage: unchanged on a stall, else the next word.
pub open spec fn front_pc(read: Pipeline, reg: RegisterFile) -> u32 {
    if load_use(read) {
        reg.pc.value()
    } else {
        reg.pc.value().wrapping_add(4)
    }
}

/// One clock cycle of the pipeline on instructions `words`, from pipeline
/// `read`, registers `reg` and data memory `mem` to `next`, `reg2` and
/// `mem2`, with outcome `r`: `Ok(None)` to go on, `Ok(Some(a))` when the
/// HALT at `a` left the execute stage, or the error that ends the run.
pub open spec fn cycle_spec(
    words: Seq<u32>,
    read: Pipeline,
    reg: RegisterFile,
    mem: Seq<u32>,
    next: Pipeline,
    reg2: RegisterFile,
    mem2: Seq<u32>,
    r: Result<Option<usize>, SimError>,
) -> bool {
    let ex = read.ex_mem;
    let (res, mem_after) = access_spec(ex.insn, mem, ex.alu_result, ex.rs2);
    match res {
        Err(e) => r == Err::<Option<usize>, SimError>(SimError::Memory(e)),
        Ok(m) => {
            let executed = front_end(words, read, reg);
            let jump = redirects(ex);
            let after_mem = Pipeline {
                mem_wb: MemWbRegister {
                    pc: ex.pc,
                    insn: ex.insn,
                    alu_result: ex.alu_result,
                    mem_result: m,
                },
                ..(if jump {
                    flush(executed)
                } else {
                    executed
                })
            };
            &&& mem2 == mem_after
            &&& next == after_mem
            &&& reg2.pc.value() == (if jump {
                branch_target(ex)
            } else {
                front_pc(read, reg)
            })
            &&& match (after_mem.ex_mem.fault, after_mem.ex_mem.halt_addr) {
                (Some(e), _) => r == Err::<Option<usize>, SimError>(e) && reg2.gpr == reg.gpr,
                (None, Some(a)) => r == Ok::<Option<usize>, SimError>(Some(a)) && reg2.gpr
                    == reg.gpr,
                (None, None) => r == Ok::<Option<usize>, SimError>(None) && gpr_written_back(
                    reg.gpr@,
                    reg2.gpr@,
                    read.mem_wb.pc,
                    read.mem_wb.insn,
                    read.mem_wb.alu_result,
                    read.mem_wb.mem_result,
                ),
            }
        },
    }
}

/// `trace` is a run of the pipeline on `words` that starts from the empty
/// pipeline, registers `reg` and data memory `mem`, each cycle but the
/// last going on into the next.
pub open spec fn ca_trace(
    words: Seq<u32>,
    trace: Seq<(Pipeline, RegisterFile, Seq<u32>)>,
    reg: RegisterFile,
    mem: Seq<u32>,
) -> bool {
    &&& trace.len() >= 1
    &&& trace[0] == (Pipeline::initial(), reg, mem)
    &&& forall|i: int|
        0 <= i < trace.len() - 1 ==> #[trigger] cycle_spec(
            words,
            trace[i].0,
            trace[i].1,
            trace[i].2,
            trace[i + 1].0,
            trace[i + 1].1,
            trace[i + 1].2,
            Ok(None),
        )
}

/// The cycle outcome that ends a run with result `r`.
pub open spec fn final_outcome(r: Result<usize, SimError>) -> Result<Option<usize>, SimError> {
    match r {
        Ok(a) => Ok(Some(a)),
        Err(e) => Err(e),
    }
}

/// Running the pipeline on `words` from registers `reg0` and memory `mem0`
/// can take some number of cycles and then end, in one more cycle, with
/// registers `reg`, memory `mem` and result `r`.
pub open spec fn ca_run(
    words: Seq<u32>,
    reg0: RegisterFile,
    mem0: Seq<u32>,
    reg: RegisterFile,
    mem: Seq<u32>,
    r: Result<usize, SimError>,
) -> bool {
    exists|trace: Seq<(Pipeline, RegisterFile, Seq<u32>)>, next: Pipeline|
        #![trigger ca_trace(words, trace, reg0, mem0), cycle_spec(words, trace.last().0, trace.last().1, trace.last().2, next, reg, mem, final_outcome(r))]
        ca_trace(words, trace, reg0, mem0) && cycle_spec(
            words,
            trace.last().0,
            trace.last().1,
            trace.last().2,
            next,
            reg,
            mem,
            final_outcome(r),
        )
}

/// A load-use hazard costs exactly one bubble: the cycle that detects it
/// puts a NOP into ID/EX and keeps the PC and IF/ID (unless an older jump
/// redirects), and the cycle after it does not stall again.
pub proof fn lemma_load_use_one_bubble(
    words: Seq<u32>,
    read: Pipeline,
    reg: RegisterFile,
    mem: Seq<u32>,
    next: Pipeline,
    reg2: RegisterFile,
    mem2: Seq<u32>,
)
    requires
        load_use(read),
        cycle_spec(words, read, reg, mem, next, reg2, mem2, Ok(None)),
    ensures
        next.id_ex.insn == nop_spec(),
        !load_use(next),
        !redirects(read.ex_mem) ==> next.if_id == read.if_id && reg2.pc.value() == reg.pc.value(),
{
}

/// The NOP is the decoding of its word.
pub proof fn lemma_nop_is_decoding()
    ensures
        is_decoding(nop_spec()),
        decode_error(consts::NOP) is None,
{
    lemma_nop_fields();
    lemma_decodes_unique(nop_spec(), consts::NOP);
}

/// Back-to-back dependence: a source that the instruction just ahead (in
/// EX/MEM) produces is taken from that instruction's ALU result.
pub proof fn lemma_back_to_back_forwarding(words: Seq<u32>, pl: Pipeline)
    requires
        pipeline_inv(words, pl),
    ensures
        writes_to(pl.ex_mem.insn, pl.id_ex.insn.fields.rs1) ==> ex_stage(pl).alu_result
            == execute_spec(pl.id_ex.insn, pl.ex_mem.alu_result, forwarded_src2(pl)),
        writes_to(pl.ex_mem.insn, pl.id_ex.insn.fields.rs2) ==> ex_stage(pl).alu_result
            == execute_spec(pl.id_ex.insn, alu_src1(pl), pl.ex_mem.alu_result) && ex_stage(pl).rs2
            == pl.ex_mem.alu_result,
{
    lemma_nop_is_decoding();
}

/// Two-apart dependence: a source that the instruction two ahead (in
/// MEM/WB) produces, and the one between does not, is taken from MEM/WB:
/// the loaded value for a load, else the ALU result.
pub proof fn lemma_two_apart_forwarding(words: Seq<u32>, pl: Pipeline)
    requires
        pipeline_inv(words, pl),
    ensures
        writes_to(pl.mem_wb.insn, pl.id_ex.insn.fields.rs1) && !writes_to(
            pl.ex_mem.insn,
            pl.id_ex.insn.fields.rs1,
        ) ==> ex_stage(pl).alu_result == execute_spec(
            pl.id_ex.insn,
            mem_wb_value(pl),
            forwarded_src2(pl),
        ),
        writes_to(pl.mem_wb.insn, pl.id_ex.insn.fields.rs2) && !writes_to(
            pl.ex_mem.insn,
            pl.id_ex.insn.fields.rs2,
        ) ==> ex_stage(pl).alu_result == execute_spec(pl.id_ex.insn, alu_src1(pl), mem_wb_value(pl))
            && ex_stage(pl).rs2 == mem_wb_value(pl),
        pl.mem_wb.insn.semantics.mem_read ==> mem_wb_value(pl) == pl.mem_wb.mem_result as i32,
{
    lemma_nop_is_decoding();
}

/// A taken conditional branch, or a jump, leaving the memory stage
/// redirects the PC to its target (for JALR the ALU result with its low
/// bit cleared), flushes IF/ID, ID/EX and EX/MEM to NOPs, and lets the run
/// go on.
pub proof fn lemma_taken_branch_flushes(
    words: Seq<u32>,
    read: Pipeline,
    reg: RegisterFile,
    mem: Seq<u32>,
    next: Pipeline,
    reg2: RegisterFile,
    mem2: Seq<u32>,
    r: Result<Option<usize>, SimError>,
)
    requires
        pipeline_inv(words, read),
        (read.ex_mem.insn.opcode == Opcode::Branch && read.ex_mem.alu_result == 0)
            || read.ex_mem.insn.opcode == Opcode::Jal || read.ex_mem.insn.opcode == Opcode::Jalr,
        cycle_spec(words, read, reg, mem, next, reg2, mem2, r),
    ensures
        reg2.pc.value() == branch_target(read.ex_mem),
        read.ex_mem.insn.opcode == Opcode::Jalr ==> reg2.pc.value() == (read.ex_mem.alu_result as u32)
            & 0xfffffffe,
        next.if_id.raw_insn == consts::NOP,
        next.id_ex.insn == nop_spec(),
        next.ex_mem.insn == nop_spec(),
        r == Ok::<Option<usize>, SimError>(None),
{
}

/// A HALT that reaches the execute stage, with no older jump or failing
/// memory access in the way, ends the run at its own address.
pub proof fn lemma_halt_in_execute_ends_run(
    words: Seq<u32>,
    read: Pipeline,
    reg: RegisterFile,
    mem: Seq<u32>,
    next: Pipeline,
    reg2: RegisterFile,
    mem2: Seq<u32>,
    r: Result<Option<usize>, SimError>,
)
    requires
        pipeline_inv(words, read),
        read.id_ex.insn.function == Function::Halt,
        !redirects(read.ex_mem),
        access_spec(read.ex_mem.insn, mem, read.ex_mem.alu_result, read.ex_mem.rs2).0 is Ok,
        cycle_spec(words, read, reg, mem, next, reg2, mem2, r),
    ensures
        r == Ok::<Option<usize>, SimError>(Some(read.id_ex.pc as usize)),
        halts_at(words, read.id_ex.pc as usize),
        reg2.gpr == reg.gpr,
{
}

/// Runs one clock cycle: the five stages on `read_pipeline`, writing
/// `write_pipeline`, which starts as a copy of it.
pub fn cycle<M: InstructionMemory>(
    read_pipeline: &Pipeline,
    write_pipeline: &mut Pipeline,
    insns: &M,
    mem: &mut DataMemory,
    reg: &mut RegisterFile,
    clock: u64,
) -> (r: Result<Option<usize>, SimError>)
    requires
        *old(write_pipeline) == *read_pipeline,
        pipeline_inv(insns.words(), *read_pipeline),
        old(reg).wf(),
    ensures
        final(reg).wf(),
        final(mem).words().len() == old(mem).words().len(),
        cycle_spec(
            insns.words(),
            *read_pipeline,
            *old(reg),
            old(mem).words(),
            *final(write_pipeline),
            *final(reg),
            final(mem).words(),
            r,
        ),
        r == Ok::<Option<usize>, SimError>(None) ==> pipeline_inv(
            insns.words(),
            *final(write_pipeline),
        ),
        r matches Ok(Some(a)) ==> halts_at(insns.words(), a),
        r != Err::<Option<usize>, SimError>(SimError::ClockExhausted),
{
    let ghost words = insns.words();
    proof {
        lemma_nop_fields();
        lemma_nop_is_decoding();
        let raw = read_pipeline.if_id.raw_insn;
        if decode_error(raw) is None {
            lemma_decodes_unique(decoded(raw), raw);
        }
    }
    if hazards::load_hazard(read_pipeline) {
        // Stall: insert a bubble; IF and ID hold their state.
        write_pipeline.id_ex.insn = Instruction::nop();
        write_pipeline.id_ex.fault = None;
    } else {
        insn_fetch(write_pipeline, insns, reg, clock);
        insn_decode(read_pipeline, write_pipeline, reg, clock);
        proof {
            let raw = read_pipeline.if_id.raw_insn;
            if read_pipeline.if_id.fault is None && decode_error(raw) is None {
                lemma_decodes_unique(write_pipeline.id_ex.insn, raw);
            }
        }
    }

    execute(read_pipeline, write_pipeline, clock);

    match access_memory(read_pipeline, write_pipeline, mem, reg, clock) {
        Ok(()) => {},
        Err(e) => return Err(SimError::Memory(e)),
    }

    // A fault that reached the execute stage, and was not flushed by an
    // older jump, ends the run.
    if let Some(e) = write_pipeline.ex_mem.fault {
        return Err(e);
    }
    if let Some(addr) = write_pipeline.ex_mem.halt_addr {
        return Ok(Some(addr));
    }

    reg_writeback(read_pipeline, reg, clock);
    Ok(None)
}

/// Runs a cycle-accurate RISC-V 32I simulation of `insns` on `mem` and
/// `reg`.
///
/// Returns the address of the HALT instruction that ends the run.
pub fn run<M: InstructionMemory>(insns: &M, mem: &mut DataMemory, reg: &mut RegisterFile) -> (r:
    Result<usize, SimError>)
    requires
        old(reg).wf(),
    ensures
        final(reg).wf(),
        final(mem).words().len() == old(mem).words().len(),
        r matches Ok(addr) ==> halts_at(insns.words(), addr),
        r != Err::<usize, SimError>(SimError::ClockExhausted) ==> ca_run(
            insns.words(),
            *old(reg),
            old(mem).words(),
            *final(reg),
            final(mem).words(),
            r,
        ),
        r == Err::<usize, SimError>(SimError::ClockExhausted) ==> exists|
            trace: Seq<(Pipeline, RegisterFile, Seq<u32>)>,
        |
            #![trigger ca_trace(insns.words(), trace, *old(reg), old(mem).words())]
            ca_trace(insns.words(), trace, *old(reg), old(mem).words()) && trace.len() > u64::MAX,
{
    // The clock bounds the run and aids debugging.
    let mut clock: u64 = 0;

    // Pipeline registers
    let mut write_pipeline = Pipeline::new();
    let mut read_pipeline = Pipeline::new();
    let ghost words = insns.words();
    let ghost reg0 = *reg;
    let ghost mem0 = mem.words();
    let ghost mut trace: Seq<(Pipeline, RegisterFile, Seq<u32>)> = seq![
        (read_pipeline, *reg, mem.words()),
    ];
    proof {
        lemma_nop_fields();
        lemma_nop_is_decoding();
    }

    loop
        invariant
            reg.wf(),
            mem.words().len() == old(mem).words().len(),
            words == insns.words(),
            reg0 == *old(reg),
            mem0 == old(mem).words(),
            write_pipeline == read_pipeline,
            pipeline_inv(words, read_pipeline),
            ca_trace(words, trace, reg0, mem0),
            trace.last() == (read_pipeline, *reg, mem.words()),
            trace.len() == clock + 1,
        decreases u64::MAX - clock,
    {
        let ghost reg_before = *reg;
        let ghost mem_before = mem.words();
        let ghost last = trace.last();
        let r = cycle(&read_pipeline, &mut write_pipeline, insns, mem, reg, clock);
        match r {
            Ok(None) => {},
            Ok(Some(addr)) => {
                assert(cycle_spec(
                    words,
                    trace.last().0,
                    trace.last().1,
                    trace.last().2,
                    write_pipeline,
                    *reg,
                    mem.words(),
                    final_outcome(Ok(addr)),
                ));
                return Ok(addr);
            },
            Err(e) => {
                assert(cycle_spec(
                    words,
                    trace.last().0,
                    trace.last().1,
                    trace.last().2,
                    write_pipeline,
                    *reg,
                    mem.words(),
                    final_outcome(Err(e)),
                ));
                return Err(e);
            },
        }
        proof {
            let old_trace = trace;
            trace = trace.push((write_pipeline, *reg, mem.words()));
            assert forall|i: int| 0 <= i < trace.len() - 1 implies #[trigger] cycle_spec(
                words,
                trace[i].0,
                trace[i].1,
                trace[i].2,
                trace[i + 1].0,
                trace[i + 1].1,
                trace[i + 1].2,
                Ok(None),
            ) by {
                if i < old_trace.len() - 1 {
                    assert(trace[i] == old_trace[i] && trace[i + 1] == old_trace[i + 1]);
                } else {
                    assert(trace[i] == last);
                }
            }
        }

        read_pipeline = write_pipeline;

        if clock == u64::MAX {
            assert(ca_trace(words, trace, reg0, mem0) && trace.len() > u64::MAX);
            return Err(SimError::ClockExhausted);
        }
        clock = clock + 1;
    }
}

} // verus!
