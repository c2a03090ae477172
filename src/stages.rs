//! The five stages of executing one instruction.
use vstd::prelude::*;

use crate::alu::{alu, alu_spec, AluSrc};
use crate::immediates::{gen, gen_spec};
use crate::instruction::{decode_error, regs_valid, DecodeError, Instruction, Opcode};
use crate::memory::data::{access_error, read_spec, write_spec, DataMemory};
use crate::memory::instruction::{fetch_spec, InstructionMemory};
use crate::memory::MemError;
use crate::register::{gpr_written, Register, RegisterFile};

verus! {

/// The sign-extended immediate of `insn`; 0 where it has none.
pub open spec fn imm_bits(insn: Instruction) -> u32 {
    match gen_spec(insn) {
        Some(v) => v,
        None => 0,
    }
}

/// The sign-extended immediate of `insn` as a signed value.
pub open spec fn imm_value(insn: Instruction) -> i32 {
    imm_bits(insn) as i32
}

/// The ALU's second operand: `rs2` or the immediate, as `alu_src` selects.
pub open spec fn operand2(insn: Instruction, rs2: i32) -> i32 {
    match insn.semantics.alu_src {
        AluSrc::Reg => rs2,
        AluSrc::Imm => imm_value(insn),
    }
}

/// The ALU result of `insn` on operands `rs1` and `rs2`.
pub open spec fn execute_spec(insn: Instruction, rs1: i32, rs2: i32) -> i32 {
    alu_spec(insn.semantics.alu_op, rs1, operand2(insn, rs2))
}

/// The value of the register that `src` names, `x0` where it is absent.
pub open spec fn reg_value(reg: RegisterFile, src: Option<u32>) -> i32 {
    match src {
        Some(i) => reg.x(i as int) as i32,
        None => reg.x(0) as i32,
    }
}

/// The byte address that an ALU result names.
pub open spec fn data_addr(alu_result: i32) -> usize {
    (alu_result as u32) as usize
}

/// What the memory stage of `insn` does to `words`: the value loaded (0
/// for a non-load) and the memory after, or the error an access meets.
pub open spec fn access_spec(insn: Instruction, words: Seq<u32>, alu_result: i32, rs2: i32) -> (
    Result<u32, MemError>,
    Seq<u32>,
) {
    let addr = data_addr(alu_result);
    let size = insn.semantics.mem_size;
    if insn.semantics.mem_read {
        match access_error(words.len(), addr, size) {
            Some(e) => (Err(e), words),
            None => (Ok(read_spec(words, addr, size)), words),
        }
    } else if insn.semantics.mem_write {
        match access_error(words.len(), addr, size) {
            Some(e) => (Err(e), words),
            None => (Ok(0), write_spec(words, addr, size, rs2 as u32)),
        }
    } else {
        (Ok(0), words)
    }
}

/// `insn`, whose ALU result is `alu_result`, changes the flow of control:
/// it is a jump, or a conditional branch whose ALU result says taken.
pub open spec fn takes_jump(insn: Instruction, alu_result: i32) -> bool {
    insn.semantics.branch && !(insn.opcode == Opcode::Branch && alu_result != 0)
}

/// Where a jump or taken branch `insn` at `pc` sends the PC: the ALU result
/// with its low bit cleared for JALR, else `pc` plus the immediate.
pub open spec fn jump_target(pc: u32, insn: Instruction, alu_result: i32) -> u32 {
    if insn.opcode == Opcode::Jalr {
        (alu_result as u32) & 0xfffffffe
    } else {
        pc.wrapping_add(imm_bits(insn))
    }
}

/// The register that `insn` writes back to, if any: never `x0`.
pub open spec fn writeback_dest(insn: Instruction) -> Option<u32> {
    match insn.fields.rd {
        Some(d) => if insn.semantics.reg_write && d != 0 {
            Some(d)
        } else {
            None
        },
        None => None,
    }
}

/// The value that `insn`, at `pc`, writes back: the loaded value, LUI's
/// immediate, the return address of a jump, or else the ALU result.
pub open spec fn writeback_value(pc: u32, insn: Instruction, alu_result: i32, mem_result: u32) -> u32 {
    if insn.semantics.mem_to_reg {
        mem_result
    } else if insn.opcode == Opcode::Lui {
        match insn.fields.imm {
            Some(v) => v,
            None => 0,
        }
    } else if insn.opcode == Opcode::Jal || insn.opcode == Opcode::Jalr {
        pc.wrapping_add(4)
    } else {
        alu_result as u32
    }
}

/// Registers `new` are `old` after the write-back of `insn` at `pc`.
pub open spec fn gpr_written_back(
    old: Seq<Register>,
    new: Seq<Register>,
    pc: u32,
    insn: Instruction,
    alu_result: i32,
    mem_result: u32,
) -> bool {
    match writeback_dest(insn) {
        Some(d) => gpr_written(old, new, d as int, writeback_value(pc, insn, alu_result, mem_result)),
        None => new == old,
    }
}

/// `new` is `old` after the write-back of `insn` at `pc`.
pub open spec fn written_back(
    old: RegisterFile,
    new: RegisterFile,
    pc: u32,
    insn: Instruction,
    alu_result: i32,
    mem_result: u32,
) -> bool {
    &&& new.pc == old.pc
    &&& gpr_written_back(old.gpr@, new.gpr@, pc, insn, alu_result, mem_result)
}

/// IF: Instruction fetch from memory.
pub fn insn_fetch<M: InstructionMemory>(mem: &M, pc: u32, _clk: u64) -> (r: Result<u32, MemError>)
    ensures
        r == fetch_spec(mem.words(), pc as usize),
{
    mem.read(pc as usize)
}

/// ID 1: Instruction decode.
pub fn insn_decode(raw_insn: u32, _clk: u64) -> (r: Result<Instruction, DecodeError>)
    ensures
        match r {
            Ok(insn) => decode_error(raw_insn).is_none() && insn.decodes(raw_insn) && regs_valid(
                insn,
            ),
            Err(e) => decode_error(raw_insn) == Some(e),
        },
{
    Instruction::new(raw_insn)
}

/// Reads the register that `src` names, `x0` where it is absent.
pub fn read_source(reg: &RegisterFile, src: Option<u32>) -> (r: i32)
    requires
        reg.wf(),
        src matches Some(i) ==> i < 32,
    ensures
        r == reg_value(*reg, src),
{
    let i: u32 = match src {
        Some(i) => i,
        None => 0,
    };
    #[verifier::truncate]
    (reg.read_gpr(i as usize) as i32)
}

/// ID 2: Register read.
pub fn reg_read(insn: &Instruction, reg: &RegisterFile, _clk: u64) -> (r: (i32, i32))
    requires
        reg.wf(),
        regs_valid(*insn),
    ensures
        r.0 == reg_value(*reg, insn.fields.rs1),
        r.1 == reg_value(*reg, insn.fields.rs2),
{
    (read_source(reg, insn.fields.rs1), read_source(reg, insn.fields.rs2))
}

/// EX: Execute operation or calculate address.
pub fn execute(insn: &mut Instruction, rs1: i32, rs2: i32, _clk: u64) -> (r: i32)
    ensures
        *final(insn) == *old(insn),
        r == execute_spec(*old(insn), rs1, rs2),
{
    let src2 = match insn.semantics.alu_src {
        AluSrc::Reg => rs2,
        AluSrc::Imm => match gen(insn) {
            Some(v) => #[verifier::truncate] (v as i32),
            None => 0,
        },
    };
    alu(insn, rs1, src2, _clk)
}

/// MEM: Access memory operand.
pub fn access_memory(
    insn: &Instruction,
    mem: &mut DataMemory,
    alu_result: i32,
    rs2: i32,
    _clk: u64,
) -> (r: Result<u32, MemError>)
    ensures
        (r, final(mem).words()) == access_spec(*insn, old(mem).words(), alu_result, rs2),
{
    let addr: usize = (#[verifier::truncate] (alu_result as u32)) as usize;
    if insn.semantics.mem_read {
        mem.read(addr, insn.semantics.mem_size)
    } else if insn.semantics.mem_write {
        match mem.write(addr, insn.semantics.mem_size, #[verifier::truncate] (rs2 as u32)) {
            Ok(()) => Ok(0),
            Err(e) => Err(e),
        }
    } else {
        Ok(0)
    }
}

/// WB: Write the result back to its register.
pub fn reg_writeback(
    pc: u32,
    insn: &Instruction,
    reg: &mut RegisterFile,
    alu_result: i32,
    mem_result: u32,
    _clk: u64,
)
    requires
        old(reg).wf(),
        regs_valid(*insn),
    ensures
        final(reg).wf(),
        written_back(*old(reg), *final(reg), pc, *insn, alu_result, mem_result),
        writeback_dest(*insn) matches Some(d) ==> final(reg).x(d as int) == writeback_value(
            pc,
            *insn,
            alu_result,
            mem_result,
        ),
{
    if !insn.semantics.reg_write {
        return ;
    }
    let rd = match insn.fields.rd {
        Some(rd) => rd,
        None => return ,
    };
    if rd == 0 {
        // x0 is read-only
        return ;
    }
    let value = if insn.semantics.mem_to_reg {
        mem_result
    } else {
        match insn.opcode {
            Opcode::Lui => match insn.fields.imm {
                Some(v) => v,
                None => 0,
            },
            Opcode::Jal | Opcode::Jalr => pc.wrapping_add(4),
            _ => #[verifier::truncate] (alu_result as u32),
        }
    };
    reg.write_gpr(rd as usize, value);
}

} // verus!
