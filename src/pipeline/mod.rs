//! The pipeline and its four inter-stage registers.
use vstd::prelude::*;

use crate::consts;
use crate::error::SimError;
use crate::instruction::{nop_spec, regs_valid, Instruction};
use crate::memory::MemError;

pub mod stages;

verus! {

/// The four inter-stage registers of the pipeline.
#[derive(Clone, Copy, Debug)]
pub struct Pipeline {
    pub if_id: IfIdRegister,
    pub id_ex: IdExRegister,
    pub ex_mem: ExMemRegister,
    pub mem_wb: MemWbRegister,
}

impl Pipeline {
    /// Every instruction held in the pipeline names valid registers.
    pub open spec fn wf(&self) -> bool {
        &&& regs_valid(self.id_ex.insn)
        &&& regs_valid(self.ex_mem.insn)
        &&& regs_valid(self.mem_wb.insn)
    }

    /// The pipeline holding only NOPs.
    pub open spec fn initial() -> Pipeline {
        Pipeline {
            if_id: IfIdRegister::initial(),
            id_ex: IdExRegister::initial(),
            ex_mem: ExMemRegister::initial(),
            mem_wb: MemWbRegister::initial(),
        }
    }

    /// Constructs a pipeline holding only NOPs.
    pub fn new() -> (r: Pipeline)
        ensures
            r == Pipeline::initial(),
            r.wf(),
    {
        Pipeline {
            if_id: IfIdRegister::new(),
            id_ex: IdExRegister::new(),
            ex_mem: ExMemRegister::new(),
            mem_wb: MemWbRegister::new(),
        }
    }
}

/// Pipeline register between the instruction fetch and decode stages.
#[derive(Clone, Copy, Debug)]
pub struct IfIdRegister {
    /// Program counter of the fetched instruction
    pub pc: u32,
    /// Raw instruction
    pub raw_insn: u32,
    /// Why the fetch failed, if it did; the raw instruction is then a NOP
    pub fault: Option<MemError>,
}

impl IfIdRegister {
    pub open spec fn initial() -> IfIdRegister {
        IfIdRegister { pc: 0, raw_insn: consts::NOP, fault: None }
    }

    /// Constructs the register holding a NOP at address 0.
    pub fn new() -> (r: IfIdRegister)
        ensures
            r == IfIdRegister::initial(),
    {
        IfIdRegister { pc: 0, raw_insn: consts::NOP, fault: None }
    }
}

/// Pipeline register between the instruction decode and execute stages.
#[derive(Clone, Copy, Debug)]
pub struct IdExRegister {
    pub pc: u32,
    pub insn: Instruction,
    pub rs1: i32,
    pub rs2: i32,
    /// Why the instruction could not be fetched or decoded, if so; the
    /// instruction is then a NOP, and the fault is passed on to EX/MEM
    pub fault: Option<SimError>,
}

impl IdExRegister {
    pub open spec fn initial() -> IdExRegister {
        IdExRegister { pc: 0, insn: nop_spec(), rs1: 0, rs2: 0, fault: None }
    }

    /// Constructs the register holding a NOP at address 0.
    pub fn new() -> (r: IdExRegister)
        ensures
            r == IdExRegister::initial(),
    {
        IdExRegister { pc: 0, insn: Instruction::nop(), rs1: 0, rs2: 0, fault: None }
    }
}

/// Pipeline register between the execute and memory stages.
#[derive(Clone, Copy, Debug)]
pub struct ExMemRegister {
    pub pc: u32,
    pub insn: Instruction,
    pub alu_result: i32,
    pub rs2: i32,
    /// Address of a HALT that reached the execute stage
    pub halt_addr: Option<usize>,
    /// A fault that reached the execute stage; the instruction is then a NOP
    pub fault: Option<SimError>,
}

impl ExMemRegister {
    pub open spec fn initial() -> ExMemRegister {
        ExMemRegister {
            pc: 0,
            insn: nop_spec(),
            alu_result: 0,
            rs2: 0,
            halt_addr: None,
            fault: None,
        }
    }

    /// Constructs the register holding a NOP at address 0.
    pub fn new() -> (r: ExMemRegister)
        ensures
            r == ExMemRegister::initial(),
    {
        ExMemRegister {
            pc: 0,
            insn: Instruction::nop(),
            alu_result: 0,
            rs2: 0,
            halt_addr: None,
            fault: None,
        }
    }
}

/// Pipeline register between the memory and write-back stages.
#[derive(Clone, Copy, Debug)]
pub struct MemWbRegister {
    pub pc: u32,
    pub insn: Instruction,
    pub alu_result: i32,
    pub mem_result: u32,
}

impl MemWbRegister {
    pub open spec fn initial() -> MemWbRegister {
        MemWbRegister { pc: 0, insn: nop_spec(), alu_result: 0, mem_result: 0 }
    }

    /// Constructs the register holding a NOP at address 0.
    pub fn new() -> (r: MemWbRegister)
        ensures
            r == MemWbRegister::initial(),
    {
        MemWbRegister { pc: 0, insn: Instruction::nop(), alu_result: 0, mem_result: 0 }
    }
}

} // verus!
