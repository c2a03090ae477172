//! Data hazard detection.
use vstd::prelude::*;

use crate::consts::{RS1_MASK, RS1_SHIFT, RS2_MASK, RS2_SHIFT};
use crate::instruction::decoder::{rs1_bits, rs2_bits};
use crate::instruction::{nop_spec, Instruction};
use crate::pipeline::Pipeline;

verus! {

/// `producer` writes a nonzero register, and that register is `src`; an
/// absent destination never matches.
pub open spec fn writes_to(producer: Instruction, src: Option<u32>) -> bool {
    &&& producer.semantics.reg_write
    &&& producer.fields.rd is Some
    &&& producer.fields.rd != Some(0u32)
    &&& producer.fields.rd == src
}

/// The instruction in EX/MEM produces the first source of the one in ID/EX.
pub open spec fn ex_forwards_src1(pl: Pipeline) -> bool {
    writes_to(pl.ex_mem.insn, pl.id_ex.insn.fields.rs1)
}

/// The instruction in EX/MEM produces the second source of the one in ID/EX.
pub open spec fn ex_forwards_src2(pl: Pipeline) -> bool {
    writes_to(pl.ex_mem.insn, pl.id_ex.insn.fields.rs2)
}

/// The instruction in MEM/WB produces the first source of the one in ID/EX,
/// and the one in EX/MEM does not.
pub open spec fn mem_forwards_src1(pl: Pipeline) -> bool {
    writes_to(pl.mem_wb.insn, pl.id_ex.insn.fields.rs1) && !ex_forwards_src1(pl)
}

/// The instruction in MEM/WB produces the second source of the one in
/// ID/EX, and the one in EX/MEM does not.
pub open spec fn mem_forwards_src2(pl: Pipeline) -> bool {
    writes_to(pl.mem_wb.insn, pl.id_ex.insn.fields.rs2) && !ex_forwards_src2(pl)
}

/// The load in ID/EX writes a register that the raw word in IF/ID reads.
pub open spec fn load_use(pl: Pipeline) -> bool {
    &&& pl.id_ex.insn.semantics.mem_read
    &&& (pl.id_ex.insn.fields.rd == Some(rs1_bits(pl.if_id.raw_insn)) || pl.id_ex.insn.fields.rd
        == Some(rs2_bits(pl.if_id.raw_insn)))
}

/// The instruction retiring from MEM/WB writes register `src`, which is
/// present and not `x0`.
pub open spec fn retiring_writes(pl: Pipeline, src: Option<u32>) -> bool {
    &&& src is Some
    &&& src != Some(0u32)
    &&& pl.mem_wb.insn.semantics.reg_write
    &&& pl.mem_wb.insn.fields.rd == src
}

/// A producer whose destination is `x0` never forwards.
pub proof fn lemma_no_forwarding_from_x0(pl: Pipeline, insn: Instruction)
    ensures
        pl.ex_mem.insn.fields.rd == Some(0u32) ==> !ex_forwards_src1(pl) && !ex_forwards_src2(pl),
        pl.mem_wb.insn.fields.rd == Some(0u32) ==> !mem_forwards_src1(pl) && !mem_forwards_src2(pl)
            && !retiring_writes(pl, insn.fields.rs1) && !retiring_writes(pl, insn.fields.rs2),
{
}

/// Only a load in ID/EX stalls the pipeline, and the bubble that a stall
/// leaves in ID/EX never stalls it again: a load-use hazard costs exactly
/// one cycle.
pub proof fn lemma_stall_only_after_load(pl: Pipeline)
    ensures
        !pl.id_ex.insn.semantics.mem_read ==> !load_use(pl),
        pl.id_ex.insn == nop_spec() ==> !load_use(pl),
{
}

/// EX-to-EX forwarding takes precedence: the two forwarding paths never
/// both apply to one source.
pub proof fn lemma_ex_forwarding_wins(pl: Pipeline)
    ensures
        !(ex_forwards_src1(pl) && mem_forwards_src1(pl)),
        !(ex_forwards_src2(pl) && mem_forwards_src2(pl)),
{
}

/// Indicates ALU src1 should be forwarded from the previous ALU result.
pub fn ex_hazard_src1(pl: &Pipeline) -> (r: bool)
    ensures
        r == ex_forwards_src1(*pl),
{
    pl.ex_mem.insn.semantics.reg_write && pl.ex_mem.insn.fields.rd.is_some() && (pl.ex_mem.insn.fields.rd != Some(0)) && (
    pl.ex_mem.insn.fields.rd == pl.id_ex.insn.fields.rs1)
}

/// Indicates ALU src2 should be forwarded from the previous ALU result.
pub fn ex_hazard_src2(pl: &Pipeline) -> (r: bool)
    ensures
        r == ex_forwards_src2(*pl),
{
    pl.ex_mem.insn.semantics.reg_write && pl.ex_mem.insn.fields.rd.is_some() && (pl.ex_mem.insn.fields.rd != Some(0)) && (
    pl.ex_mem.insn.fields.rd == pl.id_ex.insn.fields.rs2)
}

/// Indicates ALU src1 should be forwarded from data memory or an earlier
/// result.
pub fn mem_hazard_src1(pl: &Pipeline) -> (r: bool)
    ensures
        r == mem_forwards_src1(*pl),
{
    pl.mem_wb.insn.semantics.reg_write && pl.mem_wb.insn.fields.rd.is_some() && (pl.mem_wb.insn.fields.rd != Some(0)) && !(
    pl.ex_mem.insn.semantics.reg_write && pl.ex_mem.insn.fields.rd.is_some() && (pl.ex_mem.insn.fields.rd != Some(0)) && (
    pl.ex_mem.insn.fields.rd == pl.id_ex.insn.fields.rs1)) && (pl.mem_wb.insn.fields.rd
        == pl.id_ex.insn.fields.rs1)
}

/// Indicates ALU src2 should be forwarded from data memory or an earlier
/// result.
pub fn mem_hazard_src2(pl: &Pipeline) -> (r: bool)
    ensures
        r == mem_forwards_src2(*pl),
{
    pl.mem_wb.insn.semantics.reg_write && pl.mem_wb.insn.fields.rd.is_some() && (pl.mem_wb.insn.fields.rd != Some(0)) && !(
    pl.ex_mem.insn.semantics.reg_write && pl.ex_mem.insn.fields.rd.is_some() && (pl.ex_mem.insn.fields.rd != Some(0)) && (
    pl.ex_mem.insn.fields.rd == pl.id_ex.insn.fields.rs2)) && (pl.mem_wb.insn.fields.rd
        == pl.id_ex.insn.fields.rs2)
}

/// Indicates a load-use hazard, which requires a pipeline stall.
pub fn load_hazard(pl: &Pipeline) -> (r: bool)
    ensures
        r == load_use(*pl),
{
    // Before the decode stage, rs1 and rs2 are extracted from the raw word.
    let raw = pl.if_id.raw_insn;
    let if_id_rs1 = Some((raw & RS1_MASK) >> RS1_SHIFT);
    let if_id_rs2 = Some((raw & RS2_MASK) >> RS2_SHIFT);
    assert((raw & 0xf8000) >> 15u32 == (raw >> 15) & 0x1f && (raw & 0x1f00000) >> 20u32 == (raw
        >> 20) & 0x1f) by (bit_vector);
    pl.id_ex.insn.semantics.mem_read && ((pl.id_ex.insn.fields.rd == if_id_rs1) || (
    pl.id_ex.insn.fields.rd == if_id_rs2))
}

/// Indicates the src1 register is being written back and should be
/// forwarded to the decode stage.
pub fn reg_hazard_src1(insn: &Instruction, pl: &Pipeline) -> (r: bool)
    ensures
        r == retiring_writes(*pl, insn.fields.rs1),
{
    insn.fields.rs1.is_some() && insn.fields.rs1 != Some(0) && pl.mem_wb.insn.semantics.reg_write && (pl.mem_wb.insn.fields.rd
        == insn.fields.rs1)
}

/// Indicates the src2 register is being written back and should be
/// forwarded to the decode stage.
pub fn reg_hazard_src2(insn: &Instruction, pl: &Pipeline) -> (r: bool)
    ensures
        r == retiring_writes(*pl, insn.fields.rs2),
{
    insn.fields.rs2.is_some() && insn.fields.rs2 != Some(0) && pl.mem_wb.insn.semantics.reg_write && (pl.mem_wb.insn.fields.rd
        == insn.fields.rs2)
}

} // verus!
