//! RV32I instructions and their decoded form.
use vstd::prelude::*;

use crate::alu::{AluOp, AluSrc};
use crate::consts;

pub mod decoder;

use self::decoder::{decoded_fields, semantics_of};

verus! {

/// Why an instruction word could not be decoded.
#[derive(Clone, Copy, Debug, PartialEq, Eq, Structural)]
pub enum DecodeError {
    /// The low seven bits name no known opcode; carries those bits.
    UnknownOpcode(u32),
    /// The opcode is known but `funct3` / bit 30 select no mnemonic;
    /// carries the whole word.
    UnknownFunction(u32),
    /// The mnemonic has no control semantics under the opcode.
    UnsupportedSemantics(Function),
}

/// A single decoded machine instruction.
#[derive(Clone, Copy, Debug)]
pub struct Instruction {
    /// The raw instruction word
    pub value: u32,
    /// Category of the instruction, e.g., load, branch, or op
    pub opcode: Opcode,
    /// Format associated with the opcode, e.g., R-type or I-type
    pub format: Format,
    /// The subfields' bits
    pub fields: Fields,
    /// Instruction's mnemonic, e.g., JAL, XOR, or SRA
    pub function: Function,
    /// Control unit semantics (dictates control lines to be {de}asserted)
    pub semantics: Semantics,
}

/// RV32I fields; a field is absent when the format has none.
#[derive(Clone, Copy, Debug, Default, PartialEq, Eq)]
pub struct Fields {
    pub rs1: Option<u32>,
    pub rs2: Option<u32>,
    pub rd: Option<u32>,
    pub funct3: Option<u32>,
    pub funct7: Option<u32>,
    pub imm: Option<u32>,
    pub opcode: Option<u32>,
}

/// RV32I opcodes, plus the simulator's halt.
#[derive(Clone, Copy, Debug, PartialEq, Eq, Structural)]
pub enum Opcode {
    Lui,
    AuiPc,
    Jal,
    Jalr,
    Branch,
    Load,
    Store,
    Op,
    OpImm,
    Halt,
}

/// RV32I instruction formats.
#[derive(Clone, Copy, Debug, PartialEq, Eq, Structural)]
pub enum Format {
    R,
    I,
    S,
    B,
    U,
    J,
}

/// RV32I mnemonics.
#[derive(Clone, Copy, Debug, PartialEq, Eq, Structural)]
pub enum Function {
    /// Load upper immediate
    Lui,
    /// Add upper immediate to PC
    AuiPc,
    /// Jump and link
    Jal,
    /// Jump and link register
    Jalr,
    /// Branch if equal
    Beq,
    /// Branch if not equal
    Bne,
    /// Branch if less than
    Blt,
    /// Branch if greater or equal
    Bge,
    /// Branch if less than (unsigned)
    Bltu,
    /// Branch if greater or equal (unsigned)
    Bgeu,
    /// Load byte
    Lb,
    /// Load halfword
    Lh,
    /// Load word
    Lw,
    /// Load byte (unsigned)
    Lbu,
    /// Load halfword (unsigned)
    Lhu,
    /// Store byte
    Sb,
    /// Store halfword
    Sh,
    /// Store word
    Sw,
    /// Add immediate
    Addi,
    /// Set less than immediate
    Slti,
    /// Set less than immediate (unsigned)
    Sltiu,
    /// Exclusive or immediate
    Xori,
    /// Logical or immediate
    Ori,
    /// Logical and immediate
    Andi,
    /// Shift left logical immediate
    Slli,
    /// Shift right logical immediate
    Srli,
    /// Shift right arithmetic immediate
    Srai,
    /// Add
    Add,
    /// Subtract
    Sub,
    /// Shift left logical
    Sll,
    /// Set less than
    Slt,
    /// Set less than unsigned
    Sltu,
    /// Exclusive or
    Xor,
    /// Shift right logical
    Srl,
    /// Shift right arithmetic
    Sra,
    /// Logical or
    Or,
    /// Logical and
    And,
    /// Halt simulator
    Halt,
}

/// Control unit semantics.
#[derive(Clone, Copy, Debug, PartialEq, Eq, Structural)]
pub struct Semantics {
    pub branch: bool,
    pub mem_read: bool,
    pub mem_to_reg: bool,
    pub alu_op: AluOp,
    pub mem_write: bool,
    pub alu_src: AluSrc,
    pub reg_write: bool,
    pub mem_size: usize,
}

/// The opcode category named by the low seven bits of `w`, if any.
pub open spec fn opcode_of(w: u32) -> Option<Opcode> {
    let bits = w & 0x7f;
    if bits == 0x37 {
        Some(Opcode::Lui)
    } else if bits == 0x17 {
        Some(Opcode::AuiPc)
    } else if bits == 0x6f {
        Some(Opcode::Jal)
    } else if bits == 0x67 {
        Some(Opcode::Jalr)
    } else if bits == 0x63 {
        Some(Opcode::Branch)
    } else if bits == 0x03 {
        Some(Opcode::Load)
    } else if bits == 0x23 {
        Some(Opcode::Store)
    } else if bits == 0x33 {
        Some(Opcode::Op)
    } else if bits == 0x13 {
        Some(Opcode::OpImm)
    } else if bits == 0x3f {
        Some(Opcode::Halt)
    } else {
        None
    }
}

/// The format that each opcode is encoded in.
pub open spec fn format_of(op: Opcode) -> Format {
    match op {
        Opcode::Lui | Opcode::AuiPc | Opcode::Halt => Format::U,
        Opcode::Jal => Format::J,
        Opcode::Jalr | Opcode::Load | Opcode::OpImm => Format::I,
        Opcode::Branch => Format::B,
        Opcode::Store => Format::S,
        Opcode::Op => Format::R,
    }
}

/// Bits `[14:12]` of a word.
pub open spec fn funct3_bits(w: u32) -> u32 {
    (w >> 12) & 0x7
}

/// Bit 30 of a word.
pub open spec fn bit30(w: u32) -> u32 {
    (w >> 30) & 1
}

/// The mnemonic of word `w` under opcode `op`, if `funct3` and bit 30
/// select one.
pub open spec fn function_of(op: Opcode, w: u32) -> Option<Function> {
    let f3 = funct3_bits(w);
    let b30 = bit30(w);
    match op {
        Opcode::Lui => Some(Function::Lui),
        Opcode::AuiPc => Some(Function::AuiPc),
        Opcode::Jal => Some(Function::Jal),
        Opcode::Jalr => Some(Function::Jalr),
        Opcode::Halt => Some(Function::Halt),
        Opcode::Branch => if f3 == 0 {
            Some(Function::Beq)
        } else if f3 == 1 {
            Some(Function::Bne)
        } else if f3 == 4 {
            Some(Function::Blt)
        } else if f3 == 5 {
            Some(Function::Bge)
        } else if f3 == 6 {
            Some(Function::Bltu)
        } else if f3 == 7 {
            Some(Function::Bgeu)
        } else {
            None
        },
        Opcode::Load => if f3 == 0 {
            Some(Function::Lb)
        } else if f3 == 1 {
            Some(Function::Lh)
        } else if f3 == 2 {
            Some(Function::Lw)
        } else if f3 == 4 {
            Some(Function::Lbu)
        } else if f3 == 5 {
            Some(Function::Lhu)
        } else {
            None
        },
        Opcode::Store => if f3 == 0 {
            Some(Function::Sb)
        } else if f3 == 1 {
            Some(Function::Sh)
        } else if f3 == 2 {
            Some(Function::Sw)
        } else {
            None
        },
        Opcode::OpImm => if f3 == 0 {
            Some(Function::Addi)
        } else if f3 == 1 {
            Some(Function::Slli)
        } else if f3 == 2 {
            Some(Function::Slti)
        } else if f3 == 3 {
            Some(Function::Sltiu)
        } else if f3 == 4 {
            Some(Function::Xori)
        } else if f3 == 5 {
            Some(if b30 == 0 { Function::Srli } else { Function::Srai })
        } else if f3 == 6 {
            Some(Function::Ori)
        } else {
            Some(Function::Andi)
        },
        Opcode::Op => if f3 == 0 {
            Some(if b30 == 0 { Function::Add } else { Function::Sub })
        } else if f3 == 1 {
            Some(Function::Sll)
        } else if f3 == 2 {
            Some(Function::Slt)
        } else if f3 == 3 {
            Some(Function::Sltu)
        } else if f3 == 4 {
            Some(Function::Xor)
        } else if f3 == 5 {
            Some(if b30 == 0 { Function::Srl } else { Function::Sra })
        } else if f3 == 6 {
            Some(Function::Or)
        } else {
            Some(Function::And)
        },
    }
}

/// Register fields of `insn` that are present name one of the 32 registers.
pub open spec fn regs_valid(insn: Instruction) -> bool {
    &&& (insn.fields.rs1 matches Some(r) ==> r < 32)
    &&& (insn.fields.rs2 matches Some(r) ==> r < 32)
    &&& (insn.fields.rd matches Some(r) ==> r < 32)
}

/// What decoding word `w` yields: the error, or the opcode, format, fields,
/// mnemonic and control semantics of the instruction.
pub open spec fn decode_error(w: u32) -> Option<DecodeError> {
    match opcode_of(w) {
        None => Some(DecodeError::UnknownOpcode(w & 0x7f)),
        Some(op) => match function_of(op, w) {
            None => Some(DecodeError::UnknownFunction(w)),
            Some(f) => match semantics_of(op, f) {
                None => Some(DecodeError::UnsupportedSemantics(f)),
                Some(_) => None,
            },
        },
    }
}

/// The instruction that word `w` decodes to, where it decodes.
pub open spec fn decoded(w: u32) -> Instruction {
    let op = match opcode_of(w) {
        Some(op) => op,
        None => Opcode::Halt,
    };
    let f = match function_of(op, w) {
        Some(f) => f,
        None => Function::Halt,
    };
    Instruction {
        value: w,
        opcode: op,
        format: format_of(op),
        fields: decoded_fields(format_of(op), w),
        function: f,
        semantics: match semantics_of(op, f) {
            Some(s) => s,
            None => nop_spec().semantics,
        },
    }
}

/// The decoding of a word is unique.
pub proof fn lemma_decodes_unique(insn: Instruction, w: u32)
    requires
        insn.decodes(w),
    ensures
        insn == decoded(w),
{
}

impl Instruction {
    /// The raw instruction word.
    pub open spec fn word(self) -> u32 {
        self.value
    }

    /// `self` is the decoding of word `w`.
    pub open spec fn decodes(self, w: u32) -> bool {
        &&& opcode_of(w) == Some(self.opcode)
        &&& self.word() == w
        &&& self.format == format_of(self.opcode)
        &&& self.fields == decoded_fields(self.format, w)
        &&& function_of(self.opcode, w) == Some(self.function)
        &&& semantics_of(self.opcode, self.function) == Some(self.semantics)
    }

    /// Decodes the instruction word `value`.
    pub fn new(value: u32) -> (r: Result<Instruction, DecodeError>)
        ensures
            match r {
                Ok(insn) => decode_error(value).is_none() && insn.decodes(value) && regs_valid(insn),
                Err(e) => decode_error(value) == Some(e),
            },
    {
        let opcode = int_to_opcode(value)?;
        let format = opcode_to_format(opcode);
        let mut insn = Instruction {
            value,
            opcode,
            format,
            fields: Fields::empty(),
            function: Function::Addi,
            semantics: nop_semantics(),
        };
        decoder::decode(&mut insn)?;
        proof {
            decoder::lemma_register_fields(value);
        }
        Ok(insn)
    }

    /// Returns the raw instruction word.
    pub fn as_u32(&self) -> (r: u32)
        ensures
            r == self.word(),
    {
        self.value
    }

    /// The canonical NOP, `addi x0, x0, 0`.
    pub fn nop() -> (r: Instruction)
        ensures
            r.decodes(consts::NOP),
            r == nop_spec(),
            regs_valid(r),
    {
        proof {
            decoder::lemma_nop_fields();
        }
        Instruction {
            value: consts::NOP,
            opcode: Opcode::OpImm,
            format: Format::I,
            fields: Fields {
                rs1: Some(0),
                rs2: None,
                rd: Some(0),
                funct3: Some(0),
                funct7: None,
                imm: Some(0),
                opcode: Some(0x13),
            },
            function: Function::Addi,
            semantics: nop_semantics(),
        }
    }
}

/// The canonical NOP as a value.
pub open spec fn nop_spec() -> Instruction {
    Instruction {
        value: 0x13,
        opcode: Opcode::OpImm,
        format: Format::I,
        fields: Fields {
            rs1: Some(0),
            rs2: None,
            rd: Some(0),
            funct3: Some(0),
            funct7: None,
            imm: Some(0),
            opcode: Some(0x13),
        },
        function: Function::Addi,
        semantics: Semantics {
            branch: false,
            mem_read: false,
            mem_to_reg: false,
            alu_op: AluOp::Add,
            mem_write: false,
            alu_src: AluSrc::Imm,
            reg_write: true,
            mem_size: 0,
        },
    }
}

fn nop_semantics() -> (r: Semantics)
    ensures
        r == nop_spec().semantics,
{
    Semantics {
        branch: false,
        mem_read: false,
        mem_to_reg: false,
        alu_op: AluOp::Add,
        mem_write: false,
        alu_src: AluSrc::Imm,
        reg_write: true,
        mem_size: 0,
    }
}

impl Default for Instruction {
    /// Constructs the canonical NOP, `addi x0, x0, 0`.
    fn default() -> (r: Instruction)
        ensures
            r == nop_spec(),
    {
        Instruction::nop()
    }
}

impl Fields {
    /// Fields with every part absent.
    pub fn empty() -> (r: Fields)
        ensures
            r.rs1 is None && r.rs2 is None && r.rd is None,
            r.funct3 is None && r.funct7 is None && r.imm is None && r.opcode is None,
    {
        Fields { rs1: None, rs2: None, rd: None, funct3: None, funct7: None, imm: None, opcode: None }
    }
}

/// Extracts the opcode from a raw instruction word.
pub fn int_to_opcode(insn: u32) -> (r: Result<Opcode, DecodeError>)
    ensures
        match r {
            Ok(op) => opcode_of(insn) == Some(op),
            Err(e) => opcode_of(insn) is None && e == DecodeError::UnknownOpcode(insn & 0x7f),
        },
{
    let opcode = insn & consts::OPCODE_MASK;
    match opcode {
        0b01_101_11 => Ok(Opcode::Lui),
        0b00_101_11 => Ok(Opcode::AuiPc),
        0b11_011_11 => Ok(Opcode::Jal),
        0b11_001_11 => Ok(Opcode::Jalr),
        0b11_000_11 => Ok(Opcode::Branch),
        0b00_000_11 => Ok(Opcode::Load),
        0b01_000_11 => Ok(Opcode::Store),
        0b01_100_11 => Ok(Opcode::Op),
        0b00_100_11 => Ok(Opcode::OpImm),
        0b01_111_11 => Ok(Opcode::Halt),
        _ => Err(DecodeError::UnknownOpcode(opcode)),
    }
}

/// Maps an opcode to its instruction format.
pub fn opcode_to_format(opcode: Opcode) -> (r: Format)
    ensures
        r == format_of(opcode),
{
    match opcode {
        Opcode::Lui => Format::U,
        Opcode::AuiPc => Format::U,
        Opcode::Jal => Format::J,
        Opcode::Jalr => Format::I,
        Opcode::Branch => Format::B,
        Opcode::Load => Format::I,
        Opcode::Store => Format::S,
        Opcode::Op => Format::R,
        Opcode::OpImm => Format::I,
        // Halt has no format of its own; it is parsed minimally.
        Opcode::Halt => Format::U,
    }
}

} // verus!
