//! 32-bit registers and the RV32I register file.
use vstd::prelude::*;

verus! {

/// A write-protectable 32-bit register.
#[derive(Clone, Copy, Debug)]
pub struct Register {
    /// The current register value.
    value: u32,
    /// If false, writing to the register has no effect.
    is_writable: bool,
}

impl Register {
    pub closed spec fn value(self) -> u32 {
        self.value
    }

    pub closed spec fn writable(self) -> bool {
        self.is_writable
    }

    /// Constructs a new `Register`.
    pub fn new(value: u32, is_writable: bool) -> (r: Register)
        ensures
            r.value() == value,
            r.writable() == is_writable,
    {
        Register { value, is_writable }
    }

    /// Reads the register's value.
    pub fn read(&self) -> (r: u32)
        ensures
            r == self.value(),
    {
        self.value
    }

    /// Writes `value` to the register if it is writable, otherwise has no effect.
    pub fn write(&mut self, value: u32)
        ensures
            final(self).writable() == old(self).writable(),
            final(self).value() == if old(self).writable() { value } else { old(self).value() },
    {
        if self.is_writable {
            self.value = value;
        }
    }
}

/// `new` is `old` after `v` was written to register `i`: only that register
/// may change, and only if it is writable.
pub open spec fn gpr_written(old: Seq<Register>, new: Seq<Register>, i: int, v: u32) -> bool {
    &&& new.len() == old.len()
    &&& forall|j: int| 0 <= j < old.len() && j != i ==> new[j] == old[j]
    &&& new[i].writable() == old[i].writable()
    &&& new[i].value() == if old[i].writable() {
        v
    } else {
        old[i].value()
    }
}

/// A complete RV32I register file: 32 general-purpose registers and a
/// program counter.
#[derive(Debug)]
pub struct RegisterFile {
    pub pc: Register,
    pub gpr: Vec<Register>,
}

impl RegisterFile {
    /// The register file holds 32 registers; `x0` reads zero and ignores
    /// writes, every other register and the program counter are writable.
    pub open spec fn wf(&self) -> bool {
        &&& self.gpr@.len() == 32
        &&& self.gpr@[0].value() == 0
        &&& !self.gpr@[0].writable()
        &&& forall|i: int| 1 <= i < 32 ==> (#[trigger] self.gpr@[i]).writable()
        &&& self.pc.writable()
    }

    /// The value of general-purpose register `i`.
    pub open spec fn x(&self, i: int) -> u32 {
        self.gpr@[i].value()
    }

    /// Constructs a register file with all registers zero and the program
    /// counter at `pc`.
    pub fn new(pc: u32) -> (r: RegisterFile)
        ensures
            r.wf(),
            r.pc.value() == pc,
            forall|i: int| 0 <= i < 32 ==> #[trigger] r.x(i) == 0,
            forall|i: int| 1 <= i < 32 ==> (#[trigger] r.gpr@[i]).writable(),
    {
        let mut gpr: Vec<Register> = Vec::new();
        gpr.push(Register::new(0, false));
        let mut i: usize = 1;
        while i < 32
            invariant
                1 <= i <= 32,
                gpr@.len() == i,
                gpr@[0].value() == 0,
                !gpr@[0].writable(),
                forall|j: int| 1 <= j < i ==> (#[trigger] gpr@[j]).value() == 0 && gpr@[j].writable(),
            decreases 32 - i,
        {
            gpr.push(Register::new(0, true));
            i = i + 1;
        }
        RegisterFile { pc: Register::new(pc, true), gpr }
    }

    /// Reads general-purpose register `i`.
    pub fn read_gpr(&self, i: usize) -> (r: u32)
        requires
            self.wf(),
            i < 32,
        ensures
            r == self.x(i as int),
    {
        self.gpr[i].read()
    }

    /// `other` is `self` after `v` was written to general-purpose register
    /// `i`: only that register may change, and only if it is writable.
    pub open spec fn written(&self, other: &RegisterFile, i: int, v: u32) -> bool {
        &&& other.pc == self.pc
        &&& gpr_written(self.gpr@, other.gpr@, i, v)
    }

    /// In a well-formed register file `x0` reads zero, and writing it leaves
    /// it zero.
    pub proof fn lemma_x0_stays_zero(&self, other: &RegisterFile, v: u32)
        requires
            self.wf(),
            self.written(other, 0, v),
        ensures
            self.x(0) == 0,
            other.x(0) == 0,
            !other.gpr@[0].writable(),
    {
    }

    /// Writes general-purpose register `i`; a write to `x0` has no effect.
    pub fn write_gpr(&mut self, i: usize, value: u32)
        requires
            old(self).wf(),
            i < 32,
        ensures
            final(self).wf(),
            old(self).written(final(self), i as int, value),
    {
        self.gpr[i].write(value);
    }
}

} // verus!
