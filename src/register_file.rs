use vstd::prelude::*;
use crate::register::Register;

verus! {

/// The 32 general-purpose registers (D0..D15, then A0..A15) and the value
/// most recently written to any of them, from which the flags are computed.
pub struct RegisterFile {
    pub registers: [u32; 32],
    pub last_written: u32,
}

impl RegisterFile {
    /// All registers zero, nothing written yet.
    pub fn new() -> (r: RegisterFile)
        ensures
            forall|i: int| 0 <= i < 32 ==> r.registers@[i] == 0,
            r.last_written == 0,
    {
        RegisterFile { registers: [0u32; 32], last_written: 0 }
    }

    /// The content of register `reg`.
    pub open spec fn value_of(&self, reg: Register) -> u32 {
        self.registers@[reg.ordinal() as int]
    }

    /// Stores `value` into `dest` and remembers it as the last written value.
    pub fn write_value(&mut self, dest: &Register, value: u32)
        ensures
            final(self).registers@ == old(self).registers@.update(dest.ordinal() as int, value),
            final(self).last_written == value,
    {
        let index = dest.index() as usize;
        self.registers[index] = value;
        self.last_written = value;
    }

    /// The content of register `src`.
    pub fn read_value(&self, src: &Register) -> (r: u32)
        ensures
            r == self.value_of(*src),
    {
        let index = src.index() as usize;
        self.registers[index]
    }

    /// The value most recently stored by `write_value`.
    pub fn last_written_value(&self) -> (r: u32)
        ensures
            r == self.last_written,
    {
        self.last_written
    }
}

} // verus!
