//! A one-instruction machine: a current operation word and two 16-bit
//! registers, on which only ADD between those two registers is carried out.
use vstd::prelude::*;
use crate::decode::{instruction, instruction_of, Instruction};

verus! {

/// The current operation and two registers.
pub struct CPU1 {
    pub current_operation: u16,
    pub registers: [u16; 2],
}

/// `regs` after adding register `y` into register `x` modulo 2^16.
pub open spec fn added_wide(regs: Seq<u16>, x: u8, y: u8) -> Seq<u16> {
    regs.update(x as int, ((regs[x as int] as nat + regs[y as int] as nat) % 0x10000) as u16)
}

impl CPU1 {
    /// The current operation word.
    pub fn read_opcode(&self) -> (w: u16)
        ensures
            w == self.current_operation,
    {
        self.current_operation
    }

    /// Adds register `y` into register `x`, modulo 2^16.
    pub fn add_xy(&mut self, x: u8, y: u8)
        requires
            x < 2,
            y < 2,
        ensures
            final(self).current_operation == old(self).current_operation,
            final(self).registers@ == added_wide(old(self).registers@, x, y),
    {
        let a = self.registers[x as usize];
        let b = self.registers[y as usize];
        let sum: u32 = a as u32 + b as u32;
        self.registers[x as usize] = (sum % 0x10000) as u16;
        assert(self.registers@ =~= added_wide(old(self).registers@, x, y));
    }

    /// Carries out the current operation when it is an ADD between the two
    /// registers, and says whether it did; any other word changes nothing.
    pub fn run(&mut self) -> (done: bool)
        ensures
            final(self).current_operation == old(self).current_operation,
            match instruction_of(old(self).current_operation) {
                Instruction::Add { x, y } if x < 2 && y < 2 => {
                    &&& done
                    &&& final(self).registers@ == added_wide(old(self).registers@, x, y)
                },
                _ => !done && final(self).registers@ == old(self).registers@,
            },
    {
        let opcode = self.read_opcode();
        match instruction(opcode) {
            Instruction::Add { x, y } => {
                if x < 2 && y < 2 {
                    self.add_xy(x, y);
                    true
                } else {
                    false
                }
            },
            _ => false,
        }
    }
}

} // verus!
