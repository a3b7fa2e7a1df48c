//! The register file's arithmetic.
use vstd::prelude::*;
use crate::model::{added, carries, FLAG};

verus! {

/// Adds register `y` into register `x` modulo 256, then sets the flag
/// register to 1 if the sum overflowed 8 bits and to 0 otherwise.
pub fn add_with_carry(registers: &mut [u8; 16], x: u8, y: u8)
    requires
        x < 16,
        y < 16,
    ensures
        final(registers)@ == added(old(registers)@, x, y),
{
    let a = registers[x as usize];
    let b = registers[y as usize];
    let sum: u16 = a as u16 + b as u16;
    let overflow = sum > 0xFF;
    registers[x as usize] = (sum % 0x100) as u8;
    registers[FLAG] = if overflow { 1 } else { 0 };
    assert(overflow == carries(a, b));
    assert(registers@ =~= added(old(registers)@, x, y));
}

} // verus!
