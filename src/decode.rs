//! Splitting a 16-bit instruction word into its fields, and naming the
//! instruction that a word encodes.
use vstd::prelude::*;

verus! {

/// The fields of an instruction word, by fixed bit position.
#[derive(Clone, Copy, Debug, PartialEq, Eq, Structural)]
pub struct Fields {
    /// Bits 12 to 15: the instruction family.
    pub class: u8,
    /// Bits 8 to 11: the first register operand.
    pub x: u8,
    /// Bits 4 to 7: the second register operand.
    pub y: u8,
    /// Bits 0 to 3: the sub-opcode.
    pub sub: u8,
    /// Bits 0 to 11: an address operand.
    pub addr12: u16,
    /// Bits 0 to 7: an immediate operand.
    pub imm8: u8,
}

/// The fields of `w`, stated arithmetically.
pub open spec fn fields_of(w: u16) -> Fields {
    Fields {
        class: (w / 0x1000) as u8,
        x: ((w / 0x100) % 0x10) as u8,
        y: ((w / 0x10) % 0x10) as u8,
        sub: (w % 0x10) as u8,
        addr12: (w % 0x1000) as u16,
        imm8: (w % 0x100) as u8,
    }
}

/// Splits an instruction word into its fields. Every word decodes.
pub fn decode(opcode: u16) -> (f: Fields)
    ensures
        f == fields_of(opcode),
{
    let class = ((opcode & 0xF000) >> 12) as u8;
    let x = ((opcode & 0x0F00) >> 8) as u8;
    let y = ((opcode & 0x00F0) >> 4) as u8;
    let sub = (opcode & 0x000F) as u8;
    let addr12 = opcode & 0x0FFF;
    let imm8 = (opcode & 0x00FF) as u8;
    assert(((opcode & 0xF000) >> 12) as u8 == (opcode / 0x1000) as u8) by (bit_vector);
    assert(((opcode & 0x0F00) >> 8) as u8 == ((opcode / 0x100) % 0x10) as u8) by (bit_vector);
    assert(((opcode & 0x00F0) >> 4) as u8 == ((opcode / 0x10) % 0x10) as u8) by (bit_vector);
    assert((opcode & 0x000F) as u8 == (opcode % 0x10) as u8) by (bit_vector);
    assert(opcode & 0x0FFF == (opcode % 0x1000) as u16) by (bit_vector);
    assert((opcode & 0x00FF) as u8 == (opcode % 0x100) as u8) by (bit_vector);
    Fields { class, x, y, sub, addr12, imm8 }
}

/// What an instruction word asks the machine to do.
#[derive(Clone, Copy, Debug, PartialEq, Eq, Structural)]
pub enum Instruction {
    /// `0x0000`: stop.
    Halt,
    /// `0x00EE`: pop a return address and jump to it.
    Return,
    /// `0x2nnn`: push the return address and jump to `nnn`.
    Call { addr: u16 },
    /// `0x8xy4`: add register `y` into register `x`, carry into the flag register.
    Add { x: u8, y: u8 },
    /// Any other word.
    Unknown,
}

/// The instruction that `w` encodes, read off its fields.
pub open spec fn instruction_of(w: u16) -> Instruction {
    let f = fields_of(w);
    if f.class == 0 && f.x == 0 && f.y == 0 && f.sub == 0 {
        Instruction::Halt
    } else if f.class == 0 && f.x == 0 && f.y == 0xE && f.sub == 0xE {
        Instruction::Return
    } else if f.class == 2 {
        Instruction::Call { addr: f.addr12 }
    } else if f.class == 8 && f.sub == 4 {
        Instruction::Add { x: f.x, y: f.y }
    } else {
        Instruction::Unknown
    }
}

/// Decodes `opcode` and dispatches on its (class, x, y, sub) fields.
pub fn instruction(opcode: u16) -> (i: Instruction)
    ensures
        i == instruction_of(opcode),
{
    let f = decode(opcode);
    match (f.class, f.x, f.y, f.sub) {
        (0, 0, 0, 0) => Instruction::Halt,
        (0, 0, 0xE, 0xE) => Instruction::Return,
        (0x2, _, _, _) => Instruction::Call { addr: f.addr12 },
        (0x8, _, _, 0x4) => Instruction::Add { x: f.x, y: f.y },
        _ => Instruction::Unknown,
    }
}

} // verus!
