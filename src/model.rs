//! The abstract machine: what one step, a handler, or a bounded run does to
//! registers, memory, program counter and call stack.
use vstd::prelude::*;
use crate::decode::{Instruction, instruction_of};

verus! {

/// The register that doubles as the carry flag.
pub const FLAG: usize = 0xF;

/// Number of general-purpose registers.
pub const REGISTER_COUNT: usize = 16;

/// One past the largest program counter; memory is kept below it so that
/// every return address fits in 16 bits.
pub const ADDRESS_LIMIT: usize = 0x10000;

/// A condition that ends a run.
#[derive(Clone, Copy, Debug, PartialEq, Eq, Structural)]
pub enum Fault {
    /// The word fetched at `pc` encodes no known instruction.
    UnknownOpcode { opcode: u16, pc: usize },
    /// CALL with the call stack full.
    StackOverflow,
    /// RETURN with the call stack empty.
    StackUnderflow,
    /// The program counter leaves no room for a two-byte fetch.
    OutOfBoundsFetch { pc: usize },
}

/// The executor's states.
#[derive(Clone, Copy, Debug, PartialEq, Eq, Structural)]
pub enum State {
    Running,
    Halted,
}

/// The whole machine as values.
pub struct Model {
    pub registers: Seq<u8>,
    pub memory: Seq<u8>,
    pub pc: nat,
    /// The live return addresses, oldest first.
    pub stack: Seq<u16>,
    pub capacity: nat,
}

impl Model {
    pub open spec fn wf(self) -> bool {
        &&& self.registers.len() == REGISTER_COUNT
        &&& self.memory.len() < ADDRESS_LIMIT
        &&& self.pc < ADDRESS_LIMIT
        &&& self.stack.len() <= self.capacity
    }

    /// Whether two bytes can be fetched at the program counter.
    pub open spec fn can_fetch(self) -> bool {
        self.pc + 1 < self.memory.len()
    }

    /// The word at the program counter, most significant byte first.
    pub open spec fn word(self) -> u16 {
        word_at(self.memory, self.pc)
    }
}

/// The big-endian word at `at`.
pub open spec fn word_at(memory: Seq<u8>, at: nat) -> u16 {
    (memory[at as int] as nat * 0x100 + memory[at + 1int] as nat) as u16
}

/// Whether adding `a` and `b` overflows 8 bits.
pub open spec fn carries(a: u8, b: u8) -> bool {
    a as nat + b as nat > 0xFF
}

/// ADD-with-carry on a register file: `x` gets the sum modulo 256, then the
/// flag register gets 1 on overflow and 0 otherwise.
pub open spec fn added(regs: Seq<u8>, x: u8, y: u8) -> Seq<u8> {
    let a = regs[x as int];
    let b = regs[y as int];
    regs.update(x as int, ((a as nat + b as nat) % 0x100) as u8).update(
        FLAG as int,
        if carries(a, b) { 1u8 } else { 0u8 },
    )
}

/// ADD on a whole machine.
pub open spec fn add_model(m: Model, x: u8, y: u8) -> Model {
    Model { registers: added(m.registers, x, y), ..m }
}

/// CALL: push the current program counter and jump to `addr`, or fault with
/// the machine unchanged when the stack is full.
pub open spec fn call_model(m: Model, addr: u16) -> (Result<(), Fault>, Model) {
    if m.stack.len() >= m.capacity {
        (Err(Fault::StackOverflow), m)
    } else {
        (Ok(()), Model { stack: m.stack.push(m.pc as u16), pc: addr as nat, ..m })
    }
}

/// RETURN: pop the newest return address and jump to it, or fault with the
/// machine unchanged when the stack is empty.
pub open spec fn ret_model(m: Model) -> (Result<(), Fault>, Model) {
    if m.stack.len() == 0 {
        (Err(Fault::StackUnderflow), m)
    } else {
        (Ok(()), Model { stack: m.stack.drop_last(), pc: m.stack.last() as nat, ..m })
    }
}

/// The machine with the program counter moved past the current word.
pub open spec fn advanced(m: Model) -> Model {
    Model { pc: m.pc + 2, ..m }
}

/// One executor step. Once a word is fetched the program counter moves past
/// it whatever follows; a fault changes nothing else, and a fault on the
/// fetch itself changes nothing at all.
pub open spec fn step_model(m: Model) -> (Result<State, Fault>, Model) {
    if !m.can_fetch() {
        (Err(Fault::OutOfBoundsFetch { pc: m.pc as usize }), m)
    } else {
        let next = advanced(m);
        match instruction_of(m.word()) {
            Instruction::Halt => (Ok(State::Halted), next),
            Instruction::Add { x, y } => (Ok(State::Running), add_model(next, x, y)),
            Instruction::Call { addr } => {
                let (r, after) = call_model(next, addr);
                match r {
                    Ok(_) => (Ok(State::Running), after),
                    Err(e) => (Err(e), after),
                }
            },
            Instruction::Return => {
                let (r, after) = ret_model(next);
                match r {
                    Ok(_) => (Ok(State::Running), after),
                    Err(e) => (Err(e), after),
                }
            },
            Instruction::Unknown => (
                Err(Fault::UnknownOpcode { opcode: m.word(), pc: m.pc as usize }),
                next,
            ),
        }
    }
}

/// At most `fuel` steps, stopping at the first halt or fault.
pub open spec fn run_model(m: Model, fuel: nat) -> (Result<State, Fault>, Model)
    decreases fuel,
{
    if fuel == 0 {
        (Ok(State::Running), m)
    } else {
        let (r, next) = step_model(m);
        match r {
            Ok(State::Running) => run_model(next, (fuel - 1) as nat),
            _ => (r, next),
        }
    }
}

/// One step of the machine without a call stack, on which CALL and RETURN
/// are unknown instructions. As in `step_model`, a fetched word always moves
/// the program counter past it.
pub open spec fn linear_step_model(m: Model) -> (Result<State, Fault>, Model) {
    if !m.can_fetch() {
        (Err(Fault::OutOfBoundsFetch { pc: m.pc as usize }), m)
    } else {
        match instruction_of(m.word()) {
            Instruction::Halt => (Ok(State::Halted), advanced(m)),
            Instruction::Add { x, y } => (Ok(State::Running), add_model(advanced(m), x, y)),
            _ => (
                Err(Fault::UnknownOpcode { opcode: m.word(), pc: m.pc as usize }),
                advanced(m),
            ),
        }
    }
}

/// At most `fuel` steps of the machine without a call stack.
pub open spec fn linear_run_model(m: Model, fuel: nat) -> (Result<State, Fault>, Model)
    decreases fuel,
{
    if fuel == 0 {
        (Ok(State::Running), m)
    } else {
        let (r, next) = linear_step_model(m);
        match r {
            Ok(State::Running) => linear_run_model(next, (fuel - 1) as nat),
            _ => (r, next),
        }
    }
}

} // verus!
