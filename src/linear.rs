//! The machine without a call stack: straight-line programs of ADD and HALT
//! over 4096 bytes of memory.
use vstd::prelude::*;
use crate::decode::{instruction, Instruction};
use crate::memory::{fetch, load, loaded};
use crate::model::{add_model, linear_run_model, linear_step_model, Fault, Model, State, ADDRESS_LIMIT};
use crate::registers::add_with_carry;

verus! {

/// Bytes of memory of the machine without a call stack.
pub const MEMORY_SIZE: usize = 4096;

/// Registers, memory and program counter; no call stack, so CALL and
/// RETURN are unknown instructions here.
pub struct CPU2 {
    registers: [u8; 16],
    position_in_memory: usize,
    memory: Vec<u8>,
}

impl View for CPU2 {
    type V = Model;

    closed spec fn view(&self) -> Model {
        Model {
            registers: self.registers@,
            memory: self.memory@,
            pc: self.position_in_memory as nat,
            stack: Seq::empty(),
            capacity: 0,
        }
    }
}

impl CPU2 {
    /// The machine's internal invariant: memory of its fixed size and a
    /// program counter within the 16-bit address space.
    pub closed spec fn wf(&self) -> bool {
        &&& self.memory@.len() == MEMORY_SIZE
        &&& self.position_in_memory < ADDRESS_LIMIT
    }

    /// What the invariant gives of the view: sixteen registers, 4096 bytes
    /// of memory, a program counter within the 16-bit address space and an
    /// empty stack of no capacity.
    pub proof fn lemma_view_wf(&self)
        requires
            self.wf(),
        ensures
            self@.wf(),
            self@.memory.len() == MEMORY_SIZE,
            self@.stack.len() == 0,
            self@.capacity == 0,
    {
    }

    /// A zero-filled machine, its program counter at 0.
    pub fn new() -> (m: CPU2)
        ensures
            m.wf(),
            m@ == (Model {
                registers: Seq::new(16, |i: int| 0u8),
                memory: Seq::new(MEMORY_SIZE as nat, |i: int| 0u8),
                pc: 0,
                stack: Seq::empty(),
                capacity: 0,
            }),
    {
        let m = CPU2 { registers: [0u8; 16], position_in_memory: 0, memory: vec![0u8; MEMORY_SIZE] };
        assert(m@.registers =~= Seq::new(16, |i: int| 0u8));
        assert(m@.memory =~= Seq::new(MEMORY_SIZE as nat, |i: int| 0u8));
        m
    }

    /// The word at the program counter, most significant byte first, or
    /// `OutOfBoundsFetch` when fewer than two bytes remain there.
    pub fn read_opcode(&self) -> (r: Result<u16, Fault>)
        ensures
            self@.can_fetch() ==> r == Ok::<u16, Fault>(self@.word()),
            !self@.can_fetch() ==> r == Err::<u16, Fault>(
                Fault::OutOfBoundsFetch { pc: self@.pc as usize },
            ),
    {
        fetch(&self.memory, self.position_in_memory)
    }

    /// ADD-with-carry: register `x` gets the sum of registers `x` and `y`
    /// modulo 256, and the flag register 1 on overflow, else 0.
    pub fn add_xy(&mut self, x: u8, y: u8)
        requires
            old(self).wf(),
            x < 16,
            y < 16,
        ensures
            final(self).wf(),
            final(self)@ == add_model(old(self)@, x, y),
    {
        add_with_carry(&mut self.registers, x, y);
    }

    /// One step: fetch, advance the program counter by 2, dispatch. Halt
    /// yields `Halted`, ADD `Running`; any other word is `UnknownOpcode`,
    /// which leaves all but the advanced program counter unchanged. A failed
    /// fetch changes nothing.
    pub fn step(&mut self) -> (r: Result<State, Fault>)
        requires
            old(self).wf(),
        ensures
            final(self).wf(),
            (r, final(self)@) == linear_step_model(old(self)@),
    {
        let opcode = match self.read_opcode() {
            Ok(w) => w,
            Err(e) => return Err(e),
        };
        let pc = self.position_in_memory;
        self.position_in_memory = pc + 2;
        match instruction(opcode) {
            Instruction::Halt => Ok(State::Halted),
            Instruction::Add { x, y } => {
                self.add_xy(x, y);
                Ok(State::Running)
            },
            _ => Err(Fault::UnknownOpcode { opcode, pc }),
        }
    }

    /// Runs until the machine halts or faults, or `max_steps` steps have run;
    /// in the last case the result is `Running`.
    pub fn run(&mut self, max_steps: u64) -> (r: Result<State, Fault>)
        requires
            old(self).wf(),
        ensures
            final(self).wf(),
            (r, final(self)@) == linear_run_model(old(self)@, max_steps as nat),
    {
        let ghost start = self@;
        let mut done: u64 = 0;
        while done < max_steps
            invariant
                self.wf(),
                start == old(self)@,
                done <= max_steps,
                linear_run_model(self@, (max_steps - done) as nat) == linear_run_model(
                    start,
                    max_steps as nat,
                ),
            decreases max_steps - done,
        {
            let ghost before = self@;
            let r = self.step();
            match r {
                Ok(State::Running) => {
                    done = done + 1;
                },
                _ => {
                    assert(linear_run_model(before, (max_steps - done) as nat) == (r, self@));
                    return r;
                },
            }
        }
        Ok(State::Running)
    }

    /// Register `i`.
    pub fn register(&self, i: u8) -> (v: u8)
        requires
            i < 16,
        ensures
            v == self@.registers[i as int],
    {
        self.registers[i as usize]
    }

    /// Sets register `i` to `v`.
    pub fn set_register(&mut self, i: u8, v: u8)
        requires
            old(self).wf(),
            i < 16,
        ensures
            final(self).wf(),
            final(self)@ == (Model { registers: old(self)@.registers.update(i as int, v), ..old(self)@ }),
    {
        self.registers[i as usize] = v;
        assert(self@.registers =~= old(self)@.registers.update(i as int, v));
    }

    /// Writes `bytes` into memory from `offset` on.
    pub fn load(&mut self, offset: usize, bytes: &[u8])
        requires
            old(self).wf(),
            offset + bytes@.len() <= old(self)@.memory.len(),
        ensures
            final(self).wf(),
            final(self)@ == (Model {
                memory: loaded(old(self)@.memory, offset as nat, bytes@),
                ..old(self)@
            }),
    {
        load(&mut self.memory, offset, bytes);
    }

    /// The byte at `addr`.
    pub fn byte(&self, addr: usize) -> (b: u8)
        requires
            addr < self@.memory.len(),
        ensures
            b == self@.memory[addr as int],
    {
        self.memory[addr]
    }

    /// The program counter.
    pub fn pc(&self) -> (p: usize)
        ensures
            p == self@.pc,
    {
        self.position_in_memory
    }

    /// Moves the program counter to `addr`, where the next step fetches.
    pub fn set_pc(&mut self, addr: u16)
        requires
            old(self).wf(),
        ensures
            final(self).wf(),
            final(self)@ == (Model { pc: addr as nat, ..old(self)@ }),
    {
        self.position_in_memory = addr as usize;
    }
}

} // verus!
