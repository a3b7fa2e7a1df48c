//! The machine with a call stack: memory of a chosen size, sixteen registers,
//! a program counter and a bounded stack of return addresses.
use vstd::prelude::*;
use crate::decode::{instruction, Instruction};
use crate::model::{
    add_model, call_model, ret_model, run_model, step_model, Fault, Model, State,
    ADDRESS_LIMIT,
};
use crate::memory::{fetch, load, loaded};
use crate::registers::add_with_carry;

verus! {

/// A machine: registers, memory, program counter and call stack, all
/// zero-filled at construction.
pub struct CPU3 {
    registers: [u8; 16],
    position_in_memory: usize,
    memory: Vec<u8>,
    stack: Vec<u16>,
    stack_pointer: usize,
}

impl View for CPU3 {
    type V = Model;

    closed spec fn view(&self) -> Model {
        Model {
            registers: self.registers@,
            memory: self.memory@,
            pc: self.position_in_memory as nat,
            stack: self.stack@.subrange(0, self.stack_pointer as int),
            capacity: self.stack@.len(),
        }
    }
}

impl CPU3 {
    /// The machine's internal invariant: the stack pointer within the stack,
    /// memory and program counter within the 16-bit address space.
    pub closed spec fn wf(&self) -> bool {
        &&& self.stack_pointer <= self.stack@.len()
        &&& self.memory@.len() < ADDRESS_LIMIT
        &&& self.position_in_memory < ADDRESS_LIMIT
    }

    /// What the invariant gives of the view: sixteen registers, memory and
    /// program counter within the 16-bit address space, the stack within its
    /// capacity.
    pub proof fn lemma_view_wf(&self)
        requires
            self.wf(),
        ensures
            self@.wf(),
    {
    }

    /// A zero-filled machine with `memory_size` bytes of memory and room for
    /// `stack_depth` return addresses, its program counter at 0.
    pub fn new(memory_size: usize, stack_depth: usize) -> (m: CPU3)
        requires
            memory_size < ADDRESS_LIMIT,
        ensures
            m.wf(),
            m@ == (Model {
                registers: Seq::new(16, |i: int| 0u8),
                memory: Seq::new(memory_size as nat, |i: int| 0u8),
                pc: 0,
                stack: Seq::empty(),
                capacity: stack_depth as nat,
            }),
    {
        let m = CPU3 {
            registers: [0u8; 16],
            position_in_memory: 0,
            memory: vec![0u8; memory_size],
            stack: vec![0u16; stack_depth],
            stack_pointer: 0,
        };
        assert(m@.registers =~= Seq::new(16, |i: int| 0u8));
        assert(m@.memory =~= Seq::new(memory_size as nat, |i: int| 0u8));
        assert(m@.stack =~= Seq::empty());
        m
    }

    /// The word at the program counter, most significant byte first, or
    /// `OutOfBoundsFetch` when fewer than two bytes remain there.
    pub fn read_opcode(&self) -> (r: Result<u16, Fault>)
        ensures
            self@.can_fetch() ==> r == Ok::<u16, Fault>(self@.word()),
            !self@.can_fetch() ==> r == Err::<u16, Fault>(
                Fault::OutOfBoundsFetch { pc: self@.pc as usize },
            ),
    {
        fetch(&self.memory, self.position_in_memory)
    }

    /// ADD-with-carry: register `x` gets the sum of registers `x` and `y`
    /// modulo 256, and the flag register 1 on overflow, else 0.
    pub fn add_xy(&mut self, x: u8, y: u8)
        requires
            old(self).wf(),
            x < 16,
            y < 16,
        ensures
            final(self).wf(),
            final(self)@ == add_model(old(self)@, x, y),
    {
        add_with_carry(&mut self.registers, x, y);
    }

    /// CALL: pushes the program counter and jumps to `addr`; with the stack
    /// full, faults with `StackOverflow` and changes nothing.
    pub fn call(&mut self, addr: u16) -> (r: Result<(), Fault>)
        requires
            old(self).wf(),
        ensures
            final(self).wf(),
            (r, final(self)@) == call_model(old(self)@, addr),
    {
        let sp = self.stack_pointer;
        if sp >= self.stack.len() {
            return Err(Fault::StackOverflow);
        }
        let ghost before = self@;
        self.stack.set(sp, self.position_in_memory as u16);
        self.stack_pointer = sp + 1;
        self.position_in_memory = addr as usize;
        assert(self@.stack =~= before.stack.push(before.pc as u16));
        Ok(())
    }

    /// RETURN: pops the newest return address and jumps to it; with the
    /// stack empty, faults with `StackUnderflow` and changes nothing.
    pub fn ret(&mut self) -> (r: Result<(), Fault>)
        requires
            old(self).wf(),
        ensures
            final(self).wf(),
            (r, final(self)@) == ret_model(old(self)@),
    {
        if self.stack_pointer == 0 {
            return Err(Fault::StackUnderflow);
        }
        let ghost before = self@;
        self.stack_pointer = self.stack_pointer - 1;
        let addr = self.stack[self.stack_pointer];
        self.position_in_memory = addr as usize;
        assert(self@.stack =~= before.stack.drop_last());
        Ok(())
    }

    /// One executor step: fetch the word at the program counter, advance the
    /// program counter by 2, then dispatch. Halt yields `Halted`, any other
    /// known instruction `Running`. A fault after the fetch leaves all but
    /// the advanced program counter unchanged; a failed fetch changes nothing.
    pub fn step(&mut self) -> (r: Result<State, Fault>)
        requires
            old(self).wf(),
        ensures
            final(self).wf(),
            (r, final(self)@) == step_model(old(self)@),
    {
        let opcode = match self.read_opcode() {
            Ok(w) => w,
            Err(e) => return Err(e),
        };
        let pc = self.position_in_memory;
        self.position_in_memory = pc + 2;
        match instruction(opcode) {
            Instruction::Halt => Ok(State::Halted),
            Instruction::Add { x, y } => {
                self.add_xy(x, y);
                Ok(State::Running)
            },
            Instruction::Call { addr } => match self.call(addr) {
                Ok(()) => Ok(State::Running),
                Err(e) => Err(e),
            },
            Instruction::Return => match self.ret() {
                Ok(()) => Ok(State::Running),
                Err(e) => Err(e),
            },
            Instruction::Unknown => Err(Fault::UnknownOpcode { opcode, pc }),
        }
    }

    /// Runs until the machine halts or faults, or `max_steps` steps have run;
    /// in the last case the result is `Running`.
    pub fn run(&mut self, max_steps: u64) -> (r: Result<State, Fault>)
        requires
            old(self).wf(),
        ensures
            final(self).wf(),
            (r, final(self)@) == run_model(old(self)@, max_steps as nat),
    {
        let ghost start = self@;
        let mut done: u64 = 0;
        while done < max_steps
            invariant
                self.wf(),
                start == old(self)@,
                done <= max_steps,
                run_model(self@, (max_steps - done) as nat) == run_model(start, max_steps as nat),
            decreases max_steps - done,
        {
            let ghost before = self@;
            let r = self.step();
            match r {
                Ok(State::Running) => {
                    done = done + 1;
                },
                _ => {
                    assert(run_model(before, (max_steps - done) as nat) == (r, self@));
                    return r;
                },
            }
        }
        Ok(State::Running)
    }

    /// Register `i`.
    pub fn register(&self, i: u8) -> (v: u8)
        requires
            i < 16,
        ensures
            v == self@.registers[i as int],
    {
        self.registers[i as usize]
    }

    /// Sets register `i` to `v`.
    pub fn set_register(&mut self, i: u8, v: u8)
        requires
            old(self).wf(),
            i < 16,
        ensures
            final(self).wf(),
            final(self)@ == (Model { registers: old(self)@.registers.update(i as int, v), ..old(self)@ }),
    {
        self.registers[i as usize] = v;
        assert(self@.registers =~= old(self)@.registers.update(i as int, v));
    }

    /// All sixteen registers.
    pub fn registers(&self) -> (r: [u8; 16])
        ensures
            r@ == self@.registers,
    {
        self.registers
    }

    /// Writes `bytes` into memory from `offset` on.
    pub fn load(&mut self, offset: usize, bytes: &[u8])
        requires
            old(self).wf(),
            offset + bytes@.len() <= old(self)@.memory.len(),
        ensures
            final(self).wf(),
            final(self)@ == (Model {
                memory: loaded(old(self)@.memory, offset as nat, bytes@),
                ..old(self)@
            }),
    {
        load(&mut self.memory, offset, bytes);
    }

    /// The byte at `addr`.
    pub fn byte(&self, addr: usize) -> (b: u8)
        requires
            addr < self@.memory.len(),
        ensures
            b == self@.memory[addr as int],
    {
        self.memory[addr]
    }

    /// The number of bytes of memory.
    pub fn memory_size(&self) -> (n: usize)
        ensures
            n == self@.memory.len(),
    {
        self.memory.len()
    }

    /// The program counter.
    pub fn pc(&self) -> (p: usize)
        ensures
            p == self@.pc,
    {
        self.position_in_memory
    }

    /// Moves the program counter to `addr`, where the next step fetches.
    pub fn set_pc(&mut self, addr: u16)
        requires
            old(self).wf(),
        ensures
            final(self).wf(),
            final(self)@ == (Model { pc: addr as nat, ..old(self)@ }),
    {
        self.position_in_memory = addr as usize;
    }

    /// The number of return addresses on the stack.
    pub fn stack_depth(&self) -> (n: usize)
        requires
            self.wf(),
        ensures
            n == self@.stack.len(),
    {
        self.stack_pointer
    }

    /// How many return addresses the stack can hold.
    pub fn stack_capacity(&self) -> (n: usize)
        ensures
            n == self@.capacity,
    {
        self.stack.len()
    }

    /// The `i`-th return address on the stack, oldest first.
    pub fn return_address(&self, i: usize) -> (a: u16)
        requires
            self.wf(),
            i < self@.stack.len(),
        ensures
            a == self@.stack[i as int],
    {
        self.stack[i]
    }
}

} // verus!
