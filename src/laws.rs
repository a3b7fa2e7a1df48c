//! Properties of the instruction handlers and the executor, proved over the
//! abstract machine.
use vstd::prelude::*;
use crate::decode::{instruction_of, Instruction};
use crate::model::{
    added, advanced, call_model, carries, ret_model, step_model, Fault, Model, State, FLAG,
};

verus! {

/// CALL to each address of `addrs` in turn, stopping at the first fault.
pub open spec fn calls(m: Model, addrs: Seq<u16>) -> (Result<(), Fault>, Model)
    decreases addrs.len(),
{
    if addrs.len() == 0 {
        (Ok(()), m)
    } else {
        let (r, next) = call_model(m, addrs[0]);
        match r {
            Ok(_) => calls(next, addrs.drop_first()),
            Err(e) => (Err(e), next),
        }
    }
}

/// `n` RETURNs in turn, stopping at the first fault.
pub open spec fn rets(m: Model, n: nat) -> (Result<(), Fault>, Model)
    decreases n,
{
    if n == 0 {
        (Ok(()), m)
    } else {
        let (r, before) = rets(m, (n - 1) as nat);
        match r {
            Ok(_) => ret_model(before),
            Err(e) => (Err(e), before),
        }
    }
}

/// ADD gives the same sum whichever of two distinct registers is the target,
/// and after ADD(x, y) then ADD(y, x) the first sum stays in `x`, the second
/// lands in `y`, and the flag register holds the carry of the second.
/// Neither register may be the flag register, which each ADD overwrites.
pub proof fn lemma_add_commutes(regs: Seq<u8>, x: u8, y: u8)
    requires
        regs.len() == 16,
        x < 16,
        y < 16,
        x != y,
        x != FLAG,
        y != FLAG,
    ensures
        added(regs, x, y)[x as int] == added(regs, y, x)[y as int],
        added(regs, x, y)[FLAG as int] == added(regs, y, x)[FLAG as int],
        ({
            let first = added(regs, x, y);
            let second = added(first, y, x);
            &&& second[x as int] == first[x as int]
            &&& second[y as int] == ((first[y as int] as nat + first[x as int] as nat)
                % 0x100) as u8
            &&& second[FLAG as int] == if carries(first[y as int], first[x as int]) {
                1u8
            } else {
                0u8
            }
        }),
{
}

/// Any run of nested CALLs that fits in the stack, followed by as many
/// RETURNs, gives back the machine it started from; in particular the
/// program counter is again the one current at the outermost CALL, that is,
/// the address just past the outermost CALL instruction.
pub proof fn lemma_calls_then_returns(m: Model, addrs: Seq<u16>)
    requires
        m.wf(),
        m.stack.len() + addrs.len() <= m.capacity,
    ensures
        calls(m, addrs).0 == Ok::<(), Fault>(()),
        rets(calls(m, addrs).1, addrs.len()) == (Ok::<(), Fault>(()), m),
        rets(calls(m, addrs).1, addrs.len()).1.pc == m.pc,
    decreases addrs.len(),
{
    if addrs.len() > 0 {
        let next = call_model(m, addrs[0]).1;
        let rest = addrs.drop_first();
        lemma_calls_then_returns(next, rest);
        assert(rets(calls(m, addrs).1, rest.len()) == (Ok::<(), Fault>(()), next));
        assert(next.stack.drop_last() =~= m.stack);
        assert(ret_model(next).1 == m);
    }
}

/// From an empty stack, `capacity + 1` nested CALLs succeed `capacity` times
/// and then fault with `StackOverflow`, leaving exactly `capacity` entries.
pub proof fn lemma_stack_overflow(m: Model, addrs: Seq<u16>)
    requires
        m.wf(),
        m.stack.len() == 0,
        addrs.len() == m.capacity + 1,
    ensures
        calls(m, addrs.drop_last()).0 == Ok::<(), Fault>(()),
        calls(m, addrs).0 == Err::<(), Fault>(Fault::StackOverflow),
        calls(m, addrs).1 == calls(m, addrs.drop_last()).1,
        calls(m, addrs).1.stack.len() == m.capacity,
{
    lemma_overflow_at_last(m, addrs);
}

proof fn lemma_overflow_at_last(m: Model, addrs: Seq<u16>)
    requires
        m.wf(),
        addrs.len() > 0,
        m.stack.len() + addrs.len() == m.capacity + 1,
    ensures
        calls(m, addrs.drop_last()).0 == Ok::<(), Fault>(()),
        calls(m, addrs).0 == Err::<(), Fault>(Fault::StackOverflow),
        calls(m, addrs).1 == calls(m, addrs.drop_last()).1,
        calls(m, addrs).1.stack.len() == m.capacity,
    decreases addrs.len(),
{
    if addrs.len() > 1 {
        let next = call_model(m, addrs[0]).1;
        lemma_overflow_at_last(next, addrs.drop_first());
        assert(addrs.drop_last().drop_first() =~= addrs.drop_first().drop_last());
    }
}

/// RETURN with an empty stack faults with `StackUnderflow` and changes
/// nothing, the program counter included. A step that fetches the RETURN
/// word faults the same way, with only the program counter moved past it.
pub proof fn lemma_return_on_empty_stack(m: Model)
    requires
        m.wf(),
        m.stack.len() == 0,
    ensures
        ret_model(m) == (Err::<(), Fault>(Fault::StackUnderflow), m),
        m.can_fetch() && m.word() == 0x00EE ==> step_model(m) == (
            Err::<State, Fault>(Fault::StackUnderflow),
            advanced(m),
        ),
{
    assert(instruction_of(0x00EE) == Instruction::Return);
}

/// A step that fetches a word of no known instruction, such as `0x1234`,
/// faults with `UnknownOpcode` naming the word and its address, and leaves
/// registers, memory and call stack unchanged; the program counter has
/// moved past the word.
pub proof fn lemma_unknown_opcode(m: Model)
    requires
        m.wf(),
        m.can_fetch(),
        instruction_of(m.word()) == Instruction::Unknown,
    ensures
        instruction_of(0x1234) == Instruction::Unknown,
        step_model(m) == (
            Err::<State, Fault>(
                Fault::UnknownOpcode { opcode: m.word(), pc: m.pc as usize },
            ),
            advanced(m),
        ),
{
}

} // verus!
