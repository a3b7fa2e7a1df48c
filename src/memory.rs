//! Instruction fetch from, and program loading into, a byte memory.
use vstd::prelude::*;
use crate::model::{word_at, Fault};

verus! {

/// The big-endian word at `pc`, or `OutOfBoundsFetch` when fewer than two
/// bytes remain there.
pub fn fetch(memory: &Vec<u8>, pc: usize) -> (r: Result<u16, Fault>)
    ensures
        pc + 1 < memory@.len() ==> r == Ok::<u16, Fault>(word_at(memory@, pc as nat)),
        pc + 1 >= memory@.len() ==> r == Err::<u16, Fault>(Fault::OutOfBoundsFetch { pc }),
{
    if pc >= memory.len() || memory.len() - pc < 2 {
        return Err(Fault::OutOfBoundsFetch { pc });
    }
    let op_byte1 = memory[pc] as u16;
    let op_byte2 = memory[pc + 1] as u16;
    let w = (op_byte1 << 8) | op_byte2;
    assert(w == word_at(memory@, pc as nat)) by {
        let b1 = memory@[pc as int];
        let b2 = memory@[pc + 1];
        assert(((b1 as u16) << 8) | (b2 as u16) == (b1 as nat * 0x100 + b2 as nat) as u16)
            by (bit_vector);
    }
    Ok(w)
}

/// `memory` with `bytes` written from `offset` on.
pub open spec fn loaded(memory: Seq<u8>, offset: nat, bytes: Seq<u8>) -> Seq<u8> {
    Seq::new(
        memory.len(),
        |i: int|
            if offset <= i < offset + bytes.len() {
                bytes[i - offset]
            } else {
                memory[i]
            },
    )
}

/// Writes `bytes` into `memory` from `offset` on.
pub fn load(memory: &mut Vec<u8>, offset: usize, bytes: &[u8])
    requires
        offset + bytes@.len() <= old(memory)@.len(),
    ensures
        final(memory)@ == loaded(old(memory)@, offset as nat, bytes@),
{
    let mut i: usize = 0;
    while i < bytes.len()
        invariant
            i <= bytes@.len(),
            offset + bytes@.len() <= memory.len(),
            memory@ == loaded(old(memory)@, offset as nat, bytes@.take(i as int)),
        decreases bytes@.len() - i,
    {
        memory.set(offset + i, bytes[i]);
        i = i + 1;
        assert(memory@ =~= loaded(old(memory)@, offset as nat, bytes@.take(i as int)));
    }
    assert(bytes@.take(i as int) =~= bytes@);
}

} // verus!
