//! The argument cursor: a forward-only reader of a syscall's packed argument
//! words, one 4-byte slot per value.
use crate::le::le32_value;
use crate::memory::{in_bounds, Fault, GuestMemory};
use vstd::prelude::*;

verus! {

/// The little-endian word at offset `off` of `m`.
pub open spec fn word_at(m: Seq<u8>, off: int) -> u32 {
    le32_value(m.subrange(off, off + 4))
}

/// The `i`-th argument word of the block that starts at `start`.
pub open spec fn arg_word(m: Seq<u8>, start: u32, i: int) -> u32 {
    word_at(m, start + 4 * i)
}

/// The `i`-th argument word, read as a signed value.
pub open spec fn arg_i32(m: Seq<u8>, start: u32, i: int) -> i32 {
    arg_word(m, start, i) as i32
}

/// Whether `n` argument words from `start` lie in memory.
pub open spec fn args_fit(m: Seq<u8>, start: u32, n: int) -> bool {
    in_bounds(m.len(), start as int, 4 * n)
}

/// The cursor over a syscall's argument block.
#[derive(Clone, Copy, Debug, PartialEq, Eq, Structural)]
pub struct VarArgs {
    /// Guest address of the next argument slot.
    pub pointer: u32,
}

impl VarArgs {
    /// A cursor at the start of the block at `pointer`.
    pub fn new(pointer: u32) -> (r: VarArgs)
        ensures
            r.pointer == pointer,
    {
        VarArgs { pointer }
    }

    /// The next argument word; the cursor moves on by one slot. A fault, with
    /// the cursor left in place, where the slot is out of memory.
    pub fn get_u32(&mut self, mem: &GuestMemory) -> (r: Result<u32, Fault>)
        requires
            mem.wf(),
        ensures
            r is Ok <==> in_bounds(mem@.len(), old(self).pointer as int, 4),
            r matches Ok(v) ==> v == word_at(mem@, old(self).pointer as int)
                && final(self).pointer == old(self).pointer + 4,
            r matches Err(e) ==> e == Fault::OutOfBounds && *final(self) == *old(self),
    {
        let v = mem.read_u32(self.pointer)?;
        self.pointer = self.pointer + 4;
        Ok(v)
    }

    /// The next argument word read as a signed value; otherwise as `get_u32`.
    pub fn get_i32(&mut self, mem: &GuestMemory) -> (r: Result<i32, Fault>)
        requires
            mem.wf(),
        ensures
            r is Ok <==> in_bounds(mem@.len(), old(self).pointer as int, 4),
            r matches Ok(v) ==> v == word_at(mem@, old(self).pointer as int) as i32
                && final(self).pointer == old(self).pointer + 4,
            r matches Err(e) ==> e == Fault::OutOfBounds && *final(self) == *old(self),
    {
        let v = self.get_u32(mem)?;
        Ok(v as i32)
    }
}

/// A run of successful reads, each moving the cursor one slot on as `get_u32`
/// and `get_i32` promise, moves it `4 * n` bytes in all for `n` reads,
/// whatever type each value was read as.
pub proof fn lemma_reads_advance(pointers: Seq<u32>)
    requires
        pointers.len() >= 1,
        forall|i: int| 0 <= i < pointers.len() - 1
            ==> #[trigger] pointers[i + 1] == pointers[i] + 4,
    ensures
        pointers.last() == pointers[0] + 4 * (pointers.len() - 1),
    decreases pointers.len(),
{
    if pointers.len() > 1 {
        let front = pointers.drop_last();
        assert forall|i: int| 0 <= i < front.len() - 1 implies #[trigger] front[i + 1] == front[i] + 4 by {
            assert(pointers[i + 1] == pointers[i] + 4);
        }
        lemma_reads_advance(front);
        assert(pointers[pointers.len() - 2 + 1] == pointers[pointers.len() - 2] + 4);
    }
}

} // verus!
