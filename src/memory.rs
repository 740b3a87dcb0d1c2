//! Guest linear memory and the address translator: every access by a guest
//! offset goes through a bounds check against the memory's current size.
use crate::le::{decode_u32_at, encode_u32, encode_u64, le32, le32_value, le64, lemma_le32_round_trip};
use vstd::prelude::*;

verus! {

/// The largest size a guest memory may have: every byte, and the end of the
/// memory, has a 32-bit guest address.
pub const MAX_MEMORY_SIZE: u32 = 0xffff_ffff;

/// An access outside the guest memory.
#[derive(Clone, Copy, Debug, PartialEq, Eq, Structural)]
pub enum Fault {
    OutOfBounds,
}

/// A validated range of guest memory: `start .. start + len` lay within the
/// memory when it was translated, and stay within it since memory only grows.
#[derive(Clone, Copy, Debug, PartialEq, Eq, Structural)]
pub struct Window {
    pub start: u32,
    pub len: u32,
}

/// Whether `len` bytes from guest offset `offset` lie in a memory of `size` bytes.
pub open spec fn in_bounds(size: nat, offset: int, len: int) -> bool {
    0 <= offset && 0 <= len && offset + len <= size
}

/// `m` with the bytes from `at` on replaced by `d`.
pub open spec fn splice(m: Seq<u8>, at: int, d: Seq<u8>) -> Seq<u8> {
    m.subrange(0, at) + d + m.subrange(at + d.len(), m.len() as int)
}

/// The guest's linear memory.
pub struct GuestMemory {
    bytes: Vec<u8>,
}

impl View for GuestMemory {
    type V = Seq<u8>;

    closed spec fn view(&self) -> Seq<u8> {
        self.bytes@
    }
}

impl GuestMemory {
    /// Every byte, and the end of the memory, has a 32-bit guest address.
    pub open spec fn wf(&self) -> bool {
        self@.len() <= MAX_MEMORY_SIZE
    }

    /// A zeroed memory of `size` bytes.
    pub fn new(size: u32) -> (m: GuestMemory)
        ensures
            m.wf(),
            m@ == Seq::new(size as nat, |i: int| 0u8),
    {
        let mut bytes: Vec<u8> = Vec::new();
        let mut i: u32 = 0;
        while i < size
            invariant
                i <= size,
                bytes@ == Seq::new(i as nat, |j: int| 0u8),
            decreases size - i,
        {
            bytes.push(0u8);
            i = i + 1;
            assert(bytes@ =~= Seq::new(i as nat, |j: int| 0u8));
        }
        GuestMemory { bytes }
    }

    /// A memory holding `bytes`, or `None` when they are too many to address.
    pub fn from_bytes(bytes: Vec<u8>) -> (r: Option<GuestMemory>)
        ensures
            r is Some <==> bytes@.len() <= MAX_MEMORY_SIZE,
            r matches Some(m) ==> m@ == bytes@ && m.wf(),
    {
        if bytes.len() <= MAX_MEMORY_SIZE as usize {
            Some(GuestMemory { bytes })
        } else {
            None
        }
    }

    /// The memory's contents, given back.
    pub fn into_bytes(self) -> (r: Vec<u8>)
        ensures
            r@ == self@,
    {
        self.bytes
    }

    /// The memory's current size in bytes.
    pub fn size(&self) -> (r: u32)
        requires
            self.wf(),
        ensures
            r == self@.len(),
    {
        self.bytes.len() as u32
    }

    /// Grows the memory by `extra` zero bytes; refused, leaving it as it was,
    /// where the new size would pass the largest one.
    pub fn grow(&mut self, extra: u32) -> (r: bool)
        requires
            old(self).wf(),
        ensures
            final(self).wf(),
            r <==> old(self)@.len() + extra <= MAX_MEMORY_SIZE,
            r ==> final(self)@ == old(self)@ + Seq::new(extra as nat, |i: int| 0u8),
            !r ==> final(self)@ == old(self)@,
    {
        if extra > MAX_MEMORY_SIZE - self.bytes.len() as u32 {
            return false;
        }
        let ghost before = self.bytes@;
        let mut i: u32 = 0;
        while i < extra
            invariant
                i <= extra,
                before.len() + extra <= MAX_MEMORY_SIZE,
                self.bytes@ == before + Seq::new(i as nat, |j: int| 0u8),
            decreases extra - i,
        {
            self.bytes.push(0u8);
            i = i + 1;
            assert(self.bytes@ =~= before + Seq::new(i as nat, |j: int| 0u8));
        }
        true
    }

    /// The address translator: the window of `len` bytes at guest offset
    /// `offset`, checked against the memory's current size.
    pub fn translate(&self, offset: u32, len: u32) -> (r: Result<Window, Fault>)
        requires
            self.wf(),
        ensures
            r is Ok <==> in_bounds(self@.len(), offset as int, len as int),
            r matches Ok(w) ==> w.start == offset && w.len == len,
            r matches Err(e) ==> e == Fault::OutOfBounds,
    {
        if offset as u64 + len as u64 <= self.bytes.len() as u64 {
            Ok(Window { start: offset, len })
        } else {
            Err(Fault::OutOfBounds)
        }
    }

    /// The `len` bytes at `offset`.
    pub fn read_bytes(&self, offset: u32, len: u32) -> (r: Result<Vec<u8>, Fault>)
        requires
            self.wf(),
        ensures
            r is Ok <==> in_bounds(self@.len(), offset as int, len as int),
            r matches Ok(v) ==> v@ == self@.subrange(offset as int, offset + len),
            r matches Err(e) ==> e == Fault::OutOfBounds,
    {
        let w = self.translate(offset, len)?;
        let mut out: Vec<u8> = Vec::new();
        let mut i: u32 = 0;
        while i < w.len
            invariant
                w.start == offset,
                w.len == len,
                i <= len,
                offset + len <= self@.len(),
                self.wf(),
                out@ == self@.subrange(offset as int, offset + i),
            decreases len - i,
        {
            out.push(self.bytes[(w.start + i) as usize]);
            i = i + 1;
            assert(out@ =~= self@.subrange(offset as int, offset + i));
        }
        Ok(out)
    }

    /// Writes `data` at `offset`; on a fault nothing is written.
    pub fn write_bytes(&mut self, offset: u32, data: &Vec<u8>) -> (r: Result<(), Fault>)
        requires
            old(self).wf(),
        ensures
            final(self).wf(),
            r is Ok <==> in_bounds(old(self)@.len(), offset as int, data@.len() as int),
            r is Ok ==> final(self)@ == splice(old(self)@, offset as int, data@),
            r matches Err(e) ==> e == Fault::OutOfBounds && final(self)@ == old(self)@,
    {
        if data.len() > self.bytes.len() {
            return Err(Fault::OutOfBounds);
        }
        let w = self.translate(offset, data.len() as u32)?;
        let ghost before = self.bytes@;
        let mut i: u32 = 0;
        while i < w.len
            invariant
                w.start == offset,
                w.len == data@.len(),
                i <= w.len,
                offset + data@.len() <= before.len(),
                before.len() <= MAX_MEMORY_SIZE,
                self.bytes@.len() == before.len(),
                self.bytes@ == splice(before, offset as int, data@.subrange(0, i as int)),
            decreases w.len - i,
        {
            self.bytes[(w.start + i) as usize] = data[i as usize];
            i = i + 1;
            assert(self.bytes@ =~= splice(before, offset as int, data@.subrange(0, i as int)));
        }
        assert(data@.subrange(0, i as int) =~= data@);
        Ok(())
    }

    /// Sets the `len` bytes at `offset` to `value`; on a fault nothing is written.
    pub fn fill(&mut self, offset: u32, len: u32, value: u8) -> (r: Result<(), Fault>)
        requires
            old(self).wf(),
        ensures
            final(self).wf(),
            r is Ok <==> in_bounds(old(self)@.len(), offset as int, len as int),
            r is Ok ==> final(self)@ == splice(
                old(self)@,
                offset as int,
                Seq::new(len as nat, |i: int| value),
            ),
            r matches Err(e) ==> e == Fault::OutOfBounds && final(self)@ == old(self)@,
    {
        let w = self.translate(offset, len)?;
        let ghost before = self.bytes@;
        let mut i: u32 = 0;
        while i < w.len
            invariant
                w.start == offset,
                w.len == len,
                i <= len,
                offset + len <= before.len(),
                before.len() <= MAX_MEMORY_SIZE,
                self.bytes@.len() == before.len(),
                self.bytes@ == splice(before, offset as int, Seq::new(i as nat, |j: int| value)),
            decreases len - i,
        {
            self.bytes[(w.start + i) as usize] = value;
            i = i + 1;
            assert(self.bytes@ =~= splice(before, offset as int, Seq::new(i as nat, |j: int| value)));
        }
        Ok(())
    }

    /// The little-endian word at `offset`.
    pub fn read_u32(&self, offset: u32) -> (r: Result<u32, Fault>)
        requires
            self.wf(),
        ensures
            r is Ok <==> in_bounds(self@.len(), offset as int, 4),
            r matches Ok(v) ==> v == le32_value(self@.subrange(offset as int, offset + 4)),
            r matches Err(e) ==> e == Fault::OutOfBounds,
    {
        let w = self.translate(offset, 4)?;
        Ok(decode_u32_at(&self.bytes, w.start as usize))
    }

    /// Writes `v` as a little-endian word at `offset`; on a fault nothing is written.
    pub fn write_u32(&mut self, offset: u32, v: u32) -> (r: Result<(), Fault>)
        requires
            old(self).wf(),
        ensures
            final(self).wf(),
            r is Ok <==> in_bounds(old(self)@.len(), offset as int, 4),
            r is Ok ==> final(self)@ == splice(old(self)@, offset as int, le32(v)),
            r matches Err(e) ==> e == Fault::OutOfBounds && final(self)@ == old(self)@,
    {
        let b = encode_u32(v);
        self.write_bytes(offset, &b)
    }

    /// Writes `v` as a little-endian double word at `offset`; on a fault
    /// nothing is written.
    pub fn write_u64(&mut self, offset: u32, v: u64) -> (r: Result<(), Fault>)
        requires
            old(self).wf(),
        ensures
            final(self).wf(),
            r is Ok <==> in_bounds(old(self)@.len(), offset as int, 8),
            r is Ok ==> final(self)@ == splice(old(self)@, offset as int, le64(v)),
            r matches Err(e) ==> e == Fault::OutOfBounds && final(self)@ == old(self)@,
    {
        let b = encode_u64(v);
        self.write_bytes(offset, &b)
    }
}

/// The bytes of the NUL-terminated string at `offset`: `s` is what `m` holds
/// from `offset` up to, and not including, the first zero byte.
pub open spec fn is_c_string_at(m: Seq<u8>, offset: int, s: Seq<u8>) -> bool {
    &&& 0 <= offset
    &&& offset + s.len() < m.len()
    &&& m[offset + s.len()] == 0
    &&& s == m.subrange(offset, offset + s.len())
    &&& forall|i: int| 0 <= i < s.len() ==> #[trigger] s[i] != 0
}

/// Whether a zero byte follows `offset` within `m`.
pub open spec fn has_nul_from(m: Seq<u8>, offset: int) -> bool {
    exists|k: int| offset <= k < m.len() && #[trigger] m[k] == 0
}

impl GuestMemory {
    /// The NUL-terminated string at `offset`, without its terminator; a fault
    /// where no zero byte follows `offset` within the memory.
    pub fn read_c_string(&self, offset: u32) -> (r: Result<Vec<u8>, Fault>)
        requires
            self.wf(),
        ensures
            r is Ok <==> has_nul_from(self@, offset as int),
            r matches Ok(s) ==> is_c_string_at(self@, offset as int, s@),
            r matches Err(e) ==> e == Fault::OutOfBounds,
    {
        let n = self.bytes.len();
        if offset as usize > n {
            return Err(Fault::OutOfBounds);
        }
        let mut out: Vec<u8> = Vec::new();
        let mut i: usize = offset as usize;
        while i < n
            invariant
                n == self@.len(),
                offset <= i <= n,
                out@ == self@.subrange(offset as int, i as int),
                forall|j: int| offset <= j < i ==> #[trigger] self@[j] != 0,
            decreases n - i,
        {
            let b = self.bytes[i];
            if b == 0 {
                assert(forall|j: int| 0 <= j < out@.len() ==> #[trigger] out@[j] == self@[offset + j]);
                return Ok(out);
            }
            out.push(b);
            i = i + 1;
            assert(out@ =~= self@.subrange(offset as int, i as int));
        }
        Err(Fault::OutOfBounds)
    }
}

/// What is written in bounds reads back unchanged, and the rest of the
/// memory, and its size, stay as they were.
pub proof fn lemma_write_then_read(m: Seq<u8>, offset: int, d: Seq<u8>)
    requires
        in_bounds(m.len(), offset, d.len() as int),
    ensures
        splice(m, offset, d).len() == m.len(),
        splice(m, offset, d).subrange(offset, offset + d.len()) == d,
        forall|i: int|
            0 <= i < m.len() && !(offset <= i < offset + d.len())
                ==> #[trigger] splice(m, offset, d)[i] == m[i],
{
    assert(splice(m, offset, d).subrange(offset, offset + d.len()) =~= d);
}

/// A word written in bounds with `write_u32` reads back with `read_u32` as
/// the same word.
pub proof fn lemma_word_write_read(m: Seq<u8>, offset: int, v: u32)
    requires
        in_bounds(m.len(), offset, 4),
    ensures
        le32_value(splice(m, offset, le32(v)).subrange(offset, offset + 4)) == v,
{
    lemma_le32_round_trip(v);
    lemma_write_then_read(m, offset, le32(v));
}

} // verus!
