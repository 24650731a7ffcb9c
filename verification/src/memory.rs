//! Byte-addressable memory over the full 16-bit address space, with
//! bounds-checked reads and writes.

use vstd::prelude::*;

use crate::errors::{ReadError, WriteError};

verus! {

/// Number of addressable bytes: the full 16-bit address space.
pub const MEM_SIZE: usize = 0x10000;

/// A location in memory, wrapped as a distinct type so that a raw 16-bit
/// register value is never mistaken for an address.
#[derive(Clone, Copy, PartialEq, Eq, Structural, Debug)]
pub struct Address(pub u16);

/// A fixed-size byte store, zero-filled at construction and mutated only
/// through bounds-checked reads and writes.
pub struct Memory {
    bytes: Vec<u8>,
}

impl View for Memory {
    type V = Seq<u8>;

    closed spec fn view(&self) -> Seq<u8> {
        self.bytes@
    }
}

/// The contents of `mem` after placing `bytes` at `start`; every position
/// outside the written range keeps its old value.
pub open spec fn written(mem: Seq<u8>, start: int, bytes: Seq<u8>) -> Seq<u8> {
    Seq::new(
        mem.len(),
        |i: int|
            if start <= i < start + bytes.len() {
                bytes[i - start]
            } else {
                mem[i]
            },
    )
}

impl Memory {
    /// Well-formed: the store covers the whole address space.
    pub open spec fn wf(self) -> bool {
        self@.len() == MEM_SIZE
    }

    /// Read `len` bytes starting at `src`.
    pub fn read(&self, src: Address, len: usize) -> (r: Result<Vec<u8>, ReadError>)
        requires
            self.wf(),
        ensures
            src.0 + len <= self@.len() ==> (r matches Ok(buf) && buf@ == self@.subrange(
                src.0 as int,
                src.0 + len,
            )),
            src.0 + len > self@.len() ==> r == Err::<Vec<u8>, ReadError>(ReadError::MemoryOverflow),
    {
        let start = src.0 as usize;
        if len <= MEM_SIZE - start {
            let mut buf: Vec<u8> = Vec::new();
            let mut i: usize = 0;
            while i < len
                invariant
                    self.wf(),
                    start + len <= MEM_SIZE,
                    i <= len,
                    buf@ == self@.subrange(start as int, start + i),
                decreases len - i,
            {
                buf.push(self.bytes[start + i]);
                proof {
                    assert(buf@ =~= self@.subrange(start as int, start + i + 1));
                }
                i = i + 1;
            }
            Ok(buf)
        } else {
            Err(ReadError::MemoryOverflow)
        }
    }

    /// Read the single byte at `src`.
    pub fn read_byte(&self, src: Address) -> (r: Result<u8, ReadError>)
        requires
            self.wf(),
        ensures
            src.0 < self@.len() ==> r == Ok::<u8, ReadError>(self@[src.0 as int]),
            src.0 >= self@.len() ==> r == Err::<u8, ReadError>(ReadError::MemoryOverflow),
    {
        let idx = src.0 as usize;
        if idx < self.bytes.len() {
            Ok(self.bytes[idx])
        } else {
            Err(ReadError::MemoryOverflow)
        }
    }

    /// Write the whole buffer starting at `dest`. The bounds check happens
    /// before any byte is written, so a failing write leaves memory unchanged.
    pub fn write(&mut self, dest: Address, value: &[u8]) -> (r: Result<(), WriteError>)
        requires
            old(self).wf(),
        ensures
            final(self).wf(),
            dest.0 + value@.len() <= old(self)@.len() ==> r == Ok::<(), WriteError>(())
                && final(self)@ == written(old(self)@, dest.0 as int, value@),
            dest.0 + value@.len() > old(self)@.len()
                ==> r == Err::<(), WriteError>(WriteError::MemoryOverflow)
                && final(self)@ == old(self)@,
    {
        let len = value.len();
        let start = dest.0 as usize;
        if len <= MEM_SIZE - start {
            let mut i: usize = 0;
            while i < len
                invariant
                    start + len <= MEM_SIZE,
                    i <= len,
                    len == value@.len(),
                    old(self).wf(),
                    self@.len() == MEM_SIZE,
                    forall|j: int| 0 <= j < i ==> self@[start + j] == value@[j],
                    forall|j: int|
                        0 <= j < self@.len() && !(start <= j < start + i)
                            ==> self@[j] == old(self)@[j],
                decreases len - i,
            {
                self.bytes[start + i] = value[i];
                i = i + 1;
            }
            proof {
                assert(self@ =~= written(old(self)@, dest.0 as int, value@));
            }
            Ok(())
        } else {
            Err(WriteError::MemoryOverflow)
        }
    }

    /// Write a single byte at `dest`.
    pub fn write_byte(&mut self, dest: Address, value: u8) -> (r: Result<(), WriteError>)
        requires
            old(self).wf(),
        ensures
            final(self).wf(),
            dest.0 < old(self)@.len() ==> r == Ok::<(), WriteError>(())
                && final(self)@ == old(self)@.update(dest.0 as int, value),
            dest.0 >= old(self)@.len() ==> r == Err::<(), WriteError>(WriteError::MemoryOverflow)
                && final(self)@ == old(self)@,
    {
        let idx = dest.0 as usize;
        if idx < self.bytes.len() {
            self.bytes[idx] = value;
            Ok(())
        } else {
            Err(WriteError::MemoryOverflow)
        }
    }
}

impl Default for Memory {
    /// A zero-filled store over the whole address space.
    fn default() -> (r: Self)
        ensures
            r.wf(),
            forall|i: int| 0 <= i < MEM_SIZE ==> r@[i] == 0u8,
    {
        let mut bytes: Vec<u8> = Vec::new();
        let mut i: usize = 0;
        while i < MEM_SIZE
            invariant
                i <= MEM_SIZE,
                bytes@.len() == i,
                forall|j: int| 0 <= j < i ==> bytes@[j] == 0u8,
            decreases MEM_SIZE - i,
        {
            bytes.push(0u8);
            i = i + 1;
        }
        Memory { bytes }
    }
}

/// Law: writing a block and then reading the same range gives the block back.
pub proof fn lemma_memory_round_trip(mem: Seq<u8>, start: int, bytes: Seq<u8>)
    requires
        0 <= start,
        start + bytes.len() <= mem.len(),
    ensures
        written(mem, start, bytes).subrange(start, start + bytes.len()) == bytes,
{
    assert(written(mem, start, bytes).subrange(start, start + bytes.len()) =~= bytes);
}

} // verus!
