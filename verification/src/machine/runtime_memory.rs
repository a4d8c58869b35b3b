//! The linear memory: a byte region that grows and shrinks at its end and
//! is read and written little-endian at any byte offset.

use crate::endian::{
    le_load, le_store, lemma_le_load_of_le_store, lemma_le_value_bound, lemma_pow256_monotonic,
    lemma_pow256_positive, lemma_pow256_values, pow256, read_le, write_le,
};
use crate::machine::word::{as_word, word_of};
use crate::machine::Fault;
use vstd::prelude::*;

verus! {

/// A memory with `size` zero bytes appended.
pub open spec fn allocated(memory: Seq<u8>, size: nat) -> Seq<u8> {
    memory + Seq::new(size, |i: int| 0u8)
}

/// A memory without its last `size` bytes.
pub open spec fn deallocated(memory: Seq<u8>, size: nat) -> Seq<u8>
    recommends
        size <= memory.len(),
{
    memory.take(memory.len() - size)
}

/// What a read of `width` bytes at `addr` gives: the number that the bytes
/// encode, or a memory fault where the span does not lie within the memory.
pub open spec fn memory_load(memory: Seq<u8>, addr: u64, width: u64) -> Result<u64, Fault> {
    if addr + width <= memory.len() {
        Ok(le_load(memory, addr as nat, width as nat) as u64)
    } else {
        Err(Fault::Memory)
    }
}

/// What a write of the low `width` bytes of `value` at `addr` leaves: the
/// memory with those bytes replaced, or a memory fault where the span does
/// not lie within the memory.
pub open spec fn memory_store(memory: Seq<u8>, addr: u64, width: u64, value: u64) -> Result<
    Seq<u8>,
    Fault,
> {
    if addr + width <= memory.len() {
        Ok(le_store(memory, addr as nat, width as nat, value as nat))
    } else {
        Err(Fault::Memory)
    }
}

/// A byte region addressed from 0. Its view is the sequence of its bytes.
#[derive(Debug)]
pub struct RuntimeMemory {
    raw: Vec<u8>,
}

impl View for RuntimeMemory {
    type V = Seq<u8>;

    closed spec fn view(&self) -> Seq<u8> {
        self.raw@
    }
}

impl RuntimeMemory {
    /// An empty memory.
    pub fn new() -> (memory: RuntimeMemory)
        ensures
            memory@ == Seq::<u8>::empty(),
    {
        RuntimeMemory { raw: Vec::new() }
    }

    /// The number of bytes in the memory.
    pub fn len(&self) -> (len: usize)
        ensures
            len == self@.len(),
    {
        self.raw.len()
    }

    /// Appends `size` zero bytes. The bytes below the old end keep their
    /// offsets and values.
    pub fn allocate(&mut self, size: u64)
        ensures
            final(self)@ == allocated(old(self)@, size as nat),
    {
        let mut done: u64 = 0;
        while done < size
            invariant
                done <= size,
                self.raw@ == allocated(old(self)@, done as nat),
            decreases size - done,
        {
            self.raw.push(0);
            done = done + 1;
            assert(self.raw@ =~= allocated(old(self)@, done as nat));
        }
    }

    /// Removes the last `size` bytes; faults, and removes nothing, where the
    /// memory holds fewer.
    pub fn dealloc(&mut self, size: u64) -> (r: Result<(), Fault>)
        ensures
            size <= old(self)@.len() ==> r is Ok && final(self)@ == deallocated(
                old(self)@,
                size as nat,
            ),
            size > old(self)@.len() ==> r == Err::<(), Fault>(Fault::Memory) && final(self)@
                == old(self)@,
    {
        let len = self.raw.len();
        if size > len as u64 {
            return Err(Fault::Memory);
        }
        self.raw.truncate(len - size as usize);
        Ok(())
    }

    /// Reads the `width` bytes at `addr` as one little-endian number.
    pub(crate) fn load(&self, addr: u64, width: u64) -> (r: Result<u64, Fault>)
        requires
            width <= 8,
        ensures
            r == memory_load(self@, addr, width),
    {
        let len = self.raw.len() as u64;
        if addr > len || len - addr < width {
            return Err(Fault::Memory);
        }
        proof {
            lemma_le_value_bound(self@.subrange(addr as int, addr + width));
            lemma_pow256_monotonic(width as nat, 8);
            lemma_pow256_values();
        }
        Ok(read_le(&self.raw, addr as usize, width as usize))
    }

    /// Writes the low `width` bytes of `value` at `addr`, least significant
    /// byte first. A fault leaves the memory as it was.
    pub(crate) fn store(&mut self, addr: u64, width: u64, value: u64) -> (r: Result<(), Fault>)
        requires
            width <= 8,
        ensures
            match memory_store(old(self)@, addr, width, value) {
                Ok(memory) => r is Ok && final(self)@ == memory,
                Err(fault) => r == Err::<(), Fault>(fault) && final(self)@ == old(self)@,
            },
    {
        let len = self.raw.len() as u64;
        if addr > len || len - addr < width {
            return Err(Fault::Memory);
        }
        write_le(&mut self.raw, addr as usize, width as usize, value);
        Ok(())
    }

    /// Reads the byte at `start_pos`.
    pub fn local_get_u8(&self, start_pos: u64) -> (r: Result<u8, Fault>)
        ensures
            match r {
                Ok(value) => memory_load(self@, start_pos, 1) == Ok::<u64, Fault>(value as u64),
                Err(fault) => memory_load(self@, start_pos, 1) == Err::<u64, Fault>(fault),
            },
    {
        match self.load(start_pos, 1) {
            Ok(value) => {
                proof {
                    lemma_le_value_bound(self@.subrange(start_pos as int, start_pos + 1));
                    lemma_pow256_values();
                }
                Ok(value as u8)
            },
            Err(fault) => Err(fault),
        }
    }

    /// Writes the byte `value` at `start_pos`.
    pub fn local_save_u8(&mut self, value: u8, start_pos: u64) -> (r: Result<(), Fault>)
        ensures
            match memory_store(old(self)@, start_pos, 1, value as u64) {
                Ok(memory) => r is Ok && final(self)@ == memory,
                Err(fault) => r == Err::<(), Fault>(fault) && final(self)@ == old(self)@,
            },
    {
        self.store(start_pos, 1, value as u64)
    }

    /// Reads the two bytes at `start_pos` as a little-endian number.
    pub fn local_get_u16(&self, start_pos: u64) -> (r: Result<u16, Fault>)
        ensures
            match r {
                Ok(value) => memory_load(self@, start_pos, 2) == Ok::<u64, Fault>(value as u64),
                Err(fault) => memory_load(self@, start_pos, 2) == Err::<u64, Fault>(fault),
            },
    {
        match self.load(start_pos, 2) {
            Ok(value) => {
                proof {
                    lemma_le_value_bound(self@.subrange(start_pos as int, start_pos + 2));
                    lemma_pow256_values();
                }
                Ok(value as u16)
            },
            Err(fault) => Err(fault),
        }
    }

    /// Writes `value` at `start_pos` as two little-endian bytes.
    pub fn local_save_u16(&mut self, value: u16, start_pos: u64) -> (r: Result<(), Fault>)
        ensures
            match memory_store(old(self)@, start_pos, 2, value as u64) {
                Ok(memory) => r is Ok && final(self)@ == memory,
                Err(fault) => r == Err::<(), Fault>(fault) && final(self)@ == old(self)@,
            },
    {
        self.store(start_pos, 2, value as u64)
    }

    /// Reads the four bytes at `start_pos` as a little-endian number.
    pub fn local_get_u32(&self, start_pos: u64) -> (r: Result<u32, Fault>)
        ensures
            match r {
                Ok(value) => memory_load(self@, start_pos, 4) == Ok::<u64, Fault>(value as u64),
                Err(fault) => memory_load(self@, start_pos, 4) == Err::<u64, Fault>(fault),
            },
    {
        match self.load(start_pos, 4) {
            Ok(value) => {
                proof {
                    lemma_le_value_bound(self@.subrange(start_pos as int, start_pos + 4));
                    lemma_pow256_values();
                }
                Ok(value as u32)
            },
            Err(fault) => Err(fault),
        }
    }

    /// Writes `value` at `start_pos` as four little-endian bytes.
    pub fn local_save_u32(&mut self, value: u32, start_pos: u64) -> (r: Result<(), Fault>)
        ensures
            match memory_store(old(self)@, start_pos, 4, value as u64) {
                Ok(memory) => r is Ok && final(self)@ == memory,
                Err(fault) => r == Err::<(), Fault>(fault) && final(self)@ == old(self)@,
            },
    {
        self.store(start_pos, 4, value as u64)
    }

    /// Reads the eight bytes at `start_pos` as a little-endian number.
    pub fn local_get_u64(&self, start_pos: u64) -> (r: Result<u64, Fault>)
        ensures
            r == memory_load(self@, start_pos, 8),
    {
        self.load(start_pos, 8)
    }

    /// Writes `value` at `start_pos` as eight little-endian bytes.
    pub fn local_save_u64(&mut self, value: u64, start_pos: u64) -> (r: Result<(), Fault>)
        ensures
            match memory_store(old(self)@, start_pos, 8, value) {
                Ok(memory) => r is Ok && final(self)@ == memory,
                Err(fault) => r == Err::<(), Fault>(fault) && final(self)@ == old(self)@,
            },
    {
        self.store(start_pos, 8, value)
    }

    /// Writes the two's-complement word of `value` at `start_pos` as eight
    /// little-endian bytes.
    pub fn local_save_i64(&mut self, value: i64, start_pos: u64) -> (r: Result<(), Fault>)
        ensures
            match memory_store(old(self)@, start_pos, 8, as_word(value as int)) {
                Ok(memory) => r is Ok && final(self)@ == memory,
                Err(fault) => r == Err::<(), Fault>(fault) && final(self)@ == old(self)@,
            },
    {
        self.store(start_pos, 8, word_of(value))
    }
}

/// `allocate(n); deallocate(n)` leaves the memory as it was: the same length
/// and the same bytes. In between, the bytes below the old end are unchanged
/// and the new bytes are zero.
pub proof fn lemma_alloc_dealloc(memory: Seq<u8>, size: nat)
    ensures
        allocated(memory, size).len() == memory.len() + size,
        forall|i: int| 0 <= i < memory.len() ==> allocated(memory, size)[i] == memory[i],
        forall|i: int| memory.len() <= i < memory.len() + size ==> allocated(memory, size)[i] == 0,
        deallocated(allocated(memory, size), size) == memory,
{
    assert(deallocated(allocated(memory, size), size) =~= memory);
}

/// A load of `width` bytes, 1 to 8, at the address that `value` was stored
/// at with that width gives back the low `width` bytes of `value`: all of it
/// for a width of 8, and whatever fits the width for a narrower one. The
/// store changes no byte outside its span and keeps the memory's length.
pub proof fn lemma_store_load(memory: Seq<u8>, addr: u64, width: u64, value: u64)
    requires
        1 <= width <= 8,
        addr + width <= memory.len(),
    ensures
        memory_store(memory, addr, width, value) matches Ok(after) && {
            &&& after.len() == memory.len()
            &&& memory_load(after, addr, width) == Ok::<u64, Fault>(
                (value as nat % pow256(width as nat)) as u64,
            )
            &&& width == 8 ==> memory_load(after, addr, width) == Ok::<u64, Fault>(value)
            &&& value < pow256(width as nat) ==> memory_load(after, addr, width) == Ok::<
                u64,
                Fault,
            >(value)
            &&& forall|i: int|
                0 <= i < memory.len() && !(addr <= i < addr + width) ==> after[i] == memory[i]
        },
{
    lemma_le_load_of_le_store(memory, addr as nat, width as nat, value as nat);
    lemma_pow256_values();
    lemma_pow256_monotonic(width as nat, 8);
    lemma_pow256_positive(width as nat);
    let p = pow256(width as nat) as int;
    assert(value < p ==> value as int % p == value) by {
        if value < p {
            vstd::arithmetic::div_mod::lemma_small_mod(value as nat, p as nat);
        }
    }
}

} // verus!
