//! The program store: the code region, with opcodes and their inline
//! immediates, and the data region of constants. Both are fixed once the
//! store is built.

use crate::endian::{le_load, lemma_le_value_bound, lemma_pow256_values, read_le};
use crate::instruction::Instructions;
use crate::machine::Fault;
use vstd::prelude::*;

verus! {

/// The two byte regions of a program.
pub struct ProgramView {
    /// The code: opcodes, each followed at once by its immediate.
    pub prog: Seq<u8>,
    /// The constants that the data-load instructions read.
    pub data: Seq<u8>,
}

/// What decoding the opcode at `index` gives: the instruction that the byte
/// there encodes, or a decode fault where `index` lies past the end of the
/// code or the byte encodes no instruction.
pub open spec fn opcode_at(prog: Seq<u8>, index: nat) -> Result<Instructions, Fault> {
    if index < prog.len() {
        match Instructions::spec_of_opcode(prog[index as int]) {
            Some(ins) => Ok(ins),
            None => Err(Fault::Decode),
        }
    } else {
        Err(Fault::Decode)
    }
}

/// What a read of `width` bytes at `index` in a region of the program gives:
/// the number that the bytes encode, least significant byte first, or a
/// decode fault where the span runs past the end of the region.
pub open spec fn region_read(region: Seq<u8>, index: nat, width: nat) -> Result<u64, Fault> {
    if index + width <= region.len() {
        Ok(le_load(region, index, width) as u64)
    } else {
        Err(Fault::Decode)
    }
}

/// A program: its code and its data.
#[derive(Debug)]
pub struct ProgramMemory {
    prog: Vec<u8>,
    data: Vec<u8>,
}

impl View for ProgramMemory {
    type V = ProgramView;

    closed spec fn view(&self) -> ProgramView {
        ProgramView { prog: self.prog@, data: self.data@ }
    }
}

/// Reads `width` bytes of `region` at `index`.
fn read_region(region: &Vec<u8>, index: u64, width: u64) -> (r: Result<u64, Fault>)
    requires
        width <= 8,
    ensures
        r == region_read(region@, index as nat, width as nat),
{
    let len = region.len() as u64;
    if index > len || len - index < width {
        return Err(Fault::Decode);
    }
    Ok(read_le(region, index as usize, width as usize))
}

impl ProgramMemory {
    /// A program with the code `prog` and the constants `data`.
    pub fn new(prog: Vec<u8>, data: Vec<u8>) -> (program: ProgramMemory)
        ensures
            program@ == (ProgramView { prog: prog@, data: data@ }),
    {
        ProgramMemory { prog, data }
    }

    /// Both regions of a program fit in the address space.
    pub proof fn lemma_regions_fit(&self)
        ensures
            self@.prog.len() <= usize::MAX,
            self@.data.len() <= usize::MAX,
    {
        assert(self.prog@.len() == self.prog.len());
        assert(self.data@.len() == self.data.len());
    }

    /// The length of the code in bytes.
    pub fn prog_len(&self) -> (len: usize)
        ensures
            len == self@.prog.len(),
    {
        self.prog.len()
    }

    /// The length of the data in bytes.
    pub fn data_len(&self) -> (len: usize)
        ensures
            len == self@.data.len(),
    {
        self.data.len()
    }

    /// Decodes the opcode at `index` in the code.
    pub fn get_opcode_at(&self, index: u64) -> (r: Result<Instructions, Fault>)
        ensures
            r == opcode_at(self@.prog, index as nat),
    {
        if index >= self.prog.len() as u64 {
            return Err(Fault::Decode);
        }
        match Instructions::of_opcode(self.prog[index as usize]) {
            Some(ins) => Ok(ins),
            None => Err(Fault::Decode),
        }
    }

    /// Reads an immediate of `width` bytes at `index` in the code.
    pub(crate) fn get_im_at(&self, index: u64, width: u64) -> (r: Result<u64, Fault>)
        requires
            width <= 8,
        ensures
            r == region_read(self@.prog, index as nat, width as nat),
    {
        read_region(&self.prog, index, width)
    }

    /// Reads a constant of `width` bytes at `index` in the data.
    pub(crate) fn get_data_at(&self, index: u64, width: u64) -> (r: Result<u64, Fault>)
        requires
            width <= 8,
        ensures
            r == region_read(self@.data, index as nat, width as nat),
    {
        read_region(&self.data, index, width)
    }

    /// Reads the byte at `index` in the code as an immediate.
    pub fn get_im_u8_at(&self, index: u64) -> (r: Result<u8, Fault>)
        ensures
            match r {
                Ok(value) => region_read(self@.prog, index as nat, 1) == Ok::<u64, Fault>(
                    value as u64,
                ),
                Err(fault) => region_read(self@.prog, index as nat, 1) == Err::<u64, Fault>(
                    fault,
                ),
            },
    {
        match read_region(&self.prog, index, 1) {
            Ok(value) => {
                proof {
                    lemma_le_value_bound(self@.prog.subrange(index as int, index + 1));
                    lemma_pow256_values();
                }
                Ok(value as u8)
            },
            Err(fault) => Err(fault),
        }
    }

    /// Reads the two bytes at `index` in the code as a little-endian immediate.
    pub fn get_im_u16_at(&self, index: u64) -> (r: Result<u16, Fault>)
        ensures
            match r {
                Ok(value) => region_read(self@.prog, index as nat, 2) == Ok::<u64, Fault>(
                    value as u64,
                ),
                Err(fault) => region_read(self@.prog, index as nat, 2) == Err::<u64, Fault>(
                    fault,
                ),
            },
    {
        match read_region(&self.prog, index, 2) {
            Ok(value) => {
                proof {
                    lemma_le_value_bound(self@.prog.subrange(index as int, index + 2));
                    lemma_pow256_values();
                }
                Ok(value as u16)
            },
            Err(fault) => Err(fault),
        }
    }

    /// Reads the four bytes at `index` in the code as a little-endian immediate.
    pub fn get_im_u32_at(&self, index: u64) -> (r: Result<u32, Fault>)
        ensures
            match r {
                Ok(value) => region_read(self@.prog, index as nat, 4) == Ok::<u64, Fault>(
                    value as u64,
                ),
                Err(fault) => region_read(self@.prog, index as nat, 4) == Err::<u64, Fault>(
                    fault,
                ),
            },
    {
        match read_region(&self.prog, index, 4) {
            Ok(value) => {
                proof {
                    lemma_le_value_bound(self@.prog.subrange(index as int, index + 4));
                    lemma_pow256_values();
                }
                Ok(value as u32)
            },
            Err(fault) => Err(fault),
        }
    }

    /// Reads the eight bytes at `index` in the code as a little-endian immediate.
    pub fn get_im_u64_at(&self, index: u64) -> (r: Result<u64, Fault>)
        ensures
            r == region_read(self@.prog, index as nat, 8),
    {
        read_region(&self.prog, index, 8)
    }

    /// Reads the byte at `index` in the data as a constant.
    pub fn get_data_u8(&self, index: u64) -> (r: Result<u8, Fault>)
        ensures
            match r {
                Ok(value) => region_read(self@.data, index as nat, 1) == Ok::<u64, Fault>(
                    value as u64,
                ),
                Err(fault) => region_read(self@.data, index as nat, 1) == Err::<u64, Fault>(
                    fault,
                ),
            },
    {
        match read_region(&self.data, index, 1) {
            Ok(value) => {
                proof {
                    lemma_le_value_bound(self@.data.subrange(index as int, index + 1));
                    lemma_pow256_values();
                }
                Ok(value as u8)
            },
            Err(fault) => Err(fault),
        }
    }

    /// Reads the two bytes at `index` in the data as a little-endian constant.
    pub fn get_data_u16(&self, index: u64) -> (r: Result<u16, Fault>)
        ensures
            match r {
                Ok(value) => region_read(self@.data, index as nat, 2) == Ok::<u64, Fault>(
                    value as u64,
                ),
                Err(fault) => region_read(self@.data, index as nat, 2) == Err::<u64, Fault>(
                    fault,
                ),
            },
    {
        match read_region(&self.data, index, 2) {
            Ok(value) => {
                proof {
                    lemma_le_value_bound(self@.data.subrange(index as int, index + 2));
                    lemma_pow256_values();
                }
                Ok(value as u16)
            },
            Err(fault) => Err(fault),
        }
    }

    /// Reads the four bytes at `index` in the data as a little-endian constant.
    pub fn get_data_u32(&self, index: u64) -> (r: Result<u32, Fault>)
        ensures
            match r {
                Ok(value) => region_read(self@.data, index as nat, 4) == Ok::<u64, Fault>(
                    value as u64,
                ),
                Err(fault) => region_read(self@.data, index as nat, 4) == Err::<u64, Fault>(
                    fault,
                ),
            },
    {
        match read_region(&self.data, index, 4) {
            Ok(value) => {
                proof {
                    lemma_le_value_bound(self@.data.subrange(index as int, index + 4));
                    lemma_pow256_values();
                }
                Ok(value as u32)
            },
            Err(fault) => Err(fault),
        }
    }

    /// Reads the eight bytes at `index` in the data as a little-endian constant.
    pub fn get_data_u64_at(&self, index: u64) -> (r: Result<u64, Fault>)
        ensures
            r == region_read(self@.data, index as nat, 8),
    {
        read_region(&self.data, index, 8)
    }
}

} // verus!
