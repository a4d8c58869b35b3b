//! Assembling code: appending opcodes and little-endian immediates.

use crate::endian::{append_le, le_bytes};
use crate::instruction::Instructions;
use vstd::prelude::*;

verus! {

/// A growing code region. Each method appends to it and hands the region
/// back, so that calls can be chained.
pub trait ProgramMaker {
    /// The code assembled so far.
    spec fn code(&self) -> Seq<u8>;

    /// Appends the opcode of `ins`.
    fn add_ins(&mut self, ins: Instructions) -> (ret: &mut Self)
        ensures
            ret.code() == old(self).code().push(ins.spec_opcode()),
            final(self).code() == final(ret).code(),
    ;

    /// Appends a one-byte immediate.
    fn add_im8(&mut self, im: u8) -> (ret: &mut Self)
        ensures
            ret.code() == old(self).code() + le_bytes(im as nat, 1),
            final(self).code() == final(ret).code(),
    ;

    /// Appends a two-byte immediate, least significant byte first.
    fn add_im16(&mut self, im: u16) -> (ret: &mut Self)
        ensures
            ret.code() == old(self).code() + le_bytes(im as nat, 2),
            final(self).code() == final(ret).code(),
    ;

    /// Appends a four-byte immediate, least significant byte first.
    fn add_im32(&mut self, im: u32) -> (ret: &mut Self)
        ensures
            ret.code() == old(self).code() + le_bytes(im as nat, 4),
            final(self).code() == final(ret).code(),
    ;

    /// Appends an eight-byte immediate, least significant byte first.
    fn add_im64(&mut self, im: u64) -> (ret: &mut Self)
        ensures
            ret.code() == old(self).code() + le_bytes(im as nat, 8),
            final(self).code() == final(ret).code(),
    ;
}

impl ProgramMaker for Vec<u8> {
    open spec fn code(&self) -> Seq<u8> {
        self@
    }

    fn add_ins(&mut self, ins: Instructions) -> (ret: &mut Self) {
        self.push(ins.opcode());
        self
    }

    fn add_im8(&mut self, im: u8) -> (ret: &mut Self) {
        append_le(self, 1, im as u64);
        self
    }

    fn add_im16(&mut self, im: u16) -> (ret: &mut Self) {
        append_le(self, 2, im as u64);
        self
    }

    fn add_im32(&mut self, im: u32) -> (ret: &mut Self) {
        append_le(self, 4, im as u64);
        self
    }

    fn add_im64(&mut self, im: u64) -> (ret: &mut Self) {
        append_le(self, 8, im);
        self
    }
}

} // verus!
