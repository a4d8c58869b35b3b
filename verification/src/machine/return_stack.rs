//! The return stack: an auxiliary stack of words that the operand stack
//! exchanges single words with.

use crate::machine::Fault;
use vstd::prelude::*;

verus! {

/// A stack of 64-bit words. Its view lists the words from the bottom up.
#[derive(Debug)]
pub struct ReturnStack {
    raw: Vec<u64>,
}

impl View for ReturnStack {
    type V = Seq<u64>;

    closed spec fn view(&self) -> Seq<u64> {
        self.raw@
    }
}

impl ReturnStack {
    /// An empty stack.
    pub fn new() -> (stack: ReturnStack)
        ensures
            stack@ == Seq::<u64>::empty(),
    {
        ReturnStack { raw: Vec::new() }
    }

    /// The number of words on the stack.
    pub fn len(&self) -> (len: usize)
        ensures
            len == self@.len(),
    {
        self.raw.len()
    }

    /// The word `depth` places below the top, the top being at depth 0.
    pub fn peek(&self, depth: usize) -> (word: Option<u64>)
        ensures
            depth < self@.len() ==> word == Some(self@[self@.len() - 1 - depth]),
            depth >= self@.len() ==> word is None,
    {
        let len = self.raw.len();
        if depth < len {
            Some(self.raw[len - 1 - depth])
        } else {
            None
        }
    }

    /// Pushes `v` on top.
    pub fn push(&mut self, v: u64)
        ensures
            final(self)@ == old(self)@.push(v),
    {
        self.raw.push(v)
    }

    /// Takes the top word off; faults on an empty stack.
    pub fn pop(&mut self) -> (r: Result<u64, Fault>)
        ensures
            old(self)@.len() >= 1 ==> r == Ok::<u64, Fault>(old(self)@.last()) && final(self)@
                == old(self)@.drop_last(),
            old(self)@.len() < 1 ==> r == Err::<u64, Fault>(Fault::StackUnderflow) && final(self)@
                == old(self)@,
    {
        match self.raw.pop() {
            Some(v) => Ok(v),
            None => Err(Fault::StackUnderflow),
        }
    }
}

} // verus!
