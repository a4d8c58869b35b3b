//! The operand stack: the words that instructions take and leave.

use crate::machine::Fault;
use vstd::prelude::*;

verus! {

/// A stack with its top word pushed once more.
pub open spec fn duplicated(stack: Seq<u64>) -> Seq<u64>
    recommends
        stack.len() >= 1,
{
    stack.push(stack.last())
}

/// A stack with its top two words exchanged.
pub open spec fn swapped(stack: Seq<u64>) -> Seq<u64>
    recommends
        stack.len() >= 2,
{
    stack.drop_last().drop_last().push(stack.last()).push(stack[stack.len() - 2])
}

/// A stack with a copy of its second word pushed on top.
pub open spec fn overlaid(stack: Seq<u64>) -> Seq<u64>
    recommends
        stack.len() >= 2,
{
    stack.push(stack[stack.len() - 2])
}

/// A stack of 64-bit words. Its view lists the words from the bottom up, so
/// that the last word of the view is the top of the stack.
#[derive(Debug)]
pub struct CalculationStack {
    raw: Vec<u64>,
}

impl View for CalculationStack {
    type V = Seq<u64>;

    closed spec fn view(&self) -> Seq<u64> {
        self.raw@
    }
}

impl CalculationStack {
    /// An empty stack.
    pub fn new() -> (stack: CalculationStack)
        ensures
            stack@ == Seq::<u64>::empty(),
    {
        CalculationStack { raw: Vec::new() }
    }

    /// The number of words on the stack.
    pub fn len(&self) -> (len: usize)
        ensures
            len == self@.len(),
    {
        self.raw.len()
    }

    /// The word `depth` places below the top, the top being at depth 0.
    pub fn peek(&self, depth: usize) -> (word: Option<u64>)
        ensures
            depth < self@.len() ==> word == Some(self@[self@.len() - 1 - depth]),
            depth >= self@.len() ==> word is None,
    {
        let len = self.raw.len();
        if depth < len {
            Some(self.raw[len - 1 - depth])
        } else {
            None
        }
    }

    /// Pushes `v` on top.
    pub fn push(&mut self, v: u64)
        ensures
            final(self)@ == old(self)@.push(v),
    {
        self.raw.push(v)
    }

    /// Takes the top word off; faults on an empty stack.
    pub fn pop(&mut self) -> (r: Result<u64, Fault>)
        ensures
            old(self)@.len() >= 1 ==> r == Ok::<u64, Fault>(old(self)@.last()) && final(self)@
                == old(self)@.drop_last(),
            old(self)@.len() < 1 ==> r == Err::<u64, Fault>(Fault::StackUnderflow) && final(self)@
                == old(self)@,
    {
        match self.raw.pop() {
            Some(v) => Ok(v),
            None => Err(Fault::StackUnderflow),
        }
    }

    /// Drops the top word; faults on an empty stack.
    pub fn discard(&mut self) -> (r: Result<(), Fault>)
        ensures
            old(self)@.len() >= 1 ==> r is Ok && final(self)@ == old(self)@.drop_last(),
            old(self)@.len() < 1 ==> r == Err::<(), Fault>(Fault::StackUnderflow) && final(self)@
                == old(self)@,
    {
        match self.raw.pop() {
            Some(_) => Ok(()),
            None => Err(Fault::StackUnderflow),
        }
    }

    /// Pushes a copy of the top word; faults on an empty stack.
    pub fn dup(&mut self) -> (r: Result<(), Fault>)
        ensures
            old(self)@.len() >= 1 ==> r is Ok && final(self)@ == duplicated(old(self)@),
            old(self)@.len() < 1 ==> r == Err::<(), Fault>(Fault::StackUnderflow) && final(self)@
                == old(self)@,
    {
        let len = self.raw.len();
        if len < 1 {
            return Err(Fault::StackUnderflow);
        }
        let a = self.raw[len - 1];
        self.raw.push(a);
        Ok(())
    }

    /// Exchanges the top two words; faults where fewer than two are present.
    pub fn swap(&mut self) -> (r: Result<(), Fault>)
        ensures
            old(self)@.len() >= 2 ==> r is Ok && final(self)@ == swapped(old(self)@),
            old(self)@.len() < 2 ==> r == Err::<(), Fault>(Fault::StackUnderflow) && final(self)@
                == old(self)@,
    {
        let len = self.raw.len();
        if len < 2 {
            return Err(Fault::StackUnderflow);
        }
        let a = self.raw[len - 1];
        let b = self.raw[len - 2];
        self.raw[len - 2] = a;
        self.raw[len - 1] = b;
        assert(self.raw@ =~= swapped(old(self)@));
        Ok(())
    }

    /// Pushes a copy of the second word, so that a stack that ends in
    /// `b, a` ends in `b, a, b`; faults where fewer than two are present.
    pub fn over(&mut self) -> (r: Result<(), Fault>)
        ensures
            old(self)@.len() >= 2 ==> r is Ok && final(self)@ == overlaid(old(self)@),
            old(self)@.len() < 2 ==> r == Err::<(), Fault>(Fault::StackUnderflow) && final(self)@
                == old(self)@,
    {
        let len = self.raw.len();
        if len < 2 {
            return Err(Fault::StackUnderflow);
        }
        let b = self.raw[len - 2];
        self.raw.push(b);
        Ok(())
    }
}

/// After `push(x); dup; pop; pop` the stack is what `push(x); pop` leaves:
/// the stack from before the push.
pub proof fn lemma_dup_pop_pop(stack: Seq<u64>, x: u64)
    ensures
        duplicated(stack.push(x)).drop_last().drop_last() == stack.push(x).drop_last(),
        stack.push(x).drop_last() == stack,
{
    assert(duplicated(stack.push(x)).drop_last() =~= stack.push(x));
    assert(stack.push(x).drop_last() =~= stack);
}

/// After `push(a); push(b); swap` the top word is `a` and `b` lies beneath
/// it, over the stack from before.
pub proof fn lemma_push_push_swap(stack: Seq<u64>, a: u64, b: u64)
    ensures
        swapped(stack.push(a).push(b)) == stack.push(b).push(a),
{
    assert(swapped(stack.push(a).push(b)) =~= stack.push(b).push(a));
}

/// A second `swap` undoes the first.
pub proof fn lemma_swap_swap(stack: Seq<u64>)
    requires
        stack.len() >= 2,
    ensures
        swapped(stack).len() == stack.len(),
        swapped(swapped(stack)) == stack,
{
    assert(swapped(swapped(stack)) =~= stack);
}

} // verus!
