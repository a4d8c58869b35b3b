//! The execution engine and its storage components.

pub mod calculation_stack;
pub mod laws;
pub mod machine_actions;
pub mod program_memory;
pub mod return_stack;
pub mod runtime_memory;
pub mod word;

use crate::machine::calculation_stack::CalculationStack;
use crate::machine::return_stack::ReturnStack;
use crate::machine::runtime_memory::RuntimeMemory;
use crate::machine::word::{as_signed, as_word, signed_of, word_of};
use vstd::prelude::*;

verus! {

/// Why an execution session was aborted. A fault is fatal: the machine does
/// not retry or recover, and the instruction that raised it had no effect.
#[derive(Debug, Clone, Copy, PartialEq, Eq, Structural)]
pub enum Fault {
    /// A byte that encodes no instruction, or an opcode, immediate or data
    /// read that runs past the end of its region.
    Decode,
    /// A pop from an empty operand or return stack.
    StackUnderflow,
    /// A read or write outside the linear memory, or a deallocation of more
    /// bytes than it holds.
    Memory,
    /// An integer division or remainder whose divisor is zero or whose
    /// quotient does not fit in a signed word.
    Arithmetic,
}

/// Whether the machine executes instructions.
#[derive(Debug, Clone, Copy, PartialEq, Eq, Structural)]
pub enum MachineState {
    /// The next step executes an instruction.
    Running,
    /// An `Interupt` instruction paused the machine; it stays paused until
    /// the embedder resumes it.
    Interupted,
    /// The program counter reached the end of the code.
    Ended,
}

/// The mathematical view of a machine.
pub struct MachineView {
    /// The offset in the code of the next instruction.
    pub pc: nat,
    /// Whether the machine executes instructions.
    pub state: MachineState,
    /// The operand stack, from the bottom up.
    pub stack: Seq<u64>,
    /// The return stack, from the bottom up.
    pub return_stack: Seq<u64>,
    /// The linear memory.
    pub memory: Seq<u8>,
}

impl MachineView {
    /// A fresh machine: running at offset 0 with empty stacks and memory.
    pub open spec fn initial() -> MachineView {
        MachineView {
            pc: 0,
            state: MachineState::Running,
            stack: Seq::empty(),
            return_stack: Seq::empty(),
            memory: Seq::empty(),
        }
    }
}

/// A machine: a program counter, an execution state, the two stacks and the
/// linear memory. It holds no program; each step is given the program to
/// execute.
#[derive(Debug)]
pub struct Machine {
    pc: u64,
    state: MachineState,
    calculation_stack: CalculationStack,
    return_stack: ReturnStack,
    runtime_memory: RuntimeMemory,
}

impl View for Machine {
    type V = MachineView;

    closed spec fn view(&self) -> MachineView {
        MachineView {
            pc: self.pc as nat,
            state: self.state,
            stack: self.calculation_stack@,
            return_stack: self.return_stack@,
            memory: self.runtime_memory@,
        }
    }
}

impl Machine {
    /// A fresh machine.
    pub fn new() -> (machine: Machine)
        ensures
            machine@ == MachineView::initial(),
    {
        Machine {
            pc: 0u64,
            state: MachineState::Running,
            calculation_stack: CalculationStack::new(),
            return_stack: ReturnStack::new(),
            runtime_memory: RuntimeMemory::new(),
        }
    }

    /// Moves the program counter past one opcode byte.
    fn next(&mut self)
        requires
            old(self)@.pc < u64::MAX,
        ensures
            final(self)@ == (MachineView { pc: old(self)@.pc + 1, ..old(self)@ }),
    {
        self.pc += 1;
    }

    /// Moves the program counter past an immediate of `n` bytes.
    fn skip_im(&mut self, n: usize)
        requires
            old(self)@.pc + n <= u64::MAX,
        ensures
            final(self)@ == (MachineView { pc: old(self)@.pc + n as nat, ..old(self)@ }),
    {
        self.pc += n as u64;
    }

    /// Sets the machine running again, as after an interrupt.
    pub fn resume(&mut self)
        ensures
            final(self)@ == (MachineView { state: MachineState::Running, ..old(self)@ }),
    {
        self.state = MachineState::Running;
    }

    /// The execution state.
    pub fn state(&self) -> (state: MachineState)
        ensures
            state == self@.state,
    {
        self.state
    }

    /// The program counter: the offset in the code of the next instruction.
    pub fn pc(&self) -> (pc: u64)
        ensures
            pc == self@.pc,
    {
        self.pc
    }

    /// The operand stack.
    pub fn calculation_stack(&self) -> (stack: &CalculationStack)
        ensures
            stack@ == self@.stack,
    {
        &self.calculation_stack
    }

    /// The return stack.
    pub fn return_stack(&self) -> (stack: &ReturnStack)
        ensures
            stack@ == self@.return_stack,
    {
        &self.return_stack
    }

    /// The linear memory.
    pub fn runtime_memory(&self) -> (memory: &RuntimeMemory)
        ensures
            memory@ == self@.memory,
    {
        &self.runtime_memory
    }

    /// Takes the top word off the operand stack; faults on an empty stack.
    pub fn pop(&mut self) -> (r: Result<u64, Fault>)
        ensures
            old(self)@.stack.len() >= 1 ==> r == Ok::<u64, Fault>(old(self)@.stack.last())
                && final(self)@ == (MachineView {
                stack: old(self)@.stack.drop_last(),
                ..old(self)@
            }),
            old(self)@.stack.len() < 1 ==> r == Err::<u64, Fault>(Fault::StackUnderflow)
                && final(self)@ == old(self)@,
    {
        self.calculation_stack.pop()
    }

    /// Takes the top word off the operand stack and reads it as a
    /// two's-complement number; faults on an empty stack.
    pub fn pop_signed(&mut self) -> (r: Result<i64, Fault>)
        ensures
            old(self)@.stack.len() >= 1 ==> r == Ok::<i64, Fault>(
                as_signed(old(self)@.stack.last()),
            ) && final(self)@ == (MachineView {
                stack: old(self)@.stack.drop_last(),
                ..old(self)@
            }),
            old(self)@.stack.len() < 1 ==> r == Err::<i64, Fault>(Fault::StackUnderflow)
                && final(self)@ == old(self)@,
    {
        match self.calculation_stack.pop() {
            Ok(word) => Ok(signed_of(word)),
            Err(fault) => Err(fault),
        }
    }

    /// Pushes `v` on the operand stack.
    pub fn push(&mut self, v: u64)
        ensures
            final(self)@ == (MachineView { stack: old(self)@.stack.push(v), ..old(self)@ }),
    {
        self.calculation_stack.push(v);
    }

    /// Pushes the two's-complement word of `v` on the operand stack.
    pub fn push_signed(&mut self, v: i64)
        ensures
            final(self)@ == (MachineView {
                stack: old(self)@.stack.push(as_word(v as int)),
                ..old(self)@
            }),
    {
        self.calculation_stack.push(word_of(v));
    }

    /// Takes the top word off the return stack; faults on an empty stack.
    pub fn r_pop(&mut self) -> (r: Result<u64, Fault>)
        ensures
            old(self)@.return_stack.len() >= 1 ==> r == Ok::<u64, Fault>(old(self)@.return_stack.last())
                && final(self)@ == (MachineView {
                return_stack: old(self)@.return_stack.drop_last(),
                ..old(self)@
            }),
            old(self)@.return_stack.len() < 1 ==> r == Err::<u64, Fault>(Fault::StackUnderflow)
                && final(self)@ == old(self)@,
    {
        self.return_stack.pop()
    }

    /// Pushes `v` on the return stack.
    pub fn r_push(&mut self, v: u64)
        ensures
            final(self)@ == (MachineView { return_stack: old(self)@.return_stack.push(v), ..old(self)@ }),
    {
        self.return_stack.push(v);
    }
}

} // verus!
