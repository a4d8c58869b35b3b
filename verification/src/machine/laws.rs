//! What holds of every execution: how the program counter moves, when the
//! machine ends, and that a load gives back what was stored.

use crate::endian::pow256;
use crate::instruction::Instructions;
use crate::machine::program_memory::ProgramView;
use crate::machine::runtime_memory::lemma_store_load;
use crate::machine::{Fault, MachineState, MachineView};
use vstd::prelude::*;

verus! {

impl MachineView {
    /// The target of the branch that the next step takes, and `None` where
    /// the next instruction is no branch or is a conditional branch whose
    /// condition does not hold.
    pub open spec fn branch_target(self, program: ProgramView) -> Option<nat> {
        match self.fetch(program) {
            Ok((ins, imm)) => if self.stack.len() < ins.spec_stack_demand() {
                None
            } else {
                match ins {
                    Instructions::J => Some(imm as nat),
                    Instructions::Jz => if self.stack.last() == 0 {
                        Some(imm as nat)
                    } else {
                        None
                    },
                    Instructions::Jnz => if self.stack.last() != 0 {
                        Some(imm as nat)
                    } else {
                        None
                    },
                    Instructions::Ja => Some(self.stack.last() as nat),
                    _ => None,
                }
            },
            Err(_) => None,
        }
    }

    /// Whether the machine has ended exactly where its program counter is at
    /// or past the end of the code.
    pub open spec fn ended_at_end(self, program: ProgramView) -> bool {
        self.state == MachineState::Ended <==> self.pc >= program.prog.len()
    }

    /// The machine after one step for each of `float_words`, each step with
    /// its float word, or the first fault.
    pub open spec fn run(self, program: ProgramView, float_words: Seq<u64>) -> Result<
        MachineView,
        Fault,
    >
        decreases float_words.len(),
    {
        if float_words.len() == 0 {
            Ok(self)
        } else {
            match self.step(program, float_words[0]) {
                Ok(after) => after.run(program, float_words.drop_first()),
                Err(fault) => Err(fault),
            }
        }
    }

    /// The number of code bytes, opcode and immediate, of the instruction that
    /// the next step executes, and 0 where it executes none.
    pub open spec fn next_width(self, program: ProgramView) -> nat {
        if self.state == MachineState::Running {
            match self.fetch(program) {
                Ok((ins, _)) => ins.spec_width() as nat,
                Err(_) => 0,
            }
        } else {
            0
        }
    }

    /// The number of code bytes of the instructions that `run` executes.
    pub open spec fn executed_width(self, program: ProgramView, float_words: Seq<u64>) -> nat
        decreases float_words.len(),
    {
        if float_words.len() == 0 {
            0
        } else {
            match self.step(program, float_words[0]) {
                Ok(after) => self.next_width(program) + after.executed_width(
                    program,
                    float_words.drop_first(),
                ),
                Err(_) => 0,
            }
        }
    }

    /// Whether one of the steps of `run` takes a branch.
    pub open spec fn takes_branch(self, program: ProgramView, float_words: Seq<u64>) -> bool
        decreases float_words.len(),
    {
        if float_words.len() == 0 {
            false
        } else {
            match self.step(program, float_words[0]) {
                Ok(after) => (self.state == MachineState::Running && self.branch_target(program)
                    is Some) || after.takes_branch(program, float_words.drop_first()),
                Err(_) => false,
            }
        }
    }
}

/// A step that executes an instruction leaves the program counter at the
/// branch target where it takes a branch, and otherwise past the opcode and
/// the immediate of the instruction. The machine has then ended exactly
/// where the program counter is at or past the end of the code.
pub proof fn lemma_step_program_counter(m: MachineView, program: ProgramView, float_word: u64)
    requires
        m.state == MachineState::Running,
        m.step(program, float_word) is Ok,
    ensures
        m.fetch(program) matches Ok((ins, _)) && m.step(program, float_word) matches Ok(after) && {
            &&& after.pc == match m.branch_target(program) {
                Some(target) => target,
                None => m.pc + ins.spec_width() as nat,
            }
            &&& after.ended_at_end(program)
        },
{
}

/// A machine that is interrupted or has ended stays as it is under a step.
pub proof fn lemma_halted_is_stable(m: MachineView, program: ProgramView, float_word: u64)
    requires
        m.state != MachineState::Running,
    ensures
        m.step(program, float_word) == Ok::<MachineView, Fault>(m),
{
}

/// Along an execution that takes no branch, the program counter advances by
/// the widths of the instructions executed: from a fresh machine it equals
/// their sum.
pub proof fn lemma_run_program_counter(m: MachineView, program: ProgramView, float_words: Seq<u64>)
    requires
        m.run(program, float_words) is Ok,
        !m.takes_branch(program, float_words),
    ensures
        m.run(program, float_words) matches Ok(after) && {
            &&& after.pc == m.pc + m.executed_width(program, float_words)
            &&& m.pc == 0 ==> after.pc == m.executed_width(program, float_words)
        },
    decreases float_words.len(),
{
    if float_words.len() > 0 {
        let after = m.step(program, float_words[0])->Ok_0;
        if m.state == MachineState::Running {
            lemma_step_program_counter(m, program, float_words[0]);
        }
        lemma_run_program_counter(after, program, float_words.drop_first());
    }
}

/// Once a running machine has made a step, it has ended exactly where its
/// program counter is at or past the end of the code, and this stays so
/// however many steps follow: it ends with the step that first takes the
/// program counter there, and executes nothing after.
pub proof fn lemma_run_ends_at_end(m: MachineView, program: ProgramView, float_words: Seq<u64>)
    requires
        m.run(program, float_words) is Ok,
        (float_words.len() >= 1 && m.state == MachineState::Running) || m.ended_at_end(program),
    ensures
        m.run(program, float_words) matches Ok(after) && after.ended_at_end(program),
    decreases float_words.len(),
{
    if float_words.len() > 0 {
        let after = m.step(program, float_words[0])->Ok_0;
        if m.state == MachineState::Running {
            lemma_step_program_counter(m, program, float_words[0]);
        }
        lemma_run_ends_at_end(after, program, float_words.drop_first());
    }
}

/// The instruction that stores `width` bytes, for the widths 1, 2, 4 and 8.
pub open spec fn store_of(width: u64) -> Instructions {
    if width == 1 {
        Instructions::Store8
    } else if width == 2 {
        Instructions::Store16
    } else if width == 4 {
        Instructions::Store32
    } else {
        Instructions::Store64
    }
}

/// The instruction that loads `width` bytes, for the widths 1, 2, 4 and 8.
pub open spec fn load_of(width: u64) -> Instructions {
    if width == 1 {
        Instructions::Load8
    } else if width == 2 {
        Instructions::Load16
    } else if width == 4 {
        Instructions::Load32
    } else {
        Instructions::Load64
    }
}

/// `push(x); push(addr); store; push(addr); load`, with the span at `addr`
/// within the memory, leaves `x` on the stack, reduced to the width of the
/// store: all of `x` for 8 bytes, and all of it for a narrower width where
/// it fits. The stack beneath and the bytes outside the span are as before.
pub proof fn lemma_store_then_load(
    m: MachineView,
    program: ProgramView,
    x: u64,
    addr: u64,
    width: u64,
    float_word: u64,
)
    requires
        width == 1 || width == 2 || width == 4 || width == 8,
        addr + width <= m.memory.len(),
    ensures
        (MachineView { stack: m.stack.push(x).push(addr), ..m }).execute(
            program,
            store_of(width),
            0,
            float_word,
        ) matches Ok(stored) && (MachineView { stack: stored.stack.push(addr), ..stored }).execute(
            program,
            load_of(width),
            0,
            float_word,
        ) matches Ok(loaded) && {
            &&& stored.stack == m.stack
            &&& stored.memory.len() == m.memory.len()
            &&& forall|i: int|
                0 <= i < m.memory.len() && !(addr <= i < addr + width) ==> stored.memory[i]
                    == m.memory[i]
            &&& loaded.memory == stored.memory
            &&& loaded.stack == m.stack.push((x as nat % pow256(width as nat)) as u64)
            &&& (width == 8 || x < pow256(width as nat)) ==> loaded.stack == m.stack.push(x)
        },
{
    lemma_store_load(m.memory, addr, width, x);
    let pushed = MachineView { stack: m.stack.push(x).push(addr), ..m };
    assert(pushed.stack.take(pushed.stack.len() - 2) =~= m.stack);
    let stored = pushed.execute(program, store_of(width), 0, float_word)->Ok_0;
    let again = MachineView { stack: stored.stack.push(addr), ..stored };
    assert(again.stack.take(again.stack.len() - 1) =~= m.stack);
}

} // verus!
