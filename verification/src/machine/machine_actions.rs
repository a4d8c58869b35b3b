//! One step of the machine: fetch, decode, execute.
//!
//! `MachineView::step` says what a step does, as a function of the
//! machine, the program and the word that the float unit supplies.
//! `Machine::step` performs it. A fault leaves the machine as it was.
//!
//! The program counter follows one rule for every instruction: a taken
//! branch sets it to the branch target, and anything else moves it past the
//! opcode and its immediate. The end of the program is looked for after the
//! instruction has run, never before.
//!
//! The machine holds no floating-point arithmetic. An instruction on
//! doubles takes its operands from the stack as bit patterns, and the word
//! it pushes is the one a float unit gave for them, which `Machine::step`
//! takes as an argument and `Machine::run_program` asks of its caller's
//! float unit.

use crate::instruction::Instructions;
use crate::machine::calculation_stack::{duplicated, overlaid, swapped};
use crate::machine::program_memory::{opcode_at, region_read, ProgramMemory, ProgramView};
use crate::machine::runtime_memory::{allocated, deallocated, memory_load, memory_store};
use crate::machine::word::{integer, integer_result};
use crate::machine::{Fault, Machine, MachineState, MachineView};
use vstd::prelude::*;

verus! {

impl MachineView {
    /// The float operation that the next step needs the result of, where the
    /// next step executes an instruction on doubles: the instruction, the
    /// word `a` on top of the stack and the word `b` beneath it (0 where the
    /// instruction takes one operand). `None` where the next step needs no
    /// float result: the machine is not running, the opcode does not decode,
    /// the instruction is not one on doubles, or its operands are missing.
    pub open spec fn float_request(self, program: ProgramView) -> Option<(Instructions, u64, u64)> {
        if self.state != MachineState::Running {
            None
        } else {
            match opcode_at(program.prog, self.pc) {
                Ok(ins) => if ins.spec_is_float() && self.stack.len() >= ins.spec_stack_demand() {
                    Some(
                        (
                            ins,
                            self.stack.last(),
                            if ins.spec_stack_demand() == 2 {
                                self.stack[self.stack.len() - 2]
                            } else {
                                0
                            },
                        ),
                    )
                } else {
                    None
                },
                Err(_) => None,
            }
        }
    }

    /// The machine after the instruction `ins`, decoded at the program
    /// counter with the immediate `imm`, or the fault that the instruction
    /// raises. `a` is the word on top of the stack and `b` the word beneath
    /// it; the instruction takes as many of them as it demands.
    pub open spec fn execute(
        self,
        program: ProgramView,
        ins: Instructions,
        imm: u64,
        float_word: u64,
    ) -> Result<MachineView, Fault> {
        let next = self.pc + ins.spec_width() as nat;
        let depth = self.stack.len();
        if depth < ins.spec_stack_demand() {
            Err(Fault::StackUnderflow)
        } else {
            let a = self.stack[depth - 1];
            let b = self.stack[depth - 2];
            let rest = self.stack.take(depth - ins.spec_stack_demand());
            match ins {
                Instructions::Nop => Ok(MachineView { pc: next, ..self }),
                Instructions::Interupt => Ok(
                    MachineView { pc: next, state: MachineState::Interupted, ..self },
                ),
                Instructions::FromR => if self.return_stack.len() < 1 {
                    Err(Fault::StackUnderflow)
                } else {
                    Ok(
                        MachineView {
                            pc: next,
                            stack: self.stack.push(self.return_stack.last()),
                            return_stack: self.return_stack.drop_last(),
                            ..self
                        },
                    )
                },
                Instructions::ToR => Ok(
                    MachineView { pc: next, stack: rest, return_stack: self.return_stack.push(a), ..self },
                ),
                Instructions::Swap => Ok(MachineView { pc: next, stack: swapped(self.stack), ..self }),
                Instructions::Over => Ok(
                    MachineView { pc: next, stack: overlaid(self.stack), ..self },
                ),
                Instructions::Dup => Ok(
                    MachineView { pc: next, stack: duplicated(self.stack), ..self },
                ),
                Instructions::Discard => Ok(MachineView { pc: next, stack: rest, ..self }),
                Instructions::Im8
                | Instructions::Im16
                | Instructions::Im32
                | Instructions::Im64 => Ok(
                    MachineView { pc: next, stack: self.stack.push(imm), ..self },
                ),
                Instructions::Store8
                | Instructions::Store16
                | Instructions::Store32
                | Instructions::Store64 => match memory_store(
                    self.memory,
                    a,
                    ins.spec_access_width(),
                    b,
                ) {
                    Ok(memory) => Ok(MachineView { pc: next, stack: rest, memory, ..self }),
                    Err(fault) => Err(fault),
                },
                Instructions::Load8
                | Instructions::Load16
                | Instructions::Load32
                | Instructions::Load64 => match memory_load(
                    self.memory,
                    a,
                    ins.spec_access_width(),
                ) {
                    Ok(word) => Ok(MachineView { pc: next, stack: rest.push(word), ..self }),
                    Err(fault) => Err(fault),
                },
                Instructions::Alloc => Ok(
                    MachineView { pc: next, memory: allocated(self.memory, imm as nat), ..self },
                ),
                Instructions::Dealloc => if imm > self.memory.len() {
                    Err(Fault::Memory)
                } else {
                    Ok(
                        MachineView {
                            pc: next,
                            memory: deallocated(self.memory, imm as nat),
                            ..self
                        },
                    )
                },
                Instructions::LoadData8
                | Instructions::LoadData16
                | Instructions::LoadData32
                | Instructions::LoadData64 => match region_read(
                    program.data,
                    a as nat,
                    ins.spec_access_width() as nat,
                ) {
                    Ok(word) => Ok(MachineView { pc: next, stack: rest.push(word), ..self }),
                    Err(fault) => Err(fault),
                },
                Instructions::J => Ok(MachineView { pc: imm as nat, ..self }),
                Instructions::Jz => Ok(
                    MachineView {
                        pc: if a == 0 {
                            imm as nat
                        } else {
                            next
                        },
                        stack: rest,
                        ..self
                    },
                ),
                Instructions::Jnz => Ok(
                    MachineView {
                        pc: if a != 0 {
                            imm as nat
                        } else {
                            next
                        },
                        stack: rest,
                        ..self
                    },
                ),
                Instructions::Ja => Ok(MachineView { pc: a as nat, stack: rest, ..self }),
                // Every other instruction computes one word from its operands,
                // by integer arithmetic or on doubles.
                _ => if ins.spec_is_integer() {
                    match integer_result(ins, a, b) {
                        Ok(word) => Ok(MachineView { pc: next, stack: rest.push(word), ..self }),
                        Err(fault) => Err(fault),
                    }
                } else {
                    Ok(MachineView { pc: next, stack: rest.push(float_word), ..self })
                },
            }
        }
    }

    /// What decoding at the program counter gives: the instruction there and
    /// the immediate that follows its opcode (0 where it has none), or a
    /// decode fault.
    pub open spec fn fetch(self, program: ProgramView) -> Result<(Instructions, u64), Fault> {
        match opcode_at(program.prog, self.pc) {
            Err(fault) => Err(fault),
            Ok(ins) => match region_read(
                program.prog,
                self.pc + 1,
                ins.spec_immediate_width() as nat,
            ) {
                Err(fault) => Err(fault),
                Ok(imm) => Ok((ins, imm)),
            },
        }
    }

    /// The machine after one step, or the fault that the step raises.
    ///
    /// A machine that is not running stays as it is. A running machine
    /// decodes the instruction at the program counter, executes it, and ends
    /// where the program counter has then reached the end of the code.
    /// `float_word` is the word that the float unit gave for
    /// `float_request`; no other instruction uses it.
    pub open spec fn step(self, program: ProgramView, float_word: u64) -> Result<MachineView, Fault> {
        if self.state != MachineState::Running {
            Ok(self)
        } else {
            match self.fetch(program) {
                Err(fault) => Err(fault),
                Ok((ins, imm)) => match self.execute(program, ins, imm, float_word) {
                    Err(fault) => Err(fault),
                    Ok(after) => Ok(
                        if after.pc >= program.prog.len() {
                            MachineView { state: MachineState::Ended, ..after }
                        } else {
                            after
                        },
                    ),
                },
            }
        }
    }
}

impl Machine {
    /// Sets the program counter to a branch target.
    fn jump(&mut self, target: u64)
        ensures
            final(self)@ == (MachineView { pc: target as nat, ..old(self)@ }),
    {
        self.pc = target;
    }

    /// Moves the program counter past the instruction `ins`.
    fn advance(&mut self, ins: Instructions)
        requires
            old(self)@.pc + ins.spec_width() <= u64::MAX,
        ensures
            final(self)@ == (MachineView {
                pc: old(self)@.pc + ins.spec_width() as nat,
                ..old(self)@
            }),
    {
        self.skip_im(ins.immediate_width() as usize);
        self.next();
    }

    /// Takes `demand` words, at most two, off the operand stack.
    fn take_operands(&mut self, demand: u64)
        requires
            demand <= 2,
            demand <= old(self)@.stack.len(),
        ensures
            final(self)@ == (MachineView {
                stack: old(self)@.stack.take(old(self)@.stack.len() - demand),
                ..old(self)@
            }),
    {
        if demand >= 1 {
            let _ = self.pop();
        }
        if demand >= 2 {
            let _ = self.pop();
        }
        assert(self@.stack =~= old(self)@.stack.take(old(self)@.stack.len() - demand));
    }

    /// Decodes the instruction at the program counter and its immediate.
    fn fetch(&self, program: &ProgramMemory) -> (r: Result<(Instructions, u64), Fault>)
        ensures
            r == self@.fetch(program@),
            r matches Ok((ins, _)) ==> self@.pc + ins.spec_width() <= u64::MAX,
    {
        proof {
            program.lemma_regions_fit();
        }
        let ins = program.get_opcode_at(self.pc)?;
        match program.get_im_at(self.pc + 1, ins.immediate_width()) {
            Ok(imm) => Ok((ins, imm)),
            Err(fault) => Err(fault),
        }
    }

    /// Executes an instruction that moves words between the stacks or
    /// pushes an immediate.
    fn execute_stack(&mut self, ins: Instructions, imm: u64) -> (r: Result<(), Fault>)
        requires
            old(self)@.pc + ins.spec_width() <= u64::MAX,
            ins == Instructions::Nop || ins == Instructions::Interupt || ins == Instructions::FromR
                || ins == Instructions::ToR || ins == Instructions::Swap || ins
                == Instructions::Over || ins == Instructions::Dup || ins == Instructions::Discard
                || ins == Instructions::Im8 || ins == Instructions::Im16 || ins
                == Instructions::Im32 || ins == Instructions::Im64,
        ensures
            forall|program: ProgramView, float_word: u64|
                match #[trigger] old(self)@.execute(program, ins, imm, float_word) {
                    Ok(after) => r is Ok && final(self)@ == after,
                    Err(fault) => r == Err::<(), Fault>(fault) && final(self)@ == old(self)@,
                },
    {
        match ins {
            Instructions::Interupt => {
                self.state = MachineState::Interupted;
            },
            Instructions::FromR => {
                let word = self.r_pop()?;
                self.push(word);
            },
            Instructions::ToR => {
                let word = self.pop()?;
                self.r_push(word);
            },
            Instructions::Swap => {
                self.calculation_stack.swap()?;
            },
            Instructions::Over => {
                self.calculation_stack.over()?;
            },
            Instructions::Dup => {
                self.calculation_stack.dup()?;
            },
            Instructions::Discard => {
                self.calculation_stack.discard()?;
            },
            Instructions::Im8 | Instructions::Im16 | Instructions::Im32 | Instructions::Im64 => {
                self.push(imm);
            },
            _ => {},
        }
        self.advance(ins);
        Ok(())
    }

    /// Executes an instruction that reads or writes the linear memory, grows
    /// or shrinks it, or reads the data region.
    fn execute_memory(&mut self, program: &ProgramMemory, ins: Instructions, imm: u64) -> (r:
        Result<(), Fault>)
        requires
            old(self)@.pc + ins.spec_width() <= u64::MAX,
            ins.spec_access_width() != 0 || ins == Instructions::Alloc || ins
                == Instructions::Dealloc,
        ensures
            forall|float_word: u64|
                match #[trigger] old(self)@.execute(program@, ins, imm, float_word) {
                    Ok(after) => r is Ok && final(self)@ == after,
                    Err(fault) => r == Err::<(), Fault>(fault) && final(self)@ == old(self)@,
                },
    {
        let demand = ins.stack_demand();
        if (self.calculation_stack.len() as u64) < demand {
            return Err(Fault::StackUnderflow);
        }
        let a = match self.calculation_stack.peek(0) {
            Some(word) => word,
            None => 0,
        };
        let b = match self.calculation_stack.peek(1) {
            Some(word) => word,
            None => 0,
        };
        match ins {
            Instructions::Store8
            | Instructions::Store16
            | Instructions::Store32
            | Instructions::Store64 => {
                self.runtime_memory.store(a, ins.access_width(), b)?;
                self.take_operands(demand);
            },
            Instructions::Load8
            | Instructions::Load16
            | Instructions::Load32
            | Instructions::Load64 => {
                let word = self.runtime_memory.load(a, ins.access_width())?;
                self.take_operands(demand);
                self.push(word);
            },
            Instructions::LoadData8
            | Instructions::LoadData16
            | Instructions::LoadData32
            | Instructions::LoadData64 => {
                let word = program.get_data_at(a, ins.access_width())?;
                self.take_operands(demand);
                self.push(word);
            },
            Instructions::Alloc => {
                self.runtime_memory.allocate(imm);
            },
            _ => {
                self.runtime_memory.dealloc(imm)?;
            },
        }
        self.advance(ins);
        Ok(())
    }

    /// Executes a branch: to the target where it is taken, and past the
    /// instruction where it is not.
    fn execute_branch(&mut self, ins: Instructions, imm: u64) -> (r: Result<(), Fault>)
        requires
            old(self)@.pc + ins.spec_width() <= u64::MAX,
            ins == Instructions::J || ins == Instructions::Jz || ins == Instructions::Jnz || ins
                == Instructions::Ja,
        ensures
            forall|program: ProgramView, float_word: u64|
                match #[trigger] old(self)@.execute(program, ins, imm, float_word) {
                    Ok(after) => r is Ok && final(self)@ == after,
                    Err(fault) => r == Err::<(), Fault>(fault) && final(self)@ == old(self)@,
                },
    {
        let (taken, target) = match ins {
            Instructions::J => (true, imm),
            _ => {
                let a = self.pop()?;
                match ins {
                    Instructions::Jz => (a == 0, imm),
                    Instructions::Jnz => (a != 0, imm),
                    _ => (true, a),
                }
            },
        };
        if taken {
            self.jump(target);
        } else {
            self.advance(ins);
        }
        Ok(())
    }

    /// Executes an instruction that computes one word from its operands: by
    /// integer arithmetic, or on doubles, where the word is `float_word`.
    fn execute_compute(&mut self, ins: Instructions, float_word: u64) -> (r: Result<(), Fault>)
        requires
            old(self)@.pc + ins.spec_width() <= u64::MAX,
            ins.spec_is_integer() || ins.spec_is_float(),
        ensures
            forall|program: ProgramView, imm: u64|
                match #[trigger] old(self)@.execute(program, ins, imm, float_word) {
                    Ok(after) => r is Ok && final(self)@ == after,
                    Err(fault) => r == Err::<(), Fault>(fault) && final(self)@ == old(self)@,
                },
    {
        let demand = ins.stack_demand();
        if (self.calculation_stack.len() as u64) < demand {
            return Err(Fault::StackUnderflow);
        }
        let a = match self.calculation_stack.peek(0) {
            Some(word) => word,
            None => 0,
        };
        let b = match self.calculation_stack.peek(1) {
            Some(word) => word,
            None => 0,
        };
        let word = if ins.is_integer() {
            integer(ins, a, b)?
        } else {
            float_word
        };
        self.take_operands(demand);
        self.push(word);
        self.advance(ins);
        Ok(())
    }

    /// The float operation that the next step needs the result of, if it
    /// needs one: the instruction and its operands as bit patterns.
    pub fn float_request(&self, program: &ProgramMemory) -> (request: Option<
        (Instructions, u64, u64),
    >)
        ensures
            request == self@.float_request(program@),
    {
        if self.state != MachineState::Running {
            return None;
        }
        let ins = match program.get_opcode_at(self.pc) {
            Ok(ins) => ins,
            Err(_) => {
                return None;
            },
        };
        let demand = ins.stack_demand();
        if !ins.is_float() || (self.calculation_stack.len() as u64) < demand {
            return None;
        }
        let a = match self.calculation_stack.peek(0) {
            Some(word) => word,
            None => 0,
        };
        let b = if demand == 2 {
            match self.calculation_stack.peek(1) {
                Some(word) => word,
                None => 0,
            }
        } else {
            0
        };
        Some((ins, a, b))
    }

    /// Executes one step on `program`. `float_word` is the word that the
    /// float unit gave for `float_request`; a step that executes no
    /// instruction on doubles does not use it.
    ///
    /// On success the machine is what `MachineView::step` says. On a fault
    /// the fault is returned and the machine is left as it was.
    pub fn step(&mut self, program: &ProgramMemory, float_word: u64) -> (r: Result<(), Fault>)
        ensures
            match old(self)@.step(program@, float_word) {
                Ok(after) => r is Ok && final(self)@ == after,
                Err(fault) => r == Err::<(), Fault>(fault) && final(self)@ == old(self)@,
            },
    {
        if self.state != MachineState::Running {
            return Ok(());
        }
        let (ins, imm) = self.fetch(program)?;
        match ins {
            Instructions::Nop
            | Instructions::Interupt
            | Instructions::FromR
            | Instructions::ToR
            | Instructions::Swap
            | Instructions::Over
            | Instructions::Dup
            | Instructions::Discard
            | Instructions::Im8
            | Instructions::Im16
            | Instructions::Im32
            | Instructions::Im64 => self.execute_stack(ins, imm),
            Instructions::Store8
            | Instructions::Load8
            | Instructions::Store16
            | Instructions::Load16
            | Instructions::Store32
            | Instructions::Load32
            | Instructions::Store64
            | Instructions::Load64
            | Instructions::Alloc
            | Instructions::Dealloc
            | Instructions::LoadData8
            | Instructions::LoadData16
            | Instructions::LoadData32
            | Instructions::LoadData64 => self.execute_memory(program, ins, imm),
            Instructions::J
            | Instructions::Jz
            | Instructions::Jnz
            | Instructions::Ja => self.execute_branch(ins, imm),
            _ => self.execute_compute(ins, float_word),
        }?;
        if self.pc >= program.prog_len() as u64 {
            self.state = MachineState::Ended;
        }
        Ok(())
    }

    /// Executes one step on `program`, asking `float_unit` for the result
    /// where the step executes an instruction on doubles. The unit is called
    /// at most once, with the instruction, the word on top of the stack and
    /// the word beneath it (0 where the instruction takes one operand), and
    /// gives the word to push.
    ///
    /// The step is `Machine::step` with the word that the unit gave, and
    /// with 0 where the unit was not asked.
    pub fn run_program<F: Fn(Instructions, u64, u64) -> u64>(
        &mut self,
        program: &ProgramMemory,
        float_unit: F,
    ) -> (r: Result<(), Fault>)
        requires
            forall|ins: Instructions, a: u64, b: u64|
                ins.spec_is_float() ==> float_unit.requires((ins, a, b)),
        ensures
            exists|float_word: u64|
                {
                    &&& match old(self)@.float_request(program@) {
                        Some(request) => float_unit.ensures(request, float_word),
                        None => float_word == 0,
                    }
                    &&& match #[trigger] old(self)@.step(program@, float_word) {
                        Ok(after) => r is Ok && final(self)@ == after,
                        Err(fault) => r == Err::<(), Fault>(fault) && final(self)@ == old(self)@,
                    }
                },
    {
        let float_word = match self.float_request(program) {
            Some((ins, a, b)) => float_unit(ins, a, b),
            None => 0,
        };
        self.step(program, float_word)
    }
}

} // verus!
