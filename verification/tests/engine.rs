use stackir::instruction::program_maker::ProgramMaker;
use stackir::instruction::Instructions as I;
use stackir::machine::program_memory::ProgramMemory;
use stackir::machine::{Fault, Machine, MachineState};

fn no_float(_ins: I, _a: u64, _b: u64) -> u64 {
    0
}

fn stack(machine: &Machine) -> Vec<u64> {
    let s = machine.calculation_stack();
    (0..s.len()).rev().map(|d| s.peek(d).unwrap()).collect()
}

fn return_words(machine: &Machine) -> Vec<u64> {
    let s = machine.return_stack();
    (0..s.len()).rev().map(|d| s.peek(d).unwrap()).collect()
}

fn memory(machine: &Machine) -> Vec<u8> {
    let m = machine.runtime_memory();
    (0..m.len() as u64).map(|i| m.local_get_u8(i).unwrap()).collect()
}

fn program(code: Vec<u8>) -> ProgramMemory {
    ProgramMemory::new(code, Vec::new())
}

fn steps(machine: &mut Machine, p: &ProgramMemory, n: usize) -> Result<(), Fault> {
    for _ in 0..n {
        machine.run_program(p, no_float)?;
    }
    Ok(())
}

#[test]
fn a_new_machine_runs_at_zero_with_nothing_stored() {
    let machine = Machine::new();
    assert_eq!(machine.state(), MachineState::Running);
    assert_eq!(machine.pc(), 0);
    assert_eq!(machine.calculation_stack().len(), 0);
    assert_eq!(machine.return_stack().len(), 0);
    assert_eq!(machine.runtime_memory().len(), 0);
}

#[test]
fn machine_push_and_pop_use_the_operand_stack() {
    let mut machine = Machine::new();
    machine.push(5);
    machine.push_signed(-1);
    assert_eq!(stack(&machine), vec![5, u64::MAX]);
    assert_eq!(machine.pop_signed(), Ok(-1));
    assert_eq!(machine.pop(), Ok(5));
    assert_eq!(machine.pop(), Err(Fault::StackUnderflow));
    assert_eq!(machine.pop_signed(), Err(Fault::StackUnderflow));
    machine.push(1 << 63);
    assert_eq!(machine.pop_signed(), Ok(i64::MIN));
}

#[test]
fn machine_r_push_and_r_pop_use_the_return_stack() {
    let mut machine = Machine::new();
    machine.r_push(5);
    machine.r_push(6);
    assert_eq!(return_words(&machine), vec![5, 6]);
    assert_eq!(stack(&machine), Vec::<u64>::new());
    assert_eq!(machine.r_pop(), Ok(6));
    assert_eq!(machine.r_pop(), Ok(5));
    assert_eq!(machine.r_pop(), Err(Fault::StackUnderflow));
}

#[test]
fn nop_only_moves_the_program_counter() {
    let p = program(vec![I::Nop.opcode(), I::Nop.opcode()]);
    let mut machine = Machine::new();
    machine.push(3);
    steps(&mut machine, &p, 1).unwrap();
    assert_eq!(machine.pc(), 1);
    assert_eq!(machine.state(), MachineState::Running);
    assert_eq!(stack(&machine), vec![3]);
}

#[test]
fn the_machine_ends_when_the_program_counter_reaches_the_end() {
    let p = program(vec![I::Nop.opcode(), I::Nop.opcode()]);
    let mut machine = Machine::new();
    steps(&mut machine, &p, 1).unwrap();
    assert_eq!(machine.state(), MachineState::Running);
    steps(&mut machine, &p, 1).unwrap();
    assert_eq!(machine.pc(), 2);
    assert_eq!(machine.state(), MachineState::Ended);
}

#[test]
fn an_ended_machine_stays_as_it_is() {
    let p = program(vec![I::Im8.opcode(), 4]);
    let mut machine = Machine::new();
    steps(&mut machine, &p, 1).unwrap();
    assert_eq!(machine.state(), MachineState::Ended);
    assert_eq!(machine.run_program(&p, no_float), Ok(()));
    assert_eq!(machine.step(&p, 99), Ok(()));
    assert_eq!(machine.state(), MachineState::Ended);
    assert_eq!(machine.pc(), 2);
    assert_eq!(stack(&machine), vec![4]);
}

#[test]
fn interupt_pauses_until_resumed() {
    let p = program(vec![I::Interupt.opcode(), I::Im8.opcode(), 4, I::Nop.opcode()]);
    let mut machine = Machine::new();
    steps(&mut machine, &p, 1).unwrap();
    assert_eq!(machine.state(), MachineState::Interupted);
    assert_eq!(machine.pc(), 1);
    steps(&mut machine, &p, 3).unwrap();
    assert_eq!(machine.state(), MachineState::Interupted);
    assert_eq!(machine.pc(), 1);
    assert_eq!(stack(&machine), Vec::<u64>::new());
    machine.resume();
    assert_eq!(machine.state(), MachineState::Running);
    steps(&mut machine, &p, 1).unwrap();
    assert_eq!(machine.pc(), 3);
    assert_eq!(stack(&machine), vec![4]);
}

#[test]
fn interupt_as_the_last_instruction_ends_the_machine() {
    let p = program(vec![I::Interupt.opcode()]);
    let mut machine = Machine::new();
    steps(&mut machine, &p, 1).unwrap();
    assert_eq!(machine.state(), MachineState::Ended);
    assert_eq!(machine.pc(), 1);
}

#[test]
fn resuming_an_ended_machine_finds_no_opcode() {
    let p = program(vec![I::Nop.opcode()]);
    let mut machine = Machine::new();
    steps(&mut machine, &p, 1).unwrap();
    assert_eq!(machine.state(), MachineState::Ended);
    machine.resume();
    assert_eq!(machine.run_program(&p, no_float), Err(Fault::Decode));
    assert_eq!(machine.state(), MachineState::Running);
    assert_eq!(machine.pc(), 1);
}

#[test]
fn an_empty_program_is_a_decode_fault() {
    let p = program(Vec::new());
    let mut machine = Machine::new();
    assert_eq!(machine.run_program(&p, no_float), Err(Fault::Decode));
    assert_eq!(machine.state(), MachineState::Running);
    assert_eq!(machine.pc(), 0);
}

#[test]
fn an_unknown_opcode_is_a_decode_fault() {
    let p = program(vec![I::Nop.opcode(), 86, I::Nop.opcode()]);
    let mut machine = Machine::new();
    steps(&mut machine, &p, 1).unwrap();
    assert_eq!(machine.run_program(&p, no_float), Err(Fault::Decode));
    assert_eq!(machine.pc(), 1);
    assert_eq!(machine.state(), MachineState::Running);
    let q = program(vec![255]);
    let mut other = Machine::new();
    assert_eq!(other.step(&q, 0), Err(Fault::Decode));
}

#[test]
fn a_cut_immediate_is_a_decode_fault() {
    for code in [
        vec![I::Im8.opcode()],
        vec![I::Im16.opcode(), 1],
        vec![I::Im32.opcode(), 1, 2, 3],
        vec![I::Im64.opcode(), 1, 2, 3, 4, 5, 6, 7],
        vec![I::Alloc.opcode()],
        vec![I::Dealloc.opcode()],
        vec![I::J.opcode(), 0, 0, 0, 0, 0, 0, 0],
        vec![I::Jz.opcode(), 0, 0, 0],
        vec![I::Jnz.opcode()],
    ] {
        let p = program(code);
        let mut machine = Machine::new();
        machine.push(1);
        assert_eq!(machine.run_program(&p, no_float), Err(Fault::Decode));
        assert_eq!(machine.pc(), 0);
        assert_eq!(machine.state(), MachineState::Running);
        assert_eq!(stack(&machine), vec![1]);
    }
}

#[test]
fn a_cut_immediate_is_found_before_a_missing_operand() {
    let p = program(vec![I::Jz.opcode(), 0, 0, 0]);
    let mut machine = Machine::new();
    assert_eq!(machine.run_program(&p, no_float), Err(Fault::Decode));
}

#[test]
fn immediates_are_pushed_zero_extended() {
    let mut code = Vec::new();
    code.add_ins(I::Im8)
        .add_im8(0xff)
        .add_ins(I::Im16)
        .add_im16(0xfffe)
        .add_ins(I::Im32)
        .add_im32(0xffff_fffd)
        .add_ins(I::Im64)
        .add_im64(0xffff_ffff_ffff_fffc);
    let p = program(code);
    let mut machine = Machine::new();
    steps(&mut machine, &p, 1).unwrap();
    assert_eq!(machine.pc(), 2);
    steps(&mut machine, &p, 1).unwrap();
    assert_eq!(machine.pc(), 5);
    steps(&mut machine, &p, 1).unwrap();
    assert_eq!(machine.pc(), 10);
    assert_eq!(machine.state(), MachineState::Running);
    steps(&mut machine, &p, 1).unwrap();
    assert_eq!(machine.pc(), 19);
    assert_eq!(machine.state(), MachineState::Ended);
    assert_eq!(
        stack(&machine),
        vec![0xff, 0xfffe, 0xffff_fffd, 0xffff_ffff_ffff_fffc]
    );
}

#[test]
fn the_program_counter_is_the_sum_of_the_widths_executed() {
    let mut code = Vec::new();
    code.add_ins(I::Im8)
        .add_im8(2)
        .add_ins(I::Im64)
        .add_im64(40)
        .add_ins(I::Add)
        .add_ins(I::Alloc)
        .add_im8(8)
        .add_ins(I::Im16)
        .add_im16(0)
        .add_ins(I::Store32)
        .add_ins(I::Jz)
        .add_im64(0)
        .add_ins(I::Nop);
    let p = program(code);
    let executed = [I::Im8, I::Im64, I::Add, I::Alloc, I::Im16, I::Store32];
    let mut machine = Machine::new();
    let mut sum = 0;
    for ins in executed {
        assert_eq!(p.get_opcode_at(machine.pc()), Ok(ins));
        machine.run_program(&p, no_float).unwrap();
        sum += ins.width();
        assert_eq!(machine.pc(), sum);
        assert_eq!(machine.state(), MachineState::Running);
    }
    assert_eq!(sum, 18);
    machine.push(1);
    machine.run_program(&p, no_float).unwrap();
    assert_eq!(machine.pc(), 27);
    assert_eq!(machine.state(), MachineState::Running);
    machine.run_program(&p, no_float).unwrap();
    assert_eq!(machine.pc(), 28);
    assert_eq!(p.prog_len(), 28);
    assert_eq!(machine.state(), MachineState::Ended);
}

#[test]
fn to_return_and_from_return_move_one_word() {
    let p = program(vec![I::ToR.opcode(), I::ToR.opcode(), I::FromR.opcode(), I::Nop.opcode()]);
    let mut machine = Machine::new();
    machine.push(1);
    machine.push(2);
    steps(&mut machine, &p, 1).unwrap();
    assert_eq!(stack(&machine), vec![1]);
    assert_eq!(return_words(&machine), vec![2]);
    steps(&mut machine, &p, 1).unwrap();
    assert_eq!(stack(&machine), Vec::<u64>::new());
    assert_eq!(return_words(&machine), vec![2, 1]);
    steps(&mut machine, &p, 1).unwrap();
    assert_eq!(stack(&machine), vec![1]);
    assert_eq!(return_words(&machine), vec![2]);
    assert_eq!(machine.pc(), 3);
}

#[test]
fn from_return_on_an_empty_return_stack_underflows() {
    let p = program(vec![I::FromR.opcode(), I::Nop.opcode()]);
    let mut machine = Machine::new();
    machine.push(1);
    assert_eq!(machine.run_program(&p, no_float), Err(Fault::StackUnderflow));
    assert_eq!(machine.pc(), 0);
    assert_eq!(stack(&machine), vec![1]);
}

#[test]
fn stack_instructions_rearrange_the_top() {
    let p = program(vec![
        I::Dup.opcode(),
        I::Swap.opcode(),
        I::Over.opcode(),
        I::Discard.opcode(),
        I::Nop.opcode(),
    ]);
    let mut machine = Machine::new();
    machine.push(1);
    machine.push(2);
    steps(&mut machine, &p, 1).unwrap();
    assert_eq!(stack(&machine), vec![1, 2, 2]);
    machine.push(3);
    steps(&mut machine, &p, 1).unwrap();
    assert_eq!(stack(&machine), vec![1, 2, 3, 2]);
    steps(&mut machine, &p, 1).unwrap();
    assert_eq!(stack(&machine), vec![1, 2, 3, 2, 3]);
    steps(&mut machine, &p, 1).unwrap();
    assert_eq!(stack(&machine), vec![1, 2, 3, 2]);
    assert_eq!(machine.pc(), 4);
}

#[test]
fn every_instruction_with_operands_underflows_without_them() {
    for byte in 0..stackir::instruction::OPCODE_COUNT {
        let ins = I::of_opcode(byte).unwrap();
        let mut code = vec![byte];
        for _ in 0..ins.immediate_width() {
            code.push(0);
        }
        code.push(I::Nop.opcode());
        let p = program(code);
        for depth in 0..ins.stack_demand() {
            let mut machine = Machine::new();
            machine.r_push(7);
            for _ in 0..depth {
                machine.push(0);
            }
            assert_eq!(machine.step(&p, 0), Err(Fault::StackUnderflow), "{ins:?}");
            assert_eq!(machine.pc(), 0);
            assert_eq!(machine.state(), MachineState::Running);
            assert_eq!(machine.calculation_stack().len() as u64, depth);
            assert_eq!(return_words(&machine), vec![7]);
        }
    }
}

#[test]
fn alloc_and_dealloc_take_their_size_from_the_code() {
    let mut code = Vec::new();
    code.add_ins(I::Alloc)
        .add_im8(255)
        .add_ins(I::Dealloc)
        .add_im8(250)
        .add_ins(I::Dealloc)
        .add_im8(6)
        .add_ins(I::Nop);
    let p = program(code);
    let mut machine = Machine::new();
    machine.push(9);
    steps(&mut machine, &p, 1).unwrap();
    assert_eq!(machine.runtime_memory().len(), 255);
    assert_eq!(machine.pc(), 2);
    steps(&mut machine, &p, 1).unwrap();
    assert_eq!(memory(&machine), vec![0; 5]);
    assert_eq!(machine.pc(), 4);
    assert_eq!(machine.run_program(&p, no_float), Err(Fault::Memory));
    assert_eq!(machine.pc(), 4);
    assert_eq!(memory(&machine), vec![0; 5]);
    assert_eq!(stack(&machine), vec![9]);
}

#[test]
fn store_takes_the_address_from_the_top_and_the_value_beneath() {
    let mut code = Vec::new();
    code.add_ins(I::Alloc)
        .add_im8(16)
        .add_ins(I::Store64)
        .add_ins(I::Store32)
        .add_ins(I::Store16)
        .add_ins(I::Store8)
        .add_ins(I::Nop);
    let p = program(code);
    let mut machine = Machine::new();
    for (value, addr) in [
        (0xa1a2_a3a4_a5a6_a7a8u64, 15u64),
        (0xb1b2_b3b4_b5b6_b7b8, 13),
        (0xc1c2_c3c4_c5c6_c7c8, 9),
        (0x0807_0605_0403_0201, 1),
    ] {
        machine.push(value);
        machine.push(addr);
    }
    steps(&mut machine, &p, 5).unwrap();
    assert_eq!(stack(&machine), Vec::<u64>::new());
    assert_eq!(
        memory(&machine),
        vec![0, 1, 2, 3, 4, 5, 6, 7, 8, 0xc8, 0xc7, 0xc6, 0xc5, 0xb8, 0xb7, 0xa8]
    );
    assert_eq!(machine.pc(), 6);
}

#[test]
fn load_pushes_the_number_at_the_address() {
    let mut code = Vec::new();
    code.add_ins(I::Alloc)
        .add_im8(9)
        .add_ins(I::Store64)
        .add_ins(I::Load8)
        .add_ins(I::Load16)
        .add_ins(I::Load32)
        .add_ins(I::Load64)
        .add_ins(I::Nop);
    let p = program(code);
    let mut machine = Machine::new();
    machine.push(1);
    machine.push(1);
    machine.push(1);
    machine.push(0x8877_6655_4433_2211);
    machine.push(1);
    steps(&mut machine, &p, 2).unwrap();
    assert_eq!(memory(&machine), vec![0, 0x11, 0x22, 0x33, 0x44, 0x55, 0x66, 0x77, 0x88]);
    steps(&mut machine, &p, 1).unwrap();
    assert_eq!(stack(&machine), vec![1, 1, 0x11]);
    machine.pop().unwrap();
    steps(&mut machine, &p, 1).unwrap();
    assert_eq!(stack(&machine), vec![1, 0x2211]);
    machine.pop().unwrap();
    steps(&mut machine, &p, 1).unwrap();
    assert_eq!(stack(&machine), vec![0x4433_2211]);
    machine.pop().unwrap();
    machine.push(1);
    steps(&mut machine, &p, 1).unwrap();
    assert_eq!(stack(&machine), vec![0x8877_6655_4433_2211]);
}

#[test]
fn push_store_load_gives_the_value_back_for_every_width() {
    for (store, load, mask) in [
        (I::Store8, I::Load8, 0xffu64),
        (I::Store16, I::Load16, 0xffff),
        (I::Store32, I::Load32, 0xffff_ffff),
        (I::Store64, I::Load64, u64::MAX),
    ] {
        for x in [0u64, 1, 0x7f, 0xa5, 0xbeef, 0xdead_beef, 0x0123_4567_89ab_cdef, u64::MAX] {
            for addr in [0u8, 3, 8] {
                let mut code = Vec::new();
                code.add_ins(I::Alloc)
                    .add_im8(16)
                    .add_ins(I::Im64)
                    .add_im64(x)
                    .add_ins(I::Im8)
                    .add_im8(addr)
                    .add_ins(store)
                    .add_ins(I::Im8)
                    .add_im8(addr)
                    .add_ins(load);
                let p = program(code);
                let mut machine = Machine::new();
                machine.push(77);
                while machine.state() == MachineState::Running {
                    machine.run_program(&p, no_float).unwrap();
                }
                assert_eq!(stack(&machine), vec![77, x & mask]);
                if x <= mask {
                    assert_eq!(stack(&machine), vec![77, x]);
                }
                assert_eq!(machine.runtime_memory().len(), 16);
            }
        }
    }
}

#[test]
fn a_load_outside_the_memory_is_a_memory_fault() {
    let p = program(vec![I::Alloc.opcode(), 16, I::Load64.opcode(), I::Nop.opcode()]);
    for addr in [9u64, 10, 15, 16, 17, 1000, 1 << 32, u64::MAX - 7, u64::MAX] {
        let mut machine = Machine::new();
        machine.push(addr);
        steps(&mut machine, &p, 1).unwrap();
        assert_eq!(machine.run_program(&p, no_float), Err(Fault::Memory));
        assert_eq!(machine.pc(), 2);
        assert_eq!(machine.state(), MachineState::Running);
        assert_eq!(stack(&machine), vec![addr]);
        assert_eq!(machine.runtime_memory().len(), 16);
    }
    let mut machine = Machine::new();
    machine.push(8);
    steps(&mut machine, &p, 2).unwrap();
    assert_eq!(stack(&machine), vec![0]);
}

#[test]
fn a_store_outside_the_memory_is_a_memory_fault_and_writes_nothing() {
    let p = program(vec![I::Alloc.opcode(), 4, I::Store32.opcode(), I::Nop.opcode()]);
    let mut machine = Machine::new();
    machine.push(0xffff_ffff);
    machine.push(1);
    steps(&mut machine, &p, 1).unwrap();
    assert_eq!(machine.run_program(&p, no_float), Err(Fault::Memory));
    assert_eq!(memory(&machine), vec![0; 4]);
    assert_eq!(stack(&machine), vec![0xffff_ffff, 1]);
    assert_eq!(machine.pc(), 2);
}

#[test]
fn load_data_reads_the_data_region() {
    let p = ProgramMemory::new(
        vec![
            I::LoadData8.opcode(),
            I::LoadData16.opcode(),
            I::LoadData32.opcode(),
            I::LoadData64.opcode(),
            I::Nop.opcode(),
        ],
        vec![1, 2, 3, 4, 5, 6, 7, 8, 9],
    );
    let mut machine = Machine::new();
    machine.push(1);
    machine.push(5);
    machine.push(7);
    machine.push(8);
    steps(&mut machine, &p, 1).unwrap();
    assert_eq!(stack(&machine), vec![1, 5, 7, 9]);
    machine.pop().unwrap();
    steps(&mut machine, &p, 1).unwrap();
    assert_eq!(stack(&machine), vec![1, 5, 0x0908]);
    machine.pop().unwrap();
    steps(&mut machine, &p, 1).unwrap();
    assert_eq!(stack(&machine), vec![1, 0x0908_0706]);
    machine.pop().unwrap();
    steps(&mut machine, &p, 1).unwrap();
    assert_eq!(stack(&machine), vec![0x0908_0706_0504_0302]);
    assert_eq!(machine.runtime_memory().len(), 0);
}

#[test]
fn load_data_past_the_data_is_a_decode_fault() {
    let p = ProgramMemory::new(
        vec![I::LoadData64.opcode(), I::Nop.opcode()],
        vec![1, 2, 3, 4, 5, 6, 7, 8, 9],
    );
    for addr in [2u64, 9, 10, u64::MAX] {
        let mut machine = Machine::new();
        machine.push(addr);
        assert_eq!(machine.run_program(&p, no_float), Err(Fault::Decode));
        assert_eq!(stack(&machine), vec![addr]);
        assert_eq!(machine.pc(), 0);
    }
}

#[test]
fn jump_goes_to_its_target() {
    let mut code = Vec::new();
    code.add_ins(I::J)
        .add_im64(10)
        .add_ins(I::Interupt)
        .add_ins(I::Im8)
        .add_im8(12);
    let p = program(code);
    let mut machine = Machine::new();
    steps(&mut machine, &p, 1).unwrap();
    assert_eq!(machine.pc(), 10);
    assert_eq!(machine.state(), MachineState::Running);
    steps(&mut machine, &p, 1).unwrap();
    assert_eq!(stack(&machine), vec![12]);
    assert_eq!(machine.state(), MachineState::Ended);
}

#[test]
fn jump_to_zero_goes_to_the_start() {
    let mut code = Vec::new();
    code.add_ins(I::Nop).add_ins(I::J).add_im64(0);
    let p = program(code);
    let mut machine = Machine::new();
    steps(&mut machine, &p, 2).unwrap();
    assert_eq!(machine.pc(), 0);
    assert_eq!(machine.state(), MachineState::Running);
    steps(&mut machine, &p, 1).unwrap();
    assert_eq!(machine.pc(), 1);
}

#[test]
fn jump_past_the_end_ends_the_machine() {
    let mut code = Vec::new();
    code.add_ins(I::J).add_im64(1000);
    let p = program(code);
    let mut machine = Machine::new();
    steps(&mut machine, &p, 1).unwrap();
    assert_eq!(machine.pc(), 1000);
    assert_eq!(machine.state(), MachineState::Ended);
    let mut code = Vec::new();
    code.add_ins(I::J).add_im64(9);
    let q = program(code);
    let mut other = Machine::new();
    steps(&mut other, &q, 1).unwrap();
    assert_eq!(other.pc(), 9);
    assert_eq!(other.state(), MachineState::Ended);
}

#[test]
fn jump_if_zero_branches_on_a_zero_word() {
    let mut code = Vec::new();
    code.add_ins(I::Jz).add_im64(20).add_ins(I::Nop);
    while code.len() < 21 {
        code.add_ins(I::Nop);
    }
    let p = program(code);
    let mut taken = Machine::new();
    taken.push(5);
    taken.push(0);
    steps(&mut taken, &p, 1).unwrap();
    assert_eq!(taken.pc(), 20);
    assert_eq!(stack(&taken), vec![5]);
    let mut passed = Machine::new();
    passed.push(5);
    passed.push(1);
    steps(&mut passed, &p, 1).unwrap();
    assert_eq!(passed.pc(), 9);
    assert_eq!(stack(&passed), vec![5]);
    assert_eq!(passed.state(), MachineState::Running);
}

#[test]
fn jump_if_nonzero_branches_on_a_nonzero_word() {
    let mut code = Vec::new();
    code.add_ins(I::Jnz).add_im64(20).add_ins(I::Nop);
    while code.len() < 21 {
        code.add_ins(I::Nop);
    }
    let p = program(code);
    let mut taken = Machine::new();
    taken.push(u64::MAX);
    steps(&mut taken, &p, 1).unwrap();
    assert_eq!(taken.pc(), 20);
    assert_eq!(stack(&taken), Vec::<u64>::new());
    let mut passed = Machine::new();
    passed.push(0);
    steps(&mut passed, &p, 1).unwrap();
    assert_eq!(passed.pc(), 9);
    assert_eq!(stack(&passed), Vec::<u64>::new());
}

#[test]
fn computed_jump_takes_its_target_from_the_stack() {
    let p = program(vec![I::Ja.opcode(), I::Nop.opcode(), I::Nop.opcode(), I::Nop.opcode()]);
    let mut machine = Machine::new();
    machine.push(0);
    machine.push(3);
    steps(&mut machine, &p, 1).unwrap();
    assert_eq!(machine.pc(), 3);
    assert_eq!(stack(&machine), vec![0]);
    assert_eq!(machine.state(), MachineState::Running);
    let mut back = Machine::new();
    back.push(0);
    steps(&mut back, &p, 1).unwrap();
    assert_eq!(back.pc(), 0);
    assert_eq!(back.state(), MachineState::Running);
    let mut far = Machine::new();
    far.push(u64::MAX);
    steps(&mut far, &p, 1).unwrap();
    assert_eq!(far.pc(), u64::MAX);
    assert_eq!(far.state(), MachineState::Ended);
}

#[test]
fn integer_instructions_replace_their_operands_by_the_result() {
    let p = program(vec![I::Sub.opcode(), I::Neg.opcode(), I::PopCnt.opcode(), I::Nop.opcode()]);
    let mut machine = Machine::new();
    machine.push(100);
    machine.push(12);
    machine.push(34);
    steps(&mut machine, &p, 1).unwrap();
    assert_eq!(stack(&machine), vec![100, (-22i64) as u64]);
    steps(&mut machine, &p, 1).unwrap();
    assert_eq!(stack(&machine), vec![100, 22]);
    steps(&mut machine, &p, 1).unwrap();
    assert_eq!(stack(&machine), vec![100, 3]);
    assert_eq!(machine.pc(), 3);
}

#[test]
fn division_by_zero_faults_and_leaves_the_operands() {
    for ins in [I::Div, I::Divu, I::Mod, I::Modu] {
        let p = program(vec![ins.opcode(), I::Nop.opcode()]);
        let mut machine = Machine::new();
        machine.push(0);
        machine.push(9);
        assert_eq!(machine.run_program(&p, no_float), Err(Fault::Arithmetic));
        assert_eq!(stack(&machine), vec![0, 9]);
        assert_eq!(machine.pc(), 0);
        assert_eq!(machine.state(), MachineState::Running);
    }
    let p = program(vec![I::Div.opcode(), I::Nop.opcode()]);
    let mut machine = Machine::new();
    machine.push(6);
    machine.push(42);
    steps(&mut machine, &p, 1).unwrap();
    assert_eq!(stack(&machine), vec![7]);
}

#[test]
fn step_pushes_the_float_word_for_an_instruction_on_doubles() {
    let p = program(vec![I::Addf.opcode(), I::Sqrf.opcode(), I::Add.opcode()]);
    let mut machine = Machine::new();
    machine.push(1);
    machine.push(2);
    machine.push(3);
    assert_eq!(machine.float_request(&p), Some((I::Addf, 3, 2)));
    assert_eq!(machine.step(&p, 0xaaaa), Ok(()));
    assert_eq!(stack(&machine), vec![1, 0xaaaa]);
    assert_eq!(machine.float_request(&p), Some((I::Sqrf, 0xaaaa, 0)));
    assert_eq!(machine.step(&p, 0xbbbb), Ok(()));
    assert_eq!(stack(&machine), vec![1, 0xbbbb]);
    assert_eq!(machine.float_request(&p), None);
    assert_eq!(machine.step(&p, 0xcccc), Ok(()));
    assert_eq!(stack(&machine), vec![0xbbbc]);
    assert_eq!(machine.state(), MachineState::Ended);
    assert_eq!(machine.float_request(&p), None);
}

#[test]
fn float_request_is_none_where_no_float_result_is_needed() {
    let p = program(vec![I::Addf.opcode(), I::Nop.opcode()]);
    let mut short = Machine::new();
    short.push(1);
    assert_eq!(short.float_request(&p), None);
    assert_eq!(short.step(&p, 5), Err(Fault::StackUnderflow));
    let q = program(vec![200]);
    assert_eq!(Machine::new().float_request(&q), None);
    let empty = program(Vec::new());
    assert_eq!(Machine::new().float_request(&empty), None);
    let r = program(vec![I::Interupt.opcode(), I::Negf.opcode(), I::Nop.opcode()]);
    let mut paused = Machine::new();
    paused.push(1);
    paused.step(&r, 0).unwrap();
    assert_eq!(paused.state(), MachineState::Interupted);
    assert_eq!(paused.float_request(&r), None);
    paused.resume();
    assert_eq!(paused.float_request(&r), Some((I::Negf, 1, 0)));
}

#[test]
fn run_program_asks_the_float_unit_only_for_instructions_on_doubles() {
    let p = program(vec![I::Im8.opcode(), 5, I::Im8.opcode(), 6, I::Mulf.opcode(), I::Mul.opcode()]);
    let mut machine = Machine::new();
    machine.push(10);
    let asked = std::cell::RefCell::new(Vec::new());
    let unit = |ins: I, a: u64, b: u64| {
        asked.borrow_mut().push((ins, a, b));
        a + b
    };
    machine.run_program(&p, &unit).unwrap();
    machine.run_program(&p, &unit).unwrap();
    assert!(asked.borrow().is_empty());
    machine.run_program(&p, &unit).unwrap();
    assert_eq!(*asked.borrow(), vec![(I::Mulf, 6, 5)]);
    assert_eq!(stack(&machine), vec![10, 11]);
    machine.run_program(&p, &unit).unwrap();
    assert_eq!(asked.borrow().len(), 1);
    assert_eq!(stack(&machine), vec![110]);
    assert_eq!(machine.state(), MachineState::Ended);
}
