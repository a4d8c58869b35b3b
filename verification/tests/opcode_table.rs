use stackir::instruction::{Instructions, OPCODE_COUNT};

#[test]
fn every_byte_below_the_count_decodes_to_its_instruction() {
    for byte in 0..OPCODE_COUNT {
        let ins = Instructions::of_opcode(byte).expect("a byte below the count decodes");
        assert_eq!(ins.opcode(), byte);
    }
}

#[test]
fn no_byte_from_the_count_on_decodes() {
    assert_eq!(OPCODE_COUNT, 86);
    for byte in OPCODE_COUNT..=u8::MAX {
        assert_eq!(Instructions::of_opcode(byte), None);
    }
}

#[test]
fn opcodes_follow_the_order_of_the_table() {
    assert_eq!(Instructions::Nop.opcode(), 0);
    assert_eq!(Instructions::Interupt.opcode(), 1);
    assert_eq!(Instructions::FromR.opcode(), 2);
    assert_eq!(Instructions::ToR.opcode(), 3);
    assert_eq!(Instructions::Discard.opcode(), 7);
    assert_eq!(Instructions::Im8.opcode(), 8);
    assert_eq!(Instructions::Im64.opcode(), 11);
    assert_eq!(Instructions::Store8.opcode(), 12);
    assert_eq!(Instructions::Load64.opcode(), 19);
    assert_eq!(Instructions::Alloc.opcode(), 20);
    assert_eq!(Instructions::Dealloc.opcode(), 21);
    assert_eq!(Instructions::LoadData64.opcode(), 25);
    assert_eq!(Instructions::J.opcode(), 26);
    assert_eq!(Instructions::Ja.opcode(), 29);
    assert_eq!(Instructions::Add.opcode(), 30);
    assert_eq!(Instructions::Sub.opcode(), 32);
    assert_eq!(Instructions::Neg.opcode(), 40);
    assert_eq!(Instructions::PopCnt.opcode(), 44);
    assert_eq!(Instructions::Eq.opcode(), 45);
    assert_eq!(Instructions::Gequ.opcode(), 54);
    assert_eq!(Instructions::Addf.opcode(), 55);
    assert_eq!(Instructions::ArcTanhf.opcode(), 77);
    assert_eq!(Instructions::Eqf.opcode(), 78);
    assert_eq!(Instructions::ItoF.opcode(), 84);
    assert_eq!(Instructions::FtoI.opcode(), 85);
}

#[test]
fn decoding_gives_the_named_instruction() {
    assert_eq!(Instructions::of_opcode(0), Some(Instructions::Nop));
    assert_eq!(Instructions::of_opcode(8), Some(Instructions::Im8));
    assert_eq!(Instructions::of_opcode(32), Some(Instructions::Sub));
    assert_eq!(Instructions::of_opcode(85), Some(Instructions::FtoI));
    assert_eq!(Instructions::of_opcode(86), None);
    assert_eq!(Instructions::of_opcode(255), None);
}

#[test]
fn distinct_instructions_have_distinct_opcodes() {
    let mut seen = [false; 256];
    for byte in 0..OPCODE_COUNT {
        let ins = Instructions::of_opcode(byte).unwrap();
        let code = ins.opcode() as usize;
        assert!(!seen[code]);
        seen[code] = true;
    }
    assert_eq!(seen.iter().filter(|s| **s).count(), 86);
}

#[test]
fn immediate_widths_are_fixed_by_the_instruction() {
    assert_eq!(Instructions::Im8.immediate_width(), 1);
    assert_eq!(Instructions::Im16.immediate_width(), 2);
    assert_eq!(Instructions::Im32.immediate_width(), 4);
    assert_eq!(Instructions::Im64.immediate_width(), 8);
    assert_eq!(Instructions::Alloc.immediate_width(), 1);
    assert_eq!(Instructions::Dealloc.immediate_width(), 1);
    assert_eq!(Instructions::J.immediate_width(), 8);
    assert_eq!(Instructions::Jz.immediate_width(), 8);
    assert_eq!(Instructions::Jnz.immediate_width(), 8);
    assert_eq!(Instructions::Ja.immediate_width(), 0);
    assert_eq!(Instructions::Add.immediate_width(), 0);
    assert_eq!(Instructions::Store64.immediate_width(), 0);
    assert_eq!(Instructions::Im32.width(), 5);
    assert_eq!(Instructions::Nop.width(), 1);
    let mut with_immediate = 0;
    for byte in 0..OPCODE_COUNT {
        let ins = Instructions::of_opcode(byte).unwrap();
        assert_eq!(ins.width(), 1 + ins.immediate_width());
        if ins.immediate_width() != 0 {
            with_immediate += 1;
        }
    }
    assert_eq!(with_immediate, 9);
}

#[test]
fn access_widths_follow_the_instruction_names() {
    assert_eq!(Instructions::Store8.access_width(), 1);
    assert_eq!(Instructions::Load8.access_width(), 1);
    assert_eq!(Instructions::LoadData8.access_width(), 1);
    assert_eq!(Instructions::Store16.access_width(), 2);
    assert_eq!(Instructions::Load16.access_width(), 2);
    assert_eq!(Instructions::LoadData16.access_width(), 2);
    assert_eq!(Instructions::Store32.access_width(), 4);
    assert_eq!(Instructions::Load32.access_width(), 4);
    assert_eq!(Instructions::LoadData32.access_width(), 4);
    assert_eq!(Instructions::Store64.access_width(), 8);
    assert_eq!(Instructions::Load64.access_width(), 8);
    assert_eq!(Instructions::LoadData64.access_width(), 8);
    assert_eq!(Instructions::Alloc.access_width(), 0);
    assert_eq!(Instructions::Add.access_width(), 0);
}

#[test]
fn stack_demand_counts_the_operands() {
    assert_eq!(Instructions::Nop.stack_demand(), 0);
    assert_eq!(Instructions::FromR.stack_demand(), 0);
    assert_eq!(Instructions::Im8.stack_demand(), 0);
    assert_eq!(Instructions::J.stack_demand(), 0);
    assert_eq!(Instructions::Alloc.stack_demand(), 0);
    assert_eq!(Instructions::ToR.stack_demand(), 1);
    assert_eq!(Instructions::Dup.stack_demand(), 1);
    assert_eq!(Instructions::Discard.stack_demand(), 1);
    assert_eq!(Instructions::Load32.stack_demand(), 1);
    assert_eq!(Instructions::LoadData8.stack_demand(), 1);
    assert_eq!(Instructions::Jz.stack_demand(), 1);
    assert_eq!(Instructions::Ja.stack_demand(), 1);
    assert_eq!(Instructions::Neg.stack_demand(), 1);
    assert_eq!(Instructions::PopCnt.stack_demand(), 1);
    assert_eq!(Instructions::Sqrf.stack_demand(), 1);
    assert_eq!(Instructions::ItoF.stack_demand(), 1);
    assert_eq!(Instructions::Swap.stack_demand(), 2);
    assert_eq!(Instructions::Over.stack_demand(), 2);
    assert_eq!(Instructions::Store8.stack_demand(), 2);
    assert_eq!(Instructions::Add.stack_demand(), 2);
    assert_eq!(Instructions::Shar.stack_demand(), 2);
    assert_eq!(Instructions::Gequ.stack_demand(), 2);
    assert_eq!(Instructions::Powf.stack_demand(), 2);
    assert_eq!(Instructions::Geqf.stack_demand(), 2);
}

#[test]
fn integer_and_float_instructions_are_told_apart() {
    let mut integers = 0;
    let mut floats = 0;
    for byte in 0..OPCODE_COUNT {
        let ins = Instructions::of_opcode(byte).unwrap();
        assert!(!(ins.is_integer() && ins.is_float()));
        if ins.is_integer() {
            integers += 1;
            assert!((30..=54).contains(&byte));
        }
        if ins.is_float() {
            floats += 1;
            assert!((55..=85).contains(&byte));
        }
    }
    assert_eq!(integers, 25);
    assert_eq!(floats, 31);
    assert!(Instructions::Add.is_integer());
    assert!(Instructions::PopCnt.is_integer());
    assert!(!Instructions::Ja.is_integer());
    assert!(Instructions::Addf.is_float());
    assert!(Instructions::FtoI.is_float());
    assert!(!Instructions::Gequ.is_float());
}
