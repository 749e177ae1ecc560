use nucleus::x86_64::cpu::descriptor::Descriptor;
use nucleus::x86_64::cpu::gdt::{init, Entry, EntryType, Table, CODE_SEGMENT, DATA_SEGMENT};
use nucleus::x86_64::cpu::reload::{
    selects_code, selects_data, selects_entry, selects_stack, sequence, Fault, Instruction,
    Machine, Operands, SegmentRegister, SEQUENCE_LENGTH,
};

const AT: u64 = 0xFFFF_FFFF_8000_4000;
const TABLE_AT: u64 = 0xFFFF_FFFF_8010_0000;

fn machine_with_stack(rip: u64, words: &[u64]) -> Machine {
    let mut machine = Machine::new(rip);
    machine.stack.extend_from_slice(words);
    machine.scratch = 0x1234;
    machine
}

#[test]
fn the_sequence_has_ten_instructions() {
    let program = sequence();
    assert_eq!(program.len(), SEQUENCE_LENGTH);
    assert_eq!(program[0], Instruction::LoadTable);
    assert_eq!(program[2], Instruction::LoadTarget { ahead: 2 });
    assert_eq!(program[4], Instruction::FarReturn);
    assert_eq!(program[9], Instruction::LoadSegment(SegmentRegister::Ss));
}

#[test]
fn kernel_operands() {
    let table = init();
    let operands = Operands::kernel(&table, TABLE_AT);
    assert_eq!(operands.descriptor, Descriptor { size: 39, offset: TABLE_AT });
    assert_eq!(operands.code_segment, CODE_SEGMENT);
    assert_eq!(operands.data_segment, DATA_SEGMENT);
    assert_eq!(operands.table.entries, table.entries);
}

#[test]
fn reload_goes_on_after_the_sequence() {
    let table = init();
    let mut machine = machine_with_stack(AT, &[11, 22, 33]);
    assert_eq!(machine.reload(&Operands::kernel(&table, TABLE_AT)), Ok(()));
    assert_eq!(machine.rip, AT + 10);
    assert_eq!(machine.gdtr, Descriptor { size: 39, offset: TABLE_AT });
    assert_eq!(machine.table.entries, table.entries);
    assert_eq!(machine.cs, CODE_SEGMENT);
    assert_eq!(machine.ds, DATA_SEGMENT);
    assert_eq!(machine.es, DATA_SEGMENT);
    assert_eq!(machine.fs, DATA_SEGMENT);
    assert_eq!(machine.gs, DATA_SEGMENT);
    assert_eq!(machine.ss, DATA_SEGMENT);
    assert_eq!(machine.stack, vec![11, 22, 33]);
    assert_eq!(machine.scratch, AT + 5);
}

#[test]
fn reload_works_wherever_the_sequence_lies() {
    let table = init();
    for at in [0u64, 0x1000, 0x7FFF_FFFF_FFFF, AT, u64::MAX - 10] {
        let mut machine = Machine::new(at);
        assert_eq!(machine.reload(&Operands::kernel(&table, TABLE_AT)), Ok(()));
        assert_eq!(machine.rip, at + 10);
        assert_eq!(machine.cs, CODE_SEGMENT);
        assert_eq!(machine.ss, DATA_SEGMENT);
        assert!(machine.stack.is_empty());
    }
}

#[test]
fn far_return_lands_on_the_next_instruction() {
    let table = init();
    let operands = Operands::kernel(&table, TABLE_AT);
    let program = sequence();
    let mut machine = Machine::new(AT);
    assert_eq!(machine.run(&program, AT, &operands, 4), Ok(()));
    assert_eq!(machine.rip, AT + 4);
    assert_eq!(machine.stack, vec![CODE_SEGMENT as u64, AT + 5]);
    assert_eq!(machine.cs, 0);
    assert_eq!(machine.run(&program, AT, &operands, 1), Ok(()));
    assert_eq!(machine.rip, AT + 5);
    assert_eq!(machine.cs, CODE_SEGMENT);
    assert!(machine.stack.is_empty());
    assert_eq!(machine.ds, 0);
}

#[test]
fn a_table_of_null_entries_faults() {
    let table = Table::new();
    let mut machine = Machine::new(AT);
    assert_eq!(
        machine.reload(&Operands::kernel(&table, TABLE_AT)),
        Err(Fault::Code { selector: CODE_SEGMENT })
    );
    assert_eq!(machine.rip, AT + 4);
}

#[test]
fn a_data_segment_is_no_code_segment() {
    let table = init();
    let mut operands = Operands::kernel(&table, TABLE_AT);
    operands.code_segment = DATA_SEGMENT;
    let mut machine = Machine::new(AT);
    assert_eq!(machine.reload(&operands), Err(Fault::Code { selector: DATA_SEGMENT }));
}

#[test]
fn a_user_segment_is_not_for_ring_zero() {
    let table = init();
    let mut operands = Operands::kernel(&table, TABLE_AT);
    operands.code_segment = 0x18;
    let mut machine = Machine::new(AT);
    assert_eq!(machine.reload(&operands), Err(Fault::Code { selector: 0x18 }));
    let mut operands = Operands::kernel(&table, TABLE_AT);
    operands.data_segment = 0x20;
    let mut machine = Machine::new(AT);
    assert_eq!(machine.reload(&operands), Err(Fault::StackSegment { selector: 0x20 }));
    assert_eq!(machine.rip, AT + 9);
    assert_eq!(machine.gs, 0x20);
}

#[test]
fn a_code_segment_is_no_stack_segment() {
    let table = init();
    let mut operands = Operands::kernel(&table, TABLE_AT);
    operands.data_segment = CODE_SEGMENT;
    let mut machine = Machine::new(AT);
    assert_eq!(machine.reload(&operands), Err(Fault::StackSegment { selector: CODE_SEGMENT }));
}

#[test]
fn a_selector_past_the_limit_faults() {
    let table = init();
    let mut operands = Operands::kernel(&table, TABLE_AT);
    operands.descriptor = Descriptor::new(14, TABLE_AT);
    let mut machine = Machine::new(AT);
    assert_eq!(machine.reload(&operands), Err(Fault::Code { selector: CODE_SEGMENT }));
    operands.descriptor = Descriptor::new(15, TABLE_AT);
    let mut machine = Machine::new(AT);
    assert_eq!(machine.reload(&operands), Err(Fault::Data { selector: DATA_SEGMENT }));
}

#[test]
fn far_return_needs_two_words() {
    let table = init();
    let operands = Operands::kernel(&table, TABLE_AT);
    let mut machine = machine_with_stack(AT, &[AT + 5]);
    assert_eq!(machine.execute(Instruction::FarReturn, &operands), Err(Fault::StackEmpty));
    assert_eq!(machine.stack, vec![AT + 5]);
    assert_eq!(machine.rip, AT);
}

#[test]
fn single_instructions() {
    let table = init();
    let operands = Operands::kernel(&table, TABLE_AT);
    let mut machine = Machine::new(100);
    assert_eq!(machine.execute(Instruction::LoadTarget { ahead: 7 }, &operands), Ok(()));
    assert_eq!(machine.scratch, 108);
    assert_eq!(machine.rip, 101);
    assert_eq!(machine.execute(Instruction::PushTarget, &operands), Ok(()));
    assert_eq!(machine.stack, vec![108]);
    assert_eq!(machine.execute(Instruction::PushCodeSelector, &operands), Ok(()));
    assert_eq!(machine.stack, vec![108, 8]);
    assert_eq!(machine.rip, 103);
    assert_eq!(
        machine.execute(Instruction::LoadSegment(SegmentRegister::Ds), &operands),
        Err(Fault::Data { selector: DATA_SEGMENT })
    );
    assert_eq!(machine.execute(Instruction::LoadTable, &operands), Ok(()));
    assert_eq!(machine.gdtr.size, 39);
    assert_eq!(machine.execute(Instruction::LoadSegment(SegmentRegister::Fs), &operands), Ok(()));
    assert_eq!(machine.fs, DATA_SEGMENT);
    assert_eq!(machine.rip, 105);
}

#[test]
fn running_stops_outside_the_program() {
    let table = init();
    let operands = Operands::kernel(&table, TABLE_AT);
    let program = sequence();
    let mut machine = Machine::new(AT + 10);
    assert_eq!(machine.run(&program, AT, &operands, 100), Ok(()));
    assert_eq!(machine.rip, AT + 10);
    let mut machine = Machine::new(AT - 1);
    assert_eq!(machine.run(&program, AT, &operands, 100), Ok(()));
    assert_eq!(machine.rip, AT - 1);
    let mut machine = Machine::new(AT);
    assert_eq!(machine.run(&program, AT, &operands, 0), Ok(()));
    assert_eq!(machine.rip, AT);
}

#[test]
fn what_selectors_name() {
    let table = init();
    assert!(selects_entry(39, 8));
    assert!(selects_entry(39, 32));
    assert!(!selects_entry(39, 0));
    assert!(!selects_entry(39, 40));
    assert!(!selects_entry(39, 9));
    assert!(!selects_entry(38, 32));
    assert!(!selects_entry(u16::MAX, 0xFFF8));
    assert!(selects_code(&table, 39, CODE_SEGMENT));
    assert!(!selects_code(&table, 39, DATA_SEGMENT));
    assert!(!selects_code(&table, 39, 0));
    assert!(selects_stack(&table, 39, DATA_SEGMENT));
    assert!(!selects_stack(&table, 39, 0));
    assert!(selects_data(&table, 39, DATA_SEGMENT));
    assert!(selects_data(&table, 39, CODE_SEGMENT));
    assert!(selects_data(&table, 39, 0));
    assert!(selects_data(&table, 39, 3));
    assert!(!selects_data(&table, 39, 4));
}

#[test]
fn entry_fields() {
    let code = Entry::new(0, EntryType::Code { conforming: false, readable: true });
    assert!(code.is_present());
    assert!(code.is_segment());
    assert!(code.is_executable());
    assert!(code.is_readable_or_writable());
    assert!(code.is_long_mode());
    assert_eq!(code.dpl(), 0);
    let data = Entry::new(3, EntryType::Data { grow_down: false, writable: false });
    assert!(data.is_present());
    assert!(!data.is_executable());
    assert!(!data.is_readable_or_writable());
    assert_eq!(data.dpl(), 3);
    let null = Entry::new(0, EntryType::Null);
    assert!(!null.is_present());
    assert!(!null.is_segment());
    assert!(!null.is_long_mode());
    assert!(!Entry { access: 0x9A, flags: 0xE0 }.is_long_mode());
    assert!(!Entry { access: 0x9A, flags: 0xC0 }.is_long_mode());
}
