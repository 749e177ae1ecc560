//! Putting a segment table into effect.
//!
//! Loading the table register changes nothing by itself: the processor goes
//! on with what each segment register holds until that register is loaded
//! again. The data registers are loaded with a move. The code register can
//! only be loaded by a control transfer, so the sequence pushes the new code
//! selector and the address of its own next instruction and makes a far
//! return to it. The address is taken relative to the instruction pointer,
//! because where the kernel lies in memory is not known when it is built.
//!
//! The sequence itself is assembly that the kernel links in. This module is
//! its model: a processor reduced to what the sequence touches, which fetches
//! instruction after instruction through its instruction pointer. A selector
//! is checked as the processor checks it when code of ring 0 loads it in long
//! mode, and more strictly in places: the model knows no local table and no
//! requested privilege level but 0. What is proved is that the flat table
//! with its two selectors goes through without a fault, wherever the sequence
//! lies, and that the processor then goes on with the instruction after the
//! sequence, with nothing changed but the registers that the sequence is there
//! to change.

use super::descriptor::Descriptor;
use super::gdt::{flags_long_mode, flat_entries, lemma_flat_entries, Entry, Table};
use super::gdt::{CODE_SEGMENT, DATA_SEGMENT, ENTRY_BYTES, GDT_SIZE, TABLE_BYTES};
use vstd::prelude::*;

verus! {

/// Number of instructions in the sequence.
pub const SEQUENCE_LENGTH: usize = 10;

/// The segment registers that a move can load.
#[derive(Clone, Copy, Debug, PartialEq, Eq, Structural)]
pub enum SegmentRegister {
    Ds,
    Es,
    Fs,
    Gs,
    Ss,
}

/// The instructions that the sequence is made of.
#[derive(Clone, Copy, Debug, PartialEq, Eq, Structural)]
pub enum Instruction {
    /// Loads the table register from the descriptor.
    LoadTable,
    /// Pushes the code selector.
    PushCodeSelector,
    /// Puts into the scratch register the address of the instruction that
    /// comes `ahead` instructions after the next one.
    LoadTarget { ahead: u64 },
    /// Pushes the scratch register.
    PushTarget,
    /// Takes an address and a code selector off the stack and goes on there.
    FarReturn,
    /// Loads a segment register with the data selector.
    LoadSegment(SegmentRegister),
}

/// Why the processor refused to go on.
#[derive(Clone, Copy, Debug, PartialEq, Eq, Structural)]
pub enum Fault {
    /// The selector names no code segment that ring 0 may run in long mode.
    Code { selector: u16 },
    /// The selector names nothing that a data register may hold.
    Data { selector: u16 },
    /// The selector names no data segment that ring 0 may use as its stack.
    StackSegment { selector: u16 },
    /// The stack holds less than a far return takes.
    StackEmpty,
}

/// What the sequence is given.
#[derive(Clone, Copy)]
pub struct Operands {
    /// The descriptor of the new table.
    pub descriptor: Descriptor,
    /// The table that lies where the descriptor says.
    pub table: Table,
    pub code_segment: u16,
    pub data_segment: u16,
}

/// The processor, as far as the sequence is concerned.
pub struct Machine {
    pub gdtr: Descriptor,
    /// The table that the table register leads to.
    pub table: Table,
    pub cs: u16,
    pub ds: u16,
    pub es: u16,
    pub fs: u16,
    pub gs: u16,
    pub ss: u16,
    /// Address of the instruction to run next.
    pub rip: u64,
    /// The one general register that the sequence uses.
    pub scratch: u64,
    /// The stack, oldest word first.
    pub stack: Vec<u64>,
}

/// The state of a machine.
pub ghost struct State {
    pub gdtr: Descriptor,
    pub table: Seq<Entry>,
    pub cs: u16,
    pub ds: u16,
    pub es: u16,
    pub fs: u16,
    pub gs: u16,
    pub ss: u16,
    pub rip: u64,
    pub scratch: u64,
    pub stack: Seq<u64>,
}

/// Whether a selector leads to an entry of the table at all: it asks for
/// ring 0, points into the table and not past its limit, and is not the null
/// selector.
pub open spec fn names_entry(limit: u16, selector: u16) -> bool {
    selector >= ENTRY_BYTES && selector % 8 == 0 && selector + 7 <= limit && selector / 8
        < GDT_SIZE
}

/// Whether the code register may be loaded with the selector: it names a
/// present segment of 64-bit code for ring 0.
pub open spec fn names_code(table: Seq<Entry>, limit: u16, selector: u16) -> bool {
    let entry = table[selector as int / 8];
    &&& names_entry(limit, selector)
    &&& entry.fields().present
    &&& entry.fields().segment
    &&& entry.fields().executable
    &&& entry.fields().dpl == 0
    &&& flags_long_mode(entry.flags)
}

/// Whether the stack register may be loaded with the selector: it names a
/// present, writable data segment for ring 0.
pub open spec fn names_stack(table: Seq<Entry>, limit: u16, selector: u16) -> bool {
    let entry = table[selector as int / 8];
    &&& names_entry(limit, selector)
    &&& entry.fields().present
    &&& entry.fields().segment
    &&& !entry.fields().executable
    &&& entry.fields().rw
    &&& entry.fields().dpl == 0
}

/// Whether one of the other data registers may be loaded with the selector:
/// it is a null selector, or names a present segment that can be read.
pub open spec fn names_data(table: Seq<Entry>, limit: u16, selector: u16) -> bool {
    let entry = table[selector as int / 8];
    selector < 4 || {
        &&& names_entry(limit, selector)
        &&& entry.fields().present
        &&& entry.fields().segment
        &&& (!entry.fields().executable || entry.fields().rw)
    }
}

impl State {
    /// This state with `register` holding `selector`.
    pub open spec fn with_segment(self, register: SegmentRegister, selector: u16) -> State {
        match register {
            SegmentRegister::Ds => State { ds: selector, ..self },
            SegmentRegister::Es => State { es: selector, ..self },
            SegmentRegister::Fs => State { fs: selector, ..self },
            SegmentRegister::Gs => State { gs: selector, ..self },
            SegmentRegister::Ss => State { ss: selector, ..self },
        }
    }

    /// This state with the instruction pointer on the next instruction.
    pub open spec fn advanced(self) -> State {
        State { rip: self.rip.wrapping_add(1), ..self }
    }
}

/// What one instruction makes of a state.
pub open spec fn step(state: State, instruction: Instruction, operands: Operands) -> Result<
    State,
    Fault,
> {
    match instruction {
        Instruction::LoadTable => Ok(
            State { gdtr: operands.descriptor, table: operands.table@, ..state }.advanced(),
        ),
        Instruction::PushCodeSelector => Ok(
            State { stack: state.stack.push(operands.code_segment as u64), ..state }.advanced(),
        ),
        Instruction::LoadTarget { ahead } => Ok(
            State { scratch: state.rip.wrapping_add(1).wrapping_add(ahead), ..state }.advanced(),
        ),
        Instruction::PushTarget => Ok(
            State { stack: state.stack.push(state.scratch), ..state }.advanced(),
        ),
        Instruction::FarReturn => {
            let depth = state.stack.len() as int;
            let selector = (state.stack[depth - 2] % 0x1_0000) as u16;
            if depth < 2 {
                Err(Fault::StackEmpty)
            } else if !names_code(state.table, state.gdtr.size, selector) {
                Err(Fault::Code { selector })
            } else {
                Ok(
                    State {
                        cs: selector,
                        rip: state.stack[depth - 1],
                        stack: state.stack.subrange(0, depth - 2),
                        ..state
                    },
                )
            }
        },
        Instruction::LoadSegment(register) => {
            let selector = operands.data_segment;
            if register == SegmentRegister::Ss && !names_stack(
                state.table,
                state.gdtr.size,
                selector,
            ) {
                Err(Fault::StackSegment { selector })
            } else if register != SegmentRegister::Ss && !names_data(
                state.table,
                state.gdtr.size,
                selector,
            ) {
                Err(Fault::Data { selector })
            } else {
                Ok(state.with_segment(register, selector).advanced())
            }
        },
    }
}

/// Whether the instruction pointer stands on an instruction of the program
/// that lies at `base`.
pub open spec fn inside(rip: u64, base: u64, length: nat) -> bool {
    base <= rip < base + length
}

/// Where the machine gets by running the program that lies at `base`: it
/// fetches through the instruction pointer until that leaves the program, an
/// instruction faults, or `budget` instructions have run. The result is the
/// state in which the machine stops and, where it stops for a fault, the
/// fault; the machine then stands on the instruction that faulted.
pub open spec fn run(
    state: State,
    program: Seq<Instruction>,
    base: u64,
    operands: Operands,
    budget: nat,
) -> (State, Option<Fault>)
    decreases budget,
{
    if budget == 0 || !inside(state.rip, base, program.len()) {
        (state, None)
    } else {
        match step(state, program[state.rip - base], operands) {
            Ok(next) => run(next, program, base, operands, (budget - 1) as nat),
            Err(fault) => (state, Some(fault)),
        }
    }
}

/// The sequence: load the table; push the code selector and the address of
/// the instruction after the far return; return there; load the five data
/// registers.
pub open spec fn reload_sequence() -> Seq<Instruction> {
    seq![
        Instruction::LoadTable,
        Instruction::PushCodeSelector,
        Instruction::LoadTarget { ahead: 2 },
        Instruction::PushTarget,
        Instruction::FarReturn,
        Instruction::LoadSegment(SegmentRegister::Ds),
        Instruction::LoadSegment(SegmentRegister::Es),
        Instruction::LoadSegment(SegmentRegister::Fs),
        Instruction::LoadSegment(SegmentRegister::Gs),
        Instruction::LoadSegment(SegmentRegister::Ss),
    ]
}

/// The operands for a table whose bytes lie at `base`, with the kernel's
/// two selectors.
pub open spec fn kernel_operands(table: Table, base: u64) -> Operands {
    Operands {
        descriptor: Descriptor { size: (TABLE_BYTES - 1) as u16, offset: base },
        table,
        code_segment: CODE_SEGMENT,
        data_segment: DATA_SEGMENT,
    }
}

/// With the flat table and the kernel's selectors the sequence runs through
/// without a fault, wherever it lies and whatever state it starts in. The
/// processor then stands on the instruction that follows the sequence, the
/// table register and the six segment registers hold the new values, and
/// the stack is as it was. The scratch register is the only other thing
/// that has changed.
pub proof fn lemma_reload_continues(state: State, table: Table, base: u64, at: u64)
    requires
        table@ == flat_entries(),
        state.rip == at,
        at + SEQUENCE_LENGTH <= u64::MAX,
    ensures
        run(state, reload_sequence(), at, kernel_operands(table, base), SEQUENCE_LENGTH as nat)
            == (
            State {
                gdtr: Descriptor { size: (TABLE_BYTES - 1) as u16, offset: base },
                table: flat_entries(),
                cs: CODE_SEGMENT,
                ds: DATA_SEGMENT,
                es: DATA_SEGMENT,
                fs: DATA_SEGMENT,
                gs: DATA_SEGMENT,
                ss: DATA_SEGMENT,
                rip: (at + SEQUENCE_LENGTH) as u64,
                scratch: (at + 5) as u64,
                stack: state.stack,
            },
            None::<Fault>,
        ),
{
    lemma_flat_entries();
    let operands = kernel_operands(table, base);
    let program = reload_sequence();
    let s1 = step(state, program[0], operands).unwrap();
    let s2 = step(s1, program[1], operands).unwrap();
    let s3 = step(s2, program[2], operands).unwrap();
    let s4 = step(s3, program[3], operands).unwrap();
    assert(s4.stack == state.stack.push(CODE_SEGMENT as u64).push((at + 5) as u64));
    assert(s4.stack.subrange(0, s4.stack.len() - 2) =~= state.stack);
    assert(names_code(flat_entries(), (TABLE_BYTES - 1) as u16, CODE_SEGMENT));
    assert(names_stack(flat_entries(), (TABLE_BYTES - 1) as u16, DATA_SEGMENT));
    assert(names_data(flat_entries(), (TABLE_BYTES - 1) as u16, DATA_SEGMENT));
    let s5 = step(s4, program[4], operands).unwrap();
    assert(s5.rip == at + 5);
    assert(s5.stack == state.stack);
    let s6 = step(s5, program[5], operands).unwrap();
    let s7 = step(s6, program[6], operands).unwrap();
    let s8 = step(s7, program[7], operands).unwrap();
    let s9 = step(s8, program[8], operands).unwrap();
    let s10 = step(s9, program[9], operands).unwrap();
    assert(s10.rip == at + 10);
    reveal_with_fuel(run, 11);
}

/// Whether a selector leads to an entry of the table at all.
pub fn selects_entry(limit: u16, selector: u16) -> (named: bool)
    ensures
        named == names_entry(limit, selector),
{
    selector >= 8 && selector % 8 == 0 && selector <= u16::MAX - 7 && selector + 7 <= limit
        && ((selector / 8) as usize) < GDT_SIZE
}

/// Whether the code register may be loaded with the selector.
pub fn selects_code(table: &Table, limit: u16, selector: u16) -> (named: bool)
    ensures
        named == names_code(table@, limit, selector),
{
    if !selects_entry(limit, selector) {
        return false;
    }
    let entry = table.index((selector / 8) as usize);
    entry.is_present() && entry.is_segment() && entry.is_executable() && entry.dpl() == 0
        && entry.is_long_mode()
}

/// Whether the stack register may be loaded with the selector.
pub fn selects_stack(table: &Table, limit: u16, selector: u16) -> (named: bool)
    ensures
        named == names_stack(table@, limit, selector),
{
    if !selects_entry(limit, selector) {
        return false;
    }
    let entry = table.index((selector / 8) as usize);
    entry.is_present() && entry.is_segment() && !entry.is_executable()
        && entry.is_readable_or_writable() && entry.dpl() == 0
}

/// Whether one of the other data registers may be loaded with the selector.
pub fn selects_data(table: &Table, limit: u16, selector: u16) -> (named: bool)
    ensures
        named == names_data(table@, limit, selector),
{
    if selector < 4 {
        return true;
    }
    if !selects_entry(limit, selector) {
        return false;
    }
    let entry = table.index((selector / 8) as usize);
    entry.is_present() && entry.is_segment() && (!entry.is_executable()
        || entry.is_readable_or_writable())
}

/// The sequence, instruction by instruction.
pub fn sequence() -> (program: [Instruction; 10])
    ensures
        program@ == reload_sequence(),
{
    let program = [
        Instruction::LoadTable,
        Instruction::PushCodeSelector,
        Instruction::LoadTarget { ahead: 2 },
        Instruction::PushTarget,
        Instruction::FarReturn,
        Instruction::LoadSegment(SegmentRegister::Ds),
        Instruction::LoadSegment(SegmentRegister::Es),
        Instruction::LoadSegment(SegmentRegister::Fs),
        Instruction::LoadSegment(SegmentRegister::Gs),
        Instruction::LoadSegment(SegmentRegister::Ss),
    ];
    assert(program@ =~= reload_sequence());
    program
}

impl Operands {
    /// The operands for a table whose bytes lie at `base`, with the kernel's
    /// two selectors.
    pub fn kernel(table: &Table, base: u64) -> (operands: Operands)
        ensures
            operands == kernel_operands(*table, base),
    {
        Operands {
            descriptor: table.descriptor(base),
            table: *table,
            code_segment: CODE_SEGMENT,
            data_segment: DATA_SEGMENT,
        }
    }
}

impl Machine {
    /// The machine's state.
    pub open spec fn view(&self) -> State {
        State {
            gdtr: self.gdtr,
            table: self.table@,
            cs: self.cs,
            ds: self.ds,
            es: self.es,
            fs: self.fs,
            gs: self.gs,
            ss: self.ss,
            rip: self.rip,
            scratch: self.scratch,
            stack: self.stack@,
        }
    }

    /// A machine that is about to run the instruction at `rip`, with no
    /// table in force, null selectors in all segment registers and nothing
    /// on its stack.
    pub fn new(rip: u64) -> (machine: Machine)
        ensures
            machine@ == (State {
                gdtr: Descriptor { size: 0, offset: 0 },
                table: Seq::new(GDT_SIZE as nat, |i: int| Entry { access: 0, flags: 0 }),
                cs: 0,
                ds: 0,
                es: 0,
                fs: 0,
                gs: 0,
                ss: 0,
                rip,
                scratch: 0,
                stack: Seq::<u64>::empty(),
            }),
    {
        Machine {
            gdtr: Descriptor::new(0, 0),
            table: Table::new(),
            cs: 0,
            ds: 0,
            es: 0,
            fs: 0,
            gs: 0,
            ss: 0,
            rip,
            scratch: 0,
            stack: Vec::new(),
        }
    }

    /// Runs one instruction. After a fault the machine is as it was.
    pub fn execute(&mut self, instruction: Instruction, operands: &Operands) -> (done: Result<
        (),
        Fault,
    >)
        ensures
            match step(old(self)@, instruction, *operands) {
                Ok(next) => done is Ok && final(self)@ == next,
                Err(fault) => done == Err::<(), Fault>(fault) && final(self)@ == old(self)@,
            },
    {
        match instruction {
            Instruction::LoadTable => {
                self.gdtr = operands.descriptor;
                self.table = operands.table;
            },
            Instruction::PushCodeSelector => {
                self.stack.push(operands.code_segment as u64);
            },
            Instruction::LoadTarget { ahead } => {
                self.scratch = self.rip.wrapping_add(1).wrapping_add(ahead);
            },
            Instruction::PushTarget => {
                self.stack.push(self.scratch);
            },
            Instruction::FarReturn => {
                let depth = self.stack.len();
                if depth < 2 {
                    return Err(Fault::StackEmpty);
                }
                let selector = (self.stack[depth - 2] % 0x1_0000) as u16;
                if !selects_code(&self.table, self.gdtr.size, selector) {
                    return Err(Fault::Code { selector });
                }
                let target = self.stack[depth - 1];
                self.stack.truncate(depth - 2);
                self.cs = selector;
                self.rip = target;
                return Ok(());
            },
            Instruction::LoadSegment(register) => {
                let selector = operands.data_segment;
                match register {
                    SegmentRegister::Ss => {
                        if !selects_stack(&self.table, self.gdtr.size, selector) {
                            return Err(Fault::StackSegment { selector });
                        }
                        self.ss = selector;
                    },
                    SegmentRegister::Ds => {
                        if !selects_data(&self.table, self.gdtr.size, selector) {
                            return Err(Fault::Data { selector });
                        }
                        self.ds = selector;
                    },
                    SegmentRegister::Es => {
                        if !selects_data(&self.table, self.gdtr.size, selector) {
                            return Err(Fault::Data { selector });
                        }
                        self.es = selector;
                    },
                    SegmentRegister::Fs => {
                        if !selects_data(&self.table, self.gdtr.size, selector) {
                            return Err(Fault::Data { selector });
                        }
                        self.fs = selector;
                    },
                    SegmentRegister::Gs => {
                        if !selects_data(&self.table, self.gdtr.size, selector) {
                            return Err(Fault::Data { selector });
                        }
                        self.gs = selector;
                    },
                }
            },
        }
        self.rip = self.rip.wrapping_add(1);
        Ok(())
    }

    /// Runs the program that lies at `base`: fetches through the instruction
    /// pointer until that leaves the program, an instruction faults, or
    /// `budget` instructions have run. After a fault the machine stands on
    /// the instruction that faulted.
    pub fn run(&mut self, program: &[Instruction], base: u64, operands: &Operands, budget: usize) -> (done:
        Result<(), Fault>)
        ensures
            final(self)@ == run(old(self)@, program@, base, *operands, budget as nat).0,
            match run(old(self)@, program@, base, *operands, budget as nat).1 {
                None => done is Ok,
                Some(fault) => done == Err::<(), Fault>(fault),
            },
    {
        let mut left = budget;
        while left > 0 && self.rip >= base && self.rip - base < program.len() as u64
            invariant
                run(old(self)@, program@, base, *operands, budget as nat) == run(
                    self@,
                    program@,
                    base,
                    *operands,
                    left as nat,
                ),
            decreases left,
        {
            let instruction = program[(self.rip - base) as usize];
            match self.execute(instruction, operands) {
                Ok(()) => {},
                Err(fault) => {
                    return Err(fault);
                },
            }
            left -= 1;
        }
        Ok(())
    }

    /// Runs the sequence, which lies where the machine stands.
    pub fn reload(&mut self, operands: &Operands) -> (done: Result<(), Fault>)
        requires
            old(self).rip + SEQUENCE_LENGTH <= u64::MAX,
        ensures
            final(self)@ == run(
                old(self)@,
                reload_sequence(),
                old(self).rip,
                *operands,
                SEQUENCE_LENGTH as nat,
            ).0,
            match run(
                old(self)@,
                reload_sequence(),
                old(self).rip,
                *operands,
                SEQUENCE_LENGTH as nat,
            ).1 {
                None => done is Ok,
                Some(fault) => done == Err::<(), Fault>(fault),
            },
            operands.table@ == flat_entries() && operands.code_segment == CODE_SEGMENT
                && operands.data_segment == DATA_SEGMENT && operands.descriptor.size == TABLE_BYTES
                - 1 ==> done is Ok && final(self)@ == (State {
                gdtr: operands.descriptor,
                table: flat_entries(),
                cs: CODE_SEGMENT,
                ds: DATA_SEGMENT,
                es: DATA_SEGMENT,
                fs: DATA_SEGMENT,
                gs: DATA_SEGMENT,
                ss: DATA_SEGMENT,
                rip: (old(self).rip + SEQUENCE_LENGTH) as u64,
                scratch: (old(self).rip + 5) as u64,
                stack: old(self).stack@,
            }),
    {
        proof {
            if operands.table@ == flat_entries() && operands.code_segment == CODE_SEGMENT
                && operands.data_segment == DATA_SEGMENT && operands.descriptor.size == TABLE_BYTES
                - 1 {
                lemma_reload_continues(self@, operands.table, operands.descriptor.offset, self.rip);
                assert(*operands == kernel_operands(operands.table, operands.descriptor.offset));
            }
        }
        let program = sequence();
        let at = self.rip;
        self.run(&program, at, operands, SEQUENCE_LENGTH)
    }
}

} // verus!
