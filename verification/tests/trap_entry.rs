use nucleus::x86_64::cpu::interrupt::{
    capture, deliver, discard_codes, enter, interrupt_return, leave, pushes_error_code,
    restore_registers, save_registers, stubs, InterruptContext, Registers, Stack, Stub,
    TrapFrame, SAVED_WORDS,
};

const WITH_ERROR_CODE: [u8; 10] = [8, 10, 11, 12, 13, 14, 17, 21, 29, 30];

fn registers() -> Registers {
    Registers {
        rax: 0xA0,
        rbx: 0xA1,
        rcx: 0xA2,
        rdx: 0xA3,
        rbp: 0xA4,
        rdi: 0xA5,
        rsi: 0xA6,
        r8: 0xA7,
        r9: 0xA8,
        r10: 0xA9,
        r11: 0xAA,
        r12: 0xAB,
        r13: 0xAC,
        r14: 0xAD,
        r15: 0xAE,
    }
}

fn trap_frame() -> TrapFrame {
    TrapFrame { rip: 0xFFFF_8000_0000_1234, cs: 0x8, rflags: 0x202, rsp: 0x7FF0, ss: 0x10 }
}

fn populated_vectors() -> Vec<u8> {
    (0u8..32).filter(|v| *v != 9 && *v != 15).collect()
}

#[test]
fn error_code_vectors() {
    for v in 0u8..=255 {
        assert_eq!(pushes_error_code(v), WITH_ERROR_CODE.contains(&v));
    }
}

#[test]
fn stub_table_has_one_stub_for_each_exception() {
    let table = stubs();
    assert_eq!(table.len(), 32);
    for v in 0u8..32 {
        assert_eq!(
            table[v as usize],
            Stub { vector: v, has_error_code: WITH_ERROR_CODE.contains(&v) }
        );
        assert_eq!(Stub::new(v), table[v as usize]);
    }
}

#[test]
fn stub_without_error_code_pushes_zero_and_vector() {
    let mut stack = Stack::new();
    Stub::new(3).enter(&mut stack);
    assert_eq!(stack.words, vec![0, 3]);
}

#[test]
fn stub_with_error_code_pushes_vector_only() {
    let mut stack = Stack::new();
    Stub::new(14).enter(&mut stack);
    assert_eq!(stack.words, vec![14]);
}

#[test]
fn processor_pushes_frame_and_error_code() {
    let frame = trap_frame();
    let mut stack = Stack::new();
    deliver(&mut stack, 13, &frame, 0x18);
    assert_eq!(stack.words, vec![frame.ss, frame.rsp, frame.rflags, frame.cs, frame.rip, 0x18]);
    let mut stack = Stack::new();
    deliver(&mut stack, 0, &frame, 0x18);
    assert_eq!(stack.words, vec![frame.ss, frame.rsp, frame.rflags, frame.cs, frame.rip]);
}

#[test]
fn simulated_trap_without_hardware_error_code() {
    for vector in populated_vectors() {
        if WITH_ERROR_CODE.contains(&vector) {
            continue;
        }
        let mut stack = Stack::new();
        let (seen, context) = enter(&mut stack, vector, &registers(), &trap_frame(), 0xDEAD);
        assert_eq!(seen, vector as u64);
        assert_eq!(context.err_code, 0);
        assert_eq!(context.registers(), registers());
        assert_eq!(context.trap_frame(), trap_frame());
        assert_eq!(stack.len(), SAVED_WORDS);
    }
}

#[test]
fn simulated_trap_with_hardware_error_code() {
    for vector in populated_vectors() {
        if !WITH_ERROR_CODE.contains(&vector) {
            continue;
        }
        for code in [0u64, 0x18, u64::MAX] {
            let mut stack = Stack::new();
            let (seen, context) = enter(&mut stack, vector, &registers(), &trap_frame(), code);
            assert_eq!(seen, vector as u64);
            assert_eq!(context.err_code, code);
            assert_eq!(context.registers(), registers());
            assert_eq!(context.trap_frame(), trap_frame());
            assert_eq!(stack.len(), SAVED_WORDS);
        }
    }
}

#[test]
fn saved_state_lies_in_push_order() {
    let mut stack = Stack::new();
    stack.push(0x5555);
    enter(&mut stack, 14, &registers(), &trap_frame(), 0x2);
    assert_eq!(
        stack.words,
        vec![
            0x5555,
            0x10,
            0x7FF0,
            0x202,
            0x8,
            0xFFFF_8000_0000_1234,
            0x2,
            14,
            0xA0,
            0xA1,
            0xA2,
            0xA3,
            0xA4,
            0xA5,
            0xA6,
            0xA7,
            0xA8,
            0xA9,
            0xAA,
            0xAB,
            0xAC,
            0xAD,
            0xAE,
        ]
    );
}

#[test]
fn context_fields_from_the_stack_pointer_upward() {
    let mut stack = Stack::new();
    let (_, context) = enter(&mut stack, 13, &registers(), &trap_frame(), 0x18);
    assert_eq!(
        context.to_words(),
        [
            0xAE,
            0xAD,
            0xAC,
            0xAB,
            0xAA,
            0xA9,
            0xA8,
            0xA7,
            0xA6,
            0xA5,
            0xA4,
            0xA3,
            0xA2,
            0xA1,
            0xA0,
            0x18,
            0xFFFF_8000_0000_1234,
            0x8,
            0x202,
            0x7FF0,
            0x10,
        ]
    );
    let memory: Vec<u64> = stack.words.iter().rev().copied().collect();
    assert_eq!(memory[..15], context.to_words()[..15]);
    assert_eq!(memory[15], 13);
    assert_eq!(memory[16..], context.to_words()[15..]);
}

#[test]
fn context_words_round_trip() {
    let mut words = [0u64; 21];
    for (i, word) in words.iter_mut().enumerate() {
        *word = 100 + i as u64;
    }
    let context = InterruptContext::from_words(&words);
    assert_eq!(context.r15, 100);
    assert_eq!(context.r13, 102);
    assert_eq!(context.r12, 103);
    assert_eq!(context.rax, 114);
    assert_eq!(context.err_code, 115);
    assert_eq!(context.rip, 116);
    assert_eq!(context.cs, 117);
    assert_eq!(context.rflags, 118);
    assert_eq!(context.rsp, 119);
    assert_eq!(context.ss, 120);
    assert_eq!(context.to_words(), words);
}

#[test]
fn capture_leaves_the_stack_alone() {
    let mut stack = Stack::new();
    let entered = enter(&mut stack, 6, &registers(), &trap_frame(), 0);
    let before = stack.words.clone();
    assert_eq!(capture(&stack), entered);
    assert_eq!(stack.words, before);
}

#[test]
fn leaving_undoes_entering() {
    for vector in 0u8..32 {
        let mut stack = Stack::new();
        stack.push(1);
        stack.push(2);
        enter(&mut stack, vector, &registers(), &trap_frame(), 0x77);
        let (regs, frame) = leave(&mut stack);
        assert_eq!(regs, registers());
        assert_eq!(frame, trap_frame());
        assert_eq!(stack.words, vec![1, 2]);
    }
}

#[test]
fn leaving_step_by_step() {
    let mut stack = Stack::new();
    enter(&mut stack, 8, &registers(), &trap_frame(), 0);
    assert_eq!(restore_registers(&mut stack), registers());
    assert_eq!(stack.len(), 7);
    discard_codes(&mut stack);
    assert_eq!(stack.len(), 5);
    assert_eq!(interrupt_return(&mut stack), trap_frame());
    assert_eq!(stack.len(), 0);
}

#[test]
fn save_and_restore_are_symmetric() {
    let mut stack = Stack::new();
    save_registers(&mut stack, &registers());
    assert_eq!(stack.len(), 15);
    assert_eq!(stack.words[0], 0xA0);
    assert_eq!(stack.words[14], 0xAE);
    assert_eq!(restore_registers(&mut stack), registers());
    assert_eq!(stack.len(), 0);
}

#[test]
fn push_and_pop() {
    let mut stack = Stack::new();
    stack.push(7);
    stack.push(9);
    assert_eq!(stack.pop(), 9);
    assert_eq!(stack.pop(), 7);
    assert_eq!(stack.len(), 0);
}
