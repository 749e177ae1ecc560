//! The trap entry path and the processor state it saves.
//!
//! Each exception vector has a stub of a few instructions. The stub evens
//! out what the processor left on the stack, says which vector fired and
//! jumps to one routine shared by all. That routine saves the general
//! registers, hands the saved state to the handler, and afterwards takes
//! everything off the stack again in reverse.
//!
//! The instructions themselves are assembly that the kernel links in. This
//! module is their model: the stack is a sequence of 64-bit words, oldest
//! first, and every step is a function on it. What the handler is given, and
//! that leaving undoes entering, is proved here for every vector.

use vstd::prelude::*;

verus! {

/// Number of general registers that the entry path saves.
pub const REGISTER_WORDS: usize = 15;

/// Number of words that the processor pushes on every trap.
pub const TRAP_FRAME_WORDS: usize = 5;

/// Number of words on the stack when the handler runs: the trap frame, the
/// error code, the vector and the registers.
pub const SAVED_WORDS: usize = 22;

/// The general registers. The stack pointer is not among them: the
/// processor saves it in the trap frame.
#[derive(Clone, Copy, Debug, PartialEq, Eq, Structural)]
pub struct Registers {
    pub rax: u64,
    pub rbx: u64,
    pub rcx: u64,
    pub rdx: u64,
    pub rbp: u64,
    pub rdi: u64,
    pub rsi: u64,
    pub r8: u64,
    pub r9: u64,
    pub r10: u64,
    pub r11: u64,
    pub r12: u64,
    pub r13: u64,
    pub r14: u64,
    pub r15: u64,
}

/// What the processor itself pushes when it takes a trap.
#[derive(Clone, Copy, Debug, PartialEq, Eq, Structural)]
pub struct TrapFrame {
    pub rip: u64,
    pub cs: u64,
    pub rflags: u64,
    pub rsp: u64,
    pub ss: u64,
}

/// The state saved around a trap, as the handler sees it. The fields stand
/// in the order in which they lie in memory, from the stack pointer upward:
/// the registers with the one pushed last first, the error code, then the
/// trap frame.
#[derive(Clone, Copy, Debug, PartialEq, Eq, Structural)]
pub struct InterruptContext {
    pub r15: u64,
    pub r14: u64,
    pub r13: u64,
    pub r12: u64,
    pub r11: u64,
    pub r10: u64,
    pub r9: u64,
    pub r8: u64,
    pub rsi: u64,
    pub rdi: u64,
    pub rbp: u64,
    pub rdx: u64,
    pub rcx: u64,
    pub rbx: u64,
    pub rax: u64,
    pub err_code: u64,
    pub rip: u64,
    pub cs: u64,
    pub rflags: u64,
    pub rsp: u64,
    pub ss: u64,
}

/// What the entry path needs to know of a vector.
#[derive(Clone, Copy, Debug, PartialEq, Eq, Structural)]
pub struct Stub {
    pub vector: u8,
    pub has_error_code: bool,
}

/// The kernel stack during a trap, oldest word first.
pub struct Stack {
    pub words: Vec<u64>,
}

/// Whether the processor pushes an error code when it delivers `vector`:
/// double fault, invalid TSS, segment not present, stack segment fault,
/// general protection fault, page fault, alignment check, control
/// protection, VMM communication and security exception.
pub open spec fn has_error_code(vector: u8) -> bool {
    vector == 8 || (10 <= vector <= 14) || vector == 17 || vector == 21 || vector == 29 || vector
        == 30
}

impl Registers {
    /// The registers in the order in which the entry path pushes them.
    pub open spec fn pushed(&self) -> Seq<u64> {
        seq![
            self.rax,
            self.rbx,
            self.rcx,
            self.rdx,
            self.rbp,
            self.rdi,
            self.rsi,
            self.r8,
            self.r9,
            self.r10,
            self.r11,
            self.r12,
            self.r13,
            self.r14,
            self.r15,
        ]
    }
}

impl TrapFrame {
    /// The frame in the order in which the processor pushes it.
    pub open spec fn pushed(&self) -> Seq<u64> {
        seq![self.ss, self.rsp, self.rflags, self.cs, self.rip]
    }
}

impl InterruptContext {
    /// The context made of the given registers, error code and trap frame.
    pub open spec fn assemble(regs: Registers, err_code: u64, frame: TrapFrame) -> InterruptContext {
        InterruptContext {
            r15: regs.r15,
            r14: regs.r14,
            r13: regs.r13,
            r12: regs.r12,
            r11: regs.r11,
            r10: regs.r10,
            r9: regs.r9,
            r8: regs.r8,
            rsi: regs.rsi,
            rdi: regs.rdi,
            rbp: regs.rbp,
            rdx: regs.rdx,
            rcx: regs.rcx,
            rbx: regs.rbx,
            rax: regs.rax,
            err_code,
            rip: frame.rip,
            cs: frame.cs,
            rflags: frame.rflags,
            rsp: frame.rsp,
            ss: frame.ss,
        }
    }

    /// The saved general registers.
    pub open spec fn spec_registers(&self) -> Registers {
        Registers {
            rax: self.rax,
            rbx: self.rbx,
            rcx: self.rcx,
            rdx: self.rdx,
            rbp: self.rbp,
            rdi: self.rdi,
            rsi: self.rsi,
            r8: self.r8,
            r9: self.r9,
            r10: self.r10,
            r11: self.r11,
            r12: self.r12,
            r13: self.r13,
            r14: self.r14,
            r15: self.r15,
        }
    }

    /// The part that the processor pushed.
    pub open spec fn spec_trap_frame(&self) -> TrapFrame {
        TrapFrame { rip: self.rip, cs: self.cs, rflags: self.rflags, rsp: self.rsp, ss: self.ss }
    }

    /// The context word by word, from the lowest address upward.
    pub open spec fn words(&self) -> Seq<u64> {
        seq![
            self.r15,
            self.r14,
            self.r13,
            self.r12,
            self.r11,
            self.r10,
            self.r9,
            self.r8,
            self.rsi,
            self.rdi,
            self.rbp,
            self.rdx,
            self.rcx,
            self.rbx,
            self.rax,
            self.err_code,
            self.rip,
            self.cs,
            self.rflags,
            self.rsp,
            self.ss,
        ]
    }

    /// The saved general registers.
    #[verifier::when_used_as_spec(spec_registers)]
    pub fn registers(&self) -> (regs: Registers)
        ensures
            regs == self.spec_registers(),
    {
        Registers {
            rax: self.rax,
            rbx: self.rbx,
            rcx: self.rcx,
            rdx: self.rdx,
            rbp: self.rbp,
            rdi: self.rdi,
            rsi: self.rsi,
            r8: self.r8,
            r9: self.r9,
            r10: self.r10,
            r11: self.r11,
            r12: self.r12,
            r13: self.r13,
            r14: self.r14,
            r15: self.r15,
        }
    }

    /// The part that the processor pushed.
    #[verifier::when_used_as_spec(spec_trap_frame)]
    pub fn trap_frame(&self) -> (frame: TrapFrame)
        ensures
            frame == self.spec_trap_frame(),
    {
        TrapFrame { rip: self.rip, cs: self.cs, rflags: self.rflags, rsp: self.rsp, ss: self.ss }
    }

    /// Reads a context from memory, lowest address first.
    pub fn from_words(words: &[u64; 21]) -> (context: InterruptContext)
        ensures
            context.words() == words@,
    {
        let context = InterruptContext {
            r15: words[0],
            r14: words[1],
            r13: words[2],
            r12: words[3],
            r11: words[4],
            r10: words[5],
            r9: words[6],
            r8: words[7],
            rsi: words[8],
            rdi: words[9],
            rbp: words[10],
            rdx: words[11],
            rcx: words[12],
            rbx: words[13],
            rax: words[14],
            err_code: words[15],
            rip: words[16],
            cs: words[17],
            rflags: words[18],
            rsp: words[19],
            ss: words[20],
        };
        assert(context.words() =~= words@);
        context
    }

    /// Writes the context as it lies in memory, lowest address first.
    pub fn to_words(&self) -> (words: [u64; 21])
        ensures
            words@ == self.words(),
    {
        let words: [u64; 21] = [
            self.r15,
            self.r14,
            self.r13,
            self.r12,
            self.r11,
            self.r10,
            self.r9,
            self.r8,
            self.rsi,
            self.rdi,
            self.rbp,
            self.rdx,
            self.rcx,
            self.rbx,
            self.rax,
            self.err_code,
            self.rip,
            self.cs,
            self.rflags,
            self.rsp,
            self.ss,
        ];
        assert(words@ =~= self.words());
        words
    }
}

impl Stub {
    /// Whether the stub is one of the 32 that the kernel links in: its vector
    /// is an exception, and it knows whether the processor pushes an error
    /// code for it.
    pub open spec fn wf(&self) -> bool {
        self.vector < 32 && self.has_error_code == has_error_code(self.vector)
    }

    /// What the stub pushes: a zero in place of the error code where the
    /// processor pushed none, then the vector.
    pub open spec fn pushed(&self) -> Seq<u64> {
        if self.has_error_code {
            seq![self.vector as u64]
        } else {
            seq![0u64, self.vector as u64]
        }
    }

    /// The stub of an exception vector.
    pub fn new(vector: u8) -> (stub: Stub)
        requires
            vector < 32,
        ensures
            stub.wf(),
            stub.vector == vector,
    {
        Stub { vector, has_error_code: pushes_error_code(vector) }
    }

    /// Runs the stub: pushes what is missing and the vector. The shared
    /// routine goes on from here with `save_registers`.
    pub fn enter(&self, stack: &mut Stack)
        ensures
            final(stack)@ == old(stack)@ + self.pushed(),
    {
        if !self.has_error_code {
            stack.push(0);
        }
        stack.push(self.vector as u64);
        assert(stack@ =~= old(stack)@ + self.pushed());
    }
}

/// Whether the processor pushes an error code when it delivers `vector`.
#[verifier::when_used_as_spec(has_error_code)]
pub fn pushes_error_code(vector: u8) -> (pushes: bool)
    ensures
        pushes == has_error_code(vector),
{
    match vector {
        8 | 10 | 11 | 12 | 13 | 14 | 17 | 21 | 29 | 30 => true,
        _ => false,
    }
}

/// The stubs of the 32 exception vectors, by vector.
pub fn stubs() -> (table: [Stub; 32])
    ensures
        forall|v: int| 0 <= v < 32 ==> (#[trigger] table@[v]).wf() && table@[v].vector == v,
{
    let mut table: [Stub; 32] = [Stub { vector: 0, has_error_code: false };32];
    let mut vector: u8 = 0;
    while vector < 32
        invariant
            vector <= 32,
            forall|v: int| 0 <= v < vector ==> (#[trigger] table@[v]).wf() && table@[v].vector == v,
        decreases 32 - vector,
    {
        table[vector as usize] = Stub::new(vector);
        vector += 1;
    }
    table
}

/// The stack after the processor has delivered `vector`: the trap frame,
/// and the error code where the vector has one.
pub open spec fn delivered(stack: Seq<u64>, vector: u8, frame: TrapFrame, error_code: u64) -> Seq<
    u64,
> {
    if has_error_code(vector) {
        stack + frame.pushed() + seq![error_code]
    } else {
        stack + frame.pushed()
    }
}

/// The stack when the handler runs: what the processor delivered, what the
/// stub pushed, and the registers.
pub open spec fn entered(
    stack: Seq<u64>,
    stub: Stub,
    regs: Registers,
    frame: TrapFrame,
    error_code: u64,
) -> Seq<u64> {
    delivered(stack, stub.vector, frame, error_code) + stub.pushed() + regs.pushed()
}

/// The vector and the context that the handler is given: the 22 most recent
/// words of the stack, read from the most recent one back.
pub open spec fn captured(stack: Seq<u64>) -> (u64, InterruptContext) {
    let n = stack.len() as int;
    (
        stack[n - 16],
        InterruptContext {
            r15: stack[n - 1],
            r14: stack[n - 2],
            r13: stack[n - 3],
            r12: stack[n - 4],
            r11: stack[n - 5],
            r10: stack[n - 6],
            r9: stack[n - 7],
            r8: stack[n - 8],
            rsi: stack[n - 9],
            rdi: stack[n - 10],
            rbp: stack[n - 11],
            rdx: stack[n - 12],
            rcx: stack[n - 13],
            rbx: stack[n - 14],
            rax: stack[n - 15],
            err_code: stack[n - 17],
            rip: stack[n - 18],
            cs: stack[n - 19],
            rflags: stack[n - 20],
            rsp: stack[n - 21],
            ss: stack[n - 22],
        },
    )
}

/// The `count` most recent words of the stack as they lie in memory, from
/// the stack pointer upward: the stack grows downward, so the most recent
/// word comes first.
pub open spec fn memory(stack: Seq<u64>, count: nat) -> Seq<u64> {
    Seq::new(count, |i: int| stack[stack.len() - 1 - i])
}

/// What leaving a trap yields: the stack as it is afterwards, the registers
/// as restored, and the frame that the processor returns through.
pub open spec fn left(stack: Seq<u64>) -> (Seq<u64>, Registers, TrapFrame) {
    let n = stack.len() as int;
    (
        stack.subrange(0, n - 22),
        captured(stack).1.spec_registers(),
        captured(stack).1.spec_trap_frame(),
    )
}

/// Whatever the vector, the handler finds the same layout: 22 words were
/// pushed, the vector is the stub's, the registers and the trap frame are
/// those of the interrupted code, and the error code is the processor's
/// where it pushed one and zero where it did not.
pub proof fn lemma_entry_is_uniform(
    stack: Seq<u64>,
    stub: Stub,
    regs: Registers,
    frame: TrapFrame,
    error_code: u64,
)
    requires
        stub.wf(),
    ensures
        entered(stack, stub, regs, frame, error_code).len() == stack.len() + SAVED_WORDS,
        entered(stack, stub, regs, frame, error_code).subrange(0, stack.len() as int) == stack,
        captured(entered(stack, stub, regs, frame, error_code)) == (
            stub.vector as u64,
            InterruptContext::assemble(
                regs,
                if has_error_code(stub.vector) {
                    error_code
                } else {
                    0
                },
                frame,
            ),
        ),
{
    let e = entered(stack, stub, regs, frame, error_code);
    assert(e.subrange(0, stack.len() as int) =~= stack);
}

/// What the handler is given lies in memory in the order of the context's
/// fields, with the vector between the registers and the error code.
pub proof fn lemma_saved_layout(stack: Seq<u64>)
    requires
        stack.len() >= SAVED_WORDS,
    ensures
        memory(stack, SAVED_WORDS as nat) == captured(stack).1.words().subrange(0, 15) + seq![
            captured(stack).0,
        ] + captured(stack).1.words().subrange(15, 21),
{
    assert(memory(stack, SAVED_WORDS as nat) =~= captured(stack).1.words().subrange(0, 15) + seq![
        captured(stack).0,
    ] + captured(stack).1.words().subrange(15, 21));
}

/// Leaving undoes entering: the stack is as the interrupted code left it,
/// every register has the value it had, and the processor returns through
/// the frame it pushed.
pub proof fn lemma_leave_undoes_enter(
    stack: Seq<u64>,
    stub: Stub,
    regs: Registers,
    frame: TrapFrame,
    error_code: u64,
)
    requires
        stub.wf(),
    ensures
        left(entered(stack, stub, regs, frame, error_code)) == (stack, regs, frame),
{
    lemma_entry_is_uniform(stack, stub, regs, frame, error_code);
    let e = entered(stack, stub, regs, frame, error_code);
    assert(e.subrange(0, e.len() - 22) =~= stack);
}

impl Stack {
    /// The words on the stack, oldest first.
    pub open spec fn view(&self) -> Seq<u64> {
        self.words@
    }

    /// An empty stack.
    pub fn new() -> (stack: Stack)
        ensures
            stack@ == Seq::<u64>::empty(),
    {
        Stack { words: Vec::new() }
    }

    /// Number of words on the stack.
    pub fn len(&self) -> (n: usize)
        ensures
            n == self@.len(),
    {
        self.words.len()
    }

    /// Puts `word` on the stack.
    pub fn push(&mut self, word: u64)
        ensures
            final(self)@ == old(self)@.push(word),
    {
        self.words.push(word);
    }

    /// Takes the most recent word off the stack.
    pub fn pop(&mut self) -> (word: u64)
        requires
            old(self)@.len() > 0,
        ensures
            word == old(self)@.last(),
            final(self)@ == old(self)@.drop_last(),
    {
        match self.words.pop() {
            Some(word) => word,
            None => 0,
        }
    }
}

/// The processor's part of a trap: it pushes the trap frame, and an error
/// code for the vectors that have one.
pub fn deliver(stack: &mut Stack, vector: u8, frame: &TrapFrame, error_code: u64)
    ensures
        final(stack)@ == delivered(old(stack)@, vector, *frame, error_code),
{
    stack.push(frame.ss);
    stack.push(frame.rsp);
    stack.push(frame.rflags);
    stack.push(frame.cs);
    stack.push(frame.rip);
    if pushes_error_code(vector) {
        stack.push(error_code);
    }
    assert(stack@ =~= delivered(old(stack)@, vector, *frame, error_code));
}

/// Saves the general registers on the stack.
pub fn save_registers(stack: &mut Stack, regs: &Registers)
    ensures
        final(stack)@ == old(stack)@ + regs.pushed(),
{
    stack.push(regs.rax);
    stack.push(regs.rbx);
    stack.push(regs.rcx);
    stack.push(regs.rdx);
    stack.push(regs.rbp);
    stack.push(regs.rdi);
    stack.push(regs.rsi);
    stack.push(regs.r8);
    stack.push(regs.r9);
    stack.push(regs.r10);
    stack.push(regs.r11);
    stack.push(regs.r12);
    stack.push(regs.r13);
    stack.push(regs.r14);
    stack.push(regs.r15);
    assert(stack@ =~= old(stack)@ + regs.pushed());
}

/// Reads what the handler is given, the vector and the context, off the top
/// of the stack. The stack is left as it is.
pub fn capture(stack: &Stack) -> (seen: (u64, InterruptContext))
    requires
        stack@.len() >= SAVED_WORDS,
    ensures
        seen == captured(stack@),
{
    let n = stack.len();
    (
        stack.words[n - 16],
        InterruptContext {
            r15: stack.words[n - 1],
            r14: stack.words[n - 2],
            r13: stack.words[n - 3],
            r12: stack.words[n - 4],
            r11: stack.words[n - 5],
            r10: stack.words[n - 6],
            r9: stack.words[n - 7],
            r8: stack.words[n - 8],
            rsi: stack.words[n - 9],
            rdi: stack.words[n - 10],
            rbp: stack.words[n - 11],
            rdx: stack.words[n - 12],
            rcx: stack.words[n - 13],
            rbx: stack.words[n - 14],
            rax: stack.words[n - 15],
            err_code: stack.words[n - 17],
            rip: stack.words[n - 18],
            cs: stack.words[n - 19],
            rflags: stack.words[n - 20],
            rsp: stack.words[n - 21],
            ss: stack.words[n - 22],
        },
    )
}

/// Takes the general registers off the stack, in the reverse of the order
/// in which `save_registers` pushed them.
pub fn restore_registers(stack: &mut Stack) -> (regs: Registers)
    requires
        old(stack)@.len() >= REGISTER_WORDS,
    ensures
        final(stack)@ == old(stack)@.subrange(0, old(stack)@.len() - REGISTER_WORDS),
        regs.pushed() == old(stack)@.subrange(
            old(stack)@.len() - REGISTER_WORDS,
            old(stack)@.len() as int,
        ),
{
    let r15 = stack.pop();
    let r14 = stack.pop();
    let r13 = stack.pop();
    let r12 = stack.pop();
    let r11 = stack.pop();
    let r10 = stack.pop();
    let r9 = stack.pop();
    let r8 = stack.pop();
    let rsi = stack.pop();
    let rdi = stack.pop();
    let rbp = stack.pop();
    let rdx = stack.pop();
    let rcx = stack.pop();
    let rbx = stack.pop();
    let rax = stack.pop();
    let regs = Registers { rax, rbx, rcx, rdx, rbp, rdi, rsi, r8, r9, r10, r11, r12, r13, r14, r15 };
    assert(stack@ =~= old(stack)@.subrange(0, old(stack)@.len() - REGISTER_WORDS));
    assert(regs.pushed() =~= old(stack)@.subrange(
        old(stack)@.len() - REGISTER_WORDS,
        old(stack)@.len() as int,
    ));
    regs
}

/// Drops the vector and the error code, which leaves the trap frame on top.
pub fn discard_codes(stack: &mut Stack)
    requires
        old(stack)@.len() >= 2,
    ensures
        final(stack)@ == old(stack)@.subrange(0, old(stack)@.len() - 2),
{
    stack.pop();
    stack.pop();
    assert(stack@ =~= old(stack)@.subrange(0, old(stack)@.len() - 2));
}

/// The processor's return from a trap: it takes the trap frame off the stack
/// and goes on where the frame says.
pub fn interrupt_return(stack: &mut Stack) -> (frame: TrapFrame)
    requires
        old(stack)@.len() >= TRAP_FRAME_WORDS,
    ensures
        final(stack)@ == old(stack)@.subrange(0, old(stack)@.len() - TRAP_FRAME_WORDS),
        frame.pushed() == old(stack)@.subrange(
            old(stack)@.len() - TRAP_FRAME_WORDS,
            old(stack)@.len() as int,
        ),
{
    let rip = stack.pop();
    let cs = stack.pop();
    let rflags = stack.pop();
    let rsp = stack.pop();
    let ss = stack.pop();
    let frame = TrapFrame { rip, cs, rflags, rsp, ss };
    assert(stack@ =~= old(stack)@.subrange(0, old(stack)@.len() - TRAP_FRAME_WORDS));
    assert(frame.pushed() =~= old(stack)@.subrange(
        old(stack)@.len() - TRAP_FRAME_WORDS,
        old(stack)@.len() as int,
    ));
    frame
}

/// The whole way in: the processor delivers the vector, the vector's stub
/// runs, the shared routine saves the registers. Returns what the handler is
/// given.
pub fn enter(stack: &mut Stack, vector: u8, regs: &Registers, frame: &TrapFrame, error_code: u64) -> (seen:
    (u64, InterruptContext))
    requires
        vector < 32,
    ensures
        final(stack)@ == entered(
            old(stack)@,
            Stub { vector, has_error_code: has_error_code(vector) },
            *regs,
            *frame,
            error_code,
        ),
        seen == captured(final(stack)@),
        seen.0 == vector,
        seen.1 == InterruptContext::assemble(
            *regs,
            if has_error_code(vector) {
                error_code
            } else {
                0
            },
            *frame,
        ),
{
    let stub = Stub::new(vector);
    deliver(stack, vector, frame, error_code);
    stub.enter(stack);
    save_registers(stack, regs);
    proof {
        lemma_entry_is_uniform(old(stack)@, stub, *regs, *frame, error_code);
    }
    capture(stack)
}

/// The whole way out: the shared routine restores the registers and drops
/// the two codes, the processor returns through the trap frame.
pub fn leave(stack: &mut Stack) -> (restored: (Registers, TrapFrame))
    requires
        old(stack)@.len() >= SAVED_WORDS,
    ensures
        (final(stack)@, restored.0, restored.1) == left(old(stack)@),
{
    let ghost n = old(stack)@.len() as int;
    let regs = restore_registers(stack);
    assert(forall|i: int| 0 <= i < 15 ==> regs.pushed()[i] == old(stack)@[n - 15 + i]);
    discard_codes(stack);
    let frame = interrupt_return(stack);
    assert(forall|i: int| 0 <= i < 5 ==> frame.pushed()[i] == old(stack)@[n - 22 + i]);
    assert(regs.pushed()[0] == regs.rax && regs.pushed()[14] == regs.r15);
    assert(stack@ =~= old(stack)@.subrange(0, n - 22));
    (regs, frame)
}

} // verus!
