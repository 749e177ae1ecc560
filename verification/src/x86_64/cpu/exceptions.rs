//! What the kernel does when an exception fires: it says what happened and
//! stops.
//!
//! Nothing at this level can take a faulted context apart or resume it
//! safely, so every exception ends in a halt. What is worth reporting
//! depends on the exception; `dispatch` decides it. Reading the control
//! registers, writing the report out and halting are left to the caller.

use super::interrupt::{has_error_code, InterruptContext};
use vstd::prelude::*;

verus! {

/// The exceptions that the kernel knows how to report.
#[derive(Clone, Copy, Debug, PartialEq, Eq, Structural)]
pub enum Exception {
    DivideByZero,
    Debug,
    NonMaskableInterrupt,
    Breakpoint,
    Overflow,
    BoundRangeExceeded,
    InvalidOpcode,
    DeviceNotAvailable,
    DoubleFault,
    InvalidTss,
    SegmentNotPresent,
    StackSegmentFault,
    GeneralProtectionFault,
    PageFault,
    X87FloatingPoint,
    AlignmentCheck,
    MachineCheck,
    SimdFloatingPoint,
}

/// A control register that holds more about an exception.
#[derive(Clone, Copy, Debug, PartialEq, Eq, Structural)]
pub enum ControlRegister {
    /// The linear address whose access caused a page fault.
    Cr2,
    /// The debug status.
    Dr6,
}

/// What is reported of an exception.
#[derive(Clone, Copy, Debug, PartialEq, Eq, Structural)]
pub enum Details {
    /// Where the interrupted code was.
    InstructionPointer { rip: u64 },
    /// Where the interrupted code was, and the debug status register.
    DebugStatus { rip: u64, dr6: u64 },
    /// The error code that the processor pushed.
    ErrorCode { err_code: u64 },
    /// Where the interrupted code was, and the selector at fault where the
    /// fault has to do with a segment.
    Selector { rip: u64, selector: Option<u64> },
    /// The address whose access faulted, the error code and where the
    /// interrupted code was.
    PageFault { address: u64, err_code: u64, rip: u64 },
    /// Nothing: the vector has no handler of its own.
    Unhandled,
}

/// A report on one trap.
#[derive(Clone, Copy, Debug, PartialEq, Eq, Structural)]
pub struct Diagnostic {
    pub vector: u64,
    pub exception: Option<Exception>,
    pub details: Details,
}

/// What follows the report.
#[derive(Clone, Copy, Debug, PartialEq, Eq, Structural)]
pub enum Outcome {
    /// The processor is stopped for good.
    Halt,
    /// The interrupted code goes on. No exception ends this way yet.
    Resume,
}

/// What the error code of a page fault says about the access.
#[derive(Clone, Copy, Debug, PartialEq, Eq, Structural)]
pub struct PageFaultCode {
    /// The page was present: the fault is a protection violation.
    pub present: bool,
    /// The access was a write.
    pub write: bool,
    /// The access came from user mode.
    pub user: bool,
    /// A reserved bit was set in a paging structure.
    pub reserved: bool,
    /// The access was an instruction fetch.
    pub instruction_fetch: bool,
}

impl Exception {
    /// The exception that the processor delivers on `vector`, if the kernel
    /// knows it.
    pub open spec fn spec_from_vector(vector: u64) -> Option<Exception> {
        if vector == 0 {
            Some(Exception::DivideByZero)
        } else if vector == 1 {
            Some(Exception::Debug)
        } else if vector == 2 {
            Some(Exception::NonMaskableInterrupt)
        } else if vector == 3 {
            Some(Exception::Breakpoint)
        } else if vector == 4 {
            Some(Exception::Overflow)
        } else if vector == 5 {
            Some(Exception::BoundRangeExceeded)
        } else if vector == 6 {
            Some(Exception::InvalidOpcode)
        } else if vector == 7 {
            Some(Exception::DeviceNotAvailable)
        } else if vector == 8 {
            Some(Exception::DoubleFault)
        } else if vector == 10 {
            Some(Exception::InvalidTss)
        } else if vector == 11 {
            Some(Exception::SegmentNotPresent)
        } else if vector == 12 {
            Some(Exception::StackSegmentFault)
        } else if vector == 13 {
            Some(Exception::GeneralProtectionFault)
        } else if vector == 14 {
            Some(Exception::PageFault)
        } else if vector == 16 {
            Some(Exception::X87FloatingPoint)
        } else if vector == 17 {
            Some(Exception::AlignmentCheck)
        } else if vector == 18 {
            Some(Exception::MachineCheck)
        } else if vector == 19 {
            Some(Exception::SimdFloatingPoint)
        } else {
            None
        }
    }

    /// The vector on which the processor delivers the exception.
    pub open spec fn spec_vector(&self) -> u8 {
        match self {
            Exception::DivideByZero => 0,
            Exception::Debug => 1,
            Exception::NonMaskableInterrupt => 2,
            Exception::Breakpoint => 3,
            Exception::Overflow => 4,
            Exception::BoundRangeExceeded => 5,
            Exception::InvalidOpcode => 6,
            Exception::DeviceNotAvailable => 7,
            Exception::DoubleFault => 8,
            Exception::InvalidTss => 10,
            Exception::SegmentNotPresent => 11,
            Exception::StackSegmentFault => 12,
            Exception::GeneralProtectionFault => 13,
            Exception::PageFault => 14,
            Exception::X87FloatingPoint => 16,
            Exception::AlignmentCheck => 17,
            Exception::MachineCheck => 18,
            Exception::SimdFloatingPoint => 19,
        }
    }

    /// The control register that the report on this exception draws on.
    pub open spec fn spec_control_register(&self) -> Option<ControlRegister> {
        match self {
            Exception::Debug => Some(ControlRegister::Dr6),
            Exception::PageFault => Some(ControlRegister::Cr2),
            _ => None,
        }
    }

    /// What is reported of this exception, given the saved context and the
    /// value of the exception's control register.
    pub open spec fn details(&self, context: InterruptContext, control: u64) -> Details {
        match self {
            Exception::DivideByZero
            | Exception::NonMaskableInterrupt
            | Exception::Breakpoint
            | Exception::Overflow
            | Exception::BoundRangeExceeded
            | Exception::InvalidOpcode
            | Exception::DeviceNotAvailable
            | Exception::X87FloatingPoint
            | Exception::MachineCheck
            | Exception::SimdFloatingPoint => Details::InstructionPointer { rip: context.rip },
            Exception::Debug => Details::DebugStatus { rip: context.rip, dr6: control },
            Exception::DoubleFault
            | Exception::InvalidTss
            | Exception::SegmentNotPresent
            | Exception::StackSegmentFault
            | Exception::AlignmentCheck => Details::ErrorCode { err_code: context.err_code },
            Exception::GeneralProtectionFault => Details::Selector {
                rip: context.rip,
                selector: if context.err_code != 0 {
                    Some(context.err_code)
                } else {
                    None
                },
            },
            Exception::PageFault => Details::PageFault {
                address: control,
                err_code: context.err_code,
                rip: context.rip,
            },
        }
    }

    #[verifier::when_used_as_spec(spec_from_vector)]
    pub fn from_vector(vector: u64) -> (exception: Option<Exception>)
        ensures
            exception == Exception::spec_from_vector(vector),
    {
        match vector {
            0 => Some(Exception::DivideByZero),
            1 => Some(Exception::Debug),
            2 => Some(Exception::NonMaskableInterrupt),
            3 => Some(Exception::Breakpoint),
            4 => Some(Exception::Overflow),
            5 => Some(Exception::BoundRangeExceeded),
            6 => Some(Exception::InvalidOpcode),
            7 => Some(Exception::DeviceNotAvailable),
            8 => Some(Exception::DoubleFault),
            10 => Some(Exception::InvalidTss),
            11 => Some(Exception::SegmentNotPresent),
            12 => Some(Exception::StackSegmentFault),
            13 => Some(Exception::GeneralProtectionFault),
            14 => Some(Exception::PageFault),
            16 => Some(Exception::X87FloatingPoint),
            17 => Some(Exception::AlignmentCheck),
            18 => Some(Exception::MachineCheck),
            19 => Some(Exception::SimdFloatingPoint),
            _ => None,
        }
    }

    #[verifier::when_used_as_spec(spec_vector)]
    pub fn vector(&self) -> (vector: u8)
        ensures
            vector == self.spec_vector(),
    {
        match self {
            Exception::DivideByZero => 0,
            Exception::Debug => 1,
            Exception::NonMaskableInterrupt => 2,
            Exception::Breakpoint => 3,
            Exception::Overflow => 4,
            Exception::BoundRangeExceeded => 5,
            Exception::InvalidOpcode => 6,
            Exception::DeviceNotAvailable => 7,
            Exception::DoubleFault => 8,
            Exception::InvalidTss => 10,
            Exception::SegmentNotPresent => 11,
            Exception::StackSegmentFault => 12,
            Exception::GeneralProtectionFault => 13,
            Exception::PageFault => 14,
            Exception::X87FloatingPoint => 16,
            Exception::AlignmentCheck => 17,
            Exception::MachineCheck => 18,
            Exception::SimdFloatingPoint => 19,
        }
    }

    /// The control register that the caller has to read before it asks for
    /// the report on this exception.
    #[verifier::when_used_as_spec(spec_control_register)]
    pub fn control_register(&self) -> (register: Option<ControlRegister>)
        ensures
            register == self.spec_control_register(),
    {
        match self {
            Exception::Debug => Some(ControlRegister::Dr6),
            Exception::PageFault => Some(ControlRegister::Cr2),
            _ => None,
        }
    }
}

/// The report on a trap: the exception that the vector stands for and what
/// is worth saying of it. A vector that stands for none is reported bare.
pub open spec fn diagnostic(vector: u64, context: InterruptContext, control: u64) -> Diagnostic {
    Diagnostic {
        vector,
        exception: Exception::spec_from_vector(vector),
        details: match Exception::spec_from_vector(vector) {
            Some(exception) => exception.details(context, control),
            None => Details::Unhandled,
        },
    }
}

/// Every exception that the kernel knows is delivered on a vector that has a
/// gate, and the vector leads back to the exception.
pub proof fn lemma_exception_vectors(exception: Exception)
    ensures
        super::idt::populated(exception.spec_vector() as int),
        Exception::spec_from_vector(exception.spec_vector() as u64) == Some(exception),
{
}

/// An error code is reported only of exceptions for which the processor
/// pushes one: the zero that a stub pushes in its place is never passed off
/// as a code.
pub proof fn lemma_reported_codes_are_real(
    exception: Exception,
    context: InterruptContext,
    control: u64,
)
    ensures
        exception.details(context, control) is ErrorCode ==> has_error_code(
            exception.spec_vector(),
        ),
        exception.details(context, control) is PageFault ==> has_error_code(
            exception.spec_vector(),
        ),
        exception.details(context, control) is Selector ==> has_error_code(
            exception.spec_vector(),
        ),
{
}

/// Decides what to report of the trap on `vector` and what to do then.
/// `control` is the value of the exception's control register; it is not
/// looked at where the exception has none. Every trap ends in a halt.
pub fn dispatch(vector: u64, context: &InterruptContext, control: u64) -> (decision: (
    Diagnostic,
    Outcome,
))
    ensures
        decision.0 == diagnostic(vector, *context, control),
        decision.1 == Outcome::Halt,
{
    let exception = Exception::from_vector(vector);
    let details = match exception {
        None => Details::Unhandled,
        Some(Exception::Debug) => Details::DebugStatus { rip: context.rip, dr6: control },
        Some(Exception::DoubleFault)
        | Some(Exception::InvalidTss)
        | Some(Exception::SegmentNotPresent)
        | Some(Exception::StackSegmentFault)
        | Some(Exception::AlignmentCheck) => Details::ErrorCode { err_code: context.err_code },
        Some(Exception::GeneralProtectionFault) => {
            if context.err_code != 0 {
                Details::Selector { rip: context.rip, selector: Some(context.err_code) }
            } else {
                Details::Selector { rip: context.rip, selector: None }
            }
        },
        Some(Exception::PageFault) => Details::PageFault {
            address: control,
            err_code: context.err_code,
            rip: context.rip,
        },
        Some(_) => Details::InstructionPointer { rip: context.rip },
    };
    (Diagnostic { vector, exception, details }, Outcome::Halt)
}

impl PageFaultCode {
    /// The meaning of a page fault's error code: bit 0 present, bit 1
    /// write, bit 2 user, bit 3 reserved bit set, bit 4 instruction fetch.
    pub open spec fn spec_decode(err_code: u64) -> PageFaultCode {
        PageFaultCode {
            present: err_code % 2 == 1,
            write: err_code / 2 % 2 == 1,
            user: err_code / 4 % 2 == 1,
            reserved: err_code / 8 % 2 == 1,
            instruction_fetch: err_code / 16 % 2 == 1,
        }
    }

    /// Takes a page fault's error code apart.
    #[verifier::when_used_as_spec(spec_decode)]
    pub fn decode(err_code: u64) -> (code: PageFaultCode)
        ensures
            code == PageFaultCode::spec_decode(err_code),
    {
        assert((err_code & 1 != 0) == (err_code % 2 == 1) && (err_code & 2 != 0) == (err_code / 2
            % 2 == 1) && (err_code & 4 != 0) == (err_code / 4 % 2 == 1) && (err_code & 8 != 0) == (
        err_code / 8 % 2 == 1) && (err_code & 16 != 0) == (err_code / 16 % 2 == 1))
            by (bit_vector);
        PageFaultCode {
            present: err_code & 1 != 0,
            write: err_code & 2 != 0,
            user: err_code & 4 != 0,
            reserved: err_code & 8 != 0,
            instruction_fetch: err_code & 16 != 0,
        }
    }
}

} // verus!
