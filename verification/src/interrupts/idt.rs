//! The full dispatch table: the fixed exception handlers plus the three
//! device vectors, and the fault and device-handler policy.
//!
//! Fault policy: the breakpoint trap logs a diagnostic and resumes at the
//! trap return point; every other handled exception logs its context and
//! halts the processor unrecoverably.  Device policy: each device handler
//! performs its minimal device-specific action and then unconditionally
//! acknowledges end-of-interrupt to the controller that delivered it.

use vstd::prelude::*;
use crate::idt::ExceptionDispatchTable;
use crate::idt::Handler;
use crate::idt::base_slot;

verus! {

/// The vectors this kernel populates: the architecturally defined
/// exceptions at their fixed numbers 0-31, and the three software-chosen
/// device vectors (legacy timer, keyboard, local-controller timer).
#[derive(Clone, Copy, Debug, PartialEq, Eq, Structural)]
pub enum InterruptIndex {
    DivideError,
    Debug,
    NonMaskableInterrupt,
    Breakpoint,
    Overflow,
    BoundRangeExceeded,
    InvalidOpcode,
    DeviceNotAvailable,
    DoubleFault,
    CoprocessorSegmentOverrun,
    InvalidTSS,
    SegmentNotPResent,
    StackSegmentFault,
    GeneralProtectionFault,
    PageFault,
    X87FloatingPoint,
    AlignmentCheck,
    MachineCheck,
    SimdFloatingPoint,
    PicTimer,
    Keyboard,
    APICTimer,
}

impl InterruptIndex {
    /// The dispatch-table slot number of this vector.
    pub open spec fn spec_vector(self) -> u8 {
        match self {
            InterruptIndex::DivideError => 0,
            InterruptIndex::Debug => 1,
            InterruptIndex::NonMaskableInterrupt => 2,
            InterruptIndex::Breakpoint => 3,
            InterruptIndex::Overflow => 4,
            InterruptIndex::BoundRangeExceeded => 5,
            InterruptIndex::InvalidOpcode => 6,
            InterruptIndex::DeviceNotAvailable => 7,
            InterruptIndex::DoubleFault => 8,
            InterruptIndex::CoprocessorSegmentOverrun => 9,
            InterruptIndex::InvalidTSS => 10,
            InterruptIndex::SegmentNotPResent => 11,
            InterruptIndex::StackSegmentFault => 12,
            InterruptIndex::GeneralProtectionFault => 13,
            InterruptIndex::PageFault => 14,
            InterruptIndex::X87FloatingPoint => 16,
            InterruptIndex::AlignmentCheck => 17,
            InterruptIndex::MachineCheck => 18,
            InterruptIndex::SimdFloatingPoint => 19,
            InterruptIndex::PicTimer => 32,
            InterruptIndex::Keyboard => 33,
            InterruptIndex::APICTimer => 48,
        }
    }

    pub fn as_u8(&self) -> (r: u8)
        ensures
            r == self.spec_vector(),
    {
        match self {
            InterruptIndex::DivideError => 0,
            InterruptIndex::Debug => 1,
            InterruptIndex::NonMaskableInterrupt => 2,
            InterruptIndex::Breakpoint => 3,
            InterruptIndex::Overflow => 4,
            InterruptIndex::BoundRangeExceeded => 5,
            InterruptIndex::InvalidOpcode => 6,
            InterruptIndex::DeviceNotAvailable => 7,
            InterruptIndex::DoubleFault => 8,
            InterruptIndex::CoprocessorSegmentOverrun => 9,
            InterruptIndex::InvalidTSS => 10,
            InterruptIndex::SegmentNotPResent => 11,
            InterruptIndex::StackSegmentFault => 12,
            InterruptIndex::GeneralProtectionFault => 13,
            InterruptIndex::PageFault => 14,
            InterruptIndex::X87FloatingPoint => 16,
            InterruptIndex::AlignmentCheck => 17,
            InterruptIndex::MachineCheck => 18,
            InterruptIndex::SimdFloatingPoint => 19,
            InterruptIndex::PicTimer => 32,
            InterruptIndex::Keyboard => 33,
            InterruptIndex::APICTimer => 48,
        }
    }
}

/// Law: the three software-assigned device vectors are mutually distinct
/// and lie outside the architecturally reserved exception range 0-31.
pub proof fn lemma_device_vectors_distinct()
    ensures
        InterruptIndex::PicTimer.spec_vector() != InterruptIndex::Keyboard.spec_vector(),
        InterruptIndex::PicTimer.spec_vector() != InterruptIndex::APICTimer.spec_vector(),
        InterruptIndex::Keyboard.spec_vector() != InterruptIndex::APICTimer.spec_vector(),
        InterruptIndex::PicTimer.spec_vector() >= 32,
        InterruptIndex::Keyboard.spec_vector() >= 32,
        InterruptIndex::APICTimer.spec_vector() >= 32,
{
}

/// The handler of slot `i` in the full table: the exception handlers of
/// the base table, plus the three device vectors.
pub open spec fn full_slot(i: int) -> Handler {
    if i == 32 {
        Handler::PicTimer
    } else if i == 33 {
        Handler::Keyboard
    } else if i == 48 {
        Handler::ApicTimer
    } else {
        base_slot(i)
    }
}

/// Build the full dispatch table: exception handlers at their fixed
/// vectors, the three device vectors, everything else unhandled.  The
/// result is not yet loaded; it must be loaded before any asynchronous
/// interrupt source is unmasked.
pub fn init() -> (t: ExceptionDispatchTable)
    ensures
        t.wf(),
        !t.spec_loaded(),
        forall|i: int| 0 <= i < 256 ==> t.spec_slots()[i] == full_slot(i),
{
    let mut t = crate::idt::init();
    t.set_handler(32, Handler::PicTimer);
    t.set_handler(33, Handler::Keyboard);
    t.set_handler(48, Handler::ApicTimer);
    t
}

/// How a CPU-raised fault is treated once dispatched.
#[derive(Clone, Copy, Debug, PartialEq, Eq, Structural)]
pub enum FaultClass {
    /// Log a diagnostic and resume the interrupted instruction stream.
    Recoverable,
    /// Log the captured fault context, then halt unrecoverably.
    Fatal,
}

/// The fault class of a handler, or `None` for device vectors and
/// unhandled slots.  Breakpoint is the only recoverable fault.
pub open spec fn spec_fault_class(h: Handler) -> Option<FaultClass> {
    match h {
        Handler::Breakpoint => Some(FaultClass::Recoverable),
        Handler::DivideError => Some(FaultClass::Fatal),
        Handler::DoubleFault => Some(FaultClass::Fatal),
        Handler::InvalidTss => Some(FaultClass::Fatal),
        Handler::SegmentNotPresent => Some(FaultClass::Fatal),
        Handler::StackSegmentFault => Some(FaultClass::Fatal),
        Handler::GeneralProtectionFault => Some(FaultClass::Fatal),
        Handler::PageFault => Some(FaultClass::Fatal),
        _ => None,
    }
}

pub fn fault_class(h: Handler) -> (r: Option<FaultClass>)
    ensures
        r == spec_fault_class(h),
{
    match h {
        Handler::Breakpoint => Some(FaultClass::Recoverable),
        Handler::DivideError => Some(FaultClass::Fatal),
        Handler::DoubleFault => Some(FaultClass::Fatal),
        Handler::InvalidTss => Some(FaultClass::Fatal),
        Handler::SegmentNotPresent => Some(FaultClass::Fatal),
        Handler::StackSegmentFault => Some(FaultClass::Fatal),
        Handler::GeneralProtectionFault => Some(FaultClass::Fatal),
        Handler::PageFault => Some(FaultClass::Fatal),
        _ => None,
    }
}

/// What the interrupted context does after an exception handler returns.
#[derive(Clone, Copy, Debug, PartialEq, Eq, Structural)]
pub enum FaultOutcome {
    /// Execution continues at the trap return point (the next
    /// instruction), not at the faulting instruction.
    Resume,
    /// The processor halts; the fault record was emitted first.
    Halt,
}

/// The diagnostic line named for each handled exception.
pub open spec fn spec_fault_diagnostic(h: Handler) -> Seq<char> {
    match h {
        Handler::Breakpoint => "EXCEPTION: BREAKPOINT"@,
        Handler::DivideError => "EXCEPTION: DIVIDE ERROR"@,
        Handler::DoubleFault => "EXCEPTION: DOUBLE FAULT"@,
        Handler::InvalidTss => "EXCEPTION: INVALID TSS"@,
        Handler::SegmentNotPresent => "EXCEPTION: SEGMENT NOT PRESENT"@,
        Handler::StackSegmentFault => "EXCEPTION: STACK SEGMENT FAULT"@,
        Handler::GeneralProtectionFault => "EXCEPTION: GENERAL PROTECTION FAULT"@,
        Handler::PageFault => "EXCEPTION: PAGE FAULT"@,
        _ => "EXCEPTION"@,
    }
}

/// The diagnostic line a fault handler emits to the logging sink before
/// resuming or halting.
pub fn fault_diagnostic(h: Handler) -> (r: &'static str)
    requires
        spec_fault_class(h) is Some,
    ensures
        r@ == spec_fault_diagnostic(h),
        r@.len() > 0,
{
    let r = match h {
        Handler::Breakpoint => "EXCEPTION: BREAKPOINT",
        Handler::DivideError => "EXCEPTION: DIVIDE ERROR",
        Handler::DoubleFault => "EXCEPTION: DOUBLE FAULT",
        Handler::InvalidTss => "EXCEPTION: INVALID TSS",
        Handler::SegmentNotPresent => "EXCEPTION: SEGMENT NOT PRESENT",
        Handler::StackSegmentFault => "EXCEPTION: STACK SEGMENT FAULT",
        Handler::GeneralProtectionFault => "EXCEPTION: GENERAL PROTECTION FAULT",
        Handler::PageFault => "EXCEPTION: PAGE FAULT",
        _ => "EXCEPTION",
    };
    proof {
        reveal_strlit("EXCEPTION: BREAKPOINT");
        reveal_strlit("EXCEPTION: DIVIDE ERROR");
        reveal_strlit("EXCEPTION: DOUBLE FAULT");
        reveal_strlit("EXCEPTION: INVALID TSS");
        reveal_strlit("EXCEPTION: SEGMENT NOT PRESENT");
        reveal_strlit("EXCEPTION: STACK SEGMENT FAULT");
        reveal_strlit("EXCEPTION: GENERAL PROTECTION FAULT");
        reveal_strlit("EXCEPTION: PAGE FAULT");
        reveal_strlit("EXCEPTION");
    }
    r
}

/// The captured context of one CPU-raised fault, as plain values: the
/// vector that fired, the error code if the architecture pushed one, and
/// the interrupted instruction- and stack-pointer snapshot.
#[derive(Clone, Copy, Debug)]
pub struct FaultContext {
    pub vector: u8,
    pub error_code: Option<u64>,
    pub instruction_pointer: u64,
    pub stack_pointer: u64,
}

/// One fault record as handed to the logging sink: the handler's
/// diagnostic line together with the captured context, emitted on every
/// fault path -- before halting on the fatal ones -- so the failure is
/// diagnosable post-mortem.
#[derive(Clone, Copy, Debug)]
pub struct FaultRecord {
    pub diagnostic: &'static str,
    pub vector: u8,
    pub error_code: Option<u64>,
    pub instruction_pointer: u64,
    pub stack_pointer: u64,
}

/// Whether the architecture pushes an error code for this handler's
/// exception.
pub open spec fn spec_has_error_code(h: Handler) -> bool {
    match h {
        Handler::DoubleFault => true,
        Handler::InvalidTss => true,
        Handler::SegmentNotPresent => true,
        Handler::StackSegmentFault => true,
        Handler::GeneralProtectionFault => true,
        Handler::PageFault => true,
        _ => false,
    }
}

pub fn has_error_code(h: Handler) -> (r: bool)
    ensures
        r == spec_has_error_code(h),
{
    match h {
        Handler::DoubleFault => true,
        Handler::InvalidTss => true,
        Handler::SegmentNotPresent => true,
        Handler::StackSegmentFault => true,
        Handler::GeneralProtectionFault => true,
        Handler::PageFault => true,
        _ => false,
    }
}

/// Build the record a fault handler emits before the fault policy is
/// applied: the diagnostic named for the exception, and the captured
/// context carried through unchanged -- the error code exactly when the
/// architecture supplies one for this exception, and the instruction-
/// and stack-pointer snapshot always.
pub fn fault_record(h: Handler, ctx: &FaultContext) -> (r: FaultRecord)
    requires
        spec_fault_class(h) is Some,
    ensures
        r.diagnostic@ == spec_fault_diagnostic(h),
        r.vector == ctx.vector,
        r.error_code == (if spec_has_error_code(h) {
            ctx.error_code
        } else {
            None::<u64>
        }),
        r.instruction_pointer == ctx.instruction_pointer,
        r.stack_pointer == ctx.stack_pointer,
{
    let diagnostic = fault_diagnostic(h);
    let error_code = if has_error_code(h) {
        ctx.error_code
    } else {
        None
    };
    FaultRecord {
        diagnostic,
        vector: ctx.vector,
        error_code,
        instruction_pointer: ctx.instruction_pointer,
        stack_pointer: ctx.stack_pointer,
    }
}

/// Decide the outcome of a dispatched fault: the breakpoint trap resumes
/// the interrupted instruction stream, every other handled exception
/// halts.  The caller emits the diagnostic first on either path.
pub fn handle_fault(h: Handler) -> (r: FaultOutcome)
    requires
        spec_fault_class(h) is Some,
    ensures
        r == FaultOutcome::Resume <==> h == Handler::Breakpoint,
        r == FaultOutcome::Halt <==> spec_fault_class(h) == Some(FaultClass::Fatal),
{
    match h {
        Handler::Breakpoint => FaultOutcome::Resume,
        _ => FaultOutcome::Halt,
    }
}

/// Which controller a device handler acknowledges.
#[derive(Clone, Copy, Debug, PartialEq, Eq, Structural)]
pub enum EoiController {
    /// The legacy 8-line controller pair.  It is retired -- fully masked --
    /// before any device vector is unmasked, so no handler of this table
    /// acknowledges it; the variant names the other controller the system
    /// has.
    Legacy,
    /// The local controller.  Every device vector here is delivered
    /// through it: the I/O redirection controller delivers into it, and
    /// its own timer is local to begin with.
    Local,
}

/// The action of one device-vector handler: the minimal device-specific
/// step, then an unconditional end-of-interrupt acknowledgement.
#[derive(Clone, Copy, Debug, PartialEq, Eq, Structural)]
pub struct DeviceAction {
    /// Read one scan code byte from the keyboard port and hand it to the
    /// external task queue, fire-and-forget.
    pub read_scancode: bool,
    pub eoi: EoiController,
    /// The vector number to acknowledge.
    pub eoi_vector: u8,
}

/// The device policy of a handler, or `None` for non-device slots.  All
/// three device vectors acknowledge the local controller: the legacy pair
/// is retired before any of them is unmasked, the timer and keyboard
/// lines reach these vectors through the I/O redirection controller,
/// which delivers through the local controller, and the local timer is
/// the local controller's own.
pub open spec fn spec_device_action(h: Handler) -> Option<DeviceAction> {
    match h {
        Handler::PicTimer => Some(
            DeviceAction { read_scancode: false, eoi: EoiController::Local, eoi_vector: 32 },
        ),
        Handler::Keyboard => Some(
            DeviceAction { read_scancode: true, eoi: EoiController::Local, eoi_vector: 33 },
        ),
        Handler::ApicTimer => Some(
            DeviceAction { read_scancode: false, eoi: EoiController::Local, eoi_vector: 48 },
        ),
        _ => None,
    }
}

/// The action a device handler performs: the keyboard vector reads one
/// scan code and forwards it; every device handler then acknowledges
/// end-of-interrupt to whichever controller delivered it -- here always
/// the local controller, since the I/O-redirected vectors are delivered
/// through it -- before returning control.
pub fn device_action(h: Handler) -> (r: Option<DeviceAction>)
    ensures
        r == spec_device_action(h),
{
    match h {
        Handler::PicTimer => Some(
            DeviceAction { read_scancode: false, eoi: EoiController::Local, eoi_vector: 32 },
        ),
        Handler::Keyboard => Some(
            DeviceAction { read_scancode: true, eoi: EoiController::Local, eoi_vector: 33 },
        ),
        Handler::ApicTimer => Some(
            DeviceAction { read_scancode: false, eoi: EoiController::Local, eoi_vector: 48 },
        ),
        _ => None,
    }
}

} // verus!
