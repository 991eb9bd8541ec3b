use irqcore::idt::Handler;
use irqcore::interrupts::idt::{
    device_action, fault_class, fault_diagnostic, fault_record, handle_fault, has_error_code,
    DeviceAction, EoiController, FaultClass, FaultContext, FaultOutcome, InterruptIndex,
};

#[test]
fn base_table_populates_the_exception_slots() {
    let t = irqcore::idt::init();
    assert!(!t.is_loaded());
    assert_eq!(t.get(0), Handler::DivideError);
    assert_eq!(t.get(3), Handler::Breakpoint);
    assert_eq!(t.get(8), Handler::DoubleFault);
    assert_eq!(t.get(10), Handler::InvalidTss);
    assert_eq!(t.get(11), Handler::SegmentNotPresent);
    assert_eq!(t.get(12), Handler::StackSegmentFault);
    assert_eq!(t.get(13), Handler::GeneralProtectionFault);
    assert_eq!(t.get(14), Handler::PageFault);
    assert_eq!(t.get(1), Handler::Unhandled);
    assert_eq!(t.get(15), Handler::Unhandled);
    assert_eq!(t.get(32), Handler::Unhandled);
    assert_eq!(t.get(255), Handler::Unhandled);
}

#[test]
fn full_table_adds_the_device_vectors() {
    let t = irqcore::interrupts::idt::init();
    assert_eq!(t.get(32), Handler::PicTimer);
    assert_eq!(t.get(33), Handler::Keyboard);
    assert_eq!(t.get(48), Handler::ApicTimer);
    assert_eq!(t.get(3), Handler::Breakpoint);
    assert_eq!(t.get(34), Handler::Unhandled);
    assert_eq!(t.get(47), Handler::Unhandled);
    assert_eq!(t.get(49), Handler::Unhandled);
}

#[test]
fn loading_is_terminal_and_keeps_the_slots() {
    let mut t = irqcore::interrupts::idt::init();
    t.load();
    assert!(t.is_loaded());
    assert_eq!(t.get(48), Handler::ApicTimer);
}

#[test]
fn breakpoint_is_the_only_recoverable_fault() {
    assert_eq!(fault_class(Handler::Breakpoint), Some(FaultClass::Recoverable));
    for h in [
        Handler::DivideError,
        Handler::DoubleFault,
        Handler::InvalidTss,
        Handler::SegmentNotPresent,
        Handler::StackSegmentFault,
        Handler::GeneralProtectionFault,
        Handler::PageFault,
    ] {
        assert_eq!(fault_class(h), Some(FaultClass::Fatal));
        assert_eq!(handle_fault(h), FaultOutcome::Halt);
    }
    assert_eq!(fault_class(Handler::Unhandled), None);
    assert_eq!(fault_class(Handler::Keyboard), None);
}

#[test]
fn breakpoint_fires_and_execution_resumes() {
    // A breakpoint during normal execution: the handler logs, the
    // interrupted context resumes at the trap return point, shown by the
    // counter increment after the dispatch.
    let mut executed_after_trap = 0u32;
    let t = irqcore::interrupts::idt::init();
    let handler = t.get(InterruptIndex::Breakpoint.as_u8());
    let diagnostic = fault_diagnostic(handler);
    assert_eq!(diagnostic, "EXCEPTION: BREAKPOINT");
    match handle_fault(handler) {
        FaultOutcome::Resume => {
            executed_after_trap += 1;
        }
        FaultOutcome::Halt => unreachable!("a breakpoint must not halt"),
    }
    assert_eq!(executed_after_trap, 1);
}

#[test]
fn fatal_fault_diagnostics_are_named() {
    assert_eq!(fault_diagnostic(Handler::PageFault), "EXCEPTION: PAGE FAULT");
    assert_eq!(fault_diagnostic(Handler::DoubleFault), "EXCEPTION: DOUBLE FAULT");
    assert_eq!(fault_diagnostic(Handler::DivideError), "EXCEPTION: DIVIDE ERROR");
}

#[test]
fn device_handlers_acknowledge_their_controller() {
    // All three device vectors are delivered through the local
    // controller (the legacy pair is retired, the timer and keyboard
    // lines arrive I/O-redirected), so all three acknowledge it.
    assert_eq!(
        device_action(Handler::PicTimer),
        Some(DeviceAction { read_scancode: false, eoi: EoiController::Local, eoi_vector: 32 })
    );
    assert_eq!(
        device_action(Handler::Keyboard),
        Some(DeviceAction { read_scancode: true, eoi: EoiController::Local, eoi_vector: 33 })
    );
    assert_eq!(
        device_action(Handler::ApicTimer),
        Some(DeviceAction { read_scancode: false, eoi: EoiController::Local, eoi_vector: 48 })
    );
    assert_eq!(device_action(Handler::Breakpoint), None);
    assert_eq!(device_action(Handler::Unhandled), None);
}

#[test]
fn interrupt_index_numbers_match_the_architecture() {
    assert_eq!(InterruptIndex::DivideError.as_u8(), 0);
    assert_eq!(InterruptIndex::Breakpoint.as_u8(), 3);
    assert_eq!(InterruptIndex::DoubleFault.as_u8(), 8);
    assert_eq!(InterruptIndex::InvalidTSS.as_u8(), 10);
    assert_eq!(InterruptIndex::SegmentNotPResent.as_u8(), 11);
    assert_eq!(InterruptIndex::StackSegmentFault.as_u8(), 12);
    assert_eq!(InterruptIndex::GeneralProtectionFault.as_u8(), 13);
    assert_eq!(InterruptIndex::PageFault.as_u8(), 14);
    assert_eq!(InterruptIndex::X87FloatingPoint.as_u8(), 16);
    assert_eq!(InterruptIndex::SimdFloatingPoint.as_u8(), 19);
    assert_eq!(InterruptIndex::PicTimer.as_u8(), 32);
    assert_eq!(InterruptIndex::Keyboard.as_u8(), 33);
    assert_eq!(InterruptIndex::APICTimer.as_u8(), 48);
}

#[test]
fn device_vectors_avoid_the_reserved_range() {
    for idx in [InterruptIndex::PicTimer, InterruptIndex::Keyboard, InterruptIndex::APICTimer] {
        assert!(idx.as_u8() >= 32);
    }
    assert_ne!(InterruptIndex::PicTimer.as_u8(), InterruptIndex::Keyboard.as_u8());
    assert_ne!(InterruptIndex::Keyboard.as_u8(), InterruptIndex::APICTimer.as_u8());
    assert_ne!(InterruptIndex::PicTimer.as_u8(), InterruptIndex::APICTimer.as_u8());
}

#[test]
fn fault_record_carries_the_captured_context() {
    let ctx = FaultContext {
        vector: 8,
        error_code: Some(0),
        instruction_pointer: 0xFFFF_8000_0010_2030,
        stack_pointer: 0xFFFF_8000_0020_0000,
    };
    let record = fault_record(Handler::DoubleFault, &ctx);
    assert_eq!(record.diagnostic, "EXCEPTION: DOUBLE FAULT");
    assert_eq!(record.vector, 8);
    assert_eq!(record.error_code, Some(0));
    assert_eq!(record.instruction_pointer, 0xFFFF_8000_0010_2030);
    assert_eq!(record.stack_pointer, 0xFFFF_8000_0020_0000);
    let page = fault_record(
        Handler::PageFault,
        &FaultContext {
            vector: 14,
            error_code: Some(0x2),
            instruction_pointer: 0x1000,
            stack_pointer: 0x2000,
        },
    );
    assert_eq!(page.diagnostic, "EXCEPTION: PAGE FAULT");
    assert_eq!(page.error_code, Some(0x2));
}

#[test]
fn fault_record_drops_an_error_code_the_architecture_never_pushed() {
    // Breakpoint and divide error carry no error code; a stray value in
    // the context must not reach the emitted record.
    let ctx = FaultContext {
        vector: 3,
        error_code: Some(0xDEAD),
        instruction_pointer: 0x1234,
        stack_pointer: 0x5678,
    };
    let record = fault_record(Handler::Breakpoint, &ctx);
    assert_eq!(record.error_code, None);
    assert_eq!(record.instruction_pointer, 0x1234);
    assert_eq!(record.stack_pointer, 0x5678);
    assert!(!has_error_code(Handler::Breakpoint));
    assert!(!has_error_code(Handler::DivideError));
    for h in [
        Handler::DoubleFault,
        Handler::InvalidTss,
        Handler::SegmentNotPresent,
        Handler::StackSegmentFault,
        Handler::GeneralProtectionFault,
        Handler::PageFault,
    ] {
        assert!(has_error_code(h));
    }
}

#[test]
fn every_fault_diagnostic_names_its_exception() {
    assert_eq!(fault_diagnostic(Handler::Breakpoint), "EXCEPTION: BREAKPOINT");
    assert_eq!(fault_diagnostic(Handler::InvalidTss), "EXCEPTION: INVALID TSS");
    assert_eq!(
        fault_diagnostic(Handler::SegmentNotPresent),
        "EXCEPTION: SEGMENT NOT PRESENT"
    );
    assert_eq!(
        fault_diagnostic(Handler::StackSegmentFault),
        "EXCEPTION: STACK SEGMENT FAULT"
    );
    assert_eq!(
        fault_diagnostic(Handler::GeneralProtectionFault),
        "EXCEPTION: GENERAL PROTECTION FAULT"
    );
}
