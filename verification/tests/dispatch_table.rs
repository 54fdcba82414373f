use halogen_os::interrupts::{
    handle_exception, fault_name, DispatchTable, FaultOutcome, StackFrameInfo,
    DOUBLE_FAULT_VECTOR, MACHINE_CHECK_VECTOR,
};
use halogen_os::gdt::DOUBLE_FAULT_IST_INDEX;

fn error_code_vectors() -> Vec<u8> {
    vec![8, 10, 11, 12, 13, 14, 17, 21, 29, 30]
}

#[test]
fn table_binds_every_vector_once() {
    let table = DispatchTable::build();
    for v in 0u8..32 {
        let entry = table.entry(v);
        assert_eq!(entry.vector, v);
        assert_eq!(entry.diverges, v == DOUBLE_FAULT_VECTOR || v == MACHINE_CHECK_VECTOR);
        assert_eq!(entry.pushes_error_code, error_code_vectors().contains(&v));
    }
}

#[test]
fn only_double_fault_switches_stacks() {
    let table = DispatchTable::build();
    for v in 0u8..32 {
        let entry = table.entry(v);
        if v == DOUBLE_FAULT_VECTOR {
            assert_eq!(entry.ist_index, Some(DOUBLE_FAULT_IST_INDEX));
        } else {
            assert_eq!(entry.ist_index, None);
        }
    }
}

#[test]
fn breakpoint_resumes() {
    let frame = StackFrameInfo { instruction_pointer: 0x20_1000, cpu_flags: 0x202 };
    let (diagnostic, outcome) = handle_exception(3, frame, None);
    assert_eq!(outcome, FaultOutcome::Resumed);
    assert_eq!(diagnostic.vector, 3);
    assert_eq!(diagnostic.instruction_pointer, 0x20_1000);
    assert_eq!(diagnostic.cpu_flags, 0x202);
    assert_eq!(diagnostic.error_code, None);
}

#[test]
fn double_fault_halts() {
    let frame = StackFrameInfo { instruction_pointer: 0x40_0000, cpu_flags: 0x2 };
    let (diagnostic, outcome) = handle_exception(DOUBLE_FAULT_VECTOR, frame, Some(0));
    assert_eq!(outcome, FaultOutcome::Halted);
    assert_eq!(diagnostic.error_code, Some(0));
}

#[test]
fn machine_check_halts() {
    let frame = StackFrameInfo { instruction_pointer: 0x1234, cpu_flags: 0 };
    let (_, outcome) = handle_exception(MACHINE_CHECK_VECTOR, frame, None);
    assert_eq!(outcome, FaultOutcome::Halted);
}

#[test]
fn page_fault_records_reason_and_resumes() {
    let frame = StackFrameInfo { instruction_pointer: 0xdead_b000, cpu_flags: 0x246 };
    let (diagnostic, outcome) = handle_exception(14, frame, Some(0b10));
    assert_eq!(outcome, FaultOutcome::Resumed);
    assert_eq!(diagnostic.vector, 14);
    assert_eq!(diagnostic.error_code, Some(0b10));
}

#[test]
fn fault_names_match_the_logged_lines() {
    assert_eq!(fault_name(0), "Cannot divide by zero!");
    assert_eq!(fault_name(3), "Breakpoint");
    assert_eq!(fault_name(8), "Double fault!");
    assert_eq!(fault_name(14), "Page fault!");
    assert_eq!(fault_name(18), "Machine check failed!");
    assert_eq!(fault_name(15), "Reserved exception");
}
