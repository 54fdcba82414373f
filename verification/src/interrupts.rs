//! The fault/exception dispatch table: the 32 fixed CPU-exception
//! vectors, each bound to exactly one handler.
//!
//! A handler either records diagnostics and resumes the interrupted
//! context, or — for the two unrecoverable conditions, double fault and
//! machine check — records diagnostics and halts: returning from those
//! risks re-faulting in a corrupted state, so divergence is part of the
//! contract, not a convention. The double-fault entry additionally
//! switches to the dedicated interrupt stack, because the common cause of
//! a double fault is exhaustion of the normal stack.
use vstd::prelude::*;
use crate::gdt::DOUBLE_FAULT_IST_INDEX;
use crate::BootSequence;

verus! {

/// Number of ISA-fixed exception vectors.
pub const EXCEPTION_VECTOR_COUNT: usize = 32;

/// Vector of the double-fault exception.
pub const DOUBLE_FAULT_VECTOR: u8 = 8;

/// Vector of the machine-check exception.
pub const MACHINE_CHECK_VECTOR: u8 = 18;

/// Whether the handler for `vector` never returns: only double fault and
/// machine check are unrecoverable.
pub open spec fn spec_diverges(vector: int) -> bool {
    vector == DOUBLE_FAULT_VECTOR as int || vector == MACHINE_CHECK_VECTOR as int
}

/// Whether the processor pushes a 64-bit error code when raising
/// `vector`, as the ISA fixes it.
pub open spec fn spec_pushes_error_code(vector: int) -> bool {
    ||| vector == 8
    ||| vector == 10
    ||| vector == 11
    ||| vector == 12
    ||| vector == 13
    ||| vector == 14
    ||| vector == 17
    ||| vector == 21
    ||| vector == 29
    ||| vector == 30
}

/// One slot of the dispatch table.
#[derive(Clone, Copy, Debug, PartialEq, Eq)]
pub struct IdtEntry {
    /// The ISA-fixed vector this entry is bound to.
    pub vector: u8,
    /// Whether the processor pushes an error code for this vector.
    pub pushes_error_code: bool,
    /// Whether the bound handler never returns.
    pub diverges: bool,
    /// Interrupt-stack-table slot the processor switches to, if any.
    pub ist_index: Option<u16>,
}

/// The dispatch table: one entry per fixed exception vector, built once
/// and loaded before interrupts are enabled.
pub struct DispatchTable {
    entries: Vec<IdtEntry>,
}

impl DispatchTable {
    /// The entry bound to vector `v`.
    pub closed spec fn entry_at(self, v: int) -> IdtEntry {
        self.entries@[v]
    }

    /// Number of entries.
    pub closed spec fn len(self) -> nat {
        self.entries@.len()
    }

    /// The table is fully populated: every fixed vector has exactly one
    /// bound handler (the entry at its own index and no other), the
    /// handler's divergence and error-code semantics match the ISA class,
    /// and only the double-fault entry switches stacks, to the dedicated
    /// slot.
    pub open spec fn wf(self) -> bool {
        &&& self.len() == EXCEPTION_VECTOR_COUNT
        &&& forall|v: int|
            0 <= v < EXCEPTION_VECTOR_COUNT ==> (#[trigger] self.entry_at(v)).vector == v
        &&& forall|v: int|
            0 <= v < EXCEPTION_VECTOR_COUNT ==> ((#[trigger] self.entry_at(v)).diverges
                <==> spec_diverges(v))
        &&& forall|v: int|
            0 <= v < EXCEPTION_VECTOR_COUNT ==> ((#[trigger] self.entry_at(v)).pushes_error_code
                <==> spec_pushes_error_code(v))
        &&& forall|v: int|
            0 <= v < EXCEPTION_VECTOR_COUNT ==> (#[trigger] self.entry_at(v)).ist_index == (
            if v == DOUBLE_FAULT_VECTOR as int {
                Some(DOUBLE_FAULT_IST_INDEX)
            } else {
                None::<u16>
            })
    }

    /// Returns the fully populated table of 32 entries.
    pub fn build() -> (r: DispatchTable)
        ensures
            r.wf(),
    {
        let mut entries: Vec<IdtEntry> = Vec::new();
        let mut v: u8 = 0;
        while (v as usize) < EXCEPTION_VECTOR_COUNT
            invariant
                0 <= v <= EXCEPTION_VECTOR_COUNT,
                entries@.len() == v,
                forall|i: int| 0 <= i < v ==> (#[trigger] entries@[i]).vector == i,
                forall|i: int|
                    0 <= i < v ==> ((#[trigger] entries@[i]).diverges <==> spec_diverges(i)),
                forall|i: int|
                    0 <= i < v ==> ((#[trigger] entries@[i]).pushes_error_code
                        <==> spec_pushes_error_code(i)),
                forall|i: int|
                    0 <= i < v ==> (#[trigger] entries@[i]).ist_index == (
                    if i == DOUBLE_FAULT_VECTOR as int {
                        Some(DOUBLE_FAULT_IST_INDEX)
                    } else {
                        None::<u16>
                    }),
            decreases EXCEPTION_VECTOR_COUNT - v,
        {
            let entry = IdtEntry {
                vector: v,
                pushes_error_code: vector_pushes_error_code(v),
                diverges: vector_diverges(v),
                ist_index: if v == DOUBLE_FAULT_VECTOR {
                    Some(DOUBLE_FAULT_IST_INDEX)
                } else {
                    None
                },
            };
            entries.push(entry);
            v = v + 1;
        }
        DispatchTable { entries }
    }

    /// The entry bound to `vector`.
    pub fn entry(&self, vector: u8) -> (r: IdtEntry)
        requires
            self.wf(),
            vector < 32,
        ensures
            r == self.entry_at(vector as int),
    {
        self.entries[vector as usize]
    }
}

/// Whether the handler bound to `vector` never returns.
pub fn vector_diverges(vector: u8) -> (r: bool)
    ensures
        r == spec_diverges(vector as int),
{
    vector == DOUBLE_FAULT_VECTOR || vector == MACHINE_CHECK_VECTOR
}

/// Whether the processor pushes an error code for `vector`.
pub fn vector_pushes_error_code(vector: u8) -> (r: bool)
    ensures
        r == spec_pushes_error_code(vector as int),
{
    vector == 8 || vector == 10 || vector == 11 || vector == 12 || vector == 13 || vector == 14
        || vector == 17 || vector == 21 || vector == 29 || vector == 30
}

/// Exactly one handler is bound per vector, and its divergence matches
/// the declared class: the handlers of double fault and machine check
/// never return, every other handler resumes the interrupted context.
pub proof fn lemma_dispatch_table_classes(t: DispatchTable)
    requires
        t.wf(),
    ensures
        forall|v: int| 0 <= v < 32 ==> (#[trigger] t.entry_at(v)).vector == v,
        forall|v: int, w: int|
            0 <= v < 32 && 0 <= w < 32 && w != v ==> (#[trigger] t.entry_at(w)).vector != (
            #[trigger] t.entry_at(v)).vector,
        forall|v: int|
            0 <= v < 32 ==> ((#[trigger] t.entry_at(v)).diverges <==> (v
                == DOUBLE_FAULT_VECTOR as int || v == MACHINE_CHECK_VECTOR as int)),
{
}

/// Builds the dispatch table and installs it as the active one. Must run
/// after segment and task-state setup (its double-fault entry references
/// the dedicated stack slot), and exactly once, before interrupts are
/// unmasked.
pub fn init_idt(boot: &mut BootSequence) -> (r: DispatchTable)
    requires
        old(boot).inv(),
        old(boot).segments_loaded,
        !old(boot).idt_loaded,
    ensures
        final(boot).inv(),
        *final(boot) == (BootSequence { idt_loaded: true, ..*old(boot) }),
        r.wf(),
{
    boot.idt_loaded = true;
    DispatchTable::build()
}

/// What the interrupted context saw when the exception was raised.
#[derive(Clone, Copy, Debug, PartialEq, Eq, Structural)]
pub struct StackFrameInfo {
    pub instruction_pointer: u64,
    pub cpu_flags: u64,
}

/// The diagnostic context a handler records before returning or halting.
#[derive(Clone, Copy, Debug, PartialEq, Eq)]
pub struct FaultDiagnostic {
    pub vector: u8,
    pub instruction_pointer: u64,
    pub cpu_flags: u64,
    pub error_code: Option<u64>,
}

/// What becomes of the interrupted context after a handler runs.
#[derive(Clone, Copy, Debug, PartialEq, Eq, Structural)]
pub enum FaultOutcome {
    /// Execution continues at the faulting instruction's successor or the
    /// hardware-defined restart point.
    Resumed,
    /// The processor enters a permanent halted idle loop.
    Halted,
}

/// One handler invocation: records the diagnostic context and decides the
/// fate of the interrupted context. Breakpoints and every other benign
/// exception resume; double fault and machine check halt.
pub fn handle_exception(vector: u8, frame: StackFrameInfo, error_code: Option<u64>) -> (r: (
    FaultDiagnostic,
    FaultOutcome,
))
    requires
        vector < 32,
        error_code is Some <==> spec_pushes_error_code(vector as int),
    ensures
        r.0 == (FaultDiagnostic {
            vector,
            instruction_pointer: frame.instruction_pointer,
            cpu_flags: frame.cpu_flags,
            error_code,
        }),
        r.1 == (if spec_diverges(vector as int) {
            FaultOutcome::Halted
        } else {
            FaultOutcome::Resumed
        }),
{
    let diagnostic = FaultDiagnostic {
        vector,
        instruction_pointer: frame.instruction_pointer,
        cpu_flags: frame.cpu_flags,
        error_code,
    };
    let outcome = if vector_diverges(vector) {
        FaultOutcome::Halted
    } else {
        FaultOutcome::Resumed
    };
    (diagnostic, outcome)
}

/// The diagnostic line printed for `vector`, matching the message each
/// bound handler logs; reserved vectors share one fallback line.
pub fn fault_name(vector: u8) -> (r: &'static str)
    ensures
        vector == 3 ==> r@ == "Breakpoint"@,
        vector == DOUBLE_FAULT_VECTOR ==> r@ == "Double fault!"@,
        vector == MACHINE_CHECK_VECTOR ==> r@ == "Machine check failed!"@,
        vector == 14 ==> r@ == "Page fault!"@,
{
    match vector {
        0 => "Cannot divide by zero!",
        1 => "Debug",
        2 => "Non-maskable interrupt!",
        3 => "Breakpoint",
        4 => "Overflow!",
        5 => "Bound range exceeded!",
        6 => "Invalid opcode!",
        7 => "Device not available!",
        8 => "Double fault!",
        10 => "Invalid TSS!",
        11 => "Segment not present!",
        12 => "Stack segment fault!",
        13 => "General protection fault!",
        14 => "Page fault!",
        16 => "Error with x87 floating point!",
        17 => "Alignment check failed!",
        18 => "Machine check failed!",
        19 => "Error with SIMD floating point!",
        20 => "Virtualization error!",
        29 => "VMM communication error!",
        30 => "Security error!",
        _ => "Reserved exception",
    }
}

} // verus!
