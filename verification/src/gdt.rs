//! Segment and task-state setup.
//!
//! The kernel runs with one code-segment descriptor and one task-state
//! descriptor. The task state carries the interrupt stack table, whose
//! slot 0 names a statically sized stack region reserved exclusively for
//! the double-fault handler: after a stack overflow the normal stack
//! cannot be trusted, so that handler must run on a stack disjoint from
//! it, or the fault escalates to an uncontrolled reset.
use vstd::prelude::*;
use crate::BootSequence;

verus! {

/// Interrupt-stack-table slot reserved for the double-fault handler.
pub const DOUBLE_FAULT_IST_INDEX: u16 = 0;

/// Size in bytes of the dedicated double-fault stack.
pub const DOUBLE_FAULT_STACK_SIZE: u64 = 20480;

/// A contiguous stack region `[start, start + size)`.
#[derive(Clone, Copy, Debug, PartialEq, Eq, Structural)]
pub struct StackRegion {
    pub start: u64,
    pub size: u64,
}

impl StackRegion {
    /// One past the last byte of the region.
    pub open spec fn end(self) -> int {
        self.start + self.size
    }

    /// The region is non-empty and does not wrap the address space.
    pub open spec fn wf(self) -> bool {
        self.size > 0 && self.end() <= u64::MAX
    }

    /// Two stack regions share no byte.
    pub open spec fn disjoint(self, other: StackRegion) -> bool {
        self.end() <= other.start || other.end() <= self.start
    }
}

/// The loaded descriptor set: the code segment is active and the task
/// state's interrupt-stack-table slot 0 names the double-fault stack.
#[derive(Clone, Copy, Debug, PartialEq, Eq, Structural)]
pub struct SegmentSetup {
    pub double_fault_stack: StackRegion,
}

/// Builds and loads the descriptor table and activates the task-state
/// segment, so that the dispatch table may reference interrupt-stack-table
/// slot 0. The double-fault stack must be disjoint from the normal stack:
/// the slot exists precisely to survive the normal stack's exhaustion.
pub fn init(boot: &mut BootSequence, double_fault_stack: StackRegion, normal_stack: StackRegion)
    -> (r: SegmentSetup)
    requires
        old(boot).inv(),
        !old(boot).segments_loaded,
        double_fault_stack.wf(),
        normal_stack.wf(),
        double_fault_stack.disjoint(normal_stack),
    ensures
        final(boot).inv(),
        *final(boot) == (BootSequence { segments_loaded: true, ..*old(boot) }),
        r.double_fault_stack == double_fault_stack,
{
    boot.segments_loaded = true;
    SegmentSetup { double_fault_stack }
}

} // verus!
