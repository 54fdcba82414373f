//! Privileged core of a small 64-bit kernel, modeled over plain values so that
//! its dispatch, interrupt-acknowledgment and frame-allocation logic can be
//! verified: the hardware-facing edges (descriptor-table loads, port writes)
//! are left to the surrounding unverified binary.
use vstd::prelude::*;

pub mod gdt;
pub mod interrupts;
pub mod io;
pub mod irq;
pub mod lateinit;
pub mod memory;

verus! {

/// Which bring-up steps have completed. The steps build on one another:
/// the dispatch table references the interrupt stack that segment setup
/// reserves, and interrupts may be unmasked only once the table is loaded
/// and the controllers are remapped.
#[derive(Clone, Copy, Debug, PartialEq, Eq, Structural)]
pub struct BootSequence {
    pub segments_loaded: bool,
    pub idt_loaded: bool,
    pub pics_initialized: bool,
    pub interrupts_enabled: bool,
}

impl BootSequence {
    /// The bring-up order is respected: no step is recorded before the
    /// steps it builds on.
    pub open spec fn inv(self) -> bool {
        &&& self.idt_loaded ==> self.segments_loaded
        &&& self.pics_initialized ==> self.idt_loaded
        &&& self.interrupts_enabled ==> self.pics_initialized
    }

    /// At power-on nothing has been set up yet.
    pub fn new() -> (r: BootSequence)
        ensures
            r == (BootSequence {
                segments_loaded: false,
                idt_loaded: false,
                pics_initialized: false,
                interrupts_enabled: false,
            }),
            r.inv(),
    {
        BootSequence {
            segments_loaded: false,
            idt_loaded: false,
            pics_initialized: false,
            interrupts_enabled: false,
        }
    }
}

/// Exit code the kernel writes to the emulator's debug-exit port to signal
/// the outcome of a headless test run.
#[derive(Clone, Copy, Debug, PartialEq, Eq, Structural)]
pub enum QemuExitCode {
    Success,
    Failed,
}

impl QemuExitCode {
    /// The one-byte code written to the exit port for this outcome.
    pub open spec fn spec_code(self) -> u32 {
        match self {
            QemuExitCode::Success => 0x10,
            QemuExitCode::Failed => 0x11,
        }
    }

    pub fn code(self) -> (r: u32)
        ensures
            r == self.spec_code(),
    {
        match self {
            QemuExitCode::Success => 0x10,
            QemuExitCode::Failed => 0x11,
        }
    }
}

/// The process exit status the emulator reports for a kernel-written exit
/// code, under the conventional transform `(code << 1) | 1`: success
/// becomes 33, failure 35.
pub fn emulator_exit_status(code: QemuExitCode) -> (r: u32)
    ensures
        code is Success ==> r == 33,
        code is Failed ==> r == 35,
{
    let c = code.code();
    proof {
        assert((0x10u32 << 1u32) | 1u32 == 33u32) by (bit_vector);
        assert((0x11u32 << 1u32) | 1u32 == 35u32) by (bit_vector);
    }
    (c << 1) | 1
}

/// Classifies a finished emulator run: it passed exactly when the
/// emulator reported the transformed success code; any other status, or
/// none at all (a timeout), is a failed run.
pub fn run_succeeded(status: Option<u32>) -> (r: bool)
    ensures
        r <==> status == Some(33u32),
{
    match status {
        Some(s) => s == 33,
        None => false,
    }
}

/// Something the kernel test harness can run.
pub trait Testable {
    /// Whether this test passes; an implementation that says nothing else
    /// is expected to pass.
    open spec fn spec_passes(&self) -> bool {
        true
    }

    /// Runs the test and reports whether it passed.
    fn run(&self) -> (r: bool)
        ensures
            r == self.spec_passes(),
    ;
}

/// Runs every test and decides the exit code the harness reports:
/// success exactly when all tests passed.
pub fn test_runner<T: Testable>(tests: &Vec<T>) -> (r: QemuExitCode)
    ensures
        r == QemuExitCode::Success <==> (forall|i: int|
            0 <= i < tests@.len() ==> #[trigger] tests@[i].spec_passes()),
{
    let mut all_passed = true;
    let mut i: usize = 0;
    while i < tests.len()
        invariant
            0 <= i <= tests@.len(),
            all_passed <==> (forall|j: int| 0 <= j < i ==> #[trigger] tests@[j].spec_passes()),
        decreases tests@.len() - i,
    {
        let passed = tests[i].run();
        all_passed = all_passed && passed;
        i = i + 1;
    }
    if all_passed {
        QemuExitCode::Success
    } else {
        QemuExitCode::Failed
    }
}

/// Decides the outcome a panicking test run reports: failure, always.
pub fn test_panic_handler() -> (r: QemuExitCode)
    ensures
        r == QemuExitCode::Failed,
{
    QemuExitCode::Failed
}

/// The boot hand-off: what firmware supplies once, at boot, and the
/// kernel consumes. The framebuffer may be absent (headless boot); the
/// direct-map offset may be absent when the bootloader was not asked to
/// map physical memory.
pub struct BootHandoff {
    pub memory_regions: Vec<memory::MemoryRegion>,
    pub framebuffer: Option<io::FrameBufferInfo>,
    pub physical_memory_offset: Option<u64>,
}

/// What full bring-up leaves behind: the loaded descriptor set, the
/// dispatch table, the programmed interrupt controllers, and whether the
/// display sink came up.
pub struct KernelInit {
    pub display_initialized: bool,
    pub segments: gdt::SegmentSetup,
    pub dispatch: interrupts::DispatchTable,
    pub pics: irq::PicConfig,
}

/// Unmasks interrupts. Only sound once the dispatch table is loaded and
/// the controllers are remapped: before that, a firing would be delivered
/// through a missing or colliding vector.
pub fn enable_interrupts(boot: &mut BootSequence)
    requires
        old(boot).inv(),
        old(boot).pics_initialized,
    ensures
        final(boot).inv(),
        *final(boot) == (BootSequence { interrupts_enabled: true, ..*old(boot) }),
{
    boot.interrupts_enabled = true;
}

/// Brings up everything but the display sink, in the required order:
/// segment and task-state setup, then the dispatch table (which
/// references the dedicated stack slot), then the controller remap, then
/// unmasking. Afterwards every bring-up step is recorded done.
pub fn init_headless(
    boot: &mut BootSequence,
    double_fault_stack: gdt::StackRegion,
    normal_stack: gdt::StackRegion,
) -> (r: (gdt::SegmentSetup, interrupts::DispatchTable, irq::PicConfig))
    requires
        old(boot).inv(),
        !old(boot).segments_loaded,
        !old(boot).idt_loaded,
        !old(boot).pics_initialized,
        double_fault_stack.wf(),
        normal_stack.wf(),
        double_fault_stack.disjoint(normal_stack),
    ensures
        final(boot).inv(),
        final(boot).segments_loaded && final(boot).idt_loaded && final(boot).pics_initialized
            && final(boot).interrupts_enabled,
        r.0.double_fault_stack == double_fault_stack,
        r.1.wf(),
        r.2.primary_offset == irq::PIC_1_OFFSET,
        r.2.secondary_offset == irq::PIC_2_OFFSET,
{
    let segments = gdt::init(boot, double_fault_stack, normal_stack);
    let dispatch = interrupts::init_idt(boot);
    let pics = irq::initialize(boot);
    enable_interrupts(boot);
    (segments, dispatch, pics)
}

/// Full kernel bring-up: wires the display sink exactly when the firmware
/// supplied a framebuffer, then performs the headless bring-up sequence.
pub fn init(
    boot: &mut BootSequence,
    handoff: &BootHandoff,
    double_fault_stack: gdt::StackRegion,
    normal_stack: gdt::StackRegion,
) -> (r: KernelInit)
    requires
        old(boot).inv(),
        !old(boot).segments_loaded,
        !old(boot).idt_loaded,
        !old(boot).pics_initialized,
        double_fault_stack.wf(),
        normal_stack.wf(),
        double_fault_stack.disjoint(normal_stack),
    ensures
        final(boot).inv(),
        final(boot).segments_loaded && final(boot).idt_loaded && final(boot).pics_initialized
            && final(boot).interrupts_enabled,
        r.display_initialized <==> handoff.framebuffer is Some,
        r.segments.double_fault_stack == double_fault_stack,
        r.dispatch.wf(),
{
    let display_initialized = io::init(&handoff.framebuffer);
    let (segments, dispatch, pics) = init_headless(boot, double_fault_stack, normal_stack);
    KernelInit { display_initialized, segments, dispatch, pics }
}

/// Prepares heap setup from the hand-off: establishes the direct physical
/// map from the firmware-supplied offset — which must be present; its
/// absence is a boot-sequence configuration error — and the frame
/// allocator over the firmware memory map, with nothing issued yet.
pub fn setup_heap_memory(handoff: BootHandoff) -> (r: (
    memory::DirectMap,
    memory::BootInfoFrameAllocator,
))
    requires
        handoff.physical_memory_offset is Some,
    ensures
        r.0.offset == handoff.physical_memory_offset->0,
        r.1.regions() == handoff.memory_regions@,
        r.1.cursor() == 0,
{
    let offset = match handoff.physical_memory_offset {
        Some(o) => o,
        None => unreached(),
    };
    let map = memory::init(offset);
    let allocator = memory::BootInfoFrameAllocator::new(handoff.memory_regions);
    (map, allocator)
}

} // verus!
