use halogen_os::gdt::{StackRegion, DOUBLE_FAULT_STACK_SIZE};
use halogen_os::io::{
    enter_sink_critical_section, leave_sink_critical_section, write_to_shared_sink,
    FrameBufferInfo, InterruptFlag, PixelFormat,
};
use halogen_os::memory::{MemoryRegion, MemoryRegionKind, PhysFrame};
use halogen_os::{
    emulator_exit_status, init, init_headless, run_succeeded, setup_heap_memory, test_panic_handler,
    test_runner, BootHandoff, BootSequence, QemuExitCode, Testable,
};

fn double_fault_stack() -> StackRegion {
    StackRegion { start: 0x10_0000, size: DOUBLE_FAULT_STACK_SIZE }
}

fn normal_stack() -> StackRegion {
    StackRegion { start: 0x20_0000, size: 0x4000 }
}

fn framebuffer() -> FrameBufferInfo {
    FrameBufferInfo {
        width: 640,
        height: 480,
        stride: 640,
        bytes_per_pixel: 4,
        pixel_format: PixelFormat::Bgr,
    }
}

#[test]
fn headless_bring_up_completes_in_order() {
    let mut boot = BootSequence::new();
    assert!(!boot.segments_loaded);
    let (segments, dispatch, pics) = init_headless(&mut boot, double_fault_stack(), normal_stack());
    assert!(boot.segments_loaded);
    assert!(boot.idt_loaded);
    assert!(boot.pics_initialized);
    assert!(boot.interrupts_enabled);
    assert_eq!(segments.double_fault_stack, double_fault_stack());
    assert_eq!(dispatch.entry(8).ist_index, Some(0));
    assert_eq!(pics.primary_offset, 32);
    assert_eq!(pics.secondary_offset, 40);
}

#[test]
fn init_brings_up_the_display_when_a_framebuffer_exists() {
    let mut boot = BootSequence::new();
    let handoff = BootHandoff {
        memory_regions: Vec::new(),
        framebuffer: Some(framebuffer()),
        physical_memory_offset: None,
    };
    let up = init(&mut boot, &handoff, double_fault_stack(), normal_stack());
    assert!(up.display_initialized);
    assert!(boot.interrupts_enabled);
}

#[test]
fn init_tolerates_a_headless_boot() {
    let mut boot = BootSequence::new();
    let handoff = BootHandoff {
        memory_regions: Vec::new(),
        framebuffer: None,
        physical_memory_offset: None,
    };
    let up = init(&mut boot, &handoff, double_fault_stack(), normal_stack());
    assert!(!up.display_initialized);
    assert!(boot.interrupts_enabled);
}

#[test]
fn heap_setup_uses_the_handed_off_map_and_offset() {
    let handoff = BootHandoff {
        memory_regions: vec![MemoryRegion {
            start: 0,
            end: 8192,
            kind: MemoryRegionKind::Usable,
        }],
        framebuffer: None,
        physical_memory_offset: Some(0x8000_0000),
    };
    let (map, mut allocator) = setup_heap_memory(handoff);
    assert_eq!(map.offset, 0x8000_0000);
    assert_eq!(map.translate(0x1000), 0x8000_1000);
    assert_eq!(allocator.allocate_frame(), Some(PhysFrame { start: 0 }));
}

#[test]
fn exit_codes_and_the_emulator_transform() {
    assert_eq!(QemuExitCode::Success.code(), 0x10);
    assert_eq!(QemuExitCode::Failed.code(), 0x11);
    assert_eq!(emulator_exit_status(QemuExitCode::Success), 33);
    assert_eq!(emulator_exit_status(QemuExitCode::Failed), 35);
    assert!(run_succeeded(Some(33)));
    assert!(!run_succeeded(Some(35)));
    assert!(!run_succeeded(Some(0)));
    assert!(!run_succeeded(None));
}

struct AlwaysPasses;

struct AlwaysFails;

impl Testable for AlwaysPasses {
    fn run(&self) -> bool {
        true
    }
}

impl Testable for AlwaysFails {
    fn run(&self) -> bool {
        false
    }
}

#[test]
fn test_runner_reports_success_only_when_all_pass() {
    let passing = vec![AlwaysPasses, AlwaysPasses];
    assert_eq!(test_runner(&passing), QemuExitCode::Success);
    let empty: Vec<AlwaysPasses> = Vec::new();
    assert_eq!(test_runner(&empty), QemuExitCode::Success);
    let failing = vec![AlwaysFails];
    assert_eq!(test_runner(&failing), QemuExitCode::Failed);
}

#[test]
fn a_panicking_test_run_reports_failure() {
    assert_eq!(test_panic_handler(), QemuExitCode::Failed);
}

#[test]
fn sink_writes_mask_interrupts_and_restore_the_prior_state() {
    let mut flag = InterruptFlag { enabled: true };
    assert!(write_to_shared_sink(&mut flag));
    assert_eq!(flag, InterruptFlag { enabled: true });

    let mut masked = InterruptFlag { enabled: false };
    assert!(write_to_shared_sink(&mut masked));
    assert_eq!(masked, InterruptFlag { enabled: false });

    let was = enter_sink_critical_section(&mut flag);
    assert!(was);
    assert!(!flag.enabled);
    leave_sink_critical_section(&mut flag, was);
    assert!(flag.enabled);
}
