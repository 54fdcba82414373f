//! Boot-time wiring of the diagnostic sinks.
//!
//! The firmware may or may not hand over a framebuffer; a headless boot
//! simply skips display-sink initialization without failing, and the
//! serial/log channel remains available either way.
use vstd::prelude::*;

verus! {

/// How pixel color channels are laid out in the framebuffer.
#[derive(Clone, Copy, Debug, PartialEq, Eq, Structural)]
pub enum PixelFormat {
    Rgb,
    Bgr,
    /// One grayscale byte per pixel.
    U8,
    Unknown,
}

/// Shape of the firmware-provided framebuffer: enough to address any
/// pixel and to know how its bytes are interpreted.
#[derive(Clone, Copy, Debug, PartialEq, Eq, Structural)]
pub struct FrameBufferInfo {
    pub width: usize,
    pub height: usize,
    pub stride: usize,
    pub bytes_per_pixel: usize,
    pub pixel_format: PixelFormat,
}

/// Decides whether the display sink is brought up: exactly when the
/// firmware supplied a framebuffer. A headless boot proceeds without one.
pub fn init(framebuffer: &Option<FrameBufferInfo>) -> (display_on: bool)
    ensures
        display_on <==> framebuffer is Some,
{
    match framebuffer {
        Some(_) => true,
        None => false,
    }
}

/// The processor's interrupt-enable flag as normal-context code sees it.
#[derive(Clone, Copy, Debug, PartialEq, Eq, Structural)]
pub struct InterruptFlag {
    pub enabled: bool,
}

/// Opens a critical section on a resource shared with interrupt context:
/// interrupts are masked, and the prior enable state is handed back so
/// the closing side can restore it. A handler that needs the same
/// resource can then never preempt the holder on this core and spin on a
/// lock its own victim holds.
pub fn enter_sink_critical_section(flag: &mut InterruptFlag) -> (was_enabled: bool)
    ensures
        !final(flag).enabled,
        was_enabled == old(flag).enabled,
{
    let was_enabled = flag.enabled;
    flag.enabled = false;
    was_enabled
}

/// Closes a critical section opened by `enter_sink_critical_section`,
/// restoring exactly the interrupt-enable state that was saved — on every
/// exit path, success or fault.
pub fn leave_sink_critical_section(flag: &mut InterruptFlag, was_enabled: bool)
    ensures
        final(flag).enabled == was_enabled,
{
    flag.enabled = was_enabled;
}

/// One normal-context write to the shared diagnostic sink, as the logging
/// path performs it: the write happens entirely inside the critical
/// section, and the interrupt-enable flag leaves this call exactly as it
/// entered.
pub fn write_to_shared_sink(flag: &mut InterruptFlag) -> (masked_during_write: bool)
    ensures
        *final(flag) == *old(flag),
        masked_during_write,
{
    let was_enabled = enter_sink_critical_section(flag);
    let masked_during_write = !flag.enabled;
    leave_sink_critical_section(flag, was_enabled);
    masked_during_write
}

} // verus!
