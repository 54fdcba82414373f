//! The interrupt controller bridge: remaps the two chained hardware
//! interrupt controllers so that the sixteen physical lines land strictly
//! above the 32 fixed CPU-exception vectors, and services the two bound
//! lines (timer, keyboard).
//!
//! Every handler invocation must end with exactly one end-of-interrupt
//! acknowledgment to the controller that owns the serviced line; omitting
//! it would stall all lower-priority interrupts on that controller
//! permanently. A handler therefore returns the one [`Eoi`] it owes, and
//! the scancode decoding for the keyboard line happens before that
//! obligation is produced.
use vstd::prelude::*;
use pc_keyboard::layouts::Us104Key;
use pc_keyboard::{DecodedKey, HandleControl, KeyEvent, Keyboard, ScancodeSet1};
use crate::BootSequence;

verus! {

/// First vector of the primary controller's eight lines.
pub const PIC_1_OFFSET: u8 = 32;

/// First vector of the secondary controller's eight lines.
pub const PIC_2_OFFSET: u8 = PIC_1_OFFSET + 8;

/// One of the two chained interrupt controllers.
#[derive(Clone, Copy, Debug, PartialEq, Eq, Structural)]
pub enum PicId {
    Primary,
    Secondary,
}

/// An end-of-interrupt acknowledgment owed for one serviced firing: it
/// must reach the controller that owns the fired line, exactly once.
#[derive(Clone, Copy, Debug, PartialEq, Eq, Structural)]
pub struct Eoi {
    pub vector: u8,
    pub controller: PicId,
}

/// The vector a remapped hardware line is delivered on: the primary
/// controller's eight lines start at `PIC_1_OFFSET`, the secondary's at
/// `PIC_2_OFFSET`.
pub open spec fn spec_line_vector(line: u8) -> u8 {
    if line < 8 {
        (PIC_1_OFFSET + line) as u8
    } else {
        (PIC_2_OFFSET + (line - 8)) as u8
    }
}

/// Which controller owns a remapped vector.
pub open spec fn spec_owner_of(vector: u8) -> PicId {
    if vector >= PIC_2_OFFSET {
        PicId::Secondary
    } else {
        PicId::Primary
    }
}

/// Which controller owns `vector`; only remapped vectors have an owner.
pub fn owner_of(vector: u8) -> (r: PicId)
    requires
        PIC_1_OFFSET <= vector < PIC_2_OFFSET + 8,
    ensures
        r == spec_owner_of(vector),
{
    if vector >= PIC_2_OFFSET {
        PicId::Secondary
    } else {
        PicId::Primary
    }
}

/// Hardware interrupt vectors assigned to lines collide neither with the
/// 32 fixed exception vectors nor with each other.
pub proof fn lemma_remapped_vectors_disjoint()
    ensures
        forall|line: u8| line < 16 ==> #[trigger] spec_line_vector(line) >= 32,
        forall|l1: u8, l2: u8|
            l1 < 16 && l2 < 16 && l1 != l2 ==> spec_line_vector(l1) != spec_line_vector(l2),
{
}

/// The hardware lines with bound handlers.
#[derive(Clone, Copy, Debug, PartialEq, Eq, Structural)]
pub enum InterruptIndex {
    Timer,
    Keyboard,
}

impl InterruptIndex {
    /// The vector this line was remapped to: the timer is line 0 and the
    /// keyboard line 1 of the primary controller.
    pub open spec fn spec_vector(self) -> u8 {
        match self {
            InterruptIndex::Timer => PIC_1_OFFSET,
            InterruptIndex::Keyboard => (PIC_1_OFFSET + 1) as u8,
        }
    }

    pub fn as_u8(self) -> (r: u8)
        ensures
            r == self.spec_vector(),
    {
        match self {
            InterruptIndex::Timer => PIC_1_OFFSET,
            InterruptIndex::Keyboard => PIC_1_OFFSET + 1,
        }
    }

    pub fn as_usize(self) -> (r: usize)
        ensures
            r == self.spec_vector() as usize,
    {
        self.as_u8() as usize
    }
}

/// The programmed state of the two chained controllers: their remap
/// offsets and, per controller, the mask register (a set bit masks the
/// line).
#[derive(Clone, Copy, Debug, PartialEq, Eq, Structural)]
pub struct PicConfig {
    pub primary_offset: u8,
    pub secondary_offset: u8,
    pub primary_mask: u8,
    pub secondary_mask: u8,
}

impl PicConfig {
    /// Whether line `line` of the primary controller is unmasked.
    pub open spec fn primary_line_open(self, line: u8) -> bool {
        self.primary_mask & (1u8 << line) == 0
    }
}

/// Programs both controllers: the sixteen lines are remapped to vectors
/// starting at 32, strictly above the fixed exception range, and every
/// line is masked except the two with bound handlers (timer and
/// keyboard). Must run after the dispatch table is loaded and before
/// interrupts are unmasked, exactly once.
pub fn initialize(boot: &mut BootSequence) -> (r: PicConfig)
    requires
        old(boot).inv(),
        old(boot).idt_loaded,
        !old(boot).pics_initialized,
    ensures
        final(boot).inv(),
        *final(boot) == (BootSequence { pics_initialized: true, ..*old(boot) }),
        r.primary_offset == PIC_1_OFFSET,
        r.secondary_offset == PIC_2_OFFSET,
        r.primary_line_open(0) && r.primary_line_open(1),
        forall|line: u8| 2 <= line < 8 ==> !r.primary_line_open(line),
        r.secondary_mask == 0xff,
{
    boot.pics_initialized = true;
    let config = PicConfig {
        primary_offset: PIC_1_OFFSET,
        secondary_offset: PIC_2_OFFSET,
        primary_mask: 0xfc,
        secondary_mask: 0xff,
    };
    proof {
        assert(0xfcu8 & (1u8 << 0u8) == 0) by (bit_vector);
        assert(0xfcu8 & (1u8 << 1u8) == 0) by (bit_vector);
        assert(forall|line: u8| 2 <= line < 8 ==> 0xfcu8 & (1u8 << line) != 0) by (bit_vector);
    }
    config
}

/// One slot of the hardware-interrupt dispatch: a line's handler binding
/// together with the acknowledgment obligation each invocation must
/// fulfill.
#[derive(Clone, Copy, Debug, PartialEq, Eq, Structural)]
pub struct IrqEntry {
    pub line: InterruptIndex,
    pub vector: u8,
    pub eoi_to: PicId,
}

/// Binds the handlers for the two hardware lines, each to its remapped
/// vector with the owning controller recorded for acknowledgment.
pub fn initialize_irqs() -> (r: Vec<IrqEntry>)
    ensures
        r@.len() == 2,
        r@[0] == (IrqEntry {
            line: InterruptIndex::Timer,
            vector: InterruptIndex::Timer.spec_vector(),
            eoi_to: spec_owner_of(InterruptIndex::Timer.spec_vector()),
        }),
        r@[1] == (IrqEntry {
            line: InterruptIndex::Keyboard,
            vector: InterruptIndex::Keyboard.spec_vector(),
            eoi_to: spec_owner_of(InterruptIndex::Keyboard.spec_vector()),
        }),
        r@[0].vector != r@[1].vector,
{
    let timer_vector = InterruptIndex::Timer.as_u8();
    let keyboard_vector = InterruptIndex::Keyboard.as_u8();
    let mut entries: Vec<IrqEntry> = Vec::new();
    entries.push(
        IrqEntry {
            line: InterruptIndex::Timer,
            vector: timer_vector,
            eoi_to: owner_of(timer_vector),
        },
    );
    entries.push(
        IrqEntry {
            line: InterruptIndex::Keyboard,
            vector: keyboard_vector,
            eoi_to: owner_of(keyboard_vector),
        },
    );
    entries
}

#[verifier::external_type_specification]
#[verifier::external_body]
pub struct ExKeyEvent(KeyEvent);

#[verifier::external_type_specification]
#[verifier::external_body]
pub struct ExDecodedKey(DecodedKey);

#[verifier::external_type_specification]
#[verifier::external_body]
pub struct ExPcKeyboardError(pc_keyboard::Error);

/// The kernel's one stateful scancode decoder, shared by all keyboard
/// interrupts: partial multi-byte scancode sequences persist in it from
/// one invocation to the next. Verus sees the decoder's state as opaque;
/// what is proved of the handlers holds whatever the decoder returns.
#[verifier::external_body]
pub struct ScancodeDecoder {
    inner: Keyboard<Us104Key, ScancodeSet1>,
}

impl ScancodeDecoder {
    /// A fresh decoder for the US 104-key layout and scancode set 1, with
    /// control-key mapping ignored.
    ///
    /// Relies on pc_keyboard::Keyboard::new.
    #[verifier::external_body]
    pub fn new() -> ScancodeDecoder {
        ScancodeDecoder { inner: Keyboard::new(Us104Key, ScancodeSet1, HandleControl::Ignore) }
    }

    /// Relies on pc_keyboard::Keyboard::add_byte: feeds one scancode byte
    /// to the stateful decoder; a multi-byte sequence may need several
    /// calls before a key event comes out, so nothing is promised of the
    /// result.
    #[verifier::external_body]
    fn add_byte(&mut self, byte: u8) -> Result<Option<KeyEvent>, pc_keyboard::Error> {
        self.inner.add_byte(byte)
    }

    /// Relies on pc_keyboard::Keyboard::process_keyevent: turns a key
    /// event into at most one decoded key, tracking modifier state
    /// internally, so nothing is promised of the result.
    #[verifier::external_body]
    fn process_keyevent(&mut self, ev: KeyEvent) -> Option<DecodedKey> {
        self.inner.process_keyevent(ev)
    }
}

/// What the keyboard handler writes to the console for one decoded key.
#[derive(Clone, Debug, PartialEq, Eq)]
pub enum KeyText {
    /// A printable character.
    Unicode(char),
    /// The printed name of a non-printable key.
    Raw(String),
}

/// Relies on pc_keyboard::DecodedKey: a decoded key is either a Unicode
/// character or a raw key code, which is rendered by its name.
#[verifier::external_body]
fn key_text(key: DecodedKey) -> KeyText {
    match key {
        DecodedKey::Unicode(character) => KeyText::Unicode(character),
        DecodedKey::RawKey(code) => KeyText::Raw(format!("{:?}", code)),
    }
}

/// Services one timer firing: the console output is a single dot, and the
/// one end-of-interrupt owed goes to the controller owning the timer
/// line.
pub fn handle_timer() -> (r: (char, Eoi))
    ensures
        r.0 == '.',
        r.1 == (Eoi {
            vector: InterruptIndex::Timer.spec_vector(),
            controller: spec_owner_of(InterruptIndex::Timer.spec_vector()),
        }),
{
    let vector = InterruptIndex::Timer.as_u8();
    ('.', Eoi { vector, controller: owner_of(vector) })
}

/// Services one keyboard firing: the scancode byte already read from the
/// device register is fed to the shared decoder, yielding at most one
/// logical key's output; whatever the decoder produced, the one
/// end-of-interrupt owed goes to the controller owning the keyboard line.
pub fn handle_keyboard(kb: &mut ScancodeDecoder, scancode: u8) -> (r: (
    Option<KeyText>,
    Eoi,
))
    ensures
        r.1 == (Eoi {
            vector: InterruptIndex::Keyboard.spec_vector(),
            controller: spec_owner_of(InterruptIndex::Keyboard.spec_vector()),
        }),
{
    let mut output: Option<KeyText> = None;
    if let Ok(Some(key_event)) = kb.add_byte(scancode) {
        if let Some(key) = kb.process_keyevent(key_event) {
            output = Some(key_text(key));
        }
    }
    let vector = InterruptIndex::Keyboard.as_u8();
    (output, Eoi { vector, controller: owner_of(vector) })
}

/// One hardware firing as the handlers see it: the keyboard carries the
/// scancode byte its handler consumes from the device register.
#[derive(Clone, Copy, Debug, PartialEq, Eq, Structural)]
pub enum IrqEvent {
    Timer,
    Keyboard(u8),
}

impl IrqEvent {
    /// The vector this firing is delivered on.
    pub open spec fn spec_vector(self) -> u8 {
        match self {
            IrqEvent::Timer => InterruptIndex::Timer.spec_vector(),
            IrqEvent::Keyboard(_) => InterruptIndex::Keyboard.spec_vector(),
        }
    }

    /// The one acknowledgment servicing this firing owes.
    pub open spec fn spec_eoi(self) -> Eoi {
        Eoi { vector: self.spec_vector(), controller: spec_owner_of(self.spec_vector()) }
    }
}

/// Services a sequence of firings in order, producing one acknowledgment
/// per firing, each addressed to the controller that owns the fired line.
pub fn service_interrupts(kb: &mut ScancodeDecoder, events: &Vec<IrqEvent>) -> (acks: Vec<Eoi>)
    ensures
        acks@.len() == events@.len(),
        forall|i: int| 0 <= i < events@.len() ==> acks@[i] == events@[i].spec_eoi(),
{
    let mut acks: Vec<Eoi> = Vec::new();
    let mut i: usize = 0;
    while i < events.len()
        invariant
            0 <= i <= events@.len(),
            acks@.len() == i,
            forall|j: int| 0 <= j < i ==> acks@[j] == events@[j].spec_eoi(),
        decreases events@.len() - i,
    {
        let ack = match events[i] {
            IrqEvent::Timer => handle_timer().1,
            IrqEvent::Keyboard(scancode) => handle_keyboard(kb, scancode).1,
        };
        acks.push(ack);
        i = i + 1;
    }
    acks
}

/// How many of these firings the given controller owns.
pub open spec fn spec_firings_owned(events: Seq<IrqEvent>, c: PicId) -> nat
    decreases events.len(),
{
    if events.len() == 0 {
        0
    } else {
        (if events[0].spec_eoi().controller == c {
            1nat
        } else {
            0nat
        }) + spec_firings_owned(events.skip(1), c)
    }
}

/// How many of these acknowledgments reached the given controller.
pub open spec fn spec_acks_to(acks: Seq<Eoi>, c: PicId) -> nat
    decreases acks.len(),
{
    if acks.len() == 0 {
        0
    } else {
        (if acks[0].controller == c {
            1nat
        } else {
            0nat
        }) + spec_acks_to(acks.skip(1), c)
    }
}

/// Repeated firing of one line never stalls another: when each firing is
/// acknowledged to the controller owning its line — as `service_interrupts`
/// guarantees — every controller receives exactly as many end-of-interrupt
/// signals as firings it owns, one per firing, however the lines
/// interleave.
pub proof fn lemma_every_firing_acknowledged(events: Seq<IrqEvent>, acks: Seq<Eoi>, c: PicId)
    requires
        acks.len() == events.len(),
        forall|i: int| 0 <= i < events.len() ==> acks[i] == events[i].spec_eoi(),
    ensures
        spec_acks_to(acks, c) == spec_firings_owned(events, c),
    decreases events.len(),
{
    if events.len() > 0 {
        assert(acks[0] == events[0].spec_eoi());
        assert forall|i: int| 0 <= i < events.skip(1).len() implies acks.skip(1)[i] == events.skip(
            1,
        )[i].spec_eoi() by {
            assert(acks.skip(1)[i] == acks[i + 1]);
            assert(events.skip(1)[i] == events[i + 1]);
        }
        lemma_every_firing_acknowledged(events.skip(1), acks.skip(1), c);
    }
}

} // verus!
