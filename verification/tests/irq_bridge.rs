use halogen_os::irq::{
    handle_keyboard, handle_timer, initialize, initialize_irqs, owner_of, service_interrupts,
    Eoi, InterruptIndex, IrqEvent, KeyText, PicId, ScancodeDecoder, PIC_1_OFFSET, PIC_2_OFFSET,
};
use halogen_os::BootSequence;

const PRESS_A: u8 = 0x1e;
const RELEASE_A: u8 = 0x9e;

#[test]
fn irq_vectors_sit_above_the_exception_range() {
    assert_eq!(InterruptIndex::Timer.as_u8(), 32);
    assert_eq!(InterruptIndex::Keyboard.as_u8(), 33);
    assert_eq!(InterruptIndex::Timer.as_usize(), 32);
    assert_eq!(InterruptIndex::Keyboard.as_usize(), 33);
    assert_ne!(InterruptIndex::Timer.as_u8(), InterruptIndex::Keyboard.as_u8());
    assert!(InterruptIndex::Timer.as_u8() > 31);
    assert!(InterruptIndex::Keyboard.as_u8() > 31);
}

#[test]
fn controllers_remap_and_mask_unbound_lines() {
    let mut boot = BootSequence {
        segments_loaded: true,
        idt_loaded: true,
        pics_initialized: false,
        interrupts_enabled: false,
    };
    let config = initialize(&mut boot);
    assert!(boot.pics_initialized);
    assert_eq!(config.primary_offset, PIC_1_OFFSET);
    assert_eq!(config.secondary_offset, PIC_2_OFFSET);
    assert_eq!(config.primary_mask, 0xfc);
    assert_eq!(config.secondary_mask, 0xff);
}

#[test]
fn both_lines_bound_to_distinct_vectors() {
    let entries = initialize_irqs();
    assert_eq!(entries.len(), 2);
    assert_eq!(entries[0].line, InterruptIndex::Timer);
    assert_eq!(entries[0].vector, 32);
    assert_eq!(entries[0].eoi_to, PicId::Primary);
    assert_eq!(entries[1].line, InterruptIndex::Keyboard);
    assert_eq!(entries[1].vector, 33);
    assert_eq!(entries[1].eoi_to, PicId::Primary);
    assert_ne!(entries[0].vector, entries[1].vector);
}

#[test]
fn vector_ownership_splits_at_the_secondary_offset() {
    assert_eq!(owner_of(32), PicId::Primary);
    assert_eq!(owner_of(39), PicId::Primary);
    assert_eq!(owner_of(40), PicId::Secondary);
    assert_eq!(owner_of(47), PicId::Secondary);
}

#[test]
fn timer_prints_a_dot_and_acks_its_owner() {
    let (output, eoi) = handle_timer();
    assert_eq!(output, '.');
    assert_eq!(eoi, Eoi { vector: 32, controller: PicId::Primary });
}

#[test]
fn keyboard_decodes_a_press_and_acks_its_owner() {
    let mut decoder = ScancodeDecoder::new();
    let (output, eoi) = handle_keyboard(&mut decoder, PRESS_A);
    assert_eq!(output, Some(KeyText::Unicode('a')));
    assert_eq!(eoi, Eoi { vector: 33, controller: PicId::Primary });
}

#[test]
fn partial_scancode_sequences_persist_across_firings() {
    let mut decoder = ScancodeDecoder::new();
    let (first, _) = handle_keyboard(&mut decoder, 0xe0);
    assert_eq!(first, None);
    let (second, _) = handle_keyboard(&mut decoder, 0x48);
    assert_eq!(second, Some(KeyText::Raw(String::from("ArrowUp"))));
}

#[test]
fn key_release_produces_no_output_but_still_acks() {
    let mut decoder = ScancodeDecoder::new();
    let _ = handle_keyboard(&mut decoder, PRESS_A);
    let (output, eoi) = handle_keyboard(&mut decoder, RELEASE_A);
    assert_eq!(output, None);
    assert_eq!(eoi.vector, 33);
}

#[test]
fn repeated_timer_firings_never_stall_keyboard_acks() {
    let mut decoder = ScancodeDecoder::new();
    let events = vec![
        IrqEvent::Timer,
        IrqEvent::Timer,
        IrqEvent::Keyboard(PRESS_A),
        IrqEvent::Timer,
        IrqEvent::Keyboard(RELEASE_A),
        IrqEvent::Timer,
    ];
    let acks = service_interrupts(&mut decoder, &events);
    assert_eq!(acks.len(), events.len());
    for (event, ack) in events.iter().zip(acks.iter()) {
        let expected_vector = match event {
            IrqEvent::Timer => 32,
            IrqEvent::Keyboard(_) => 33,
        };
        assert_eq!(ack.vector, expected_vector);
        assert_eq!(ack.controller, PicId::Primary);
    }
    let keyboard_acks = acks.iter().filter(|a| a.vector == 33).count();
    assert_eq!(keyboard_acks, 2);
}
