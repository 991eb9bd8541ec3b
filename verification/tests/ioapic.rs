use irqcore::interrupts::ioapic::{route_entry, DeliveryMode, IoApic, IrqEntry};
use irqcore::topology::IrqRouting;

#[test]
fn vector_round_trip_preserves_other_fields() {
    // For assorted initial field combinations, reading back the vector
    // field after set_vector returns the written value and every other
    // field's bits are unchanged.
    let initials = [
        0u64,
        !0u64,
        0x00FF_0000_0001_FFAAu64,
        0xAB00_0000_0003_0155u64,
    ];
    let vectors = [0u8, 1, 0x20, 0x30, 0xAB, 0xFF];
    for &start in initials.iter() {
        for &v in vectors.iter() {
            let mut e = IrqEntry::from_bits_retain(start);
            e.set_vector(v);
            assert_eq!(e.get_vector(), v);
            assert_eq!(e.bits() & !0xFF, start & !0xFF);
        }
    }
}

#[test]
fn delivery_mode_codes_decode_exactly() {
    // Of the eight 3-bit codes only 0, 1, 2, 4, 5 and 7 name a mode; the
    // reserved codes 3 and 6 are explicit, never an alias.
    assert_eq!(DeliveryMode::from_u8(0), Some(DeliveryMode::Fixed));
    assert_eq!(DeliveryMode::from_u8(1), Some(DeliveryMode::LowestPriority));
    assert_eq!(DeliveryMode::from_u8(2), Some(DeliveryMode::SMI));
    assert_eq!(DeliveryMode::from_u8(3), None);
    assert_eq!(DeliveryMode::from_u8(4), Some(DeliveryMode::NMI));
    assert_eq!(DeliveryMode::from_u8(5), Some(DeliveryMode::INIT));
    assert_eq!(DeliveryMode::from_u8(6), None);
    assert_eq!(DeliveryMode::from_u8(7), Some(DeliveryMode::ExtINT));
    assert_eq!(DeliveryMode::from_u8(8), None);
    assert_eq!(DeliveryMode::from_u8(0xFF), None);
}

#[test]
fn delivery_mode_field_uses_bits_8_to_10() {
    let mut e = IrqEntry::from_bits_retain(0);
    e.set_delivery_mode(DeliveryMode::ExtINT);
    assert_eq!(e.bits(), 0b111 << 8);
    assert_eq!(e.get_delivery_mode(), Some(DeliveryMode::ExtINT));
    let mut f = IrqEntry::from_bits_retain(!0u64);
    f.set_delivery_mode(DeliveryMode::Fixed);
    assert_eq!(f.bits(), !(0b111u64 << 8));
    assert_eq!(f.get_delivery_mode(), Some(DeliveryMode::Fixed));
}

#[test]
fn reserved_delivery_code_reads_back_as_none() {
    let e = IrqEntry::from_bits_retain(0b011 << 8);
    assert_eq!(e.get_delivery_mode(), None);
}

#[test]
fn destination_field_uses_bits_56_to_63() {
    let mut e = IrqEntry::from_bits_retain(0);
    e.set_destination(0xAB);
    assert_eq!(e.bits(), 0xABu64 << 56);
    assert_eq!(e.get_destination(), 0xAB);
    let mut f = IrqEntry::from_bits_retain(!0u64);
    f.set_destination(0);
    assert_eq!(f.bits(), 0x00FF_FFFF_FFFF_FFFF);
    assert_eq!(f.get_destination(), 0);
}

#[test]
fn single_bit_fields_sit_at_their_bits() {
    let mut e = IrqEntry::from_bits_retain(0);
    e.set_destination_mode(true);
    assert_eq!(e.bits(), 1 << 11);
    e.set_destination_mode(false);
    e.set_polarity(true);
    assert_eq!(e.bits(), 1 << 13);
    e.set_polarity(false);
    e.set_trigger_mode(true);
    assert_eq!(e.bits(), 1 << 15);
    e.set_trigger_mode(false);
    e.set_mask(true);
    assert_eq!(e.bits(), 1 << 16);
    assert!(e.get_mask());
    assert!(!e.get_polarity());
    assert!(!e.get_trigger_mode());
    assert!(!e.get_destination_mode());
    let probe = IrqEntry::from_bits_retain((1 << 12) | (1 << 14));
    assert!(probe.get_delivery_status());
    assert!(probe.get_remote_irr());
}

#[test]
fn vector_getter_reads_low_byte() {
    let e = IrqEntry::from_bits_retain(0x0123_4567_89AB_CDEF);
    assert_eq!(e.get_vector(), 0xEF);
    assert_eq!(e.get_destination(), 0x01);
}

#[test]
fn window_addresses_sit_sixteen_bytes_apart() {
    let io = IoApic::new(0xFEC0_0000);
    assert_eq!(io.sel_address(), 0xFEC0_0000);
    assert_eq!(io.win_address(), 0xFEC0_0010);
}

#[test]
fn identification_version_and_arbitration_registers_decode() {
    let io = IoApic::new(0xFEC0_0000);
    assert_eq!(io.read_id(0x0F00_0000), 0xF);
    assert_eq!(io.read_id(0x1234_5678), 0x2);
    let (ver, max_entry) = io.read_ver_and_max_entry(0x0017_0011);
    assert_eq!(ver, 0x11);
    assert_eq!(max_entry, 0x18);
    assert_eq!(io.read_arb(0x0500_0000), 5);
}

#[test]
fn redirection_entry_halves_round_trip() {
    let io = IoApic::new(0xFEC0_0000);
    let entry = io.read_irq(0x89AB_CDEF, 0x0123_4567);
    assert_eq!(entry.bits(), 0x0123_4567_89AB_CDEF);
    let (low, high) = io.write_irq(&entry);
    assert_eq!(low, 0x89AB_CDEF);
    assert_eq!(high, 0x0123_4567);
    assert_eq!(io.irq_register_indices(0), (0x10, 0x11));
    assert_eq!(io.irq_register_indices(9), (0x22, 0x23));
}

#[test]
fn route_entry_programs_the_redirection_fields() {
    // A read-modify-write from an all-ones entry: the vector, delivery
    // mode, destination, polarity, trigger and mask are programmed, every
    // unrelated bit is preserved.
    let base = IrqEntry::from_bits_retain(!0u64);
    let routing = IrqRouting { global_irq: 9, polarity: 1, trigger: 3 };
    let e = route_entry(base, &routing, 0x21, 0);
    assert_eq!(e.get_vector(), 0x21);
    assert_eq!(e.get_delivery_mode(), Some(DeliveryMode::Fixed));
    assert_eq!(e.get_destination(), 0);
    assert!(!e.get_polarity()); // polarity code 1 = active high
    assert!(e.get_trigger_mode()); // trigger code 3 = level
    assert!(!e.get_mask());
    // Bits outside the programmed fields are still set.
    assert!(e.get_destination_mode());
    assert!(e.get_delivery_status());
    assert!(e.get_remote_irr());
}

#[test]
fn route_entry_defaults_are_edge_active_high_unmasked() {
    let base = IrqEntry::from_bits_retain(0);
    let routing = IrqRouting { global_irq: 4, polarity: 0, trigger: 0 };
    let e = route_entry(base, &routing, 0x24, 7);
    assert_eq!(e.get_vector(), 0x24);
    assert_eq!(e.get_destination(), 7);
    assert!(!e.get_polarity());
    assert!(!e.get_trigger_mode());
    assert!(!e.get_mask());
}
