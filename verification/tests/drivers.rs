use irqcore::com::SerialWriter;
use irqcore::interrupts::apic::{
    check_version, classify_version, ApicError, ControllerKind, LegacyPics, LocalApic,
    PublicXapic, RegisterWrite, EOI_OFFSET, LVT_TIMER_OFFSET, SVR_OFFSET, TIMER_DIV_OFFSET,
    TIMER_INIT_COUNT_OFFSET,
};
use irqcore::memory::{heap_region, MemoryArea};
use irqcore::pci::{PciDevice, PciIdRegister};
use irqcore::tests::{check_for_features, run_tests, CpuFeatures};

#[test]
fn unmapped_controller_yields_capability_errors() {
    let apic = LocalApic::empty();
    assert_eq!(apic.get().err(), Some(ApicError::NotMapped));
    assert_eq!(apic.eoi().err(), Some(ApicError::NotMapped));
    assert_eq!(apic.enable_timer(0, 0x10).err(), Some(ApicError::NotMapped));
}

#[test]
fn retirement_precedes_mapping_and_timer_programming() {
    let mut legacy = LegacyPics::new(32, 8);
    assert!(!legacy.is_retired());
    assert_eq!(legacy.primary_offset(), 32);
    assert_eq!(legacy.secondary_offset(), 8);
    legacy.retire();
    assert!(legacy.is_retired());
    let mut apic = LocalApic::empty();
    apic.init(0xFEE0_0000, &legacy);
    let state = apic.get().unwrap();
    assert_eq!(
        *state,
        PublicXapic { mmio_region_ptr: 0xFEE0_0000, mmio_region_len: 256, base: 0xFEE0_0000 }
    );
    let program = apic.enable_timer(0x0F, 0x14).unwrap();
    assert_eq!(program.svr, RegisterWrite { offset: SVR_OFFSET, value: 0x10F });
    assert_eq!(
        program.lvt_timer,
        RegisterWrite { offset: LVT_TIMER_OFFSET, value: 48 | (1 << 17) }
    );
    assert_eq!(program.divide, RegisterWrite { offset: TIMER_DIV_OFFSET, value: 0b1010 });
    assert_eq!(
        program.initial_count,
        RegisterWrite { offset: TIMER_INIT_COUNT_OFFSET, value: 0x20_0000 }
    );
    assert_eq!(apic.eoi().unwrap(), RegisterWrite { offset: EOI_OFFSET, value: 0 });
}

#[test]
fn version_codes_classify_on_their_boundaries() {
    assert_eq!(classify_version(0x0), ControllerKind::Discrete);
    assert_eq!(classify_version(0xF), ControllerKind::Discrete);
    assert_eq!(classify_version(0x10), ControllerKind::Integrated);
    assert_eq!(classify_version(0x15), ControllerKind::Integrated);
    assert_eq!(classify_version(0x16), ControllerKind::Reserved);
    assert_eq!(classify_version(0xFF), ControllerKind::Reserved);
    assert!(check_version(0x10).is_ok());
    assert!(check_version(0x15).is_ok());
    assert_eq!(check_version(0xF).err(), Some(ApicError::UnsupportedControllerVersion));
    assert_eq!(check_version(0x16).err(), Some(ApicError::UnexpectedControllerVersion));
}

#[test]
fn discrete_controller_version_refuses_timer_programming() {
    let mut legacy = LegacyPics::new(32, 8);
    legacy.retire();
    let mut apic = LocalApic::empty();
    apic.init(0xFEE0_0000, &legacy);
    assert_eq!(
        apic.enable_timer(0, 0x0).err(),
        Some(ApicError::UnsupportedControllerVersion)
    );
    assert_eq!(
        apic.enable_timer(0, 0xFF).err(),
        Some(ApicError::UnexpectedControllerVersion)
    );
}

#[test]
fn device_location_packs_and_probes() {
    let present = PciIdRegister { device_id: 0x1234, vendor_id: 0x8086 };
    let d = PciDevice::from(0, 2, 1, present).unwrap();
    assert_eq!(d.config_request(0), (1 << 31) | (2 << 11) | (1 << 8));
    assert_eq!(d.config_request(0x10), (1 << 31) | (2 << 11) | (1 << 8) | 0x10);
    assert!(PciDevice::from(0, 32, 0, present).is_none());
    assert!(PciDevice::from(0, 0, 8, present).is_none());
    assert!(PciDevice::from(0, 0, 0, PciIdRegister::empty()).is_none());
    let u = PciDevice::from_unchecked(1, 2, 3);
    assert_eq!(u.config_request(0), (1 << 31) | (1 << 16) | (2 << 11) | (3 << 8));
}

#[test]
fn header_registers_decompose_exactly() {
    let d = PciDevice::from_unchecked(0, 0, 0);
    let id = d.get_id_register(0x1234_8086);
    assert_eq!(id, PciIdRegister { device_id: 0x1234, vendor_id: 0x8086 });
    let status = d.get_status_register(0xABCD_0107);
    assert_eq!(status.status, 0xABCD);
    assert_eq!(status.command, 0x0107);
    let class = d.get_class_register(0x0403_0189);
    assert_eq!(class.class, 0x04);
    assert_eq!(class.subclass, 0x03);
    assert_eq!(class.prog_if, 0x01);
    assert_eq!(class.revision, 0x89);
    let info = d.get_info_register(0x0100_2010);
    assert_eq!(info.bist, 0x01);
    assert_eq!(info.header_type, 0x00);
    assert_eq!(info.latency_timer, 0x20);
    assert_eq!(info.cache_size, 0x10);
}

#[test]
fn absent_device_reads_all_ones() {
    let d = PciDevice::from_unchecked(0, 0, 0);
    assert_eq!(d.get_id_register(0xFFFF_FFFF), PciIdRegister::empty());
}

#[test]
fn heap_goes_into_the_first_area_containing_the_kernel_end() {
    let areas = vec![
        MemoryArea { start: 0, size: 0x9F000, available: true },
        MemoryArea { start: 0x100000, size: 0x700000, available: false },
        MemoryArea { start: 0x100000, size: 0x7F00000, available: true },
    ];
    let h = heap_region(&areas, 0x400000).unwrap();
    assert_eq!(h.area_index, 2);
    assert_eq!(h.start, 0x400000);
    assert_eq!(h.len, 0x7F00000 - (0x400000 - 0x100000));
}

#[test]
fn no_containing_area_means_no_heap() {
    let areas = vec![
        MemoryArea { start: 0, size: 0x1000, available: true },
        MemoryArea { start: 0x400000, size: 0x1000, available: true },
    ];
    assert!(heap_region(&areas, 0x200000).is_none());
}

#[test]
fn serial_encoding_inserts_carriage_returns() {
    let w = SerialWriter::new(0x3F8);
    assert_eq!(w.port(), 0x3F8);
    let data = vec![b'o', b'k', 0x0A, b'x', 0x0A];
    assert_eq!(w.encode(&data), vec![b'o', b'k', 0x0A, 0x0D, b'x', 0x0A, 0x0D]);
    let empty: Vec<u8> = Vec::new();
    assert_eq!(w.encode(&empty), Vec::<u8>::new());
}

#[test]
fn feature_checks_require_all_features() {
    let all = CpuFeatures { apic: true, acpi: true, sse3: true };
    assert!(run_tests(&all));
    assert!(check_for_features(&all));
    assert!(!run_tests(&CpuFeatures { apic: false, acpi: true, sse3: true }));
    assert!(!run_tests(&CpuFeatures { apic: true, acpi: false, sse3: true }));
    assert!(!run_tests(&CpuFeatures { apic: true, acpi: true, sse3: false }));
}
