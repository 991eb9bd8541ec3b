//! The interrupt-controller drivers: exception dispatch table, local
//! controller, legacy controller retirement, and I/O redirection controller.

pub mod apic;
pub mod idt;
pub mod ioapic;
