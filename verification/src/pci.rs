//! PCI configuration-space access: device location packing and the typed
//! decomposition of the four standard header registers.
//!
//! The configuration port I/O itself (address port 0xCF8, data port
//! 0xCFC) is performed by unverified boot code; the functions here compute
//! the request word and decompose the raw register values it reads.

use vstd::prelude::*;

verus! {

/// Port number of the configuration address register.
pub const PCI_CONFIG_ADDRESS: u16 = 0xcf8;

/// Port number of the configuration data register.
pub const PCI_CONFIG_DATA: u16 = 0xcfc;

/// The packed configuration-space location of a device function: bus in
/// bits 16-23, slot in bits 11-15, function in bits 8-10, enable bit 31.
pub open spec fn pack_location(bus: u8, slot: u8, func: u8) -> u32 {
    ((bus as u32) << 16) | ((slot as u32) << 11) | ((func as u32) << 8) | 0x8000_0000u32
}

/// One addressable PCI device function.
#[derive(Debug, PartialEq, Eq, Structural, PartialOrd, Ord)]
pub struct PciDevice {
    location: u32,
}

/// The identification register: device and vendor id.  All ones in both
/// fields means no device answers at that location.
#[derive(Clone, Copy, Debug, PartialEq, Eq, Structural)]
pub struct PciIdRegister {
    pub device_id: u16,
    pub vendor_id: u16,
}

impl PciIdRegister {
    /// The value an absent device yields: all ones in both fields.
    pub open spec fn spec_empty() -> PciIdRegister {
        PciIdRegister { device_id: 0xffff, vendor_id: 0xffff }
    }

    pub fn empty() -> (r: Self)
        ensures
            r == Self::spec_empty(),
    {
        PciIdRegister { device_id: 0xffff, vendor_id: 0xffff }
    }
}

/// The status register: status and command halves.
#[derive(Clone, Copy, Debug, PartialEq, Eq, Structural)]
pub struct PciStatusRegister {
    pub status: u16,
    pub command: u16,
}

/// The class register: class, subclass, programming interface, revision.
#[derive(Clone, Copy, Debug, PartialEq, Eq, Structural)]
pub struct PciClassRegister {
    pub class: u8,
    pub subclass: u8,
    pub prog_if: u8,
    pub revision: u8,
}

/// The header-info register: built-in self test, header type, latency
/// timer, cache-line size.
#[derive(Clone, Copy, Debug, PartialEq, Eq, Structural)]
pub struct PciInfoRegister {
    pub bist: u8,
    pub header_type: u8,
    pub latency_timer: u8,
    pub cache_size: u8,
}

impl PciDevice {
    pub closed spec fn spec_location(self) -> u32 {
        self.location
    }

    /// A device at a validated location.  `None` when the slot or
    /// function number is out of range, or when the identification
    /// register the boot code read at that location reports no device.
    pub fn from(bus: u8, slot: u8, func: u8, id: PciIdRegister) -> (r: Option<PciDevice>)
        ensures
            (slot > 31 || func > 7) ==> r is None,
            (slot <= 31 && func <= 7 && id == PciIdRegister::spec_empty()) ==> r is None,
            (slot <= 31 && func <= 7 && id != PciIdRegister::spec_empty()) ==> (r matches Some(d)
                && d.spec_location() == pack_location(bus, slot, func)),
    {
        if slot > 31 || func > 7 {
            None
        } else if id == PciIdRegister::empty() {
            None
        } else {
            Some(
                PciDevice {
                    location: ((bus as u32) << 16) | ((slot as u32) << 11) | ((func as u32) << 8)
                        | 0x8000_0000u32,
                },
            )
        }
    }

    /// A device at the packed location, with no range check and no probe;
    /// a slot above 31 or a function above 7 overlaps neighbouring bits.
    pub fn from_unchecked(bus: u8, slot: u8, func: u8) -> (r: PciDevice)
        ensures
            r.spec_location() == pack_location(bus, slot, func),
    {
        PciDevice {
            location: ((bus as u32) << 16) | ((slot as u32) << 11) | ((func as u32) << 8)
                | 0x8000_0000u32,
        }
    }

    /// The word written to the configuration address port to select the
    /// register at `offset` of this device.
    pub fn config_request(&self, offset: u8) -> (r: u32)
        ensures
            r == self.spec_location() | (offset as u32),
    {
        self.location | (offset as u32)
    }

    /// Decompose the raw identification register (offset 0x0).
    pub fn get_id_register(&self, raw: u32) -> (r: PciIdRegister)
        ensures
            r.device_id == (raw >> 16) as u16,
            r.vendor_id == (raw & 0xffff) as u16,
    {
        PciIdRegister { device_id: (raw >> 16) as u16, vendor_id: (raw & 0xffff) as u16 }
    }

    /// Decompose the raw status register (offset 0x4).
    pub fn get_status_register(&self, raw: u32) -> (r: PciStatusRegister)
        ensures
            r.status == (raw >> 16) as u16,
            r.command == (raw & 0xffff) as u16,
    {
        PciStatusRegister { status: (raw >> 16) as u16, command: (raw & 0xffff) as u16 }
    }

    /// Decompose the raw class register (offset 0x8).
    pub fn get_class_register(&self, raw: u32) -> (r: PciClassRegister)
        ensures
            r.class == (raw >> 24) as u8,
            r.subclass == ((raw >> 16) & 0xff) as u8,
            r.prog_if == ((raw >> 8) & 0xff) as u8,
            r.revision == (raw & 0xff) as u8,
    {
        PciClassRegister {
            class: (raw >> 24) as u8,
            subclass: ((raw >> 16) & 0xff) as u8,
            prog_if: ((raw >> 8) & 0xff) as u8,
            revision: (raw & 0xff) as u8,
        }
    }

    /// Decompose the raw header-info register (offset 0xC).
    pub fn get_info_register(&self, raw: u32) -> (r: PciInfoRegister)
        ensures
            r.bist == (raw >> 24) as u8,
            r.header_type == ((raw >> 16) & 0xff) as u8,
            r.latency_timer == ((raw >> 8) & 0xff) as u8,
            r.cache_size == (raw & 0xff) as u8,
    {
        PciInfoRegister {
            bist: (raw >> 24) as u8,
            header_type: ((raw >> 16) & 0xff) as u8,
            latency_timer: ((raw >> 8) & 0xff) as u8,
            cache_size: (raw & 0xff) as u8,
        }
    }
}

} // verus!
