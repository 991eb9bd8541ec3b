//! I/O redirection controller driver: 64-bit redirection-table entries with
//! named bit fields, and the indirect selector/data register protocol.
//!
//! Every field access is a range read/write over the raw 64-bit value; no
//! field aliases another.  The volatile register accesses themselves are
//! performed by unverified boot code, which hands the raw 32-bit register
//! values to and from the functions here.

use vstd::prelude::*;
use bit_field::BitField;
use crate::topology::IrqRouting;

verus! {

/// Relies on bit_field::BitField::get_bits for u64: returns the bits of
/// `v` in the range `lo .. lo + len`, shifted down to the low bits.
#[verifier::external_body]
fn get_bits64(v: u64, lo: u64, len: u64) -> (r: u64)
    requires
        0 < len < 64,
        lo + len <= 64,
    ensures
        r == (v >> lo) & !(!0u64 << len),
{
    v.get_bits((lo as usize)..((lo + len) as usize))
}

/// Relies on bit_field::BitField::set_bits for u64: replaces the bits of
/// `v` in the range `lo .. lo + len` with the low bits of `b`, which must
/// fit in `len` bits, and leaves every other bit unchanged.
#[verifier::external_body]
fn set_bits64(v: u64, lo: u64, len: u64, b: u64) -> (r: u64)
    requires
        0 < len < 64,
        lo + len <= 64,
        b & !(!0u64 << len) == b,
    ensures
        r == (v & !(!(!0u64 << len) << lo)) | (b << lo),
{
    let mut out = v;
    out.set_bits((lo as usize)..((lo + len) as usize), b);
    out
}

/// Relies on bit_field::BitField::get_bits for u32: returns the bits of
/// `v` in the range `lo .. lo + len`, shifted down to the low bits.
#[verifier::external_body]
fn get_bits32(v: u32, lo: u32, len: u32) -> (r: u32)
    requires
        0 < len < 32,
        lo + len <= 32,
    ensures
        r == (v >> lo) & !(!0u32 << len),
{
    v.get_bits((lo as usize)..((lo + len) as usize))
}

/// The vector field of a redirection entry: bits 0-7.
pub open spec fn vector_of(bits: u64) -> u64 {
    bits & 0xff
}

/// A redirection entry with its vector field replaced by `v` (`v` < 0x100).
pub open spec fn with_vector(bits: u64, v: u64) -> u64 {
    (bits & !0xffu64) | v
}

/// The delivery-mode field of a redirection entry: bits 8-10.
pub open spec fn delivery_mode_of(bits: u64) -> u64 {
    (bits >> 8) & 0x7
}

/// A redirection entry with its delivery-mode field replaced by `m` (`m` < 8).
pub open spec fn with_delivery_mode(bits: u64, m: u64) -> u64 {
    (bits & !0x700u64) | (m << 8)
}

/// The destination controller id field of a redirection entry: bits 56-63.
pub open spec fn destination_of(bits: u64) -> u64 {
    (bits >> 56) & 0xff
}

/// A redirection entry with its destination field replaced by `d` (`d` < 0x100).
pub open spec fn with_destination(bits: u64, d: u64) -> u64 {
    (bits & 0x00ff_ffff_ffff_ffffu64) | (d << 56)
}

/// The single-bit field of a redirection entry at bit `idx`.
pub open spec fn bit_of(bits: u64, idx: u64) -> bool {
    (bits >> idx) & 1 == 1
}

/// A redirection entry with the single-bit field at `idx` set to `b`.
pub open spec fn with_bit(bits: u64, idx: u64, b: bool) -> u64 {
    if b {
        bits | (1u64 << idx)
    } else {
        bits & !(1u64 << idx)
    }
}

/// Delivery modes of a redirection entry (bits 8-10).  Of the eight codes
/// only these six are architecturally defined; codes 3 and 6 are reserved.
#[derive(Clone, Copy, Debug, PartialEq, Eq, Structural)]
pub enum DeliveryMode {
    Fixed,
    LowestPriority,
    SMI,
    NMI,
    INIT,
    ExtINT,
}

impl DeliveryMode {
    /// The 3-bit hardware code of this delivery mode.
    pub open spec fn spec_code(self) -> u8 {
        match self {
            DeliveryMode::Fixed => 0,
            DeliveryMode::LowestPriority => 1,
            DeliveryMode::SMI => 2,
            DeliveryMode::NMI => 4,
            DeliveryMode::INIT => 5,
            DeliveryMode::ExtINT => 7,
        }
    }

    pub fn code(&self) -> (r: u8)
        ensures
            r == self.spec_code(),
    {
        match self {
            DeliveryMode::Fixed => 0,
            DeliveryMode::LowestPriority => 1,
            DeliveryMode::SMI => 2,
            DeliveryMode::NMI => 4,
            DeliveryMode::INIT => 5,
            DeliveryMode::ExtINT => 7,
        }
    }

    /// The named mode for a 3-bit code, if the code is defined.
    pub open spec fn spec_from_u8(value: u8) -> Option<DeliveryMode> {
        if value == 0 {
            Some(DeliveryMode::Fixed)
        } else if value == 1 {
            Some(DeliveryMode::LowestPriority)
        } else if value == 2 {
            Some(DeliveryMode::SMI)
        } else if value == 4 {
            Some(DeliveryMode::NMI)
        } else if value == 5 {
            Some(DeliveryMode::INIT)
        } else if value == 7 {
            Some(DeliveryMode::ExtINT)
        } else {
            None
        }
    }

    /// Decode a delivery-mode code.  Exactly the codes 0, 1, 2, 4, 5 and 7
    /// name a mode; the reserved codes 3 and 6, and every code above 7,
    /// decode to `None` rather than aliasing a defined mode.
    pub fn from_u8(value: u8) -> (r: Option<DeliveryMode>)
        ensures
            r == Self::spec_from_u8(value),
            r is Some <==> (value == 0 || value == 1 || value == 2 || value == 4 || value == 5
                || value == 7),
            r is Some ==> r.unwrap().spec_code() == value,
    {
        match value {
            0 => Some(DeliveryMode::Fixed),
            1 => Some(DeliveryMode::LowestPriority),
            2 => Some(DeliveryMode::SMI),
            4 => Some(DeliveryMode::NMI),
            5 => Some(DeliveryMode::INIT),
            7 => Some(DeliveryMode::ExtINT),
            _ => None,
        }
    }
}

/// One 64-bit redirection-table entry.  Fields live at fixed bit ranges of
/// the raw value: vector 0-7, delivery mode 8-10, destination mode 11,
/// delivery status 12 (read-only), input polarity 13, remote IRR 14
/// (read-only), trigger mode 15, mask 16, destination id 56-63.
#[derive(Clone, Copy, Debug, PartialEq, Eq, Structural)]
pub struct IrqEntry {
    bits: u64,
}

impl IrqEntry {
    /// The raw 64-bit value of the entry.
    pub closed spec fn spec_bits(self) -> u64 {
        self.bits
    }

    pub fn bits(&self) -> (r: u64)
        ensures
            r == self.spec_bits(),
    {
        self.bits
    }

    /// An entry from a raw 64-bit value, all bits kept as given.
    pub fn from_bits_retain(bits: u64) -> (r: Self)
        ensures
            r.spec_bits() == bits,
    {
        IrqEntry { bits }
    }

    pub fn get_vector(&self) -> (r: u8)
        ensures
            r as u64 == vector_of(self.spec_bits()),
    {
        let b = self.bits;
        let r = get_bits64(b, 0, 8);
        proof {
            assert((b >> 0) & !(!0u64 << 8) == b & 0xff && b & 0xff < 0x100) by (bit_vector);
        }
        r as u8
    }

    /// Replace the vector field; every bit outside the range 0-7 is kept.
    pub fn set_vector(&mut self, vec: u8)
        ensures
            final(self).spec_bits() == with_vector(old(self).spec_bits(), vec as u64),
    {
        let b = self.bits;
        proof {
            assert((vec as u64) & !(!0u64 << 8) == (vec as u64)) by (bit_vector);
        }
        let nb = set_bits64(b, 0, 8, vec as u64);
        proof {
            assert((b & !(!(!0u64 << 8) << 0)) | ((vec as u64) << 0) == (b & !0xffu64) | (
            vec as u64)) by (bit_vector);
        }
        self.bits = nb;
    }

    /// The delivery-mode field, decoded; `None` for the reserved codes.
    pub fn get_delivery_mode(&self) -> (r: Option<DeliveryMode>)
        ensures
            r == DeliveryMode::spec_from_u8(delivery_mode_of(self.spec_bits()) as u8),
    {
        let b = self.bits;
        let f = get_bits64(b, 8, 3);
        proof {
            assert((b >> 8) & !(!0u64 << 3) == (b >> 8) & 0x7 && (b >> 8) & 0x7 < 8) by (bit_vector);
        }
        DeliveryMode::from_u8(f as u8)
    }

    /// Replace the delivery-mode field; every bit outside 8-10 is kept.
    pub fn set_delivery_mode(&mut self, mode: DeliveryMode)
        ensures
            final(self).spec_bits() == with_delivery_mode(
                old(self).spec_bits(),
                mode.spec_code() as u64,
            ),
    {
        let b = self.bits;
        let m = mode.code();
        proof {
            assert(m < 8 ==> (m as u64) & !(!0u64 << 3) == (m as u64)) by (bit_vector);
        }
        let nb = set_bits64(b, 8, 3, m as u64);
        proof {
            assert((b & !(!(!0u64 << 3) << 8)) | ((m as u64) << 8) == (b & !0x700u64) | ((
            m as u64) << 8)) by (bit_vector);
        }
        self.bits = nb;
    }

    pub fn get_destination(&self) -> (r: u8)
        ensures
            r as u64 == destination_of(self.spec_bits()),
    {
        let b = self.bits;
        let r = get_bits64(b, 56, 8);
        proof {
            assert((b >> 56) & !(!0u64 << 8) == (b >> 56) & 0xff && (b >> 56) & 0xff < 0x100)
                by (bit_vector);
        }
        r as u8
    }

    /// Replace the destination id field; every bit outside 56-63 is kept.
    pub fn set_destination(&mut self, apic_id: u8)
        ensures
            final(self).spec_bits() == with_destination(old(self).spec_bits(), apic_id as u64),
    {
        let b = self.bits;
        proof {
            assert((apic_id as u64) & !(!0u64 << 8) == (apic_id as u64)) by (bit_vector);
        }
        let nb = set_bits64(b, 56, 8, apic_id as u64);
        proof {
            assert((b & !(!(!0u64 << 8) << 56)) | ((apic_id as u64) << 56) == (b
                & 0x00ff_ffff_ffff_ffffu64) | ((apic_id as u64) << 56)) by (bit_vector);
        }
        self.bits = nb;
    }

    fn get_bit_field(&self, idx: u64) -> (r: bool)
        requires
            idx < 64,
        ensures
            r == bit_of(self.spec_bits(), idx),
    {
        let b = self.bits;
        let r = get_bits64(b, idx, 1);
        proof {
            assert(idx < 64 ==> ((b >> idx) & !(!0u64 << 1) == 1 <==> (b >> idx) & 1 == 1))
                by (bit_vector);
        }
        r == 1
    }

    fn set_bit_field(&mut self, idx: u64, value: bool)
        requires
            idx < 64,
        ensures
            final(self).spec_bits() == with_bit(old(self).spec_bits(), idx, value),
    {
        let b = self.bits;
        let raw: u64 = if value {
            1
        } else {
            0
        };
        proof {
            assert(raw & !(!0u64 << 1) == raw) by (bit_vector)
                requires
                    raw == 0 || raw == 1,
            ;
        }
        let nb = set_bits64(b, idx, 1, raw);
        proof {
            assert(idx < 64 ==> (b & !(!(!0u64 << 1) << idx)) | (raw << idx) == (if raw == 1 {
                b | (1u64 << idx)
            } else {
                b & !(1u64 << idx)
            })) by (bit_vector)
                requires
                    raw == 0 || raw == 1,
            ;
        }
        self.bits = nb;
    }

    /// Destination mode, bit 11.
    pub fn get_destination_mode(&self) -> (r: bool)
        ensures
            r == bit_of(self.spec_bits(), 11),
    {
        self.get_bit_field(11)
    }

    pub fn set_destination_mode(&mut self, value: bool)
        ensures
            final(self).spec_bits() == with_bit(old(self).spec_bits(), 11, value),
    {
        self.set_bit_field(11, value)
    }

    /// Delivery status, bit 12; read-only in hardware.
    pub fn get_delivery_status(&self) -> (r: bool)
        ensures
            r == bit_of(self.spec_bits(), 12),
    {
        self.get_bit_field(12)
    }

    /// Input polarity, bit 13: false = active high, true = active low.
    pub fn get_polarity(&self) -> (r: bool)
        ensures
            r == bit_of(self.spec_bits(), 13),
    {
        self.get_bit_field(13)
    }

    pub fn set_polarity(&mut self, value: bool)
        ensures
            final(self).spec_bits() == with_bit(old(self).spec_bits(), 13, value),
    {
        self.set_bit_field(13, value)
    }

    /// Remote IRR, bit 14; read-only in hardware.
    pub fn get_remote_irr(&self) -> (r: bool)
        ensures
            r == bit_of(self.spec_bits(), 14),
    {
        self.get_bit_field(14)
    }

    /// Trigger mode, bit 15: false = edge, true = level.
    pub fn get_trigger_mode(&self) -> (r: bool)
        ensures
            r == bit_of(self.spec_bits(), 15),
    {
        self.get_bit_field(15)
    }

    pub fn set_trigger_mode(&mut self, value: bool)
        ensures
            final(self).spec_bits() == with_bit(old(self).spec_bits(), 15, value),
    {
        self.set_bit_field(15, value)
    }

    /// Mask, bit 16: true = the line is masked.
    pub fn get_mask(&self) -> (r: bool)
        ensures
            r == bit_of(self.spec_bits(), 16),
    {
        self.get_bit_field(16)
    }

    pub fn set_mask(&mut self, value: bool)
        ensures
            final(self).spec_bits() == with_bit(old(self).spec_bits(), 16, value),
    {
        self.set_bit_field(16, value)
    }
}

/// Law: writing the vector field of a redirection entry and reading it back
/// returns the written value, and every bit outside the vector field --
/// hence every other field -- is unchanged.
pub proof fn lemma_set_vector_round_trip(bits: u64, v: u8)
    ensures
        vector_of(with_vector(bits, v as u64)) == v as u64,
        with_vector(bits, v as u64) & !0xffu64 == bits & !0xffu64,
        delivery_mode_of(with_vector(bits, v as u64)) == delivery_mode_of(bits),
        destination_of(with_vector(bits, v as u64)) == destination_of(bits),
        forall|idx: u64| 8 <= idx < 64 ==> bit_of(with_vector(bits, v as u64), idx) == bit_of(
            bits,
            idx,
        ),
{
    assert(((bits & !0xffu64) | (v as u64)) & 0xff == v as u64) by (bit_vector);
    assert(((bits & !0xffu64) | (v as u64)) & !0xffu64 == bits & !0xffu64) by (bit_vector);
    assert((((bits & !0xffu64) | (v as u64)) >> 8) & 0x7 == (bits >> 8) & 0x7) by (bit_vector);
    assert((((bits & !0xffu64) | (v as u64)) >> 56) & 0xff == (bits >> 56) & 0xff) by (bit_vector);
    assert(forall|idx: u64|
        8 <= idx < 64 ==> ((((bits & !0xffu64) | (v as u64)) >> idx) & 1 == 1 <==> (bits >> idx) & 1
            == 1)) by (bit_vector);
}

/// The I/O redirection controller's indirect-access window: a 32-bit
/// selector register at the controller's base address and a 32-bit data
/// register 0x10 bytes above it.  Constructing the window performs no I/O;
/// the two-step select-then-access protocol is carried out by boot code,
/// which brings the raw register values to the functions below.
pub struct IoApic {
    sel: u64,
    win: u64,
}

impl IoApic {
    /// Address of the selector register.
    pub closed spec fn spec_sel(self) -> u64 {
        self.sel
    }

    /// Address of the data window register.
    pub closed spec fn spec_win(self) -> u64 {
        self.win
    }

    pub fn new(addr: u64) -> (r: Self)
        requires
            addr + 0x10 <= u64::MAX,
        ensures
            r.spec_sel() == addr,
            r.spec_win() == addr + 0x10,
    {
        IoApic { sel: addr, win: addr + 0x10 }
    }

    pub fn sel_address(&self) -> (r: u64)
        ensures
            r == self.spec_sel(),
    {
        self.sel
    }

    pub fn win_address(&self) -> (r: u64)
        ensures
            r == self.spec_win(),
    {
        self.win
    }

    /// Controller id from the raw identification register: bits 24-27.
    pub fn read_id(&self, raw: u32) -> (r: u8)
        ensures
            r as u32 == (raw >> 24) & 0xf,
    {
        let f = get_bits32(raw, 24, 4);
        proof {
            assert((raw >> 24) & !(!0u32 << 4) == (raw >> 24) & 0xf && (raw >> 24) & 0xf < 0x100)
                by (bit_vector);
        }
        f as u8
    }

    /// Version (bits 0-7) and number of redirection entries (bits 16-23
    /// plus one) from the raw version register.
    pub fn read_ver_and_max_entry(&self, raw: u32) -> (r: (u8, u16))
        ensures
            r.0 as u32 == raw & 0xff,
            r.1 as u32 == ((raw >> 16) & 0xff) + 1,
    {
        let ver = get_bits32(raw, 0, 8);
        let max = get_bits32(raw, 16, 8);
        proof {
            assert((raw >> 0) & !(!0u32 << 8) == raw & 0xff && raw & 0xff < 0x100) by (bit_vector);
            assert((raw >> 16) & !(!0u32 << 8) == (raw >> 16) & 0xff && (raw >> 16) & 0xff < 0x100)
                by (bit_vector);
        }
        (ver as u8, (max + 1) as u16)
    }

    /// Arbitration id from the raw arbitration register: bits 24-27.
    pub fn read_arb(&self, raw: u32) -> (r: u8)
        ensures
            r as u32 == (raw >> 24) & 0xf,
    {
        let f = get_bits32(raw, 24, 4);
        proof {
            assert((raw >> 24) & !(!0u32 << 4) == (raw >> 24) & 0xf && (raw >> 24) & 0xf < 0x100)
                by (bit_vector);
        }
        f as u8
    }

    /// The pair of selector indices holding redirection entry `irq`: the
    /// redirection table starts at index 0x10, two consecutive 32-bit
    /// registers per line (low half first).
    pub fn irq_register_indices(&self, irq: u8) -> (r: (u8, u8))
        requires
            irq < 120,
        ensures
            r.0 == 0x10 + 2 * irq,
            r.1 == 0x10 + 2 * irq + 1,
    {
        let low: u8 = 0x10 + 2 * irq;
        (low, low + 1)
    }

    /// Combine the two raw 32-bit halves of a redirection entry, low half
    /// in the low word.
    pub fn read_irq(&self, low: u32, high: u32) -> (r: IrqEntry)
        ensures
            r.spec_bits() == (low as u64) | ((high as u64) << 32),
    {
        IrqEntry::from_bits_retain((low as u64) | ((high as u64) << 32))
    }

    /// Split a redirection entry into the two raw 32-bit halves to be
    /// written, low half first.
    pub fn write_irq(&self, entry: &IrqEntry) -> (r: (u32, u32))
        ensures
            r.0 as u64 == entry.spec_bits() & 0xffff_ffff,
            r.1 as u64 == entry.spec_bits() >> 32,
    {
        let bits = entry.bits();
        let low64 = bits & 0xffff_ffff;
        let high64 = bits >> 32;
        proof {
            assert(bits & 0xffff_ffff < 0x1_0000_0000u64 && bits >> 32 < 0x1_0000_0000u64)
                by (bit_vector);
        }
        (low64 as u32, high64 as u32)
    }
}

/// The redirection entry programmed for one routed ISA IRQ, built from
/// the entry read back from the line (a read-modify-write, so unrelated
/// bits are preserved): the chosen device vector, fixed delivery mode,
/// the local controller as destination, the override's polarity and
/// trigger (two-bit code 3 = active low / level), and the mask cleared.
pub fn route_entry(base: IrqEntry, routing: &IrqRouting, vector: u8, destination: u8) -> (r:
    IrqEntry)
    ensures
        r.spec_bits() == with_bit(
            with_bit(
                with_bit(
                    with_destination(
                        with_delivery_mode(with_vector(base.spec_bits(), vector as u64), 0),
                        destination as u64,
                    ),
                    13,
                    routing.polarity == 3,
                ),
                15,
                routing.trigger == 3,
            ),
            16,
            false,
        ),
{
    let mut entry = base;
    entry.set_vector(vector);
    entry.set_delivery_mode(DeliveryMode::Fixed);
    entry.set_destination(destination);
    entry.set_polarity(routing.polarity == 3);
    entry.set_trigger_mode(routing.trigger == 3);
    entry.set_mask(false);
    entry
}

/// Law: splitting a redirection entry into its two register halves and
/// combining them again reproduces the entry exactly.
pub proof fn lemma_irq_halves_round_trip(bits: u64)
    ensures
        ((bits & 0xffff_ffff) | ((bits >> 32) << 32)) == bits,
{
    assert(((bits & 0xffff_ffff) | ((bits >> 32) << 32)) == bits) by (bit_vector);
}

} // verus!
