//! Local interrupt-controller driver and legacy controller retirement.
//!
//! The local controller's memory-mapped control block is owned by the
//! driver state here; the volatile register writes themselves are carried
//! out by unverified boot code, which takes the register programs these
//! functions compute.  The legacy 8-line controller pair must be placed in
//! a fully masked state before the local controller is initialized, and
//! that ordering is a precondition of `LocalApic::init`.

use vstd::prelude::*;
use crate::interrupts::idt::InterruptIndex;

verus! {

/// Offset of the spurious-interrupt-vector register.
pub const SVR_OFFSET: u32 = 0xf0;

/// Offset of the end-of-interrupt register.
pub const EOI_OFFSET: u32 = 0xb0;

/// Offset of the timer's local-vector-table entry.
pub const LVT_TIMER_OFFSET: u32 = 0x320;

/// Offset of the timer divide-configuration register.
pub const TIMER_DIV_OFFSET: u32 = 0x3e0;

/// Offset of the timer initial-count register.
pub const TIMER_INIT_COUNT_OFFSET: u32 = 0x380;

/// Hardware-capability and driver-state failures of the local controller.
#[derive(Clone, Copy, Debug, PartialEq, Eq, Structural)]
pub enum ApicError {
    /// The controller's register block is not mapped yet.
    NotMapped,
    /// The hardware reports a discrete (non-integrated) implementation,
    /// which the timer-programming sequence does not support; boot-fatal.
    UnsupportedControllerVersion,
    /// The hardware reports a reserved version code; boot-fatal.
    UnexpectedControllerVersion,
}

/// The plain view of the local controller's control block: its
/// memory-mapped base pointer, mapped region length (in 32-bit
/// registers), and base address.
#[derive(Clone, Copy, Debug, PartialEq, Eq, Structural)]
pub struct PublicXapic {
    pub mmio_region_ptr: u64,
    pub mmio_region_len: u64,
    pub base: u64,
}

impl PublicXapic {
    /// The state before any controller is mapped: all zero.
    pub fn empty() -> (r: Self)
        ensures
            r.mmio_region_ptr == 0,
            r.mmio_region_len == 0,
            r.base == 0,
    {
        PublicXapic { mmio_region_ptr: 0, mmio_region_len: 0, base: 0 }
    }
}

/// The legacy 8-line controller pair.  It is initialized to a defined
/// vector-offset state and then fully masked, strictly before the modern
/// controllers become authoritative; after that one-shot transition it
/// has no steady-state responsibility.
pub struct LegacyPics {
    primary_offset: u8,
    secondary_offset: u8,
    retired: bool,
}

impl LegacyPics {
    pub closed spec fn spec_primary_offset(self) -> u8 {
        self.primary_offset
    }

    pub closed spec fn spec_secondary_offset(self) -> u8 {
        self.secondary_offset
    }

    /// Whether both controllers have been placed in the fully masked state.
    pub closed spec fn spec_retired(self) -> bool {
        self.retired
    }

    /// A controller pair with the given vector offsets, not yet retired.
    pub fn new(primary_offset: u8, secondary_offset: u8) -> (r: Self)
        ensures
            r.spec_primary_offset() == primary_offset,
            r.spec_secondary_offset() == secondary_offset,
            !r.spec_retired(),
    {
        LegacyPics { primary_offset, secondary_offset, retired: false }
    }

    pub fn primary_offset(&self) -> (r: u8)
        ensures
            r == self.spec_primary_offset(),
    {
        self.primary_offset
    }

    pub fn secondary_offset(&self) -> (r: u8)
        ensures
            r == self.spec_secondary_offset(),
    {
        self.secondary_offset
    }

    /// Record that both controllers were initialized to their vector
    /// offsets and then had every line masked.  One-shot: this must
    /// happen before interrupt delivery is handed to the modern
    /// controllers, and nothing un-retires the pair.
    pub fn retire(&mut self)
        ensures
            final(self).spec_retired(),
            final(self).spec_primary_offset() == old(self).spec_primary_offset(),
            final(self).spec_secondary_offset() == old(self).spec_secondary_offset(),
    {
        self.retired = true;
    }

    pub fn is_retired(&self) -> (r: bool)
        ensures
            r == self.spec_retired(),
    {
        self.retired
    }
}

/// One 8-bit write to an I/O port.
#[derive(Clone, Copy, Debug, PartialEq, Eq, Structural)]
pub struct PortWrite {
    pub port: u16,
    pub value: u8,
}

/// The port writes that retire a legacy controller pair with the given
/// vector offsets: the initialization sequence on command ports 0x20 and
/// 0xA0 and data ports 0x21 and 0xA1 (begin initialization, vector
/// offsets, primary/secondary wiring on line 2, 8086 mode), then every
/// line masked on both controllers.
pub open spec fn spec_retirement_program(off1: u8, off2: u8) -> Seq<PortWrite> {
    seq![
        PortWrite { port: 0x20, value: 0x11 },
        PortWrite { port: 0xa0, value: 0x11 },
        PortWrite { port: 0x21, value: off1 },
        PortWrite { port: 0xa1, value: off2 },
        PortWrite { port: 0x21, value: 4 },
        PortWrite { port: 0xa1, value: 2 },
        PortWrite { port: 0x21, value: 1 },
        PortWrite { port: 0xa1, value: 1 },
        PortWrite { port: 0x21, value: 0xff },
        PortWrite { port: 0xa1, value: 0xff },
    ]
}

impl LegacyPics {
    /// The port writes, in order, that initialize both controllers to
    /// their vector offsets and then mask every line.
    pub fn retirement_program(&self) -> (r: Vec<PortWrite>)
        ensures
            r@ == spec_retirement_program(
                self.spec_primary_offset(),
                self.spec_secondary_offset(),
            ),
    {
        let mut r: Vec<PortWrite> = Vec::new();
        r.push(PortWrite { port: 0x20, value: 0x11 });
        r.push(PortWrite { port: 0xa0, value: 0x11 });
        r.push(PortWrite { port: 0x21, value: self.primary_offset });
        r.push(PortWrite { port: 0xa1, value: self.secondary_offset });
        r.push(PortWrite { port: 0x21, value: 4 });
        r.push(PortWrite { port: 0xa1, value: 2 });
        r.push(PortWrite { port: 0x21, value: 1 });
        r.push(PortWrite { port: 0xa1, value: 1 });
        r.push(PortWrite { port: 0x21, value: 0xff });
        r.push(PortWrite { port: 0xa1, value: 0xff });
        proof {
            assert(r@ =~= spec_retirement_program(
                self.spec_primary_offset(),
                self.spec_secondary_offset(),
            ));
        }
        r
    }
}

/// How the local controller's hardware version code classifies.
#[derive(Clone, Copy, Debug, PartialEq, Eq, Structural)]
pub enum ControllerKind {
    /// Codes 0x0-0xf: a discrete implementation, not supported by the
    /// timer-programming sequence here.
    Discrete,
    /// Codes 0x10-0x15: the supported integrated form.
    Integrated,
    /// Any other code: an unexpected hardware report.
    Reserved,
}

pub open spec fn spec_classify_version(code: u8) -> ControllerKind {
    if code <= 0xf {
        ControllerKind::Discrete
    } else if code <= 0x15 {
        ControllerKind::Integrated
    } else {
        ControllerKind::Reserved
    }
}

pub fn classify_version(code: u8) -> (r: ControllerKind)
    ensures
        r == spec_classify_version(code),
{
    if code <= 0xf {
        ControllerKind::Discrete
    } else if code <= 0x15 {
        ControllerKind::Integrated
    } else {
        ControllerKind::Reserved
    }
}

/// Check that the hardware version supports the timer-programming
/// sequence: exactly the integrated codes 0x10-0x15 pass; a discrete
/// controller surfaces `UnsupportedControllerVersion` rather than being
/// silently mis-programmed, and a reserved code is an unexpected report.
pub fn check_version(code: u8) -> (r: Result<(), ApicError>)
    ensures
        r is Ok <==> (0x10 <= code <= 0x15),
        r == Err::<(), ApicError>(ApicError::UnsupportedControllerVersion) <==> code <= 0xf,
        r == Err::<(), ApicError>(ApicError::UnexpectedControllerVersion) <==> code > 0x15,
{
    if code <= 0xf {
        Err(ApicError::UnsupportedControllerVersion)
    } else if code <= 0x15 {
        Ok(())
    } else {
        Err(ApicError::UnexpectedControllerVersion)
    }
}

/// One 32-bit register write into the controller's control block, at a
/// byte offset from its base.
#[derive(Clone, Copy, Debug, PartialEq, Eq, Structural)]
pub struct RegisterWrite {
    pub offset: u32,
    pub value: u32,
}

/// The register writes that enable the periodic timer, in order.
#[derive(Clone, Copy, Debug, PartialEq, Eq, Structural)]
pub struct TimerProgram {
    /// Spurious-interrupt-vector register with the enable bit set.
    pub svr: RegisterWrite,
    /// Timer local-vector-table entry: the fixed timer vector, periodic.
    pub lvt_timer: RegisterWrite,
    /// Timer clock divider.
    pub divide: RegisterWrite,
    /// Initial countdown value; a tunable, not correctness-critical.
    pub initial_count: RegisterWrite,
}

/// The local controller: either not yet mapped, or owning its mapped
/// control block.  Accessors require the mapped state and surface a
/// capability error otherwise.
pub struct LocalApic {
    mapped: Option<PublicXapic>,
}

impl LocalApic {
    pub closed spec fn spec_mapped(self) -> Option<PublicXapic> {
        self.mapped
    }

    pub open spec fn is_mapped(self) -> bool {
        self.spec_mapped() is Some
    }

    /// The driver before boot maps anything.
    pub fn empty() -> (r: Self)
        ensures
            r.spec_mapped() is None,
    {
        LocalApic { mapped: None }
    }

    /// Borrow the mapped control block, or a capability error before
    /// `init` has run.
    pub fn get(&self) -> (r: Result<&PublicXapic, ApicError>)
        ensures
            match r {
                Ok(p) => self.spec_mapped() == Some(*p),
                Err(e) => e == ApicError::NotMapped && self.spec_mapped() is None,
            },
    {
        match &self.mapped {
            Some(p) => Ok(p),
            None => Err(ApicError::NotMapped),
        }
    }

    /// Map the controller's register block: a 256-entry window of 32-bit
    /// registers at `mmio_base`.  Must run after the legacy controller
    /// pair is retired and before any device vector is unmasked; a
    /// malformed base is a boot-fatal misconfiguration, not a recoverable
    /// error.
    pub fn init(&mut self, mmio_base: u64, legacy: &LegacyPics)
        requires
            legacy.spec_retired(),
        ensures
            final(self).spec_mapped() == Some(
                PublicXapic { mmio_region_ptr: mmio_base, mmio_region_len: 256, base: mmio_base },
            ),
    {
        self.mapped = Some(
            PublicXapic { mmio_region_ptr: mmio_base, mmio_region_len: 256, base: mmio_base },
        );
    }

    /// Compute the register writes that enable the periodic timer: set
    /// the enable bit in the spurious-interrupt-vector register, program
    /// the timer's vector-table entry with the fixed timer vector in
    /// periodic mode, set the clock divider, and write the initial
    /// countdown value.  Fails before `init`, and on a hardware version
    /// the sequence does not support.
    pub fn enable_timer(&self, svr_old: u32, version: u8) -> (r: Result<TimerProgram, ApicError>)
        ensures
            self.spec_mapped() is None ==> r == Err::<TimerProgram, ApicError>(
                ApicError::NotMapped,
            ),
            self.spec_mapped() is Some ==> {
                &&& (r is Ok <==> 0x10 <= version <= 0x15)
                &&& version <= 0xf ==> r == Err::<TimerProgram, ApicError>(
                    ApicError::UnsupportedControllerVersion,
                )
                &&& version > 0x15 ==> r == Err::<TimerProgram, ApicError>(
                    ApicError::UnexpectedControllerVersion,
                )
            },
            r matches Ok(p) ==> {
                &&& p.svr == RegisterWrite { offset: SVR_OFFSET, value: svr_old | 0x100 }
                &&& p.lvt_timer == RegisterWrite {
                    offset: LVT_TIMER_OFFSET,
                    value: (InterruptIndex::APICTimer.spec_vector() as u32) | 0x20000,
                }
                &&& p.divide == RegisterWrite { offset: TIMER_DIV_OFFSET, value: 0b1010 }
                &&& p.initial_count == RegisterWrite {
                    offset: TIMER_INIT_COUNT_OFFSET,
                    value: 0x200000,
                }
            },
    {
        if self.mapped.is_none() {
            return Err(ApicError::NotMapped);
        }
        match check_version(version) {
            Ok(()) => (),
            Err(e) => {
                return Err(e);
            },
        }
        let timer_vector = InterruptIndex::APICTimer.as_u8();
        Ok(
            TimerProgram {
                svr: RegisterWrite { offset: SVR_OFFSET, value: svr_old | 0x100 },
                lvt_timer: RegisterWrite {
                    offset: LVT_TIMER_OFFSET,
                    value: (timer_vector as u32) | 0x20000,
                },
                divide: RegisterWrite { offset: TIMER_DIV_OFFSET, value: 0b1010 },
                initial_count: RegisterWrite { offset: TIMER_INIT_COUNT_OFFSET, value: 0x200000 },
            },
        )
    }

    /// The end-of-interrupt acknowledgement write.  Must be performed
    /// exactly once per vector serviced through this controller, and only
    /// from handler context; the driver does not guard against misuse
    /// outside a handler.  Fails before `init`.
    pub fn eoi(&self) -> (r: Result<RegisterWrite, ApicError>)
        ensures
            match r {
                Ok(w) => self.spec_mapped() is Some && w == RegisterWrite {
                    offset: EOI_OFFSET,
                    value: 0,
                },
                Err(e) => e == ApicError::NotMapped && self.spec_mapped() is None,
            },
    {
        if self.mapped.is_none() {
            return Err(ApicError::NotMapped);
        }
        Ok(RegisterWrite { offset: EOI_OFFSET, value: 0 })
    }
}

} // verus!
