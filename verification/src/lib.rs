//! Interrupt-controller core: firmware-table discovery and validation,
//! interrupt-topology decoding, the CPU exception dispatch table, and the
//! local and I/O interrupt-controller drivers.
//!
//! Hardware register access (memory-mapped or port I/O) is performed by
//! unverified boot code outside this crate; the functions here compute and
//! check every value that crosses that boundary.

use vstd::prelude::*;

pub mod acpi;
pub mod com;
pub mod idt;
pub mod interrupts;
pub mod memory;
pub mod pci;
pub mod topology;

use crate::acpi::checksum_ok;
use crate::acpi::length_valid;
use crate::acpi::madt_signature;
use crate::acpi::read_madt;
use crate::acpi::signature_present;
use crate::acpi::table_valid;
use crate::topology::EffectiveTopology;
use crate::topology::io_count;
use crate::topology::last_addr_override;
use crate::topology::last_io_fields;
use crate::topology::last_override_for;
use crate::topology::le32_at;
use crate::topology::isa_irq_limit;
use crate::topology::resolve;
use crate::topology::spec_decode;
use crate::topology::TopologyEntry;

verus! {

/// Boot-fatal discovery failures: there is no fallback interrupt-delivery
/// path, so the kernel halts with a diagnostic on any of these.
#[derive(Clone, Copy, Debug, PartialEq, Eq, Structural)]
pub enum DiscoveryError {
    /// No table with the requested signature was found.
    TableNotFound,
    /// A table's 8-bit checksum over its declared length does not sum to
    /// zero, or its declared length is impossible.
    ChecksumInvalid,
    /// A topology record's declared length would read past the table's end,
    /// or is too short for its record kind.
    MalformedTopology,
    /// The topology stream holds no I/O-controller entry.
    NoIoController,
    /// The topology stream holds more than one I/O-controller entry.
    MultipleIoControllers,
}

impl DiscoveryError {
    /// The diagnostic name of each discovery failure.
    pub open spec fn spec_describe(self) -> Seq<char> {
        match self {
            DiscoveryError::TableNotFound => "table not found"@,
            DiscoveryError::ChecksumInvalid => "checksum invalid"@,
            DiscoveryError::MalformedTopology => "malformed topology"@,
            DiscoveryError::NoIoController => "no I/O controller"@,
            DiscoveryError::MultipleIoControllers => "more than one I/O controller"@,
        }
    }

    /// A diagnostic name for the logging sink.
    pub fn describe(&self) -> (r: &'static str)
        ensures
            r@ == self.spec_describe(),
            r@.len() > 0,
    {
        let r = match self {
            DiscoveryError::TableNotFound => "table not found",
            DiscoveryError::ChecksumInvalid => "checksum invalid",
            DiscoveryError::MalformedTopology => "malformed topology",
            DiscoveryError::NoIoController => "no I/O controller",
            DiscoveryError::MultipleIoControllers => "more than one I/O controller",
        };
        proof {
            reveal_strlit("table not found");
            reveal_strlit("checksum invalid");
            reveal_strlit("malformed topology");
            reveal_strlit("no I/O controller");
            reveal_strlit("more than one I/O controller");
        }
        r
    }
}

/// The decoded entry stream of a valid interrupt-topology table, or
/// `None` when the table or its stream is not valid.
pub open spec fn spec_madt_entries(b: Seq<u8>) -> Option<Seq<TopologyEntry>> {
    if table_valid(b, madt_signature()) && le32_at(b, 4) >= 44 {
        spec_decode(b, 44, le32_at(b, 4) as int)
    } else {
        None
    }
}

/// Discover the effective interrupt topology from the mapped
/// interrupt-topology table: validate the table, decode its entry stream,
/// and reduce the entries to the single effective topology.  This runs
/// once, synchronously, during boot, before any controller is touched.
pub fn discover(madt_bytes: &Vec<u8>, address: u64) -> (r: Result<
    EffectiveTopology,
    DiscoveryError,
>)
    ensures
        r matches Ok(t) ==> {
            &&& spec_madt_entries(madt_bytes@) is Some
            &&& {
                let entries = spec_madt_entries(madt_bytes@).unwrap();
                &&& io_count(entries) == 1
                &&& t.wf()
                &&& last_io_fields(entries) == Some(
                    (t.io_controller_id, t.io_mmio_base, t.io_global_irq_base),
                )
                &&& t.local_mmio_base == match last_addr_override(entries) {
                    Some(a) => a,
                    None => le32_at(madt_bytes@, 36) as u64,
                }
                &&& forall|irq: int|
                    0 <= irq < isa_irq_limit() ==> t.override_at(irq) == last_override_for(
                        entries,
                        irq as u8,
                    )
            }
        },
        r matches Err(e) ==> {
            &&& (e == DiscoveryError::TableNotFound <==> !signature_present(
                madt_bytes@,
                madt_signature(),
            ))
            &&& (e == DiscoveryError::ChecksumInvalid <==> (signature_present(
                madt_bytes@,
                madt_signature(),
            ) && !(length_valid(madt_bytes@) && checksum_ok(
                madt_bytes@.take(le32_at(madt_bytes@, 4) as int),
            ))))
            &&& (e == DiscoveryError::MalformedTopology <==> (table_valid(
                madt_bytes@,
                madt_signature(),
            ) && spec_madt_entries(madt_bytes@) is None))
            &&& (e == DiscoveryError::NoIoController <==> (spec_madt_entries(
                madt_bytes@,
            ) matches Some(es) && io_count(es) == 0))
            &&& (e == DiscoveryError::MultipleIoControllers <==> (spec_madt_entries(
                madt_bytes@,
            ) matches Some(es) && io_count(es) >= 2))
        },
        r is Ok <==> (spec_madt_entries(madt_bytes@) matches Some(es) && io_count(es) == 1),
{
    let madt = match read_madt(madt_bytes, address) {
        Ok(m) => m,
        Err(e) => {
            return Err(e);
        },
    };
    let r = resolve(&madt.entries, madt.local_controller_base);
    proof {
        crate::topology::lemma_io_count_facts(madt.entries@);
    }
    r
}

} // verus!
