//! Topology interpreter: decodes the interrupt-topology table's
//! variable-length entry stream into typed entries, and reduces the entry
//! sequence to a single effective topology.
//!
//! Records are self-describing: a 1-byte type tag, a 1-byte record length
//! (header included), then the type-specific payload, little-endian
//! multi-byte fields.  Decoding is fail-fast on a record that overruns the
//! stream; an unrecognized type tag is skipped, not an error.

use vstd::prelude::*;
use crate::DiscoveryError;

verus! {

/// Little-endian 16-bit field at byte offset `i`.
pub open spec fn le16_at(b: Seq<u8>, i: int) -> u16 {
    (b[i] as u16) | ((b[i + 1] as u16) << 8)
}

/// Little-endian 32-bit field at byte offset `i`.
pub open spec fn le32_at(b: Seq<u8>, i: int) -> u32 {
    (b[i] as u32) | ((b[i + 1] as u32) << 8) | ((b[i + 2] as u32) << 16) | ((b[i + 3] as u32)
        << 24)
}

/// Little-endian 64-bit field at byte offset `i`.
pub open spec fn le64_at(b: Seq<u8>, i: int) -> u64 {
    (le32_at(b, i) as u64) | ((le32_at(b, i + 4) as u64) << 32)
}

pub fn read_le16(bytes: &Vec<u8>, i: usize) -> (r: u16)
    requires
        i + 2 <= bytes@.len(),
    ensures
        r == le16_at(bytes@, i as int),
{
    // fix the length as a machine word for the index overflow checks
    let _n = bytes.len();
    (bytes[i] as u16) | ((bytes[i + 1] as u16) << 8)
}

pub fn read_le32(bytes: &Vec<u8>, i: usize) -> (r: u32)
    requires
        i + 4 <= bytes@.len(),
    ensures
        r == le32_at(bytes@, i as int),
{
    // fix the length as a machine word for the index overflow checks
    let _n = bytes.len();
    (bytes[i] as u32) | ((bytes[i + 1] as u32) << 8) | ((bytes[i + 2] as u32) << 16) | ((bytes[i
        + 3] as u32) << 24)
}

pub fn read_le64(bytes: &Vec<u8>, i: usize) -> (r: u64)
    requires
        i + 8 <= bytes@.len(),
    ensures
        r == le64_at(bytes@, i as int),
{
    // fix the length as a machine word for the index overflow checks
    let _n = bytes.len();
    let low = read_le32(bytes, i);
    let high = read_le32(bytes, i + 4);
    (low as u64) | ((high as u64) << 32)
}

/// One decoded record of the interrupt-topology table.
#[derive(Clone, Copy, Debug, PartialEq, Eq, Structural)]
pub enum TopologyEntry {
    /// A per-processor local interrupt controller (type tag 0).
    LocalController { processor_id: u8, controller_id: u8, enabled: bool },
    /// The shared I/O redirection controller (type tag 1).
    IoController { controller_id: u8, mmio_base: u32, global_irq_base: u32 },
    /// An ISA-IRQ routing override (type tag 2).
    IsaOverride { bus: u8, source_irq: u8, global_irq: u32, polarity: u8, trigger: u8 },
    /// A non-maskable-interrupt line of a local controller (type tag 4).
    LocalControllerNmi { processor_id: u8, flags: u16, line: u8 },
    /// A 64-bit override of the local controller's address (type tag 5).
    AddressOverride { mmio_base: u64 },
}

/// The type tags this interpreter decodes; every other tag is skipped.
pub open spec fn known_tag(t: u8) -> bool {
    t == 0 || t == 1 || t == 2 || t == 4 || t == 5
}

/// The least record length (header included) a known tag needs to carry
/// its fields; a shorter record of that tag is malformed.
pub open spec fn required_len(t: u8) -> int {
    if t == 0 {
        8
    } else if t == 1 {
        12
    } else if t == 2 {
        10
    } else if t == 4 {
        6
    } else {
        12
    }
}

/// The entry encoded by the known-tagged record starting at offset `i`.
pub open spec fn parse_entry(b: Seq<u8>, i: int) -> TopologyEntry {
    let t = b[i];
    if t == 0 {
        TopologyEntry::LocalController {
            processor_id: b[i + 2],
            controller_id: b[i + 3],
            enabled: le32_at(b, i + 4) & 1 == 1,
        }
    } else if t == 1 {
        TopologyEntry::IoController {
            controller_id: b[i + 2],
            mmio_base: le32_at(b, i + 4),
            global_irq_base: le32_at(b, i + 8),
        }
    } else if t == 2 {
        TopologyEntry::IsaOverride {
            bus: b[i + 2],
            source_irq: b[i + 3],
            global_irq: le32_at(b, i + 4),
            polarity: (le16_at(b, i + 8) & 3) as u8,
            trigger: ((le16_at(b, i + 8) >> 2) & 3) as u8,
        }
    } else if t == 4 {
        TopologyEntry::LocalControllerNmi {
            processor_id: b[i + 2],
            flags: le16_at(b, i + 3),
            line: b[i + 5],
        }
    } else {
        TopologyEntry::AddressOverride { mmio_base: le64_at(b, i + 4) }
    }
}

/// The sequence of entries encoded by `b` between offsets `i` and `end`,
/// or `None` if some record overruns `end` or is too short for its tag.
pub open spec fn spec_decode(b: Seq<u8>, i: int, end: int) -> Option<Seq<TopologyEntry>>
    decreases end - i,
{
    if i >= end {
        Some(Seq::empty())
    } else if i + 2 > end {
        None
    } else {
        let t = b[i];
        let l = b[i + 1] as int;
        if l < 2 || i + l > end {
            None
        } else if known_tag(t) && l < required_len(t) {
            None
        } else {
            match spec_decode(b, i + l, end) {
                Option::None => Option::None,
                Option::Some(rest) => if known_tag(t) {
                    Some(seq![parse_entry(b, i)] + rest)
                } else {
                    Some(rest)
                },
            }
        }
    }
}

/// The decoding of the whole stream is the decoding of the part already
/// consumed, `acc`, followed by the decoding of the rest.
spec fn decode_continues(
    b: Seq<u8>,
    start: int,
    end: int,
    acc: Seq<TopologyEntry>,
    i: int,
) -> bool {
    match spec_decode(b, i, end) {
        Option::None => spec_decode(b, start, end) is None,
        Option::Some(rest) => spec_decode(b, start, end) == Some(acc + rest),
    }
}

/// Decode the entry stream held in `bytes[start..end]`, in stream order.
/// Succeeds exactly when no record overruns `end` and no known-tagged
/// record is shorter than its kind requires; unrecognized tags are skipped.
pub fn decode_entries(bytes: &Vec<u8>, start: usize, end: usize) -> (r: Result<
    Vec<TopologyEntry>,
    DiscoveryError,
>)
    requires
        start <= end <= bytes@.len(),
    ensures
        match r {
            Ok(es) => spec_decode(bytes@, start as int, end as int) == Some(es@),
            Err(e) => e == DiscoveryError::MalformedTopology && spec_decode(
                bytes@,
                start as int,
                end as int,
            ) is None,
        },
{
    let mut out: Vec<TopologyEntry> = Vec::new();
    let mut i: usize = start;
    proof {
        assert(out@ + spec_decode(bytes@, start as int, end as int).unwrap() =~= spec_decode(
            bytes@,
            start as int,
            end as int,
        ).unwrap());
    }
    while i < end
        invariant
            start <= i <= end <= bytes@.len(),
            decode_continues(bytes@, start as int, end as int, out@, i as int),
        decreases end - i,
    {
        let ghost b = bytes@;
        let ghost ii = i as int;
        if end - i < 2 {
            return Err(DiscoveryError::MalformedTopology);
        }
        let t = bytes[i];
        let l = bytes[i + 1] as usize;
        if l < 2 || l > end - i {
            return Err(DiscoveryError::MalformedTopology);
        }
        let entry: Option<TopologyEntry> = if t == 0 {
            if l < 8 {
                return Err(DiscoveryError::MalformedTopology);
            }
            Some(
                TopologyEntry::LocalController {
                    processor_id: bytes[i + 2],
                    controller_id: bytes[i + 3],
                    enabled: read_le32(bytes, i + 4) & 1 == 1,
                },
            )
        } else if t == 1 {
            if l < 12 {
                return Err(DiscoveryError::MalformedTopology);
            }
            Some(
                TopologyEntry::IoController {
                    controller_id: bytes[i + 2],
                    mmio_base: read_le32(bytes, i + 4),
                    global_irq_base: read_le32(bytes, i + 8),
                },
            )
        } else if t == 2 {
            if l < 10 {
                return Err(DiscoveryError::MalformedTopology);
            }
            let flags = read_le16(bytes, i + 8);
            Some(
                TopologyEntry::IsaOverride {
                    bus: bytes[i + 2],
                    source_irq: bytes[i + 3],
                    global_irq: read_le32(bytes, i + 4),
                    polarity: (flags & 3) as u8,
                    trigger: ((flags >> 2) & 3) as u8,
                },
            )
        } else if t == 4 {
            if l < 6 {
                return Err(DiscoveryError::MalformedTopology);
            }
            Some(
                TopologyEntry::LocalControllerNmi {
                    processor_id: bytes[i + 2],
                    flags: read_le16(bytes, i + 3),
                    line: bytes[i + 5],
                },
            )
        } else if t == 5 {
            if l < 12 {
                return Err(DiscoveryError::MalformedTopology);
            }
            Some(TopologyEntry::AddressOverride { mmio_base: read_le64(bytes, i + 4) })
        } else {
            None
        };
        let ghost prev = out@;
        match entry {
            Some(e) => {
                proof {
                    assert(e == parse_entry(b, ii));
                }
                out.push(e);
            },
            None => (),
        }
        proof {
            let rest_opt = spec_decode(b, ii + l as int, end as int);
            match rest_opt {
                Option::None => {
                    assert(spec_decode(b, ii, end as int) is None);
                },
                Option::Some(rest) => {
                    if known_tag(t) {
                        let e = parse_entry(b, ii);
                        assert(spec_decode(b, ii, end as int) == Some(seq![e] + rest));
                        assert(prev.push(e) =~= prev + seq![e]);
                        assert((prev + seq![e]) + rest =~= prev + (seq![e] + rest));
                    }
                },
            }
        }
        i = i + l;
    }
    proof {
        assert(spec_decode(bytes@, i as int, end as int) == Some(Seq::<TopologyEntry>::empty()));
        assert(out@ + Seq::<TopologyEntry>::empty() =~= out@);
    }
    Ok(out)
}

/// The number of I/O-controller entries in a decoded sequence.
pub open spec fn io_count(s: Seq<TopologyEntry>) -> int
    decreases s.len(),
{
    if s.len() == 0 {
        0
    } else {
        io_count(s.drop_last()) + if s.last() is IoController {
            1int
        } else {
            0int
        }
    }
}

/// The fields of the last I/O-controller entry: controller id, MMIO base,
/// global IRQ base.
pub open spec fn last_io_fields(s: Seq<TopologyEntry>) -> Option<(u8, u32, u32)>
    decreases s.len(),
{
    if s.len() == 0 {
        None
    } else {
        match s.last() {
            TopologyEntry::IoController { controller_id, mmio_base, global_irq_base } => Some(
                (controller_id, mmio_base, global_irq_base),
            ),
            _ => last_io_fields(s.drop_last()),
        }
    }
}

/// The 64-bit base of the last local-controller address override, if any.
pub open spec fn last_addr_override(s: Seq<TopologyEntry>) -> Option<u64>
    decreases s.len(),
{
    if s.len() == 0 {
        None
    } else {
        match s.last() {
            TopologyEntry::AddressOverride { mmio_base } => Some(mmio_base),
            _ => last_addr_override(s.drop_last()),
        }
    }
}

/// The routing of an ISA source IRQ: its global IRQ and signaling flags.
#[derive(Clone, Copy, Debug, PartialEq, Eq, Structural)]
pub struct IrqRouting {
    pub global_irq: u32,
    /// Two-bit polarity code: 0 = bus default, 1 = active high, 3 = active low.
    pub polarity: u8,
    /// Two-bit trigger code: 0 = bus default, 1 = edge, 3 = level.
    pub trigger: u8,
}

/// The last override in table order for source IRQ `irq`; later entries
/// overwrite earlier ones for the same source IRQ (last write wins).
pub open spec fn last_override_for(s: Seq<TopologyEntry>, irq: u8) -> Option<IrqRouting>
    decreases s.len(),
{
    if s.len() == 0 {
        None
    } else {
        match s.last() {
            TopologyEntry::IsaOverride { source_irq, global_irq, polarity, trigger, .. } => if source_irq
                == irq {
                Some(IrqRouting { global_irq, polarity, trigger })
            } else {
                last_override_for(s.drop_last(), irq)
            },
            _ => last_override_for(s.drop_last(), irq),
        }
    }
}

/// The number of I/O-controller entries is never negative, and is zero
/// exactly when there is no such entry to take fields from.
pub proof fn lemma_io_count_facts(s: Seq<TopologyEntry>)
    ensures
        io_count(s) >= 0,
        (io_count(s) == 0) <==> (last_io_fields(s) is None),
    decreases s.len(),
{
    if s.len() > 0 {
        lemma_io_count_facts(s.drop_last());
    }
}

/// The number of distinct ISA source IRQs the effective topology records
/// overrides for.
pub open spec fn isa_irq_limit() -> int {
    16
}

/// The single effective topology reduced from a decoded entry sequence:
/// one I/O controller, one local-controller address (a 64-bit override
/// wins over the fixed table field), and the surviving per-IRQ overrides.
pub struct EffectiveTopology {
    pub io_controller_id: u8,
    pub io_mmio_base: u32,
    pub io_global_irq_base: u32,
    pub local_mmio_base: u64,
    /// The surviving per-source-IRQ overrides, indexed by source IRQ.
    pub overrides: Vec<Option<IrqRouting>>,
}

impl EffectiveTopology {
    pub open spec fn wf(self) -> bool {
        self.overrides@.len() == isa_irq_limit()
    }

    /// The surviving override for source IRQ `irq`, if any.
    pub open spec fn override_at(self, irq: int) -> Option<IrqRouting> {
        self.overrides@[irq]
    }

    /// The effective routing of source IRQ `irq`: its override if one
    /// survived, else the identity mapping with default (bus-standard,
    /// edge, active-high) signaling.
    pub open spec fn spec_routing(self, irq: int) -> IrqRouting {
        match self.override_at(irq) {
            Some(o) => o,
            None => IrqRouting { global_irq: irq as u32, polarity: 0, trigger: 0 },
        }
    }

    pub fn routing(&self, irq: u8) -> (r: IrqRouting)
        requires
            self.wf(),
            irq < isa_irq_limit(),
        ensures
            r == self.spec_routing(irq as int),
    {
        match self.overrides[irq as usize] {
            Some(o) => o,
            None => IrqRouting { global_irq: irq as u32, polarity: 0, trigger: 0 },
        }
    }

    /// Whether source IRQ `irq` carries a non-default override.
    pub fn has_override(&self, irq: u8) -> (r: bool)
        requires
            self.wf(),
            irq < isa_irq_limit(),
        ensures
            r == (self.override_at(irq as int) is Some),
    {
        self.overrides[irq as usize].is_some()
    }
}

/// Reduce a decoded entry sequence to the effective topology.  Exactly one
/// I/O-controller entry must be present: none is `NoIoController`, more
/// than one is `MultipleIoControllers`.  A 64-bit address override, if
/// present, replaces `table_local_base`; for source-IRQ overrides, later
/// entries overwrite earlier ones for the same source IRQ.
pub fn resolve(entries: &Vec<TopologyEntry>, table_local_base: u32) -> (r: Result<
    EffectiveTopology,
    DiscoveryError,
>)
    ensures
        io_count(entries@) == 0 ==> r == Err::<EffectiveTopology, DiscoveryError>(
            DiscoveryError::NoIoController,
        ),
        io_count(entries@) >= 2 ==> r == Err::<EffectiveTopology, DiscoveryError>(
            DiscoveryError::MultipleIoControllers,
        ),
        io_count(entries@) == 1 ==> r is Ok,
        r matches Ok(t) ==> {
            &&& io_count(entries@) == 1
            &&& t.wf()
            &&& last_io_fields(entries@) == Some(
                (t.io_controller_id, t.io_mmio_base, t.io_global_irq_base),
            )
            &&& t.local_mmio_base == match last_addr_override(entries@) {
                Some(a) => a,
                None => table_local_base as u64,
            }
            &&& forall|irq: int|
                0 <= irq < isa_irq_limit() ==> t.override_at(irq) == last_override_for(
                    entries@,
                    irq as u8,
                )
        },
{
    let mut overrides: Vec<Option<IrqRouting>> = Vec::new();
    let mut j: usize = 0;
    while j < 16
        invariant
            overrides@.len() == j,
            j <= 16,
            forall|q: int| 0 <= q < j ==> overrides@[q] is None,
        decreases 16 - j,
    {
        overrides.push(None);
        j = j + 1;
    }
    let mut io: Option<(u8, u32, u32)> = None;
    let mut n_io: usize = 0;
    let mut addr_override: Option<u64> = None;
    let mut k: usize = 0;
    proof {
        assert(entries@.take(0) =~= Seq::<TopologyEntry>::empty());
    }
    while k < entries.len()
        invariant
            k <= entries@.len(),
            overrides@.len() == isa_irq_limit(),
            n_io <= k,
            n_io == io_count(entries@.take(k as int)),
            io == last_io_fields(entries@.take(k as int)),
            addr_override == last_addr_override(entries@.take(k as int)),
            forall|irq: int|
                0 <= irq < isa_irq_limit() ==> overrides@[irq] == last_override_for(
                    entries@.take(k as int),
                    irq as u8,
                ),
        decreases entries@.len() - k,
    {
        let e = entries[k];
        proof {
            assert(entries@.take(k + 1).drop_last() =~= entries@.take(k as int));
            assert(entries@.take(k + 1).last() == entries@[k as int]);
            lemma_io_count_facts(entries@.take(k as int));
        }
        match e {
            TopologyEntry::IoController { controller_id, mmio_base, global_irq_base } => {
                io = Some((controller_id, mmio_base, global_irq_base));
                n_io = n_io + 1;
            },
            TopologyEntry::AddressOverride { mmio_base } => {
                addr_override = Some(mmio_base);
            },
            TopologyEntry::IsaOverride { source_irq, global_irq, polarity, trigger, .. } => {
                if source_irq < 16 {
                    overrides[source_irq as usize] = Some(
                        IrqRouting { global_irq, polarity, trigger },
                    );
                }
            },
            _ => (),
        }
        k = k + 1;
    }
    proof {
        assert(entries@.take(entries@.len() as int) =~= entries@);
        lemma_io_count_facts(entries@);
    }
    if n_io == 0 {
        return Err(DiscoveryError::NoIoController);
    }
    if n_io >= 2 {
        return Err(DiscoveryError::MultipleIoControllers);
    }
    let (controller_id, mmio_base, gsi_base) = io.unwrap();
    let local_mmio_base: u64 = match addr_override {
        Some(a) => a,
        None => table_local_base as u64,
    };
    Ok(
        EffectiveTopology {
            io_controller_id: controller_id,
            io_mmio_base: mmio_base,
            io_global_irq_base: gsi_base,
            local_mmio_base,
            overrides,
        },
    )
}

} // verus!
