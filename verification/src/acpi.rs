//! Table locator/validator: walks firmware table candidates, validates
//! signatures and the 8-bit header checksum, and yields typed views of the
//! interrupt-topology table and the fixed hardware description table.
//!
//! Mapping physical addresses to accessible memory is delegated to a
//! caller-supplied capability; firmware tables live in already-mapped low
//! memory, so the capability here is the identity.  The boot code hands
//! each mapped table to these functions as plain bytes.

use vstd::prelude::*;
use vstd::arithmetic::div_mod::lemma_add_mod_noop;
use vstd::arithmetic::div_mod::lemma_fundamental_div_mod;
use vstd::arithmetic::div_mod::lemma_mod_bound;
use vstd::arithmetic::div_mod::lemma_mod_sub_multiples_vanish;
use vstd::arithmetic::div_mod::lemma_small_mod;
use crate::DiscoveryError;
use crate::topology::le32_at;
use crate::topology::le64_at;
use crate::topology::read_le64;
use crate::topology::read_le32;
use crate::topology::spec_decode;
use crate::topology::decode_entries;
use crate::topology::TopologyEntry;

verus! {

/// The sum of a byte sequence, as an unbounded integer.
pub open spec fn byte_sum(s: Seq<u8>) -> int
    decreases s.len(),
{
    if s.len() == 0 {
        0
    } else {
        byte_sum(s.drop_last()) + s.last()
    }
}

/// An 8-bit table checksum is valid when the bytes over the table's
/// declared length sum to zero modulo 256.
pub open spec fn checksum_ok(s: Seq<u8>) -> bool {
    byte_sum(s) % 256 == 0
}

proof fn lemma_byte_sum_nonneg(s: Seq<u8>)
    ensures
        byte_sum(s) >= 0,
    decreases s.len(),
{
    if s.len() > 0 {
        lemma_byte_sum_nonneg(s.drop_last());
    }
}

/// The wrapping 8-bit sum of `bytes[0 .. limit]`.
pub fn sum_bytes(bytes: &Vec<u8>, limit: usize) -> (r: u8)
    requires
        limit <= bytes@.len(),
    ensures
        r as int == byte_sum(bytes@.take(limit as int)) % 256,
{
    // fix the length as a machine word for the index overflow checks
    let _n = bytes.len();
    let mut acc: u8 = 0;
    let mut i: usize = 0;
    proof {
        assert(bytes@.take(0) =~= Seq::<u8>::empty());
    }
    while i < limit
        invariant
            i <= limit <= bytes@.len(),
            acc as int == byte_sum(bytes@.take(i as int)) % 256,
        decreases limit - i,
    {
        let ghost pre = bytes@.take(i as int);
        let b = bytes[i];
        proof {
            assert(bytes@.take(i + 1).drop_last() =~= pre);
            assert(bytes@.take(i + 1).last() == bytes@[i as int]);
            lemma_byte_sum_nonneg(pre);
            lemma_small_mod(b as nat, 256);
            lemma_add_mod_noop(byte_sum(pre), b as int, 256);
            let t = acc as int + b as int;
            if t > 255 {
                lemma_mod_sub_multiples_vanish(t, 256);
                lemma_small_mod((t - 256) as nat, 256);
            } else {
                lemma_small_mod(t as nat, 256);
            }
        }
        acc = acc.wrapping_add(b);
        i = i + 1;
    }
    acc
}

/// A validated firmware table: its physical address, declared length and
/// 4-byte signature.  Immutable once produced.
#[derive(Clone, Copy, Debug)]
pub struct FirmwareTableHandle {
    pub address: u64,
    pub length: u32,
    pub signature: [u8; 4],
}

/// The table bytes begin with a standard header and the given signature.
pub open spec fn signature_present(b: Seq<u8>, sig: Seq<u8>) -> bool {
    b.len() >= 36 && b.subrange(0, 4) == sig
}

/// The table's declared length covers at least its header and is within
/// the mapped bytes.
pub open spec fn length_valid(b: Seq<u8>) -> bool {
    36 <= le32_at(b, 4) <= b.len()
}

/// A table is valid when its signature matches, its declared length is
/// possible, and the checksum over the declared length sums to zero.
pub open spec fn table_valid(b: Seq<u8>, sig: Seq<u8>) -> bool {
    signature_present(b, sig) && length_valid(b) && checksum_ok(b.take(le32_at(b, 4) as int))
}

/// Signature of the interrupt-topology table, "APIC".
pub open spec fn madt_signature() -> Seq<u8> {
    seq![0x41u8, 0x50u8, 0x49u8, 0x43u8]
}

/// Signature of the fixed hardware description table, "FACP".
pub open spec fn fadt_signature() -> Seq<u8> {
    seq![0x46u8, 0x41u8, 0x43u8, 0x50u8]
}

/// The caller-supplied address-mapping capability.  Firmware tables are in
/// already-mapped low memory, so mapping is the identity and unmapping has
/// nothing to undo.
#[derive(Clone, Copy, Debug)]
pub struct DummyHandler {}

impl DummyHandler {
    /// Map `size` bytes of physical memory; the identity mapping returns
    /// the region unchanged.
    pub fn map_physical_region(&self, physical_address: u64, size: u64) -> (r: (u64, u64))
        ensures
            r.0 == physical_address,
            r.1 == size,
    {
        (physical_address, size)
    }

    /// The identity mapping has nothing to unmap.
    pub fn unmap_physical_region(&self) {
    }
}

/// Validate one mapped table against an expected signature.  Fails with
/// `TableNotFound` when the bytes are shorter than a header or the
/// signature differs, and with `ChecksumInvalid` when the declared length
/// is impossible or the 8-bit checksum over it does not sum to zero.
pub fn validate_table(bytes: &Vec<u8>, sig: [u8; 4], address: u64) -> (r: Result<
    FirmwareTableHandle,
    DiscoveryError,
>)
    ensures
        r is Ok <==> table_valid(bytes@, sig@),
        r matches Ok(h) ==> {
            &&& h.address == address
            &&& h.length == le32_at(bytes@, 4)
            &&& h.signature@ == sig@
        },
        r matches Err(e) ==> {
            &&& (e == DiscoveryError::TableNotFound <==> !signature_present(bytes@, sig@))
            &&& (e == DiscoveryError::ChecksumInvalid <==> signature_present(bytes@, sig@))
        },
{
    let n = bytes.len();
    if n < 36 {
        return Err(DiscoveryError::TableNotFound);
    }
    if !(bytes[0] == sig[0] && bytes[1] == sig[1] && bytes[2] == sig[2] && bytes[3] == sig[3]) {
        proof {
            assert(bytes@.subrange(0, 4) != sig@) by {
                assert(bytes@.subrange(0, 4)[0] == bytes@[0] && bytes@.subrange(0, 4)[1]
                    == bytes@[1] && bytes@.subrange(0, 4)[2] == bytes@[2] && bytes@.subrange(
                    0,
                    4,
                )[3] == bytes@[3]);
            }
        }
        return Err(DiscoveryError::TableNotFound);
    }
    proof {
        assert(bytes@.subrange(0, 4) =~= sig@);
    }
    let length = read_le32(bytes, 4);
    if length < 36 || length as usize > n {
        return Err(DiscoveryError::ChecksumInvalid);
    }
    let sum = sum_bytes(bytes, length as usize);
    if sum != 0 {
        proof {
            lemma_byte_sum_nonneg(bytes@.take(length as int));
        }
        return Err(DiscoveryError::ChecksumInvalid);
    }
    Ok(FirmwareTableHandle { address, length, signature: sig })
}

/// A typed view of the validated interrupt-topology table: its handle, the
/// fixed 32-bit local-controller address field, the table flags, and the
/// decoded entry stream.
pub struct MadtInfo {
    pub handle: FirmwareTableHandle,
    pub local_controller_base: u32,
    pub flags: u32,
    pub entries: Vec<TopologyEntry>,
}

/// Validate the interrupt-topology table and decode its entry stream,
/// which starts at byte 44, right after the fixed header fields.
pub fn read_madt(bytes: &Vec<u8>, address: u64) -> (r: Result<MadtInfo, DiscoveryError>)
    ensures
        match r {
            Ok(m) => {
                &&& table_valid(bytes@, madt_signature())
                &&& le32_at(bytes@, 4) >= 44
                &&& m.handle.address == address
                &&& m.handle.length == le32_at(bytes@, 4)
                &&& m.handle.signature@ == madt_signature()
                &&& m.local_controller_base == le32_at(bytes@, 36)
                &&& m.flags == le32_at(bytes@, 40)
                &&& spec_decode(bytes@, 44, le32_at(bytes@, 4) as int) == Some(m.entries@)
            },
            Err(e) => {
                &&& (e == DiscoveryError::TableNotFound || e == DiscoveryError::ChecksumInvalid
                    || e == DiscoveryError::MalformedTopology)
                &&& (e == DiscoveryError::TableNotFound <==> !signature_present(
                    bytes@,
                    madt_signature(),
                ))
                &&& (e == DiscoveryError::ChecksumInvalid <==> (signature_present(
                    bytes@,
                    madt_signature(),
                ) && !(length_valid(bytes@) && checksum_ok(
                    bytes@.take(le32_at(bytes@, 4) as int),
                ))))
                &&& (e == DiscoveryError::MalformedTopology <==> (table_valid(
                    bytes@,
                    madt_signature(),
                ) && (le32_at(bytes@, 4) < 44 || spec_decode(
                    bytes@,
                    44,
                    le32_at(bytes@, 4) as int,
                ) is None)))
            },
        },
{
    let n = bytes.len();
    let handle = match validate_table(bytes, [0x41, 0x50, 0x49, 0x43], address) {
        Ok(h) => h,
        Err(e) => {
            return Err(e);
        },
    };
    if handle.length < 44 {
        return Err(DiscoveryError::MalformedTopology);
    }
    let local_controller_base = read_le32(bytes, 36);
    let flags = read_le32(bytes, 40);
    let entries = match decode_entries(bytes, 44, handle.length as usize) {
        Ok(es) => es,
        Err(e) => {
            return Err(e);
        },
    };
    Ok(MadtInfo { handle, local_controller_base, flags, entries })
}

/// Validate the fixed hardware description table.
pub fn read_fadt(bytes: &Vec<u8>, address: u64) -> (r: Result<
    FirmwareTableHandle,
    DiscoveryError,
>)
    ensures
        r is Ok <==> table_valid(bytes@, fadt_signature()),
        r matches Ok(h) ==> {
            &&& h.address == address
            &&& h.length == le32_at(bytes@, 4)
            &&& h.signature@ == fadt_signature()
        },
        r matches Err(e) ==> {
            &&& (e == DiscoveryError::TableNotFound <==> !signature_present(
                bytes@,
                fadt_signature(),
            ))
            &&& (e == DiscoveryError::ChecksumInvalid <==> signature_present(
                bytes@,
                fadt_signature(),
            ))
        },
{
    validate_table(bytes, [0x46, 0x41, 0x43, 0x50], address)
}

/// The physical table pointers held in a 32-bit root table's entry area:
/// one little-endian 32-bit pointer every four bytes after the 36-byte
/// header.  A trailing fragment shorter than one pointer is ignored.
pub fn rsdt_entry_pointers(bytes: &Vec<u8>) -> (r: Vec<u32>)
    ensures
        bytes@.len() < 36 ==> r@.len() == 0,
        bytes@.len() >= 36 ==> r@.len() == (bytes@.len() - 36) / 4,
        forall|k: int| 0 <= k < r@.len() ==> r@[k] == le32_at(bytes@, 36 + 4 * k),
{
    let n = bytes.len();
    let mut r: Vec<u32> = Vec::new();
    if n < 36 {
        return r;
    }
    let count = (n - 36) / 4;
    proof {
        lemma_fundamental_div_mod((n - 36) as int, 4);
        lemma_mod_bound((n - 36) as int, 4);
    }
    let mut j: usize = 0;
    while j < count
        invariant
            j <= count,
            count == (n - 36) as int / 4,
            4 * count <= n - 36,
            n == bytes@.len(),
            r@.len() == j,
            forall|k: int| 0 <= k < j ==> r@[k] == le32_at(bytes@, 36 + 4 * k),
        decreases count - j,
    {
        let p = read_le32(bytes, 36 + 4 * j);
        r.push(p);
        j = j + 1;
    }
    r
}

/// The physical table pointers held in a 64-bit root table's entry area:
/// one little-endian 64-bit pointer every eight bytes after the 36-byte
/// header.  A trailing fragment shorter than one pointer is ignored.
pub fn xsdt_entry_pointers(bytes: &Vec<u8>) -> (r: Vec<u64>)
    ensures
        bytes@.len() < 36 ==> r@.len() == 0,
        bytes@.len() >= 36 ==> r@.len() == (bytes@.len() - 36) / 8,
        forall|k: int| 0 <= k < r@.len() ==> r@[k] == le64_at(bytes@, 36 + 8 * k),
{
    let n = bytes.len();
    let mut r: Vec<u64> = Vec::new();
    if n < 36 {
        return r;
    }
    let count = (n - 36) / 8;
    proof {
        lemma_fundamental_div_mod((n - 36) as int, 8);
        lemma_mod_bound((n - 36) as int, 8);
    }
    let mut j: usize = 0;
    while j < count
        invariant
            j <= count,
            count == (n - 36) as int / 8,
            8 * count <= n - 36,
            n == bytes@.len(),
            r@.len() == j,
            forall|k: int| 0 <= k < j ==> r@[k] == le64_at(bytes@, 36 + 8 * k),
        decreases count - j,
    {
        let p = read_le64(bytes, 36 + 8 * j);
        r.push(p);
        j = j + 1;
    }
    r
}

/// A table candidate starts with the given signature.
pub open spec fn has_signature(b: Seq<u8>, sig: Seq<u8>) -> bool {
    b.len() >= 4 && b.subrange(0, 4) == sig
}

/// Walk a sequence of mapped table candidates and return the index of the
/// first whose signature matches; every other table is ignored, not an
/// error.
pub fn find_table(tables: &Vec<Vec<u8>>, sig: [u8; 4]) -> (r: Option<usize>)
    ensures
        match r {
            Some(idx) => {
                &&& idx < tables@.len()
                &&& has_signature(tables@[idx as int]@, sig@)
                &&& forall|j: int| 0 <= j < idx ==> !has_signature(tables@[j]@, sig@)
            },
            None => forall|j: int| 0 <= j < tables@.len() ==> !has_signature(tables@[j]@, sig@),
        },
{
    let count = tables.len();
    let mut t: usize = 0;
    while t < count
        invariant
            t <= count == tables@.len(),
            forall|j: int| 0 <= j < t ==> !has_signature(tables@[j]@, sig@),
        decreases count - t,
    {
        let cand = &tables[t];
        let cn = cand.len();
        if cn >= 4 && cand[0] == sig[0] && cand[1] == sig[1] && cand[2] == sig[2] && cand[3]
            == sig[3] {
            proof {
                assert(cand@.subrange(0, 4) =~= sig@);
            }
            return Some(t);
        }
        proof {
            if cand@.len() >= 4 {
                assert(cand@.subrange(0, 4)[0] == cand@[0] && cand@.subrange(0, 4)[1] == cand@[1]
                    && cand@.subrange(0, 4)[2] == cand@[2] && cand@.subrange(0, 4)[3] == cand@[3]);
            }
        }
        t = t + 1;
    }
    None
}

} // verus!
