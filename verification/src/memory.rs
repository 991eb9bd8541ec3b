//! Heap placement: given the bootloader's memory map and the end of the
//! kernel image, choose the heap region.  The allocator itself is an
//! external collaborator; this module only computes where the heap goes.

use vstd::prelude::*;

verus! {

/// One area of the bootloader's memory map, as plain values.
#[derive(Clone, Copy, Debug, PartialEq, Eq, Structural)]
pub struct MemoryArea {
    pub start: u64,
    pub size: u64,
    /// Whether the area is usable general-purpose memory.
    pub available: bool,
}

/// The area is available and strictly contains `heap_start`.
pub open spec fn contains_heap_start(a: MemoryArea, heap_start: u64) -> bool {
    a.start < heap_start && a.start + a.size > heap_start && a.available
}

/// The chosen heap region: the index of the memory area it lives in, its
/// start address, and its length up to that area's end.
#[derive(Clone, Copy, Debug, PartialEq, Eq, Structural)]
pub struct HeapRegion {
    pub area_index: usize,
    pub start: u64,
    pub len: u64,
}

/// Find the first available memory area that contains `heap_start` (the
/// end of the kernel image) and extend the heap from there to the area's
/// end.  `None` when no area contains it.
pub fn heap_region(areas: &Vec<MemoryArea>, heap_start: u64) -> (r: Option<HeapRegion>)
    ensures
        match r {
            Some(h) => {
                &&& h.area_index < areas@.len()
                &&& contains_heap_start(areas@[h.area_index as int], heap_start)
                &&& forall|j: int|
                    0 <= j < h.area_index ==> !contains_heap_start(areas@[j], heap_start)
                &&& h.start == heap_start
                &&& h.len == areas@[h.area_index as int].size - (heap_start - areas@[
                    h.area_index as int].start)
            },
            None => forall|j: int|
                0 <= j < areas@.len() ==> !contains_heap_start(areas@[j], heap_start),
        },
{
    let count = areas.len();
    let mut i: usize = 0;
    while i < count
        invariant
            i <= count == areas@.len(),
            forall|j: int| 0 <= j < i ==> !contains_heap_start(areas@[j], heap_start),
        decreases count - i,
    {
        let a = areas[i];
        if a.available && a.start < heap_start && heap_start - a.start < a.size {
            return Some(
                HeapRegion {
                    area_index: i,
                    start: heap_start,
                    len: a.size - (heap_start - a.start),
                },
            );
        }
        i = i + 1;
    }
    None
}

} // verus!
