//! Classification of the firmware-reported memory map into the region
//! catalog: usable RAM becomes `Available`, everything else `Reserved`,
//! and each descriptor's page count is turned into a byte range.

use vstd::prelude::*;
use crate::region::{Region, RegionKind, Regions};

verus! {

/// Size in bytes of one firmware memory page.
pub const PAGE_SIZE: u64 = 4096;

/// Numeric code firmware gives to free, usable RAM in a memory-map
/// descriptor.
pub const USABLE_RAM_TYPE: u32 = 7;

/// One firmware memory-map descriptor, reduced to the plain values the
/// classifier reads: the numeric memory type, the first physical
/// address, and the number of pages.
#[derive(Clone, Copy, Debug, PartialEq, Eq, Structural)]
pub struct MapDescriptor {
    pub ty: u32,
    pub phys_start: u64,
    pub page_count: u64,
}

/// Relies on uefi's `MemoryType`: the memory-map type code that marks
/// free usable RAM is `MemoryType::CONVENTIONAL`, which is code 7.
#[verifier::external_body]
fn is_usable_ram_type(ty: u32) -> (r: bool)
    ensures
        r == (ty == USABLE_RAM_TYPE),
{
    uefi::mem::memory_map::MemoryType(ty) == uefi::mem::memory_map::MemoryType::CONVENTIONAL
}

/// The kind a descriptor of type code `ty` is classified as.
pub open spec fn classified_kind(ty: u32) -> RegionKind {
    if ty == USABLE_RAM_TYPE {
        RegionKind::Available
    } else {
        RegionKind::Reserved
    }
}

/// A descriptor's derived end address stays within the 64-bit physical
/// address space.
pub open spec fn descriptor_fits(d: MapDescriptor) -> bool {
    d.phys_start + d.page_count * PAGE_SIZE <= u64::MAX
}

/// The region a single descriptor classifies to.
pub open spec fn classified_region(d: MapDescriptor) -> Region {
    Region {
        kind: classified_kind(d.ty),
        start: d.phys_start,
        end: (d.phys_start + d.page_count * PAGE_SIZE) as u64,
    }
}

/// Builds the region catalog from the firmware memory map, one region
/// per descriptor, in the order the firmware reported them. Adjacent
/// regions of the same kind are not merged: the firmware's granularity
/// is preserved.
pub fn classify_memory_map(entries: &Vec<MapDescriptor>) -> (regions: Regions)
    requires
        forall|i: int| 0 <= i < entries@.len() ==> descriptor_fits(#[trigger] entries@[i]),
    ensures
        regions@.len() == entries@.len(),
        forall|i: int| 0 <= i < entries@.len() ==> regions@[i] == classified_region(#[trigger] entries@[i]),
        regions.wf(),
{
    let mut data: Vec<Region> = Vec::new();
    let n = entries.len();
    let mut idx: usize = 0;
    while idx < n
        invariant
            n == entries@.len(),
            idx <= n,
            data@.len() == idx,
            forall|i: int| 0 <= i < entries@.len() ==> descriptor_fits(#[trigger] entries@[i]),
            forall|i: int| 0 <= i < idx ==> data@[i] == classified_region(#[trigger] entries@[i]),
            forall|i: int| 0 <= i < idx ==> (#[trigger] data@[i]).wf(),
        decreases n - idx,
    {
        let d = entries[idx];
        assert(descriptor_fits(d));
        let kind = if is_usable_ram_type(d.ty) {
            RegionKind::Available
        } else {
            RegionKind::Reserved
        };
        let start = d.phys_start;
        let end = start + d.page_count * PAGE_SIZE;
        data.push(Region { kind, start, end });
        idx = idx + 1;
    }
    Regions::new(data)
}

/// Classification always yields well-formed regions whose derived end
/// is exactly the descriptor's start plus `page_count` whole pages; in
/// particular this holds of every region classified as `Available`.
pub proof fn lemma_classified_regions_well_formed(entries: Seq<MapDescriptor>, regions: Seq<Region>)
    requires
        forall|i: int| 0 <= i < entries.len() ==> descriptor_fits(#[trigger] entries[i]),
        regions.len() == entries.len(),
        forall|i: int| 0 <= i < entries.len() ==> regions[i] == classified_region(#[trigger] entries[i]),
    ensures
        forall|i: int| 0 <= i < regions.len() ==> (#[trigger] regions[i]).wf(),
        forall|i: int| 0 <= i < regions.len() ==>
            (#[trigger] regions[i]).end == entries[i].phys_start + entries[i].page_count * PAGE_SIZE,
{
    assert forall|i: int| 0 <= i < regions.len() implies (#[trigger] regions[i]).wf()
        && regions[i].end == entries[i].phys_start + entries[i].page_count * PAGE_SIZE by {
        assert(regions[i] == classified_region(entries[i]));
        assert(entries[i].page_count * PAGE_SIZE >= 0);
    }
}

} // verus!
