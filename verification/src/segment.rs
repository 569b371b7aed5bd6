//! The segment loader: for one loadable segment it decides the
//! destination range, records it as reserved for the kernel, and emits
//! the byte copy that places the segment's file bytes there verbatim.

use vstd::prelude::*;
use crate::error::LoadError;
use crate::region::{Region, RegionKind};

verus! {

/// One loadable segment as read out of the kernel image: its declared
/// virtual offset and its raw file bytes.
#[derive(Debug)]
pub struct Segment {
    pub vaddr: u64,
    pub data: Vec<u8>,
}

/// A pending copy of segment bytes to a physical destination address.
#[derive(Debug)]
pub struct SegmentWrite {
    pub addr: u64,
    pub bytes: Vec<u8>,
}

/// The destination range of a segment placed at `base` stays within
/// the 64-bit physical address space.
pub open spec fn segment_fits(base: u64, vaddr: u64, len: nat) -> bool {
    base + vaddr + len <= u64::MAX
}

/// The region a segment placed at `base` reserves for the kernel:
/// `[base + vaddr, base + vaddr + len)`, always `Reserved`.
pub open spec fn segment_region(base: u64, vaddr: u64, len: nat) -> Region {
    Region {
        kind: RegionKind::Reserved,
        start: (base + vaddr) as u64,
        end: (base + vaddr + len) as u64,
    }
}

/// Places one segment: on success the returned region is exactly the
/// destination range, reserved, and the returned write copies the
/// segment's bytes unchanged to that range's start. A destination that
/// would leave the address space is a fatal error and nothing is
/// placed.
pub fn load_segment(base: u64, vaddr: u64, data: Vec<u8>) -> (r: Result<(Region, SegmentWrite), LoadError>)
    ensures
        match r {
            Ok((region, w)) => {
                &&& segment_fits(base, vaddr, data@.len())
                &&& region == segment_region(base, vaddr, data@.len())
                &&& region.wf()
                &&& w.addr == region.start
                &&& w.bytes@ == data@
            },
            Err(e) => {
                &&& !segment_fits(base, vaddr, data@.len())
                &&& e == LoadError::OutOfAddressSpace
            },
        },
{
    let start = match base.checked_add(vaddr) {
        Some(s) => s,
        None => {
            return Err(LoadError::OutOfAddressSpace);
        },
    };
    let len: u64 = data.len() as u64;
    let end = match start.checked_add(len) {
        Some(e) => e,
        None => {
            return Err(LoadError::OutOfAddressSpace);
        },
    };
    let region = Region::new(RegionKind::Reserved, start, end);
    Ok((region, SegmentWrite { addr: start, bytes: data }))
}

} // verus!
