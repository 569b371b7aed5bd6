//! Physical memory ranges tagged by kind, and the growable catalog of
//! them that is later handed to the kernel.

use vstd::prelude::*;

verus! {

/// The classification of a physical memory range.
#[derive(Clone, Copy, Debug, PartialEq, Eq, Structural)]
pub enum RegionKind {
    Unknown,
    Available,
    Reserved,
}

/// A half-open physical address range `[start, end)` tagged by kind.
#[derive(Clone, Copy, Debug, PartialEq, Eq, Structural)]
pub struct Region {
    pub kind: RegionKind,
    pub start: u64,
    pub end: u64,
}

impl Region {
    /// A region never describes an inverted range.
    pub open spec fn wf(self) -> bool {
        self.start <= self.end
    }

    pub fn new(kind: RegionKind, start: u64, end: u64) -> (r: Region)
        requires
            start <= end,
        ensures
            r == (Region { kind, start, end }),
            r.wf(),
    {
        Region { kind, start, end }
    }
}

/// A catalog of regions. Its contents are exposed to the kernel by
/// reference after handoff, so entries are only ever appended, never
/// rewritten.
pub struct Regions {
    data: Vec<Region>,
}

impl View for Regions {
    type V = Seq<Region>;

    closed spec fn view(&self) -> Seq<Region> {
        self.data@
    }
}

impl Regions {
    /// Every region in the catalog describes a non-inverted range.
    pub open spec fn wf(self) -> bool {
        forall|i: int| 0 <= i < self@.len() ==> (#[trigger] self@[i]).wf()
    }

    pub fn empty() -> (r: Regions)
        ensures
            r@ == Seq::<Region>::empty(),
            r.wf(),
    {
        Regions { data: Vec::new() }
    }

    pub fn new(data: Vec<Region>) -> (r: Regions)
        requires
            forall|i: int| 0 <= i < data@.len() ==> (#[trigger] data@[i]).wf(),
        ensures
            r@ == data@,
            r.wf(),
    {
        Regions { data }
    }

    pub fn len(&self) -> (n: usize)
        ensures
            n == self@.len(),
    {
        self.data.len()
    }

    pub fn get(&self, i: usize) -> (r: &Region)
        requires
            i < self@.len(),
        ensures
            *r == self@[i as int],
    {
        &self.data[i]
    }

    /// Appends a freshly claimed range as `Reserved`. No overlap check
    /// is made against earlier entries: the catalog keeps the
    /// granularity it was given.
    pub fn reserve(&mut self, start: u64, end: u64)
        requires
            start <= end,
        ensures
            final(self)@ == old(self)@.push(Region { kind: RegionKind::Reserved, start, end }),
            old(self).wf() ==> final(self).wf(),
    {
        self.data.push(Region { kind: RegionKind::Reserved, start, end });
        proof {
            if old(self).wf() {
                assert forall|i: int| 0 <= i < self@.len() implies (#[trigger] self@[i]).wf() by {
                    if i < old(self)@.len() {
                        assert(old(self)@[i].wf());
                    }
                }
            }
        }
    }
}

} // verus!
