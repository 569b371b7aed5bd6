//! The handoff assembler: the one structure the kernel reads after the
//! loader exits, aggregating the firmware region catalog, the kernel's
//! own reserved regions, and the framebuffer description.

use vstd::prelude::*;
use crate::graphics::GraphicsInfo;
use crate::region::{Region, Regions};

verus! {

/// The structure handed to the kernel at transfer. Its region lists
/// are owned here so that their storage lives past the loader's own
/// teardown; nothing mutates them after assembly.
pub struct BootInfo {
    pub regions: Regions,
    pub kernel_regions: Regions,
    pub graphics: GraphicsInfo,
}

impl BootInfo {
    /// The empty structure that the boot stages fill in turn.
    pub fn new() -> (info: BootInfo)
        ensures
            info.regions@ == Seq::<Region>::empty(),
            info.kernel_regions@ == Seq::<Region>::empty(),
            info.graphics == (GraphicsInfo { framebuffer: 0u64, width: 0u32, height: 0u32, stride: 0u32 }),
    {
        BootInfo {
            regions: Regions::empty(),
            kernel_regions: Regions::empty(),
            graphics: GraphicsInfo::new(),
        }
    }

    /// Assembles the handoff structure. Ownership of both region lists
    /// moves in unchanged: the assembled structure exposes the same
    /// entries, in the same order, with the same field values.
    pub fn assemble(regions: Regions, kernel_regions: Regions, graphics: GraphicsInfo) -> (info: BootInfo)
        ensures
            info.regions@ == regions@,
            info.kernel_regions@ == kernel_regions@,
            info.graphics == graphics,
    {
        BootInfo { regions, kernel_regions, graphics }
    }
}

/// Feeding region lists through the handoff assembler is lossless:
/// every entry read back out of the assembled structure is the entry
/// that went in, at the same position, and the counts agree.
pub proof fn lemma_handoff_round_trip(info: BootInfo, regions: Regions, kernel_regions: Regions, graphics: GraphicsInfo)
    requires
        info.regions@ == regions@,
        info.kernel_regions@ == kernel_regions@,
        info.graphics == graphics,
    ensures
        info.regions@.len() == regions@.len(),
        forall|i: int| 0 <= i < regions@.len() ==> info.regions@[i] == regions@[i],
        info.kernel_regions@.len() == kernel_regions@.len(),
        forall|i: int| 0 <= i < kernel_regions@.len() ==> info.kernel_regions@[i] == kernel_regions@[i],
{
}

} // verus!
