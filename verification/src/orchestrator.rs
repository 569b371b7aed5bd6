//! The boot orchestrator's decisions: the strictly sequential stage
//! machine that either advances to the next stage or halts forever on
//! a fatal condition, and the scan of the firmware configuration table
//! for the system description table.

use vstd::prelude::*;

verus! {

/// The stages of the boot flow, in the order they run. `Halted` is the
/// terminal idle state entered on any fatal condition, or if the
/// transferred-to kernel ever returns.
#[derive(Clone, Copy, Debug, PartialEq, Eq, Structural)]
pub enum BootStage {
    Init,
    LocateDescription,
    SnapshotMemory,
    LoadKernel,
    ProbeGraphics,
    Finalize,
    ExitServices,
    Transfer,
    Halted,
}

/// What one stage reported: it completed, or it hit an unrecoverable
/// condition.
#[derive(Clone, Copy, Debug, PartialEq, Eq, Structural)]
pub enum StageOutcome {
    Completed,
    Fatal,
}

/// The stage that follows a completed stage. The flow is linear with
/// no loops and no re-entry; a completed transfer means the kernel
/// returned, which degrades to the idle halt.
pub open spec fn successor(stage: BootStage) -> BootStage {
    match stage {
        BootStage::Init => BootStage::LocateDescription,
        BootStage::LocateDescription => BootStage::SnapshotMemory,
        BootStage::SnapshotMemory => BootStage::LoadKernel,
        BootStage::LoadKernel => BootStage::ProbeGraphics,
        BootStage::ProbeGraphics => BootStage::Finalize,
        BootStage::Finalize => BootStage::ExitServices,
        BootStage::ExitServices => BootStage::Transfer,
        BootStage::Transfer => BootStage::Halted,
        BootStage::Halted => BootStage::Halted,
    }
}

/// Advances the boot flow: a fatal outcome halts directly, with no
/// retry and no partial boot; a completed outcome moves to the next
/// stage in the fixed order.
pub fn advance(stage: BootStage, outcome: StageOutcome) -> (next: BootStage)
    ensures
        outcome == StageOutcome::Fatal ==> next == BootStage::Halted,
        outcome == StageOutcome::Completed ==> next == successor(stage),
{
    match outcome {
        StageOutcome::Fatal => BootStage::Halted,
        StageOutcome::Completed => match stage {
            BootStage::Init => BootStage::LocateDescription,
            BootStage::LocateDescription => BootStage::SnapshotMemory,
            BootStage::SnapshotMemory => BootStage::LoadKernel,
            BootStage::LoadKernel => BootStage::ProbeGraphics,
            BootStage::ProbeGraphics => BootStage::Finalize,
            BootStage::Finalize => BootStage::ExitServices,
            BootStage::ExitServices => BootStage::Transfer,
            BootStage::Transfer => BootStage::Halted,
            BootStage::Halted => BootStage::Halted,
        },
    }
}

/// One firmware configuration-table entry, reduced to what the scan
/// reads: whether its identifier is one of the recognized
/// system-description-table identifiers, and the table's address.
#[derive(Clone, Copy, Debug, PartialEq, Eq, Structural)]
pub struct ConfigTableEntry {
    pub recognized: bool,
    pub address: u64,
}

/// Scans the configuration table in order and returns the address of
/// the first entry carrying a recognized system-description-table
/// identifier; `None` exactly when no entry is recognized, which the
/// orchestrator treats as fatal.
pub fn find_system_description(entries: &Vec<ConfigTableEntry>) -> (r: Option<u64>)
    ensures
        match r {
            Some(addr) => exists|i: int|
                0 <= i < entries@.len()
                    && (#[trigger] entries@[i]).recognized
                    && entries@[i].address == addr
                    && (forall|j: int| 0 <= j < i ==> !(#[trigger] entries@[j]).recognized),
            None => forall|i: int| 0 <= i < entries@.len() ==> !(#[trigger] entries@[i]).recognized,
        },
{
    let n = entries.len();
    let mut idx: usize = 0;
    while idx < n
        invariant
            n == entries@.len(),
            idx <= n,
            forall|j: int| 0 <= j < idx ==> !(#[trigger] entries@[j]).recognized,
        decreases n - idx,
    {
        if entries[idx].recognized {
            return Some(entries[idx].address);
        }
        idx = idx + 1;
    }
    None
}

} // verus!
