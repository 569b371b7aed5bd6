//! The fatal conditions the loader distinguishes while placing and
//! relocating a kernel image. Every one of them is unrecoverable: the
//! orchestrator halts instead of attempting a partial boot.

use vstd::prelude::*;

verus! {

/// Why loading a kernel image failed.
#[derive(Clone, Copy, Debug, PartialEq, Eq, Structural)]
pub enum LoadError {
    /// A base-relative relocation entry arrived without its required
    /// addend.
    UnsupportedRelocation,
    /// The image requests thread-local storage, which this loader
    /// rejects outright.
    UnsupportedTls,
    /// A segment's destination range would leave the 64-bit physical
    /// address space.
    OutOfAddressSpace,
}

} // verus!
