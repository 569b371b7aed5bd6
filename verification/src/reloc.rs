//! The relocation applier: for the position-independent base-relative
//! relocation kind it computes the corrected word and where to write
//! it; every other kind is deliberately skipped without effect.

use vstd::prelude::*;
use crate::error::LoadError;

verus! {

/// The relocation kinds the loader distinguishes: the supported
/// position-independent base-relative kind, and everything else.
#[derive(Clone, Copy, Debug, PartialEq, Eq, Structural)]
pub enum RelocKind {
    BaseRelative,
    Other,
}

/// One relocation entry of the kernel image, reduced to the plain
/// values the applier reads.
#[derive(Clone, Copy, Debug)]
pub struct RelocEntry {
    pub kind: RelocKind,
    pub offset: u64,
    pub addend: Option<u64>,
}

/// A pending write of one native-width word that corrects a
/// position-independent pointer in the loaded image.
#[derive(Clone, Copy, Debug, PartialEq, Eq, Structural)]
pub struct PatchWrite {
    pub addr: u64,
    pub value: u64,
}

/// The addresses a relocation entry derives stay within the 64-bit
/// address space. Only the supported kind derives any address.
pub open spec fn reloc_fits(base: u64, e: RelocEntry) -> bool {
    e.kind == RelocKind::BaseRelative ==> {
        &&& base + e.offset <= u64::MAX
        &&& (e.addend matches Some(a) ==> base + a <= u64::MAX)
    }
}

/// The word write a supported relocation entry resolves to: the chosen
/// base plus the addend, destined for the chosen base plus the entry's
/// offset.
pub open spec fn patch_of(base: u64, e: RelocEntry) -> PatchWrite {
    PatchWrite {
        addr: (base + e.offset) as u64,
        value: (base + e.addend->Some_0) as u64,
    }
}

/// Resolves one relocation entry against the chosen base address.
/// A base-relative entry must carry an addend and resolves to exactly
/// one word write; an entry of any other kind resolves to no write at
/// all and is not an error.
pub fn relocate_entry(base: u64, entry: &RelocEntry) -> (r: Result<Option<PatchWrite>, LoadError>)
    requires
        reloc_fits(base, *entry),
    ensures
        match r {
            Ok(Some(p)) => {
                &&& entry.kind == RelocKind::BaseRelative
                &&& entry.addend is Some
                &&& p == patch_of(base, *entry)
            },
            Ok(None) => entry.kind == RelocKind::Other,
            Err(e) => {
                &&& entry.kind == RelocKind::BaseRelative
                &&& entry.addend is None
                &&& e == LoadError::UnsupportedRelocation
            },
        },
{
    match entry.kind {
        RelocKind::BaseRelative => {
            match entry.addend {
                Some(addend) => {
                    let addr = base + entry.offset;
                    let value = base + addend;
                    Ok(Some(PatchWrite { addr, value }))
                },
                None => Err(LoadError::UnsupportedRelocation),
            }
        },
        RelocKind::Other => Ok(None),
    }
}

} // verus!
