//! Loading a whole kernel image: placing every loadable segment,
//! resolving every relocation entry, and collecting the reserved
//! regions, the byte copies, the word patches and the entry address
//! into one load plan.

use vstd::prelude::*;
use crate::error::LoadError;
use crate::region::{Region, Regions};
use crate::reloc::{patch_of, reloc_fits, relocate_entry, PatchWrite, RelocEntry, RelocKind};
use crate::segment::{load_segment, segment_fits, segment_region, Segment, SegmentWrite};

verus! {

/// Everything the loader reads out of a parsed kernel image: its
/// loadable segments, its relocation entries, whether it requests
/// thread-local storage, and its declared entry address.
pub struct KernelImage {
    pub segments: Vec<Segment>,
    pub relocations: Vec<RelocEntry>,
    pub has_tls: bool,
    pub entry_point: u64,
}

/// The outcome of loading an image: the regions reserved for the
/// kernel, the byte copies that place the segments, the word patches
/// that correct position-independent pointers, and the entry address.
pub struct LoadPlan {
    pub kernel_regions: Regions,
    pub writes: Vec<SegmentWrite>,
    pub patches: Vec<PatchWrite>,
    pub entry: u64,
}

/// Every segment's destination range stays within the address space.
pub open spec fn segments_fit(base: u64, ss: Seq<Segment>) -> bool {
    forall|i: int| 0 <= i < ss.len() ==> segment_fits(base, (#[trigger] ss[i]).vaddr, ss[i].data@.len())
}

/// Every relocation entry's derived addresses stay within the address
/// space.
pub open spec fn relocs_fit(base: u64, rs: Seq<RelocEntry>) -> bool {
    forall|i: int| 0 <= i < rs.len() ==> reloc_fits(base, #[trigger] rs[i])
}

/// Every base-relative relocation entry carries its required addend.
pub open spec fn relocs_supported(rs: Seq<RelocEntry>) -> bool {
    forall|i: int| 0 <= i < rs.len() ==>
        ((#[trigger] rs[i]).kind == RelocKind::BaseRelative ==> rs[i].addend is Some)
}

/// The word patches a relocation list resolves to, in order: exactly
/// one per base-relative entry, none for an entry of any other kind.
pub open spec fn patches_of(base: u64, rs: Seq<RelocEntry>) -> Seq<PatchWrite>
    decreases rs.len(),
{
    if rs.len() == 0 {
        Seq::empty()
    } else if rs.last().kind == RelocKind::BaseRelative {
        patches_of(base, rs.drop_last()).push(patch_of(base, rs.last()))
    } else {
        patches_of(base, rs.drop_last())
    }
}

/// Loads a kernel image against a chosen base address. An image that
/// requests thread-local storage is rejected outright, before any
/// segment is placed. On success the plan reserves one region per
/// segment, copies each segment's bytes unchanged to its destination,
/// patches exactly the base-relative relocations, and carries the
/// image's declared entry address.
pub fn load_image(base: u64, image: KernelImage) -> (r: Result<LoadPlan, LoadError>)
    requires
        relocs_fit(base, image.relocations@),
    ensures
        match r {
            Ok(plan) => {
                &&& !image.has_tls
                &&& segments_fit(base, image.segments@)
                &&& relocs_supported(image.relocations@)
                &&& plan.kernel_regions@.len() == image.segments@.len()
                &&& forall|i: int| 0 <= i < image.segments@.len() ==> plan.kernel_regions@[i]
                    == segment_region(base, (#[trigger] image.segments@[i]).vaddr, image.segments@[i].data@.len())
                &&& plan.kernel_regions.wf()
                &&& plan.writes@.len() == image.segments@.len()
                &&& forall|i: int| 0 <= i < image.segments@.len() ==>
                    (#[trigger] plan.writes@[i]).addr == (base + image.segments@[i].vaddr) as u64
                &&& forall|i: int| 0 <= i < image.segments@.len() ==>
                    (#[trigger] plan.writes@[i]).bytes@ == image.segments@[i].data@
                &&& plan.patches@ == patches_of(base, image.relocations@)
                &&& plan.entry == image.entry_point
            },
            Err(e) => {
                &&& (e == LoadError::UnsupportedTls <==> image.has_tls)
                &&& (e == LoadError::OutOfAddressSpace <==>
                    !image.has_tls && !segments_fit(base, image.segments@))
                &&& (e == LoadError::UnsupportedRelocation <==>
                    !image.has_tls && segments_fit(base, image.segments@)
                        && !relocs_supported(image.relocations@))
            },
        },
{
    if image.has_tls {
        return Err(LoadError::UnsupportedTls);
    }
    let mut segments = image.segments;
    let relocations = image.relocations;
    let entry = image.entry_point;
    let ghost orig = segments@;

    let mut regions_data: Vec<Region> = Vec::new();
    let mut writes: Vec<SegmentWrite> = Vec::new();
    while segments.len() > 0
        invariant
            !image.has_tls,
            orig == image.segments@,
            writes@.len() + segments@.len() == orig.len(),
            regions_data@.len() == writes@.len(),
            segments@ == orig.subrange(writes@.len() as int, orig.len() as int),
            forall|i: int| 0 <= i < writes@.len() ==>
                segment_fits(base, (#[trigger] orig[i]).vaddr, orig[i].data@.len()),
            forall|i: int| 0 <= i < writes@.len() ==> regions_data@[i]
                == segment_region(base, (#[trigger] orig[i]).vaddr, orig[i].data@.len()),
            forall|i: int| 0 <= i < writes@.len() ==>
                (#[trigger] writes@[i]).addr == (base + orig[i].vaddr) as u64,
            forall|i: int| 0 <= i < writes@.len() ==>
                (#[trigger] writes@[i]).bytes@ == orig[i].data@,
            forall|i: int| 0 <= i < regions_data@.len() ==> (#[trigger] regions_data@[i]).wf(),
        decreases segments@.len(),
    {
        let ghost k = writes@.len() as int;
        let seg = segments.remove(0);
        proof {
            assert(seg == orig.subrange(k, orig.len() as int)[0]);
            assert(seg == orig[k]);
            assert(segments@ =~= orig.subrange(k + 1, orig.len() as int));
        }
        match load_segment(base, seg.vaddr, seg.data) {
            Ok((region, w)) => {
                regions_data.push(region);
                writes.push(w);
            },
            Err(e) => {
                proof {
                    assert(!segment_fits(base, orig[k].vaddr, orig[k].data@.len()));
                    assert(!segments_fit(base, orig));
                }
                return Err(e);
            },
        }
    }
    proof {
        assert(orig.subrange(0, orig.len() as int) =~= orig);
        assert(writes@.len() == orig.len());
        assert(segments_fit(base, image.segments@));
    }

    let mut patches: Vec<PatchWrite> = Vec::new();
    let n = relocations.len();
    let mut idx: usize = 0;
    while idx < n
        invariant
            !image.has_tls,
            relocations@ == image.relocations@,
            segments_fit(base, image.segments@),
            n == relocations@.len(),
            idx <= n,
            relocs_fit(base, relocations@),
            patches@ == patches_of(base, relocations@.subrange(0, idx as int)),
            forall|i: int| 0 <= i < idx ==>
                ((#[trigger] relocations@[i]).kind == RelocKind::BaseRelative
                    ==> relocations@[i].addend is Some),
        decreases n - idx,
    {
        let entry_c = relocations[idx];
        proof {
            assert(entry_c == relocations@[idx as int]);
            assert(reloc_fits(base, relocations@[idx as int]));
        }
        let step = relocate_entry(base, &entry_c);
        proof {
            let pre = relocations@.subrange(0, idx as int);
            let post = relocations@.subrange(0, idx as int + 1);
            assert(post.drop_last() =~= pre);
            assert(post.last() == relocations@[idx as int]);
        }
        match step {
            Ok(Some(p)) => {
                patches.push(p);
            },
            Ok(None) => {},
            Err(err) => {
                proof {
                    assert(relocations@[idx as int].kind == RelocKind::BaseRelative
                        && relocations@[idx as int].addend is None);
                    assert(!relocs_supported(relocations@));
                }
                return Err(err);
            },
        }
        idx = idx + 1;
    }
    proof {
        assert(relocations@.subrange(0, n as int) =~= relocations@);
    }

    let kernel_regions = Regions::new(regions_data);
    Ok(LoadPlan { kernel_regions, writes, patches, entry })
}

/// One base-relative relocation with a known addend resolves to
/// exactly one word write, `base + addend` destined for
/// `base + offset`, and to no other write.
pub proof fn lemma_single_base_relative_patch(base: u64, e: RelocEntry)
    requires
        e.kind == RelocKind::BaseRelative,
        e.addend is Some,
    ensures
        patches_of(base, seq![e]) =~= seq![patch_of(base, e)],
{
    let single: Seq<RelocEntry> = seq![e];
    let none: Seq<RelocEntry> = Seq::empty();
    assert(single.len() == 1);
    assert(single.last() == e);
    assert(single.drop_last() =~= none);
    assert(patches_of(base, none) =~= Seq::<PatchWrite>::empty());
    assert(patches_of(base, single) == patches_of(base, none).push(patch_of(base, e)));
}

/// Relocation entries of an unrecognized kind are skipped without
/// effect: inserting such an entry anywhere in a relocation list
/// leaves the resolved patches exactly as they were.
pub proof fn lemma_unrecognized_entry_leaves_patches_unchanged(
    base: u64,
    before: Seq<RelocEntry>,
    e: RelocEntry,
    after: Seq<RelocEntry>,
)
    requires
        e.kind == RelocKind::Other,
    ensures
        patches_of(base, before.push(e) + after) == patches_of(base, before + after),
    decreases after.len(),
{
    if after.len() == 0 {
        assert((before.push(e) + after) =~= before.push(e));
        assert(before.push(e).drop_last() =~= before);
        assert((before + after) =~= before);
    } else {
        let shorter = after.drop_last();
        lemma_unrecognized_entry_leaves_patches_unchanged(base, before, e, shorter);
        assert((before.push(e) + after).drop_last() =~= before.push(e) + shorter);
        assert((before + after).drop_last() =~= before + shorter);
        assert((before.push(e) + after).last() == after.last());
        assert((before + after).last() == after.last());
    }
}

/// A relocation list made only of unrecognized kinds resolves to no
/// patch at all, and never to an error.
pub proof fn lemma_unrecognized_relocations_no_patch(base: u64, rs: Seq<RelocEntry>)
    requires
        forall|i: int| 0 <= i < rs.len() ==> (#[trigger] rs[i]).kind == RelocKind::Other,
    ensures
        patches_of(base, rs) =~= Seq::<PatchWrite>::empty(),
        relocs_supported(rs),
    decreases rs.len(),
{
    if rs.len() > 0 {
        lemma_unrecognized_relocations_no_patch(base, rs.drop_last());
    }
}

} // verus!
