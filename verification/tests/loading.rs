use bootstage::error::LoadError;
use bootstage::image::{load_image, KernelImage};
use bootstage::region::RegionKind;
use bootstage::reloc::{relocate_entry, RelocEntry, RelocKind};
use bootstage::segment::{load_segment, Segment};

#[test]
fn base_relative_relocation_writes_base_plus_addend() {
    let base: u64 = 0x20_0000;
    let entry = RelocEntry {
        kind: RelocKind::BaseRelative,
        offset: 0x88,
        addend: Some(0x1234),
    };
    let r = relocate_entry(base, &entry).expect("supported relocation must succeed");
    let patch = r.expect("base-relative relocation must produce a write");
    assert_eq!(patch.addr, base + 0x88);
    assert_eq!(patch.value, base + 0x1234);
}

#[test]
fn unrecognized_relocation_kind_is_silently_skipped() {
    let entry = RelocEntry {
        kind: RelocKind::Other,
        offset: 0x10,
        addend: Some(0x40),
    };
    let r = relocate_entry(0x10_0000, &entry).expect("unrecognized kinds are not an error");
    assert!(r.is_none());
}

#[test]
fn base_relative_relocation_without_addend_is_rejected() {
    let entry = RelocEntry {
        kind: RelocKind::BaseRelative,
        offset: 0x10,
        addend: None,
    };
    let r = relocate_entry(0x10_0000, &entry);
    assert_eq!(r, Err(LoadError::UnsupportedRelocation));
}

#[test]
fn segment_is_placed_at_base_plus_virtual_offset() {
    let data = vec![1u8, 2, 3, 4, 5];
    let (region, write) = load_segment(0x40_0000, 0x1000, data).expect("segment must fit");
    assert_eq!(region.kind, RegionKind::Reserved);
    assert_eq!(region.start, 0x40_1000);
    assert_eq!(region.end, 0x40_1005);
    assert_eq!(write.addr, 0x40_1000);
    assert_eq!(write.bytes, vec![1u8, 2, 3, 4, 5]);
}

#[test]
fn segment_past_end_of_address_space_is_fatal() {
    let data = vec![0u8; 16];
    let r = load_segment(u64::MAX - 4, 0, data);
    assert!(matches!(r, Err(LoadError::OutOfAddressSpace)));
}

#[test]
fn two_segments_reserve_their_declared_ranges_with_identical_bytes() {
    let first_bytes: Vec<u8> = (0..0x1000u32).map(|i| (i % 251) as u8).collect();
    let second_bytes: Vec<u8> = (0..0x2000u32).map(|i| (i % 17) as u8).collect();
    let image = KernelImage {
        segments: vec![
            Segment { vaddr: 0x0, data: first_bytes.clone() },
            Segment { vaddr: 0x2000, data: second_bytes.clone() },
        ],
        relocations: vec![],
        has_tls: false,
        entry_point: 0x100_040,
    };
    let plan = load_image(0x10_0000, image).expect("image must load");
    assert_eq!(plan.kernel_regions.len(), 2);
    let first = *plan.kernel_regions.get(0);
    let second = *plan.kernel_regions.get(1);
    assert_eq!(first.kind, RegionKind::Reserved);
    assert_eq!(first.start, 0x10_0000);
    assert_eq!(first.end, 0x10_1000);
    assert_eq!(second.kind, RegionKind::Reserved);
    assert_eq!(second.start, 0x10_2000);
    assert_eq!(second.end, 0x10_4000);
    assert_eq!(plan.writes.len(), 2);
    assert_eq!(plan.writes[0].addr, 0x10_0000);
    assert_eq!(plan.writes[0].bytes, first_bytes);
    assert_eq!(plan.writes[1].addr, 0x10_2000);
    assert_eq!(plan.writes[1].bytes, second_bytes);
    assert_eq!(plan.entry, 0x100_040);
}

#[test]
fn tls_request_fails_without_any_segment_copy() {
    let image = KernelImage {
        segments: vec![Segment { vaddr: 0, data: vec![7u8; 64] }],
        relocations: vec![],
        has_tls: true,
        entry_point: 0,
    };
    let r = load_image(0x10_0000, image);
    assert!(matches!(r, Err(LoadError::UnsupportedTls)));
}

#[test]
fn image_with_unrecognized_relocation_loads_without_patches() {
    let image = KernelImage {
        segments: vec![Segment { vaddr: 0, data: vec![9u8; 32] }],
        relocations: vec![RelocEntry { kind: RelocKind::Other, offset: 8, addend: None }],
        has_tls: false,
        entry_point: 0x44,
    };
    let plan = load_image(0x10_0000, image).expect("unrecognized relocation kinds are skipped");
    assert_eq!(plan.patches.len(), 0);
    assert_eq!(plan.writes.len(), 1);
}

#[test]
fn image_relocations_resolve_in_order_and_skip_unrecognized() {
    let image = KernelImage {
        segments: vec![],
        relocations: vec![
            RelocEntry { kind: RelocKind::BaseRelative, offset: 0x10, addend: Some(0x100) },
            RelocEntry { kind: RelocKind::Other, offset: 0x18, addend: Some(0x200) },
            RelocEntry { kind: RelocKind::BaseRelative, offset: 0x20, addend: Some(0x300) },
        ],
        has_tls: false,
        entry_point: 0,
    };
    let base: u64 = 0x80_0000;
    let plan = load_image(base, image).expect("image must load");
    assert_eq!(plan.patches.len(), 2);
    assert_eq!(plan.patches[0].addr, base + 0x10);
    assert_eq!(plan.patches[0].value, base + 0x100);
    assert_eq!(plan.patches[1].addr, base + 0x20);
    assert_eq!(plan.patches[1].value, base + 0x300);
}

#[test]
fn image_with_missing_addend_fails_as_unsupported() {
    let image = KernelImage {
        segments: vec![],
        relocations: vec![RelocEntry { kind: RelocKind::BaseRelative, offset: 0, addend: None }],
        has_tls: false,
        entry_point: 0,
    };
    let r = load_image(0, image);
    assert!(matches!(r, Err(LoadError::UnsupportedRelocation)));
}
