use multitude::align::check_isize_overflow;
use multitude::arena::{AllocFlavor, ArenaCore, ChunkGrant, DropEntry, Placement, Resize, Step};
use multitude::builder::{default_config, ChunkGeometry};
use multitude::chunk::SwapOut;
use multitude::constants::{CHUNK_ALIGN, MAX_NORMAL_ALLOC, MAX_SMART_PTR_ALIGN};
use multitude::error::AllocError;
use multitude::sizing::Layout;
use multitude::stats::{ArenaStats, ProviderStats};

const BASE: usize = 0x0010_0040;

fn geometry() -> ChunkGeometry {
    ChunkGeometry { local_max_bump_extent: 65472, shared_max_bump_extent: 65472, default_min_payload: 4096 }
}

fn arena() -> ArenaCore {
    ArenaCore::try_from_config(default_config(geometry()))
}

/// An arena whose caps are lowered so the boundary is reachable with a
/// small alignment: chunk cap 128, smart-pointer cap 64.
fn capped_arena() -> ArenaCore {
    let mut a = arena();
    a.set_align_cap(128);
    a
}

fn over_aligned() -> Layout {
    Layout { size: 64, align: 64 }
}

fn grant(chunk: u64, base: usize, capacity: usize) -> ChunkGrant {
    ChunkGrant { chunk, payload_base: base, capacity }
}

/// An arena with a local chunk of 4096 bytes installed at `BASE`.
fn arena_with_local_chunk() -> ArenaCore {
    let mut a = arena();
    let req = a.refill_local(1).unwrap();
    assert_eq!(req.want, 4096);
    a.install_local(grant(1, BASE, req.want));
    a
}

#[test]
fn try_alloc_uninit_box_rejects_smart_ptr_alignment() {
    let mut arena = capped_arena();
    assert_eq!(arena.try_alloc_uninit_box(over_aligned()), Step::Failed(AllocError::AlignmentTooLarge));
}

#[test]
fn try_alloc_uninit_arc_rejects_smart_ptr_alignment() {
    let mut arena = capped_arena();
    assert_eq!(arena.try_alloc_uninit_arc(over_aligned()), Step::Failed(AllocError::AlignmentTooLarge));
}

#[test]
fn try_alloc_uninit_slice_arc_rejects_smart_ptr_alignment() {
    let mut arena = capped_arena();
    assert_eq!(arena.try_alloc_uninit_slice_arc(over_aligned(), 1), Step::Failed(AllocError::AlignmentTooLarge));
}

#[test]
fn try_alloc_uninit_slice_box_rejects_smart_ptr_alignment() {
    let mut arena = capped_arena();
    assert_eq!(arena.try_alloc_uninit_slice_box(over_aligned(), 1), Step::Failed(AllocError::AlignmentTooLarge));
}

#[test]
fn try_alloc_uninit_box_pin_rejects_smart_ptr_alignment() {
    let mut arena = capped_arena();
    assert_eq!(arena.try_alloc_uninit_box_pin(over_aligned()), Step::Failed(AllocError::AlignmentTooLarge));
}

#[test]
fn default_caps_match_the_constants() {
    let arena = arena();
    assert_eq!(arena.chunk_align_cap(), CHUNK_ALIGN);
    assert_eq!(arena.smart_ptr_align_cap(), MAX_SMART_PTR_ALIGN);
    assert_eq!(arena.max_normal_alloc(), MAX_NORMAL_ALLOC);
}

#[test]
fn capped_arena_halves_the_cap_for_smart_pointers() {
    let arena = capped_arena();
    assert_eq!(arena.chunk_align_cap(), 128);
    assert_eq!(arena.smart_ptr_align_cap(), 64);
}

#[test]
fn simple_reference_slices_use_the_chunk_cap() {
    let mut arena = capped_arena();
    // Below the chunk cap but at the smart-pointer cap: accepted (routes to a refill).
    assert_eq!(arena.try_alloc_slice_fill_with(over_aligned(), 1, false), Step::Refill { needed: 128 });
    let chunk_over = Layout { size: 128, align: 128 };
    assert_eq!(arena.try_alloc_slice_fill_with(chunk_over, 1, false), Step::Failed(AllocError::AlignmentTooLarge));
    assert_eq!(arena.try_alloc_slice_copy(chunk_over, 1), Step::Failed(AllocError::AlignmentTooLarge));
}

#[test]
fn first_allocation_asks_for_a_refill() {
    let mut arena = arena();
    let step = arena.try_alloc_with(Layout { size: 24, align: 8 }, true);
    assert_eq!(step, Step::Refill { needed: 40 });
    let step = arena.try_alloc_with(Layout { size: 24, align: 64 }, false);
    assert_eq!(step, Step::Refill { needed: 24 + 56 });
}

#[test]
fn refill_then_value_fits() {
    let mut arena = arena();
    let layout = Layout { size: 24, align: 8 };
    let needed = match arena.try_alloc_with(layout, true) {
        Step::Refill { needed } => needed,
        other => panic!("expected a refill, got {:?}", other),
    };
    let req = arena.refill_local(needed).unwrap();
    assert_eq!(req.want, 4096);
    assert_eq!(req.retired, None);
    assert!(!req.pinned);
    arena.install_local(grant(7, BASE, req.want));
    let step = arena.try_alloc_with(layout, true);
    assert_eq!(
        step,
        Step::Placed(Placement {
            chunk: 7,
            value: BASE,
            entry: Some(DropEntry { slot: BASE + 4096 - 16, value_offset: 0, len: 1, noop: false }),
        })
    );
    assert_eq!(arena.local_data(), BASE + 24);
    assert_eq!(arena.local_drop_back(), BASE + 4096 - 16);
    assert!(arena.local_pinned());
    assert_eq!(arena.charged_bytes(), 24);
}

#[test]
fn successive_placements_are_disjoint() {
    let mut arena = arena_with_local_chunk();
    let a = match arena.try_alloc_rc_with(Layout { size: 10, align: 2 }, false) {
        Step::Placed(p) => p,
        other => panic!("{:?}", other),
    };
    let b = match arena.try_alloc_rc_with(Layout { size: 32, align: 32 }, false) {
        Step::Placed(p) => p,
        other => panic!("{:?}", other),
    };
    assert_eq!(a.value, BASE);
    assert_eq!(b.value, BASE + 32);
    assert!(a.value + 10 <= b.value);
    assert_eq!(arena.local_issued(), 2);
    assert!(!arena.local_pinned());
}

#[test]
fn box_entries_are_no_ops() {
    let mut arena = arena_with_local_chunk();
    match arena.try_alloc_box_with(Layout { size: 16, align: 8 }, true) {
        Step::Placed(p) => {
            let e = p.entry.unwrap();
            assert!(e.noop);
            assert_eq!(e.len, 1);
        },
        other => panic!("{:?}", other),
    }
}

#[test]
fn zero_sized_values_take_one_byte() {
    let mut arena = arena_with_local_chunk();
    match arena.try_alloc_with(Layout { size: 0, align: 1 }, false) {
        Step::Placed(p) => assert_eq!(p.value, BASE),
        other => panic!("{:?}", other),
    }
    assert_eq!(arena.local_data(), BASE + 1);
}

#[test]
fn large_value_routes_to_an_oversized_chunk() {
    let mut arena = arena_with_local_chunk();
    let layout = Layout { size: 20000, align: 8 };
    assert_eq!(arena.try_alloc_with(layout, true), Step::Oversized { needed: 20016 });
    let g = grant(9, 0x0040_0008, 20016);
    let p = arena.place_oversized(g, layout, true, 1, AllocFlavor::SimpleRef);
    assert_eq!(p.chunk, 9);
    assert_eq!(p.value, 0x0040_0008);
    assert_eq!(p.entry, Some(DropEntry { slot: 0x0040_0008 + 20000, value_offset: 0, len: 1, noop: false }));
    assert_eq!(arena.pinned_count(), 1);
    // The current chunk is untouched.
    assert_eq!(arena.local_data(), BASE);
}

#[test]
fn oversized_shared_placement_is_not_pinned() {
    let mut arena = arena();
    let layout = Layout { size: 30000, align: 64 };
    assert_eq!(arena.try_alloc_arc_with(layout, false), Step::Oversized { needed: 30056 });
    let p = arena.place_oversized_shared(grant(3, 0x0080_0008, 30056), layout, false, 1);
    assert_eq!(p.value, 0x0080_0040);
    assert_eq!(p.entry, None);
    assert_eq!(arena.pinned_count(), 0);
    assert_eq!(arena.charged_bytes(), 30000);
}

#[test]
fn arc_allocation_uses_the_shared_slot() {
    let mut arena = arena();
    let layout = Layout { size: 8, align: 8 };
    let needed = match arena.try_alloc_arc_with(layout, true) {
        Step::Refill { needed } => needed,
        other => panic!("{:?}", other),
    };
    assert_eq!(needed, 24);
    let req = arena.refill_shared(needed).unwrap();
    assert_eq!(req.want, 4096);
    arena.install_shared(grant(5, BASE, req.want));
    match arena.try_alloc_arc_with(layout, true) {
        Step::Placed(p) => {
            assert_eq!(p.chunk, 5);
            assert_eq!(p.value, BASE);
        },
        other => panic!("{:?}", other),
    }
    assert_eq!(arena.shared_issued(), 1);
    assert_eq!(arena.shared_data(), BASE + 8);
    assert_eq!(arena.local_chunk(), None);
}

#[test]
fn refill_beyond_the_extent_is_exhausted() {
    let mut arena = arena();
    assert_eq!(arena.refill_local(65473).unwrap_err(), AllocError::Exhausted);
    assert_eq!(arena.refill_shared(65473).unwrap_err(), AllocError::Exhausted);
}

#[test]
fn refill_pins_a_chunk_that_handed_out_references() {
    let mut arena = arena_with_local_chunk();
    let _ = arena.try_alloc_with(Layout { size: 100, align: 4 }, false);
    let req = arena.refill_local(10).unwrap();
    assert!(req.pinned);
    assert_eq!(req.retired, Some(SwapOut { chunk: 1, drop_count: 0, issued: 0, wasted: 4096 - 100 }));
    assert_eq!(arena.pinned_count(), 1);
    assert_eq!(arena.local_chunk(), None);
}

#[test]
fn reference_chunk_stays_pinned_until_reset() {
    let mut arena = arena_with_local_chunk();
    let _ = arena.try_alloc_with(Layout { size: 8, align: 8 }, false);
    let req = arena.refill_local(10).unwrap();
    arena.install_local(grant(2, BASE + 0x10000, req.want));
    let _ = arena.try_alloc_with(Layout { size: 8, align: 8 }, false);
    let _ = arena.refill_local(10).unwrap();
    assert_eq!(arena.pinned_count(), 2);
    let report = arena.reset();
    assert_eq!(report.pinned, vec![2, 1]);
    assert_eq!(report.local, None);
    assert_eq!(arena.pinned_count(), 0);
    let (_, resets, _) = arena.counters();
    assert_eq!(resets, 1);
}

#[test]
fn reset_then_allocation_refills() {
    let mut arena = arena_with_local_chunk();
    let _ = arena.try_alloc_rc_with(Layout { size: 8, align: 8 }, true);
    let report = arena.reset();
    assert_eq!(report.local, Some(SwapOut { chunk: 1, drop_count: 1, issued: 1, wasted: 4096 - 8 - 16 }));
    assert_eq!(report.shared, None);
    assert_eq!(arena.try_alloc_rc_with(Layout { size: 8, align: 8 }, true), Step::Refill { needed: 24 });
}

#[test]
fn slice_of_droppable_elements_gets_one_entry() {
    let mut arena = arena_with_local_chunk();
    match arena.try_alloc_slice_fill_with(Layout { size: 4, align: 4 }, 10, true) {
        Step::Placed(p) => {
            assert_eq!(p.entry, Some(DropEntry { slot: BASE + 4096 - 16, value_offset: 0, len: 10, noop: false }));
        },
        other => panic!("{:?}", other),
    }
    assert_eq!(arena.local_data(), BASE + 40);
}

#[test]
fn empty_slice_needs_no_entry() {
    let mut arena = arena_with_local_chunk();
    match arena.try_alloc_slice_fill_with(Layout { size: 4, align: 4 }, 0, true) {
        Step::Placed(p) => assert_eq!(p.entry, None),
        other => panic!("{:?}", other),
    }
}

#[test]
fn slice_layout_overflow_is_capacity_overflow() {
    let mut arena = arena_with_local_chunk();
    assert_eq!(
        arena.try_alloc_slice_fill_with(Layout { size: 8, align: 8 }, usize::MAX / 4, false),
        Step::Failed(AllocError::CapacityOverflow)
    );
    assert_eq!(
        arena.try_alloc_slice_fill_with_arc(Layout { size: 8, align: 8 }, usize::MAX / 4, false),
        Step::Failed(AllocError::CapacityOverflow)
    );
}

#[test]
fn droppable_slice_longer_than_u16_is_exhausted() {
    let mut arena = arena_with_local_chunk();
    assert_eq!(
        arena.try_alloc_slice_fill_with(Layout { size: 1, align: 1 }, 70000, true),
        Step::Failed(AllocError::Exhausted)
    );
    assert_eq!(
        arena.try_alloc_slice_fill_with_box(Layout { size: 1, align: 1 }, 70000, true),
        Step::Failed(AllocError::Exhausted)
    );
    // Without a drop function the length is not capped.
    assert_eq!(arena.try_alloc_slice_copy(Layout { size: 1, align: 1 }, 70000), Step::Oversized { needed: 70000 });
}

#[test]
fn allocator_zero_sized_request_is_dangling() {
    let mut arena = arena();
    assert_eq!(arena.allocate(Layout { size: 0, align: 16 }), Step::Dangling { addr: 16 });
    assert!(!arena.deallocate(Layout { size: 0, align: 16 }));
    assert!(arena.deallocate(Layout { size: 1, align: 16 }));
}

#[test]
fn allocator_hint_includes_alignment_slack() {
    let mut arena = arena();
    assert_eq!(arena.allocate(Layout { size: 100, align: 8 }), Step::Refill { needed: 108 });
    assert_eq!(arena.allocate(Layout { size: 16380, align: 8 }), Step::Oversized { needed: 16388 });
    assert_eq!(arena.allocate_layout(Layout { size: 16385, align: 8 }), Step::Oversized { needed: 16385 });
}

#[test]
fn grow_then_shrink_restores_cursor() {
    let mut arena = arena_with_local_chunk();
    let p = match arena.allocate(Layout { size: 100, align: 8 }) {
        Step::Placed(p) => p,
        other => panic!("{:?}", other),
    };
    assert_eq!(
        arena.grow(p.value, Layout { size: 100, align: 8 }, Layout { size: 300, align: 8 }),
        Resize::InPlace
    );
    assert_eq!(arena.local_data(), BASE + 300);
    assert!(arena.try_shrink_at_cursor(BASE + 300, 200));
    assert_eq!(arena.local_data(), BASE + 100);
    // A block that does not end at the cursor relocates.
    assert_eq!(
        arena.grow(p.value + 1, Layout { size: 10, align: 8 }, Layout { size: 20, align: 8 }),
        Resize::Relocate
    );
    // A change of alignment relocates.
    assert_eq!(
        arena.grow(p.value, Layout { size: 100, align: 8 }, Layout { size: 200, align: 16 }),
        Resize::Relocate
    );
}

#[test]
fn shrink_keeps_storage_unless_empty_or_realigned() {
    let arena = arena();
    let old = Layout { size: 100, align: 8 };
    assert_eq!(arena.shrink(old, Layout { size: 50, align: 8 }), Resize::InPlace);
    assert_eq!(arena.shrink(old, Layout { size: 0, align: 8 }), Resize::Relocate);
    assert_eq!(arena.shrink(old, Layout { size: 50, align: 4 }), Resize::Relocate);
}

#[test]
fn string_growth_in_place_or_relocation() {
    let mut arena = arena_with_local_chunk();
    match arena.allocate_layout(Layout { size: 5, align: 1 }) {
        Step::Placed(p) => assert_eq!(p.value, BASE),
        other => panic!("{:?}", other),
    }
    assert_eq!(arena.grow_for_string(BASE, 5, 10, 1), Ok(None));
    assert_eq!(arena.local_data(), BASE + 10);
    assert_eq!(arena.grow_for_string(BASE + 1, 5, 10, 1), Ok(Some(Layout { size: 10, align: 1 })));
    assert_eq!(arena.grow_for_string(BASE + 1, 0, 0, 1), Ok(Some(Layout { size: 1, align: 1 })));
    assert_eq!(arena.grow_for_string(BASE, 5, usize::MAX, 1), Err(AllocError::CapacityOverflow));
    arena.record_relocation();
    let (_, _, relocations) = arena.counters();
    assert_eq!(relocations, 1);
}

#[test]
fn slice_drop_entry_only_in_the_current_chunk() {
    let mut arena = arena_with_local_chunk();
    let _ = arena.allocate_layout(Layout { size: 40, align: 8 });
    assert_eq!(
        arena.try_install_slice_drop_entry(1, BASE, 5),
        Some(DropEntry { slot: BASE + 4096 - 16, value_offset: 0, len: 5, noop: false })
    );
    assert_eq!(arena.local_drop_back(), BASE + 4096 - 16);
    assert_eq!(arena.try_install_slice_drop_entry(99, BASE, 5), None);
}

#[test]
fn stats_fold_in_the_free_tails() {
    let mut arena = arena_with_local_chunk();
    let _ = arena.allocate_layout(Layout { size: 96, align: 8 });
    let provider = ProviderStats {
        normal_chunks_allocated: 1,
        oversized_chunks_allocated: 0,
        bytes_outstanding: 4096,
        peak_bytes: 4096,
        cached_chunks: 0,
        cached_bytes: 0,
        normal_chunks_reused: 0,
    };
    let stats = arena.stats(provider);
    assert_eq!(stats.normal_chunks_allocated, 1);
    assert_eq!(stats.total_bytes_allocated, 4096);
    assert_eq!(stats.wasted_tail_bytes, 4000);
    assert_eq!(stats.resets, 0);
    assert_eq!(arena.local_free_bytes(), 4000);
}

#[test]
fn stats_default_is_all_zero() {
    let s = ArenaStats::default();
    assert_eq!(s.normal_chunks_allocated, 0);
    assert_eq!(s.peak_bytes_allocated, 0);
    assert_eq!(s.relocations, 0);
    assert_eq!(s.wasted_tail_bytes, 0);
}

/// An arena with a shared chunk of 4096 bytes installed at `BASE`.
fn arena_with_shared_chunk() -> ArenaCore {
    let mut a = arena();
    let req = a.refill_shared(1).unwrap();
    a.install_shared(grant(4, BASE, req.want));
    a
}

#[test]
fn thin_box_slice_reserves_prefix_and_elements() {
    let mut arena = arena_with_shared_chunk();
    match arena.try_alloc_slice_fill_with_box(Layout { size: 4, align: 4 }, 3, true) {
        Step::Placed(p) => {
            assert_eq!(p.chunk, 4);
            assert_eq!(p.value, BASE);
            assert_eq!(p.entry, None);
        },
        other => panic!("{:?}", other),
    }
    assert_eq!(arena.shared_data(), BASE + 20);
    assert_eq!(arena.shared_issued(), 1);
    // A 16-aligned element widens the prefix to 16 bytes.
    match arena.try_alloc_uninit_slice_box(Layout { size: 16, align: 16 }, 2) {
        Step::Placed(p) => assert_eq!(p.value, BASE + 32),
        other => panic!("{:?}", other),
    }
    assert_eq!(arena.shared_data(), BASE + 32 + 16 + 32);
}

#[test]
fn thin_box_slice_refill_budget() {
    let mut arena = arena();
    assert_eq!(arena.try_alloc_slice_fill_with_box(Layout { size: 4, align: 4 }, 3, false), Step::Refill { needed: 24 });
    assert_eq!(arena.try_alloc_uninit_slice_box(Layout { size: 1, align: 1 }, 20000), Step::Oversized { needed: 20009 });
    assert_eq!(
        arena.try_alloc_slice_fill_with_box(Layout { size: 8, align: 8 }, usize::MAX, false),
        Step::Failed(AllocError::Exhausted)
    );
}

#[test]
fn prefixed_bytes_reserve_prefix_and_payload() {
    let mut arena = arena_with_local_chunk();
    match arena.try_alloc_prefixed_shared_bytes(5) {
        Step::Placed(p) => assert_eq!(p.value, BASE),
        other => panic!("{:?}", other),
    }
    assert_eq!(arena.local_data(), BASE + 13);
    assert_eq!(arena.local_issued(), 1);
    match arena.try_alloc_prefixed_shared_bytes(0) {
        Step::Placed(p) => assert_eq!(p.value, BASE + 13),
        other => panic!("{:?}", other),
    }
    assert_eq!(arena.local_data(), BASE + 22);
    match arena.try_alloc_prefixed_shared(Layout { size: 2, align: 2 }, 0) {
        Step::Placed(p) => assert_eq!(p.value, BASE + 22),
        other => panic!("{:?}", other),
    }
    assert_eq!(arena.local_data(), BASE + 32);
}

#[test]
fn prefixed_routing_and_overflow() {
    let mut arena = arena();
    assert_eq!(arena.try_alloc_prefixed_shared_bytes(5), Step::Refill { needed: 13 });
    assert_eq!(arena.try_alloc_prefixed_shared(Layout { size: 2, align: 2 }, 3), Step::Refill { needed: 14 });
    assert_eq!(arena.try_alloc_prefixed_shared_bytes(20000), Step::Oversized { needed: 20008 });
    assert_eq!(arena.try_alloc_prefixed_shared_bytes(usize::MAX), Step::Failed(AllocError::CapacityOverflow));
    assert_eq!(
        arena.try_alloc_prefixed_shared(Layout { size: 2, align: 2 }, usize::MAX),
        Step::Failed(AllocError::CapacityOverflow)
    );
}

#[test]
fn dst_box_reserves_metadata_then_value() {
    let mut arena = arena();
    assert_eq!(arena.try_alloc_dst_box(Layout { size: 12, align: 4 }, 8), Step::Refill { needed: 24 });
    assert_eq!(arena.try_alloc_dst_box(Layout { size: 12, align: 4 }, 0), Step::Refill { needed: 16 });
    assert_eq!(arena.try_alloc_dst_box(Layout { size: 20000, align: 8 }, 8), Step::Oversized { needed: 20016 });
    let mut arena = arena_with_local_chunk();
    match arena.try_alloc_dst_box(Layout { size: 12, align: 4 }, 2) {
        Step::Placed(p) => assert_eq!(p.value, BASE),
        other => panic!("{:?}", other),
    }
    assert_eq!(arena.local_data(), BASE + 16);
    assert_eq!(arena.local_issued(), 1);
    let mut capped = capped_arena();
    assert_eq!(capped.try_alloc_dst_box(over_aligned(), 8), Step::Failed(AllocError::AlignmentTooLarge));
}

#[test]
fn shared_layout_allocation() {
    let mut arena = arena();
    assert_eq!(arena.allocate_shared_layout(Layout { size: 100, align: 16 }), Step::Refill { needed: 108 });
    assert_eq!(arena.allocate_shared_layout(Layout { size: 20000, align: 8 }), Step::Oversized { needed: 20000 });
    let mut arena = arena_with_shared_chunk();
    match arena.allocate_shared_layout(Layout { size: 0, align: 8 }) {
        Step::Placed(p) => assert_eq!(p.value, BASE),
        other => panic!("{:?}", other),
    }
    assert_eq!(arena.shared_data(), BASE + 1);
    match arena.allocate_shared_layout(Layout { size: 10, align: 8 }) {
        Step::Placed(p) => assert_eq!(p.value, BASE + 8),
        other => panic!("{:?}", other),
    }
    assert_eq!(arena.shared_issued(), 2);
}

#[test]
fn utf16_box_from_str_sizes_exactly() {
    let mut arena = arena();
    let (step, units) = arena.try_alloc_utf16_prefixed_from_str("a\u{1f600}");
    assert_eq!(step, Step::Refill { needed: 14 });
    assert!(units.is_empty());
    let mut arena = arena_with_local_chunk();
    let (step, units) = arena.try_alloc_utf16_prefixed_from_str("a\u{1f600}");
    match step {
        Step::Placed(p) => assert_eq!(p.value, BASE),
        other => panic!("{:?}", other),
    }
    assert_eq!(units, vec![0x61, 0xD83D, 0xDE00]);
    assert_eq!(arena.local_data(), BASE + 14);
    // The empty string still reserves one code unit of payload.
    let (_, units) = arena.try_alloc_utf16_prefixed_from_str("");
    assert!(units.is_empty());
    assert_eq!(arena.local_data(), BASE + 14 + 10);
}

#[test]
fn provider_gauges_track_acquire_and_release() {
    let p = ProviderStats::empty();
    assert!(p.admits(100, Some(100)));
    assert!(!p.admits(101, Some(100)));
    assert!(p.admits(u64::MAX, None));
    let p = p.acquired(4096, false).acquired(20000, true);
    assert_eq!(p.normal_chunks_allocated, 1);
    assert_eq!(p.oversized_chunks_allocated, 1);
    assert_eq!(p.bytes_outstanding, 24096);
    assert_eq!(p.peak_bytes, 24096);
    let p = p.released(20000);
    assert_eq!(p.bytes_outstanding, 4096);
    assert_eq!(p.peak_bytes, 24096);
    assert!(!p.admits(5000, Some(9000)));
    assert_eq!(p.released(u64::MAX).bytes_outstanding, 0);
}

#[test]
fn prefixed_oversized_placement_starts_at_the_payload() {
    let mut arena = arena();
    assert_eq!(arena.try_alloc_prefixed_shared_bytes(20000), Step::Oversized { needed: 20008 });
    let p = arena.place_prefixed_oversized(grant(11, 0x0050_0008, 20008), Layout { size: 1, align: 1 }, 20000);
    assert_eq!(p, Placement { chunk: 11, value: 0x0050_0008, entry: None });
    assert_eq!(arena.charged_bytes(), 20008);
    assert_eq!(arena.pinned_count(), 0);
}

fn smart_over_aligned() -> Layout {
    Layout { size: 64, align: 64 }
}

fn chunk_over_aligned() -> Layout {
    Layout { size: 128, align: 128 }
}

#[test]
fn rejection_reports_alignment_too_large() {
    let mut arena = capped_arena();
    match arena.try_alloc_with(smart_over_aligned(), false) {
        Step::Failed(e) => assert!(e.is_alignment_too_large()),
        other => panic!("{:?}", other),
    }
    match arena.try_alloc_arc_with(smart_over_aligned(), true) {
        Step::Failed(e) => assert!(e.is_alignment_too_large()),
        other => panic!("{:?}", other),
    }
    match arena.try_alloc_slice_copy(chunk_over_aligned(), 1) {
        Step::Failed(e) => assert!(e.is_alignment_too_large()),
        other => panic!("{:?}", other),
    }
}

#[test]
fn try_alloc_with_rejects_smart_ptr_alignment() {
    let mut arena = capped_arena();
    assert!(matches!(arena.try_alloc_with(smart_over_aligned(), false), Step::Failed(_)));
}

#[test]
fn try_alloc_arc_with_rejects_smart_ptr_alignment() {
    let mut arena = capped_arena();
    assert!(matches!(arena.try_alloc_arc_with(smart_over_aligned(), true), Step::Failed(_)));
}

#[test]
fn try_alloc_box_with_rejects_smart_ptr_alignment() {
    let mut arena = capped_arena();
    assert!(matches!(arena.try_alloc_box_with(smart_over_aligned(), true), Step::Failed(_)));
}

#[test]
fn try_alloc_slice_copy_arc_rejects_smart_ptr_alignment() {
    let mut arena = capped_arena();
    assert!(matches!(arena.try_alloc_slice_fill_with_arc(smart_over_aligned(), 2, false), Step::Failed(_)));
}

#[test]
fn try_alloc_arc_with_no_drop_rejects_smart_ptr_alignment() {
    let mut arena = capped_arena();
    assert!(matches!(arena.try_alloc_arc_with(smart_over_aligned(), false), Step::Failed(_)));
}

#[test]
fn try_alloc_slice_fill_with_arc_rejects_smart_ptr_alignment() {
    let mut arena = capped_arena();
    assert!(matches!(arena.try_alloc_slice_fill_with_arc(smart_over_aligned(), 1, true), Step::Failed(_)));
}

#[test]
fn try_alloc_slice_fill_with_arc_no_drop_rejects_smart_ptr_alignment() {
    let mut arena = capped_arena();
    assert!(matches!(arena.try_alloc_slice_fill_with_arc(smart_over_aligned(), 2, false), Step::Failed(_)));
}

#[test]
fn try_alloc_slice_fill_with_box_rejects_smart_ptr_alignment() {
    let mut arena = capped_arena();
    assert!(matches!(arena.try_alloc_slice_fill_with_box(smart_over_aligned(), 1, true), Step::Failed(_)));
}

#[test]
fn try_alloc_slice_fill_with_rejects_chunk_alignment() {
    let mut arena = capped_arena();
    assert!(matches!(arena.try_alloc_slice_fill_with(chunk_over_aligned(), 1, false), Step::Failed(_)));
}

#[test]
fn try_alloc_slice_copy_rejects_chunk_alignment() {
    let mut arena = capped_arena();
    assert!(matches!(arena.try_alloc_slice_copy(chunk_over_aligned(), 1), Step::Failed(_)));
}

#[test]
fn try_alloc_slice_fill_iter_rejects_chunk_alignment() {
    // An iterator fill plans exactly like a closure fill of the same length.
    let mut arena = capped_arena();
    assert!(matches!(arena.try_alloc_slice_fill_with(chunk_over_aligned(), 1, false), Step::Failed(_)));
}

#[test]
fn refill_shared_at_max_chunk_bytes_boundary() {
    let mut a = arena();
    assert!(a.refill_shared(65472).is_ok(), "the bump extent is the largest accepted refill request");
    let mut b = arena();
    assert!(b.refill_shared(65473).is_err(), "one byte past the bump extent must be rejected");
}

#[test]
fn refill_local_at_max_chunk_bytes_boundary() {
    let mut a = arena();
    assert!(a.refill_local(65472).is_ok(), "the bump extent is the largest accepted refill request");
    let mut b = arena();
    assert!(b.refill_local(65473).is_err(), "one byte past the bump extent must be rejected");
}

#[test]
fn arena_inner_debug_format() {
    let a = arena();
    let text = format!("{:?}", a);
    assert!(text.contains("ArenaCore"));
}

#[test]
fn slice_reservation_debug_format() {
    assert!(check_isize_overflow(100, 8).is_ok(), "100 bytes fits");
    assert!(check_isize_overflow(isize::MAX as usize, 8).is_err());
}

#[test]
fn refill_of_an_unused_chunk_adds_no_waste() {
    let mut arena = arena_with_local_chunk();
    let req = arena.refill_local(10).unwrap();
    assert!(!req.pinned);
    assert_eq!(req.retired.unwrap().issued, 0);
    let (wasted, _, _) = arena.counters();
    assert_eq!(wasted, 0, "a chunk with no reference and no handle is released at once");
    let mut shared = self::arena();
    let req = shared.refill_shared(1).unwrap();
    shared.install_shared(grant(4, BASE, req.want));
    let _ = shared.refill_shared(1).unwrap();
    let (wasted, _, _) = shared.counters();
    assert_eq!(wasted, 0);
}

#[test]
fn held_chunks_count_their_tail_until_released() {
    let mut arena = arena_with_local_chunk();
    let _ = arena.try_alloc_rc_with(Layout { size: 96, align: 8 }, false);
    let req = arena.refill_local(10).unwrap();
    assert!(!req.pinned);
    let (wasted, _, _) = arena.counters();
    assert_eq!(wasted, 4000, "a chunk kept alive by an Rc keeps its tail in the gauge");
    arena.release_retired_tail(4000);
    let (wasted, _, _) = arena.counters();
    assert_eq!(wasted, 0);
    arena.release_retired_tail(5);
    let (wasted, _, _) = arena.counters();
    assert_eq!(wasted, 0);
}

#[test]
fn cache_gauges_follow_caching_and_reuse() {
    let p = ProviderStats::empty().cached(4096).cached(8192);
    assert_eq!((p.cached_chunks, p.cached_bytes), (2, 12288));
    let p = p.reused_from_cache(8192);
    assert_eq!((p.cached_chunks, p.cached_bytes, p.normal_chunks_reused), (1, 4096, 1));
    let p = p.reused_from_cache(10_000);
    assert_eq!((p.cached_chunks, p.cached_bytes, p.normal_chunks_reused), (0, 0, 2));
}
