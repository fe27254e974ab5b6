use multitude::arena::{AllocFlavor, ArenaCore, ChunkGrant, Placement, Step};
use multitude::builder::{ArenaBuilder, ChunkGeometry, SizeClass};
use multitude::error::AllocError;
use multitude::refcount::{strong_after_clone, strong_clone_allowed};
use multitude::sizing::Layout;
use multitude::stats::{ArenaStats, ProviderStats};

const HEADER: usize = 64;
const TILE: usize = 0x1_0000;
const MIN_MAX_NORMAL_ALLOC: usize = 4096;
const HUGE_LEN: usize = usize::MAX / 2;

fn geometry() -> ChunkGeometry {
    ChunkGeometry { local_max_bump_extent: TILE - HEADER, shared_max_bump_extent: TILE - HEADER, default_min_payload: 4096 - HEADER }
}

const U8: Layout = Layout { size: 1, align: 1 };
const U32: Layout = Layout { size: 4, align: 4 };
const U64: Layout = Layout { size: 8, align: 8 };

/// Drives the planner the way the arena does, handing it chunks at
/// made-up, tile-aligned addresses instead of real memory.
struct Sim {
    core: ArenaCore,
    next_base: usize,
    next_chunk: u64,
    cache: Vec<usize>,
    provider: ProviderStats,
    fail: bool,
}

impl Sim {
    fn from_builder(builder: ArenaBuilder) -> Sim {
        let plan = builder.try_build(geometry());
        let mut cache = Vec::new();
        let mut provider = ProviderStats::empty();
        if let Some((class, count)) = plan.preallocate {
            for _ in 0..count {
                cache.push(class.bytes() - HEADER);
                provider = provider.acquired(class.bytes() as u64, false);
            }
        }
        Sim { core: ArenaCore::try_from_config(plan.config), next_base: 0x0100_0000, next_chunk: 1, cache, provider, fail: false }
    }

    fn new() -> Sim {
        Self::from_builder(ArenaBuilder::new())
    }

    /// An arena whose backing allocator refuses everything.
    fn failing() -> Sim {
        let mut s = Self::new();
        s.fail = true;
        s
    }

    /// An arena with lowered caps: chunk cap 128, smart-pointer cap 64.
    fn capped() -> Sim {
        let mut s = Self::new();
        s.core.set_align_cap(128);
        s
    }

    fn chunk(&mut self, payload: usize, oversized: bool) -> Result<ChunkGrant, AllocError> {
        if self.fail {
            return Err(AllocError::Exhausted);
        }
        let mut capacity = payload;
        let cached = if oversized { None } else { self.cache.pop() };
        match cached {
            Some(c) if c >= payload => capacity = c,
            other => {
                if let Some(c) = other {
                    self.cache.push(c);
                }
                // Normal chunks come in size classes; one-shot chunks are exact.
                let total = if oversized { payload + HEADER } else { SizeClass::min_for_bytes(payload + HEADER).bytes() };
                capacity = total - HEADER;
                self.provider = self.provider.acquired(total as u64, oversized);
            },
        }
        let base = self.next_base;
        self.next_base += ((capacity + HEADER) / TILE + 1) * TILE;
        let grant = ChunkGrant { chunk: self.next_chunk, payload_base: base + HEADER, capacity };
        self.next_chunk += 1;
        Ok(grant)
    }

    fn refill_local(&mut self, needed: usize) -> Result<(), AllocError> {
        let req = self.core.refill_local(needed)?;
        let grant = self.chunk(req.want, false)?;
        self.core.install_local(grant);
        Ok(())
    }

    fn refill_shared(&mut self, needed: usize) -> Result<(), AllocError> {
        let req = self.core.refill_shared(needed)?;
        let grant = self.chunk(req.want, false)?;
        self.core.install_shared(grant);
        Ok(())
    }

    fn stats(&self) -> ArenaStats {
        self.core.stats(self.provider)
    }

    fn local(
        &mut self,
        mut ask: impl FnMut(&mut ArenaCore) -> Step,
        oversized: impl FnOnce(&mut ArenaCore, ChunkGrant) -> Placement,
    ) -> Result<Placement, AllocError> {
        loop {
            match ask(&mut self.core) {
                Step::Placed(p) => return Ok(p),
                Step::Refill { needed } => self.refill_local(needed)?,
                Step::Oversized { needed } => {
                    let grant = self.chunk(needed, true)?;
                    return Ok(oversized(&mut self.core, grant));
                },
                Step::Dangling { addr } => return Ok(Placement { chunk: 0, value: addr, entry: None }),
                Step::Failed(e) => return Err(e),
            }
        }
    }

    fn shared(
        &mut self,
        mut ask: impl FnMut(&mut ArenaCore) -> Step,
        oversized: impl FnOnce(&mut ArenaCore, ChunkGrant) -> Placement,
    ) -> Result<Placement, AllocError> {
        loop {
            match ask(&mut self.core) {
                Step::Placed(p) => return Ok(p),
                Step::Refill { needed } => self.refill_shared(needed)?,
                Step::Oversized { needed } => {
                    let grant = self.chunk(needed, true)?;
                    return Ok(oversized(&mut self.core, grant));
                },
                Step::Dangling { addr } => return Ok(Placement { chunk: 0, value: addr, entry: None }),
                Step::Failed(e) => return Err(e),
            }
        }
    }

    /// `alloc` / `try_alloc_with` of one value of `layout`.
    fn alloc_value(&mut self, layout: Layout, needs_drop: bool) -> Result<Placement, AllocError> {
        self.local(
            |c| c.try_alloc_with(layout, needs_drop),
            |c, g| c.place_oversized(g, layout, needs_drop, 1, AllocFlavor::SimpleRef),
        )
    }

    /// `alloc_arc` of one value of `layout`.
    fn alloc_arc(&mut self, layout: Layout, needs_drop: bool) -> Result<Placement, AllocError> {
        self.shared(|c| c.try_alloc_arc_with(layout, needs_drop), |c, g| c.place_oversized_shared(g, layout, needs_drop, 1))
    }

    /// `try_alloc_slice_copy` of `len` elements.
    fn slice_copy(&mut self, elem: Layout, len: usize) -> Result<Placement, AllocError> {
        let layout = Layout::array(elem, len).unwrap_or(elem);
        self.local(|c| c.try_alloc_slice_copy(elem, len), |c, g| c.place_oversized(g, layout, false, 0, AllocFlavor::SimpleRef))
    }

    /// `try_alloc_slice_fill_with_arc` / `try_alloc_slice_copy_arc` of `len` elements.
    fn slice_arc(&mut self, elem: Layout, len: usize, needs_drop: bool) -> Result<Placement, AllocError> {
        let layout = Layout::array(elem, len).unwrap_or(elem);
        let entry_len = if len > 65535 { 65535 } else { len as u16 };
        self.shared(
            |c| c.try_alloc_slice_fill_with_arc(elem, len, needs_drop),
            |c, g| c.place_oversized_shared(g, layout, needs_drop && len != 0, entry_len),
        )
    }
}

#[test]
fn reserve_slice_rejects_excessive_alignment() {
    let mut sim = Sim::new();
    assert!(sim.slice_copy(U8, 3).is_ok(), "3-byte u8 slice fits");
}

#[test]
fn evicted_chunk_guard_debug() {
    let mut sim = Sim::new();
    for _ in 0..1000u64 {
        sim.alloc_value(U64, false).expect("value fits");
    }
    assert!(sim.core.pinned_count() >= 1);
}

#[test]
fn inc_ref_shared_deferred_oversized_path() {
    let mut sim = Sim::new();
    let big = Layout { size: 65536, align: 1 };
    let p = sim.alloc_arc(big, false).expect("oversized arc");
    assert_eq!(p.entry, None);
    assert!(strong_clone_allowed(1));
    assert_eq!(strong_after_clone(1), 2);
}

#[test]
fn inc_ref_shared_deferred_reconcile_via_dst() {
    let mut sim = Sim::new();
    assert!(sim.alloc_arc(U32, false).is_ok());
    assert_eq!(sim.core.shared_issued(), 1);
}

#[test]
fn alloc_slice_local_with_or_panic_no_drop_fn_does_not_reserve_drop_entry() {
    let mut sim = Sim::new();
    sim.alloc_value(U32, false).unwrap();
    let before = sim.core.local_drop_back();
    let p = sim.core.try_alloc_slice_local_with(U32, 10, false, AllocFlavor::SimpleRef);
    assert!(matches!(p, Step::Placed(_)));
    assert_eq!(before, sim.core.local_drop_back(), "drop_back must not retreat when no drop entry is reserved");
}

#[test]
fn alloc_slice_shared_with_or_panic_empty_drop_type_does_not_reserve_drop_entry() {
    let mut sim = Sim::new();
    sim.alloc_arc(U32, false).unwrap();
    let before = sim.core.shared_drop_back();
    let p = sim.core.try_alloc_slice_shared_with(U8, 0, true);
    assert!(matches!(p, Step::Placed(_)));
    assert_eq!(before, sim.core.shared_drop_back(), "drop_back must not retreat for empty slice even with drop_fn");
}

#[test]
fn alloc_slice_shared_with_or_panic_no_drop_fn_does_not_reserve_drop_entry() {
    let mut sim = Sim::new();
    sim.alloc_arc(U32, false).unwrap();
    let before = sim.core.shared_drop_back();
    let p = sim.core.try_alloc_slice_shared_with(U32, 10, false);
    assert!(matches!(p, Step::Placed(_)));
    assert_eq!(before, sim.core.shared_drop_back(), "drop_back must not retreat when no drop entry is reserved");
}

#[test]
fn alloc_slice_local_with_or_panic_at_u16_max_succeeds() {
    let mut sim = Sim::from_builder(ArenaBuilder::new().max_normal_alloc(60 * 1024));
    let len = u16::MAX as usize;
    let layout = Layout::array(U8, len).unwrap();
    let p = sim
        .local(
            |c| c.try_alloc_slice_local_with(U8, len, true, AllocFlavor::SimpleRef),
            |c, g| c.place_oversized(g, layout, true, u16::MAX, AllocFlavor::SimpleRef),
        )
        .expect("u16::MAX drop-aware elements fit");
    assert_eq!(p.entry.unwrap().len, u16::MAX);
}

#[test]
fn alloc_slice_shared_with_or_panic_at_u16_max_succeeds() {
    let mut sim = Sim::from_builder(ArenaBuilder::new().max_normal_alloc(60 * 1024));
    let len = u16::MAX as usize;
    let layout = Layout::array(U8, len).unwrap();
    let p = sim
        .shared(|c| c.try_alloc_slice_shared_with(U8, len, true), |c, g| c.place_oversized_shared(g, layout, true, u16::MAX))
        .expect("u16::MAX drop-aware elements fit");
    assert_eq!(p.entry.unwrap().len, u16::MAX);
}

fn fast_path_sim() -> Sim {
    Sim::from_builder(ArenaBuilder::new().max_normal_alloc(MIN_MAX_NORMAL_ALLOC).with_capacity(64 * 1024))
}

fn slow_path_sim() -> Sim {
    Sim::from_builder(ArenaBuilder::new().max_normal_alloc(MIN_MAX_NORMAL_ALLOC).with_capacity(MIN_MAX_NORMAL_ALLOC))
}

#[test]
fn alloc_slice_local_with_or_panic_at_max_normal_uses_fast_path() {
    let mut sim = fast_path_sim();
    sim.alloc_value(U8, false).unwrap();
    let before = sim.stats().normal_chunks_allocated;
    let p = sim.core.try_alloc_slice_local_with(U64, MIN_MAX_NORMAL_ALLOC / 8, false, AllocFlavor::SimpleRef);
    assert!(matches!(p, Step::Placed(_)));
    assert_eq!(before, sim.stats().normal_chunks_allocated, "exact max_normal_alloc must not need a new chunk");
}

#[test]
fn alloc_slice_shared_with_or_panic_at_max_normal_uses_fast_path() {
    let mut sim = fast_path_sim();
    sim.alloc_arc(U8, false).unwrap();
    let before = sim.stats().normal_chunks_allocated;
    let p = sim.core.try_alloc_slice_shared_with(U64, MIN_MAX_NORMAL_ALLOC / 8, false);
    assert!(matches!(p, Step::Placed(_)));
    assert_eq!(before, sim.stats().normal_chunks_allocated, "exact max_normal_alloc must not need a new chunk");
}

#[test]
fn try_alloc_slice_shared_oversized_with_small_len_drop_fn_succeeds() {
    let mut sim = Sim::from_builder(ArenaBuilder::new().max_normal_alloc(4096));
    let layout = Layout::array(U32, 100).unwrap();
    let grant = sim.chunk(400 + 16, true).unwrap();
    let p = sim.core.place_oversized_shared(grant, layout, true, 100);
    assert_eq!(p.entry.unwrap().len, 100, "len=100 with drop_fn must not be rejected");
}

#[test]
fn try_alloc_uninit_slice_at_max_normal_uses_fast_path() {
    let mut sim = fast_path_sim();
    sim.alloc_value(U8, false).unwrap();
    let before = sim.stats().normal_chunks_allocated;
    let p = sim.core.try_alloc_slice_fill_with(U64, MIN_MAX_NORMAL_ALLOC / 8, false);
    assert!(matches!(p, Step::Placed(_)), "must fit");
    assert_eq!(before, sim.stats().normal_chunks_allocated, "exact max_normal_alloc must not need a new chunk");
}

#[test]
fn try_alloc_slice_copy_at_max_normal_uses_fast_path() {
    let mut sim = fast_path_sim();
    sim.alloc_value(U8, false).unwrap();
    let before = sim.stats().normal_chunks_allocated;
    sim.slice_copy(U64, MIN_MAX_NORMAL_ALLOC / 8).expect("must fit");
    assert_eq!(before, sim.stats().normal_chunks_allocated, "exact max_normal_alloc must not need a new chunk");
}

#[test]
fn alloc_slice_copy_at_max_normal_uses_fast_path() {
    let mut sim = fast_path_sim();
    sim.alloc_value(U8, false).unwrap();
    let before = sim.stats().normal_chunks_allocated;
    let p = sim.core.try_alloc_slice_copy(U64, MIN_MAX_NORMAL_ALLOC / 8);
    assert!(matches!(p, Step::Placed(_)));
    assert_eq!(before, sim.stats().normal_chunks_allocated, "exact max_normal_alloc must not need a new chunk");
}

#[test]
fn try_alloc_slice_copy_arc_at_max_normal_uses_fast_path() {
    let mut sim = fast_path_sim();
    sim.alloc_arc(U8, false).unwrap();
    let before = sim.stats().normal_chunks_allocated;
    sim.slice_arc(U64, MIN_MAX_NORMAL_ALLOC / 8, false).expect("must fit");
    assert_eq!(before, sim.stats().normal_chunks_allocated, "exact max_normal_alloc must not need a new chunk");
}

#[test]
fn try_alloc_uninit_slice_arc_at_max_normal_uses_fast_path() {
    let mut sim = fast_path_sim();
    sim.alloc_arc(U8, false).unwrap();
    let before = sim.stats().normal_chunks_allocated;
    let p = sim.core.try_alloc_uninit_slice_arc(U64, MIN_MAX_NORMAL_ALLOC / 8);
    assert!(matches!(p, Step::Placed(_)), "must fit");
    assert_eq!(before, sim.stats().normal_chunks_allocated, "exact max_normal_alloc must not need a new chunk");
}

#[test]
fn try_alloc_uninit_slice_slow_at_max_normal_refills() {
    let mut sim = slow_path_sim();
    sim.alloc_value(U8, false).unwrap();
    let before = sim.stats().wasted_tail_bytes;
    sim.local(
        |c| c.try_alloc_slice_fill_with(U64, MIN_MAX_NORMAL_ALLOC / 8, false),
        |c, g| c.place_oversized(g, Layout::array(U64, 512).unwrap(), false, 0, AllocFlavor::SimpleRef),
    )
    .expect("slow-path refill must succeed");
    assert!(sim.stats().wasted_tail_bytes > before, "slow path at exactly max_normal_alloc must refill the local slot");
    assert_eq!(sim.stats().oversized_chunks_allocated, 0);
}

#[test]
fn try_alloc_slice_copy_slow_at_max_normal_refills() {
    let mut sim = slow_path_sim();
    sim.alloc_value(U8, false).unwrap();
    let before = sim.stats().wasted_tail_bytes;
    sim.slice_copy(U64, MIN_MAX_NORMAL_ALLOC / 8).expect("slow-path refill must succeed");
    assert!(sim.stats().wasted_tail_bytes > before, "slow path at exactly max_normal_alloc must refill the local slot");
    assert_eq!(sim.stats().oversized_chunks_allocated, 0);
}

#[test]
fn try_alloc_slice_copy_arc_slow_at_max_normal_refills() {
    let mut sim = slow_path_sim();
    sim.alloc_arc(U8, false).unwrap();
    let before = sim.stats().wasted_tail_bytes;
    sim.slice_arc(U64, MIN_MAX_NORMAL_ALLOC / 8, false).expect("slow-path refill must succeed");
    assert!(sim.stats().wasted_tail_bytes > before, "slow path at exactly max_normal_alloc must refill the shared slot");
    assert_eq!(sim.stats().oversized_chunks_allocated, 0);
}

#[test]
fn allocate_layout_slow_at_max_normal_refills() {
    let mut sim = slow_path_sim();
    sim.alloc_value(U8, false).unwrap();
    let before = sim.stats().wasted_tail_bytes;
    let layout = Layout::from_size_align(MIN_MAX_NORMAL_ALLOC, 8).expect("valid layout");
    sim.local(|c| c.allocate_layout(layout), |c, g| c.place_oversized(g, layout, false, 0, AllocFlavor::Rc))
        .expect("slow-path refill must succeed");
    assert!(sim.stats().wasted_tail_bytes > before, "slow path at exactly max_normal_alloc must refill the local slot");
    assert_eq!(sim.stats().oversized_chunks_allocated, 0);
}

#[test]
fn allocate_layout_slow_high_align_does_not_underflow_needed() {
    let mut sim = Sim::new();
    let layout = Layout::from_size_align(1, 16).expect("valid layout");
    assert_eq!(sim.core.allocate_layout(layout), Step::Refill { needed: 9 });
    let p = sim
        .local(|c| c.allocate_layout(layout), |c, g| c.place_oversized(g, layout, false, 0, AllocFlavor::Rc))
        .expect("small high-align allocation must succeed");
    assert_eq!(p.value % 16, 0);
}

#[test]
fn allocate_shared_layout_slow_at_max_normal_refills() {
    let mut sim = slow_path_sim();
    sim.alloc_arc(U8, false).unwrap();
    let before = sim.stats().wasted_tail_bytes;
    let layout = Layout::from_size_align(MIN_MAX_NORMAL_ALLOC, 8).expect("valid layout");
    sim.shared(|c| c.allocate_shared_layout(layout), |c, g| c.place_oversized_shared(g, layout, false, 1))
        .expect("slow-path refill must succeed");
    assert!(sim.stats().wasted_tail_bytes > before, "slow path at exactly max_normal_alloc must refill the shared slot");
    assert_eq!(sim.stats().oversized_chunks_allocated, 0);
}

#[test]
fn try_alloc_slice_local_oversized_with_drop_fn_too_long_returns_err() {
    let mut sim = Sim::new();
    let step = sim.core.try_alloc_slice_local_with(U8, u16::MAX as usize + 1, true, AllocFlavor::Rc);
    assert!(matches!(step, Step::Failed(_)));
}

#[test]
fn try_alloc_slice_shared_oversized_with_drop_fn_too_long_returns_err() {
    let mut sim = Sim::new();
    let step = sim.core.try_alloc_slice_shared_with(U8, u16::MAX as usize + 1, true);
    assert!(matches!(step, Step::Failed(_)));
}

#[test]
fn try_alloc_slice_local_oversized_with_layout_overflow_returns_err() {
    let mut sim = Sim::new();
    let step = sim.core.try_alloc_slice_local_with(U64, HUGE_LEN, false, AllocFlavor::SimpleRef);
    assert!(matches!(step, Step::Failed(_)));
}

#[test]
fn try_alloc_slice_shared_oversized_with_layout_overflow_returns_err() {
    let mut sim = Sim::new();
    let step = sim.core.try_alloc_slice_shared_with(U64, HUGE_LEN, false);
    assert!(matches!(step, Step::Failed(_)));
}

#[test]
fn try_alloc_slice_with_layout_overflow_returns_err() {
    let mut sim = Sim::new();
    assert!(matches!(sim.core.try_alloc_slice_fill_with(U64, HUGE_LEN, false), Step::Failed(_)));
}

#[test]
fn try_alloc_slice_fill_with_over_aligned_returns_err() {
    let mut sim = Sim::new();
    let huge_align = Layout { size: 32768, align: 32768 };
    assert!(matches!(sim.core.try_alloc_slice_fill_with_box(huge_align, 1, false), Step::Failed(_)));
}

#[test]
fn try_alloc_slice_copy_layout_overflow_returns_err() {
    let mut sim = Sim::new();
    assert!(matches!(sim.core.try_alloc_slice_local_no_drop_with(U64, HUGE_LEN, AllocFlavor::SimpleRef), Step::Failed(_)));
}

#[test]
fn try_alloc_slice_local_no_drop_with_over_aligned_returns_err_box_flavor() {
    let mut sim = Sim::new();
    let huge_align = Layout { size: 32768, align: 32768 };
    assert!(matches!(sim.core.try_alloc_slice_local_no_drop_with(huge_align, 1, AllocFlavor::Box), Step::Failed(_)));
}

#[test]
fn try_alloc_slice_local_no_drop_with_over_aligned_returns_err_simpleref_flavor() {
    let mut sim = Sim::new();
    let huge_align = Layout { size: 65536, align: 65536 };
    assert!(matches!(sim.core.try_alloc_slice_local_no_drop_with(huge_align, 1, AllocFlavor::SimpleRef), Step::Failed(_)));
}

#[test]
fn try_alloc_slice_shared_no_drop_with_layout_overflow_returns_err() {
    let mut sim = Sim::new();
    assert!(matches!(sim.core.try_alloc_slice_shared_with(U64, HUGE_LEN, false), Step::Failed(_)));
}

#[test]
fn try_alloc_slice_shared_no_drop_with_over_aligned_returns_err() {
    let mut sim = Sim::new();
    let huge_align = Layout { size: 32768, align: 32768 };
    assert!(matches!(sim.core.try_alloc_slice_shared_with(huge_align, 1, false), Step::Failed(_)));
}

#[test]
fn try_alloc_slice_shared_copy_layout_overflow_returns_err() {
    let mut sim = Sim::new();
    assert!(sim.slice_arc(U64, 3, false).is_ok(), "sanity check for normal path");
}

#[test]
fn try_alloc_dst_box_over_aligned_returns_err() {
    let mut sim = Sim::new();
    let layout = Layout::from_size_align(32_768, 32_768).unwrap();
    assert!(matches!(sim.core.try_alloc_dst_box(layout, 8), Step::Failed(_)));
}

fn dst_box(sim: &mut Sim, layout: Layout) -> Result<Placement, AllocError> {
    sim.local(
        |c| c.try_alloc_dst_box(layout, 8),
        |c, g| c.place_oversized(g, Layout { size: layout.size + 8, align: layout.align }, false, 0, AllocFlavor::Box),
    )
}

#[test]
fn try_alloc_dst_box_refill_failure_returns_err() {
    let mut sim = Sim::failing();
    let layout = Layout::array(U8, 64).unwrap();
    assert!(dst_box(&mut sim, layout).is_err());
}

#[test]
fn try_alloc_dst_box_oversized_refill_failure_returns_err() {
    let mut sim = Sim::failing();
    let layout = Layout::array(U64, 16384).unwrap();
    assert!(dst_box(&mut sim, layout).is_err());
}

#[test]
fn try_alloc_slice_fill_with_box_drop_layout_overflow_returns_err() {
    let mut sim = Sim::new();
    assert!(matches!(sim.core.try_alloc_slice_fill_with_box(U64, HUGE_LEN, true), Step::Failed(_)));
}

#[test]
fn try_alloc_slice_fill_with_box_drop_too_long_returns_err() {
    let mut sim = Sim::new();
    assert!(matches!(sim.core.try_alloc_slice_fill_with_box(U64, u16::MAX as usize + 1, true), Step::Failed(_)));
}

#[test]
fn try_alloc_slice_fill_with_arc_drop_layout_overflow_returns_err() {
    let mut sim = Sim::new();
    assert!(sim.slice_arc(U64, HUGE_LEN, true).is_err());
}

#[test]
fn try_alloc_slice_fill_with_arc_drop_too_long_returns_err() {
    let mut sim = Sim::new();
    assert!(sim.slice_arc(U64, u16::MAX as usize + 1, true).is_err());
}

#[test]
fn try_alloc_slice_copy_layout_overflow_via_public_returns_err() {
    let mut sim = Sim::new();
    assert!(sim.slice_copy(U64, 3).is_ok());
}

#[test]
fn try_alloc_slice_copy_at_max_normal_sanity() {
    let mut sim = Sim::new();
    assert!(sim.slice_copy(U8, 3).is_ok());
}

const OVERSIZED_BLOB: Layout = Layout { size: 128 * 1024, align: 1 };

#[test]
fn try_alloc_with_oversized_refill_failure_returns_err() {
    let mut sim = Sim::failing();
    assert_eq!(sim.core.try_alloc_with(OVERSIZED_BLOB, false), Step::Oversized { needed: 128 * 1024 });
    assert!(sim.alloc_value(OVERSIZED_BLOB, false).is_err());
}

#[test]
fn try_alloc_oversized_refill_failure_returns_err() {
    let mut sim = Sim::failing();
    assert!(sim.alloc_value(OVERSIZED_BLOB, false).is_err());
}

#[test]
fn try_alloc_arc_oversized_refill_failure_returns_err() {
    let mut sim = Sim::failing();
    assert!(sim.alloc_arc(OVERSIZED_BLOB, false).is_err());
}

#[test]
fn alloc_slice_ref_accepts_below_chunk_alignment_for_non_drop() {
    let mut sim = Sim::capped();
    let smart_over_aligned = Layout { size: 64, align: 64 };
    let filled = sim.local(
        |c| c.try_alloc_slice_fill_with(smart_over_aligned, 1, false),
        |c, g| c.place_oversized(g, smart_over_aligned, false, 0, AllocFlavor::SimpleRef),
    );
    assert!(filled.is_ok());
    let cloned = sim.slice_copy(smart_over_aligned, 1);
    assert!(cloned.is_ok());
}
