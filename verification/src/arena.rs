//! The arena's allocation planner.
//!
//! An [`ArenaCore`] owns the two current-chunk slots (the local slot that
//! serves references, `Rc` and `Box`, and the shared slot that serves
//! `Arc`), the list of pinned chunks, and the statistics counters. Every
//! allocation request is answered with a [`Step`]: the value was placed,
//! the request is rejected, or the caller must first obtain memory from the
//! backing allocator — a fresh current chunk (`Refill`) or a one-shot
//! oversized chunk (`Oversized`) — and hand it back as a [`ChunkGrant`].

use vstd::prelude::*;
use crate::align::{aligned_payload_offset, bump_fits, is_pow2, lemma_pow2_and_eight, lemma_round_up, round_up};
use crate::chunk::{ChunkState, CurrentChunk, EntrySlot, SwapOut};
use crate::constants::{CHUNK_ALIGN, DROP_ENTRY_SIZE, LARGE, MAX_CHUNK_BYTES, MAX_SMART_PTR_ALIGN, PREFIX_BYTES, WORD_ALIGN};
use crate::error::AllocError;
use crate::retired::RetiredChunks;
use crate::sizing::{entry_size_for, sat_sub, slow_refill_needed, Layout};
use crate::utf16::{encode_spec, encode_utf16, utf16_len, utf16_len_spec};

verus! {

/// Which kind of handle an allocation in the local slot hands out.
#[derive(Clone, Copy, Debug, PartialEq, Eq, Structural)]
pub enum AllocFlavor {
    /// An arena-lifetime reference: pins the chunk until reset.
    SimpleRef,
    /// An `Rc`: takes one chunk reference and owns a drop entry.
    Rc,
    /// A `Box`: takes one chunk reference; its drop entry stays a no-op
    /// because the box drops its value itself.
    Box,
}

/// Memory handed out by the backing allocator: a chunk identity and its
/// payload region.
#[derive(Clone, Copy, Debug, PartialEq, Eq)]
pub struct ChunkGrant {
    /// Identity of the chunk.
    pub chunk: u64,
    /// First payload byte.
    pub payload_base: usize,
    /// Payload bytes.
    pub capacity: usize,
}

impl ChunkGrant {
    /// A usable grant: a non-null, word-aligned payload inside the
    /// address space.
    pub open spec fn wf(self) -> bool {
        &&& self.payload_base >= 1
        &&& self.payload_base % WORD_ALIGN == 0
        &&& self.payload_base + self.capacity <= isize::MAX
    }
}

/// A drop entry written to a chunk's back-stack.
#[derive(Clone, Copy, Debug, PartialEq, Eq)]
pub struct DropEntry {
    /// Address of the entry slot.
    pub slot: usize,
    /// Offset of the value from the chunk's payload base.
    pub value_offset: u16,
    /// Number of elements to drop.
    pub len: u16,
    /// The entry is a no-op (the handle drops the value itself).
    pub noop: bool,
}

/// Where an allocation was placed.
#[derive(Clone, Copy, Debug, PartialEq, Eq)]
pub struct Placement {
    /// The chunk holding the value.
    pub chunk: u64,
    /// Address of the value.
    pub value: usize,
    /// The drop entry recorded for it, if any.
    pub entry: Option<DropEntry>,
}

/// The answer to an allocation request.
#[derive(Clone, Copy, Debug, PartialEq, Eq)]
pub enum Step {
    /// The value was placed in the current chunk.
    Placed(Placement),
    /// Install a fresh current chunk of at least `needed` payload bytes
    /// (see `refill_local` / `refill_shared`), then retry.
    Refill { needed: usize },
    /// Serve the request from a one-shot chunk of at least `needed`
    /// payload bytes (see the `place_oversized_*` operations).
    Oversized { needed: usize },
    /// A zero-sized request: a non-null address aligned as requested,
    /// backed by no storage.
    Dangling { addr: usize },
    /// The request cannot be served.
    Failed(AllocError),
}

/// How a resize request is served.
#[derive(Clone, Copy, Debug, PartialEq, Eq)]
pub enum Resize {
    /// The allocation keeps its address.
    InPlace,
    /// Allocate the new layout, copy the old bytes, release the old block.
    Relocate,
}

/// Knobs of one arena.
#[derive(Clone, Copy, Debug, PartialEq, Eq)]
pub struct ArenaConfig {
    /// Requests above this many bytes get a one-shot oversized chunk.
    pub max_normal_alloc: usize,
    /// Largest bump extent of a local chunk (chunk tile minus header).
    pub local_max_bump_extent: usize,
    /// Largest bump extent of a shared chunk (chunk tile minus header).
    pub shared_max_bump_extent: usize,
    /// Smallest payload requested from the backing allocator on refill.
    pub default_min_payload: usize,
    /// Alignment cap of simple-reference slices.
    pub chunk_align_cap: usize,
    /// Alignment cap of every smart-pointer and value allocation.
    pub smart_ptr_align_cap: usize,
}

impl ArenaConfig {
    /// A consistent configuration.
    pub open spec fn wf(self) -> bool {
        &&& self.max_normal_alloc <= self.local_max_bump_extent
        &&& self.max_normal_alloc <= self.shared_max_bump_extent
        &&& self.local_max_bump_extent < CHUNK_ALIGN
        &&& self.shared_max_bump_extent < CHUNK_ALIGN
        &&& self.default_min_payload >= 1
        &&& is_pow2(self.chunk_align_cap as int)
        &&& is_pow2(self.smart_ptr_align_cap as int)
        &&& self.smart_ptr_align_cap <= self.chunk_align_cap <= CHUNK_ALIGN
        &&& self.smart_ptr_align_cap <= MAX_SMART_PTR_ALIGN
    }
}

/// Mathematical state of an arena.
pub struct ArenaState {
    /// The arena's knobs.
    pub config: ArenaConfig,
    /// The local slot (references, `Rc`, `Box`).
    pub local: ChunkState,
    /// The local chunk has handed out an arena-lifetime reference.
    pub local_pinned: bool,
    /// The shared slot (`Arc`).
    pub shared: ChunkState,
    /// Chunks kept alive until reset, most recent last.
    pub pinned: Seq<u64>,
    /// Bytes charged to allocations.
    pub charged: int,
    /// Free tail bytes of chunks rotated out of a slot that are still held
    /// (pinned until reset, or kept alive by handles); a chunk that is
    /// released leaves the gauge.
    pub wasted: int,
    /// Growing-buffer relocations.
    pub relocations: int,
    /// Completed resets.
    pub resets: int,
}

impl ArenaState {
    /// The arena invariant.
    pub open spec fn wf(self) -> bool {
        &&& self.config.wf()
        &&& self.local.wf()
        &&& self.shared.wf()
        &&& self.local.payload_end - self.local.payload_base <= self.config.local_max_bump_extent
        &&& self.shared.payload_end - self.shared.payload_base <= self.config.shared_max_bump_extent
        &&& self.local.chunk is None ==> !self.local_pinned
        &&& 0 <= self.charged <= u64::MAX
        &&& 0 <= self.wasted <= u64::MAX
        &&& 0 <= self.relocations <= u64::MAX
        &&& 0 <= self.resets <= u64::MAX
    }
}

/// `x` saturated at `u64::MAX`.
pub open spec fn sat64(x: int) -> int {
    if x > u64::MAX { u64::MAX as int } else { x }
}

/// Bytes a value of `layout` occupies in the bump region (at least one, so
/// every value lies strictly inside its chunk).
pub open spec fn bumped_of(layout: Layout) -> int {
    if layout.size == 0 { 1 } else { layout.size as int }
}

/// Back-stack bytes of a request.
pub open spec fn entry_of(needs_drop: bool) -> int {
    if needs_drop { DROP_ENTRY_SIZE as int } else { 0 }
}

/// Refill budget of the value slow path.
pub open spec fn value_needed(layout: Layout, entry: int) -> int {
    layout.size + sat_sub(layout.align as int, WORD_ALIGN as int) + entry
}

/// The local slot after a placement of `bumped` bytes at `value` with
/// `entry` back-stack bytes, for `flavor`.
pub open spec fn slot_after(slot: ChunkState, value: int, bumped: int, entry: int, counts_handle: bool) -> ChunkState {
    ChunkState {
        data: value + bumped,
        drop_back: slot.drop_back - entry,
        issued: if counts_handle { slot.issued + 1 } else { slot.issued },
        ..slot
    }
}

/// The drop entry recorded for a placement.
pub open spec fn entry_after(slot: ChunkState, value: int, entry: int, len: int, noop: bool) -> Option<DropEntry> {
    if entry > 0 {
        Some(DropEntry {
            slot: (slot.drop_back - entry) as usize,
            value_offset: (value - slot.payload_base) as u16,
            len: len as u16,
            noop,
        })
    } else {
        None
    }
}

/// `s` after a local placement: everything but the local slot, the pin
/// flag and the charged bytes is unchanged.
pub open spec fn local_placed(
    s: ArenaState,
    t: ArenaState,
    p: Placement,
    layout: Layout,
    bumped: int,
    entry: int,
    len: int,
    flavor: AllocFlavor,
) -> bool {
    &&& p.chunk == s.local.chunk->0
    &&& p.value == round_up(s.local.data, layout.align as int)
    &&& p.entry == entry_after(s.local, p.value as int, entry, len, flavor == AllocFlavor::Box)
    &&& t == ArenaState {
        local: slot_after(s.local, p.value as int, bumped, entry, flavor != AllocFlavor::SimpleRef),
        local_pinned: s.local_pinned || flavor == AllocFlavor::SimpleRef,
        charged: sat64(s.charged + layout.size),
        ..s
    }
}

/// `s` after a shared (`Arc`) placement.
pub open spec fn shared_placed(
    s: ArenaState,
    t: ArenaState,
    p: Placement,
    layout: Layout,
    bumped: int,
    entry: int,
    len: int,
) -> bool {
    &&& p.chunk == s.shared.chunk->0
    &&& p.value == round_up(s.shared.data, layout.align as int)
    &&& p.entry == entry_after(s.shared, p.value as int, entry, len, false)
    &&& t == ArenaState {
        shared: slot_after(s.shared, p.value as int, bumped, entry, true),
        charged: sat64(s.charged + layout.size),
        ..s
    }
}

/// What a refill asks of the backing allocator, and what left the slot.
#[derive(Clone, Copy, Debug, PartialEq, Eq)]
pub struct RefillRequest {
    /// Payload bytes to request for the fresh chunk.
    pub want: usize,
    /// The chunk that left the slot, if one was installed.
    pub retired: Option<SwapOut>,
    /// The retired chunk was pinned (kept until reset) rather than
    /// released.
    pub pinned: bool,
}

/// The chunks released by a reset.
pub struct ResetReport {
    /// The chunk that left the local slot.
    pub local: Option<SwapOut>,
    /// The chunk that left the shared slot.
    pub shared: Option<SwapOut>,
    /// The pinned chunks, in release order (most recent first).
    pub pinned: Vec<u64>,
}

/// The allocation planner of one arena.
#[derive(Debug)]
pub struct ArenaCore {
    config: ArenaConfig,
    local: CurrentChunk,
    local_pinned: bool,
    shared: CurrentChunk,
    pinned: RetiredChunks,
    charged: u64,
    wasted: u64,
    relocations: u64,
    resets: u64,
}

impl View for ArenaCore {
    type V = ArenaState;

    closed spec fn view(&self) -> ArenaState {
        ArenaState {
            config: self.config,
            local: self.local@,
            local_pinned: self.local_pinned,
            shared: self.shared@,
            pinned: self.pinned@,
            charged: self.charged as int,
            wasted: self.wasted as int,
            relocations: self.relocations as int,
            resets: self.resets as int,
        }
    }
}

/// Saturating `u64` addition.
fn add_sat64(a: u64, b: u64) -> (r: u64)
    ensures
        r == sat64(a + b),
{
    a.saturating_add(b)
}

impl ArenaCore {
    /// An arena with no chunk installed; the first allocation refills.
    pub fn try_from_config(config: ArenaConfig) -> (r: ArenaCore)
        requires
            config.wf(),
        ensures
            r@ == (ArenaState {
                config,
                local: ChunkState::empty(),
                local_pinned: false,
                shared: ChunkState::empty(),
                pinned: Seq::empty(),
                charged: 0,
                wasted: 0,
                relocations: 0,
                resets: 0,
            }),
            r@.wf(),
    {
        ArenaCore {
            config,
            local: CurrentChunk::empty(),
            local_pinned: false,
            shared: CurrentChunk::empty(),
            pinned: RetiredChunks::new(),
            charged: 0,
            wasted: 0,
            relocations: 0,
            resets: 0,
        }
    }

    /// The arena's knobs.
    pub fn config(&self) -> (r: ArenaConfig)
        ensures
            r == self@.config,
    {
        self.config
    }

    /// Smart-pointer handles issued from the current local chunk.
    pub fn local_issued(&self) -> (r: u64)
        ensures
            r == self@.local.issued,
    {
        self.local.smart_pointers_issued()
    }

    /// Smart-pointer handles issued from the current shared chunk.
    pub fn shared_issued(&self) -> (r: u64)
        ensures
            r == self@.shared.issued,
    {
        self.shared.smart_pointers_issued()
    }

    /// The chunk installed in the local slot.
    pub fn local_chunk(&self) -> (r: Option<u64>)
        ensures
            r == self@.local.chunk,
    {
        self.local.chunk()
    }

    /// The chunk installed in the shared slot.
    pub fn shared_chunk(&self) -> (r: Option<u64>)
        ensures
            r == self@.shared.chunk,
    {
        self.shared.chunk()
    }

    /// The local bump cursor.
    pub fn local_data(&self) -> (r: usize)
        ensures
            r == self@.local.data,
    {
        self.local.data()
    }

    /// The local back-stack limit.
    pub fn local_drop_back(&self) -> (r: usize)
        ensures
            r == self@.local.drop_back,
    {
        self.local.drop_back()
    }

    /// The shared bump cursor.
    pub fn shared_data(&self) -> (r: usize)
        ensures
            r == self@.shared.data,
    {
        self.shared.data()
    }

    /// The shared back-stack limit.
    pub fn shared_drop_back(&self) -> (r: usize)
        ensures
            r == self@.shared.drop_back,
    {
        self.shared.drop_back()
    }

    /// The local chunk has handed out an arena-lifetime reference.
    pub fn local_pinned(&self) -> (r: bool)
        ensures
            r == self@.local_pinned,
    {
        self.local_pinned
    }

    /// The wasted-tail, reset and relocation counters.
    pub fn counters(&self) -> (r: (u64, u64, u64))
        ensures
            r == (self@.wasted as u64, self@.resets as u64, self@.relocations as u64),
    {
        (self.wasted, self.resets, self.relocations)
    }

    /// Bytes charged to allocations so far.
    pub fn charged_bytes(&self) -> (r: u64)
        ensures
            r == self@.charged,
    {
        self.charged
    }

    /// Free bytes of the current local chunk.
    pub fn local_free_bytes(&self) -> (r: usize)
        requires
            self@.wf(),
        ensures
            r == self@.local.free_bytes(),
    {
        self.local.wasted_tail()
    }

    /// Free bytes of the current shared chunk.
    pub fn shared_free_bytes(&self) -> (r: usize)
        requires
            self@.wf(),
        ensures
            r == self@.shared.free_bytes(),
    {
        self.shared.wasted_tail()
    }

    /// Number of chunks kept alive until reset.
    pub fn pinned_count(&self) -> (r: usize)
        ensures
            r == self@.pinned.len(),
    {
        self.pinned.len()
    }

    /// Largest single allocation routed through normal chunks.
    pub fn max_normal_alloc(&self) -> (r: usize)
        ensures
            r == self@.config.max_normal_alloc,
    {
        self.config.max_normal_alloc
    }

    /// True iff a request of `min_payload` bytes must be served by a
    /// one-shot oversized chunk.
    pub fn is_oversized(&self, min_payload: usize) -> (r: bool)
        ensures
            r <==> min_payload > self@.config.max_normal_alloc,
    {
        min_payload > self.config.max_normal_alloc
    }

    /// Alignment cap of simple-reference slices.
    pub fn chunk_align_cap(&self) -> (r: usize)
        ensures
            r == self@.config.chunk_align_cap,
    {
        self.config.chunk_align_cap
    }

    /// Alignment cap of smart-pointer and value allocations.
    pub fn smart_ptr_align_cap(&self) -> (r: usize)
        ensures
            r == self@.config.smart_ptr_align_cap,
    {
        self.config.smart_ptr_align_cap
    }

    /// Lower the alignment caps: simple-reference slices are capped at
    /// `cap`, smart pointers and values at `cap / 2`. The caps may only be
    /// lowered.
    pub fn set_align_cap(&mut self, cap: usize)
        requires
            old(self)@.wf(),
            is_pow2(cap as int),
            2 <= cap <= old(self)@.config.chunk_align_cap,
        ensures
            final(self)@ == (ArenaState {
                config: ArenaConfig {
                    chunk_align_cap: cap,
                    smart_ptr_align_cap: (if cap / 2 < old(self)@.config.smart_ptr_align_cap { cap / 2 } else { old(self)@.config.smart_ptr_align_cap }) as usize,
                    ..old(self)@.config
                },
                ..old(self)@
            }),
            final(self)@.wf(),
    {
        let half = cap / 2;
        let smart = if half < self.config.smart_ptr_align_cap { half } else { self.config.smart_ptr_align_cap };
        self.config = ArenaConfig { chunk_align_cap: cap, smart_ptr_align_cap: smart, ..self.config };
        proof {
            assert(cap % 2 == 0 && is_pow2((cap / 2) as int)) by {
                reveal_with_fuel(is_pow2, 2);
            }
        }
    }
}


/// The outcome of a local value allocation (see `try_alloc_inner_value`).
pub open spec fn value_step(s: ArenaState, t: ArenaState, layout: Layout, needs_drop: bool, flavor: AllocFlavor, r: Step) -> bool {
    &&& (layout.align >= s.config.smart_ptr_align_cap ==> r == Step::Failed(AllocError::AlignmentTooLarge)
            && t == s)
    &&& (layout.align < s.config.smart_ptr_align_cap ==> {
            let e = entry_of(needs_drop);
            let b = bumped_of(layout);
            if b <= MAX_CHUNK_BYTES && s.local.chunk is Some
                && bump_fits(s.local.data, s.local.drop_back, layout.align as int, b, e) {
                &&& r is Placed
                &&& local_placed(s, t, r->Placed_0, layout, b, e, 1, flavor)
            } else {
                &&& t == s
                &&& r == (if layout.size > s.config.max_normal_alloc {
                    Step::Oversized { needed: value_needed(layout, e) as usize }
                } else {
                    Step::Refill { needed: value_needed(layout, e) as usize }
                })
            }
        })
}

/// The outcome of a shared value allocation (see `try_alloc_inner_arc`).
pub open spec fn arc_step(s: ArenaState, t: ArenaState, layout: Layout, needs_drop: bool, r: Step) -> bool {
    &&& (layout.align >= s.config.smart_ptr_align_cap ==> r == Step::Failed(AllocError::AlignmentTooLarge)
            && t == s)
    &&& (layout.align < s.config.smart_ptr_align_cap ==> {
            let e = entry_of(needs_drop);
            let b = bumped_of(layout);
            if b > MAX_CHUNK_BYTES {
                t == s && r == Step::Oversized { needed: value_needed(layout, e) as usize }
            } else if s.shared.chunk is Some && bump_fits(s.shared.data, s.shared.drop_back, layout.align as int, b, e) {
                &&& r is Placed
                &&& shared_placed(s, t, r->Placed_0, layout, b, e, 1)
            } else {
                &&& t == s
                &&& r == (if layout.size > s.config.max_normal_alloc {
                    Step::Oversized { needed: value_needed(layout, e) as usize }
                } else {
                    Step::Refill { needed: value_needed(layout, e) as usize }
                })
            }
        })
}

/// The outcome of a local slice allocation (see `try_alloc_slice_local_with`).
pub open spec fn slice_local_step(s: ArenaState, t: ArenaState, elem: Layout, len: usize, has_drop_fn: bool, flavor: AllocFlavor, r: Step) -> bool {
    &&& (r is Failed ==> t == s)
    &&& (!array_ok(elem, len as int) ==> r == Step::Failed(AllocError::CapacityOverflow))
    &&& (array_ok(elem, len as int) && elem.align >= s.config.smart_ptr_align_cap
            ==> r == Step::Failed(AllocError::AlignmentTooLarge))
    &&& (array_ok(elem, len as int) && elem.align < s.config.smart_ptr_align_cap
            && slice_entry(has_drop_fn, len as int) != 0 && len > u16::MAX
            ==> r == Step::Failed(AllocError::Exhausted))
    &&& (array_ok(elem, len as int) && elem.align < s.config.smart_ptr_align_cap
            && !(slice_entry(has_drop_fn, len as int) != 0 && len > u16::MAX) ==> {
            let layout = array_of(elem, len as int);
            let e = slice_entry(has_drop_fn, len as int);
            let b = bumped_of(layout);
            if s.local.chunk is Some && bump_fits(s.local.data, s.local.drop_back, layout.align as int, b, e) {
                &&& r is Placed
                &&& local_placed(s, t, r->Placed_0, layout, b, e, len as int, flavor)
            } else {
                &&& t == s
                &&& r == (if layout.size > s.config.max_normal_alloc {
                    Step::Oversized { needed: value_needed(layout, e) as usize }
                } else {
                    Step::Refill { needed: slice_refill_needed(layout, e) as usize }
                })
            }
        })
}

/// The outcome of a drop-free local slice allocation (see `try_alloc_slice_local_no_drop_with`).
pub open spec fn slice_no_drop_step(s: ArenaState, t: ArenaState, elem: Layout, len: usize, flavor: AllocFlavor, r: Step) -> bool {
    &&& (r is Failed ==> t == s)
    &&& (!array_ok(elem, len as int) ==> r == Step::Failed(AllocError::CapacityOverflow))
    &&& (array_ok(elem, len as int) && elem.align >= no_drop_cap(s.config, flavor)
            ==> r == Step::Failed(AllocError::AlignmentTooLarge))
    &&& (array_ok(elem, len as int) && elem.align < no_drop_cap(s.config, flavor) ==> {
            let layout = array_of(elem, len as int);
            let b = bumped_of(layout);
            if s.local.chunk is Some && bump_fits(s.local.data, s.local.drop_back, layout.align as int, b, 0) {
                &&& r is Placed
                &&& local_placed(s, t, r->Placed_0, layout, b, 0, len as int, flavor)
            } else {
                &&& t == s
                &&& r == (if layout.size > s.config.max_normal_alloc {
                    Step::Oversized { needed: value_needed(layout, 0) as usize }
                } else {
                    Step::Refill { needed: slice_refill_needed(layout, 0) as usize }
                })
            }
        })
}

/// The outcome of a shared slice allocation (see `try_alloc_slice_shared_with`).
pub open spec fn slice_shared_step(s: ArenaState, t: ArenaState, elem: Layout, len: usize, has_drop_fn: bool, r: Step) -> bool {
    &&& (r is Failed ==> t == s)
    &&& (!array_ok(elem, len as int) ==> r == Step::Failed(AllocError::CapacityOverflow))
    &&& (array_ok(elem, len as int) && elem.align >= s.config.smart_ptr_align_cap
            ==> r == Step::Failed(AllocError::AlignmentTooLarge))
    &&& (array_ok(elem, len as int) && elem.align < s.config.smart_ptr_align_cap
            && slice_entry(has_drop_fn, len as int) != 0 && len > u16::MAX
            ==> r == Step::Failed(AllocError::Exhausted))
    &&& (array_ok(elem, len as int) && elem.align < s.config.smart_ptr_align_cap
            && !(slice_entry(has_drop_fn, len as int) != 0 && len > u16::MAX) ==> {
            let layout = array_of(elem, len as int);
            let e = slice_entry(has_drop_fn, len as int);
            let b = bumped_of(layout);
            if s.shared.chunk is Some && bump_fits(s.shared.data, s.shared.drop_back, layout.align as int, b, e) {
                &&& r is Placed
                &&& shared_placed(s, t, r->Placed_0, layout, b, e, len as int)
            } else {
                &&& t == s
                &&& r == (if layout.size > s.config.max_normal_alloc {
                    Step::Oversized { needed: value_needed(layout, e) as usize }
                } else {
                    Step::Refill { needed: slice_refill_needed(layout, e) as usize }
                })
            }
        })
}

/// The outcome of rotating the local chunk out (see `refill_local`).
pub open spec fn refill_local_step(s: ArenaState, t: ArenaState, min_payload: usize, r: Result<RefillRequest, AllocError>) -> bool {
    &&& (min_payload > s.config.local_max_bump_extent ==> r == Err::<RefillRequest, AllocError>(AllocError::Exhausted)
            && t == s)
    &&& (min_payload <= s.config.local_max_bump_extent ==> {
            &&& r is Ok
            &&& r->Ok_0.want == (if min_payload < s.config.default_min_payload { s.config.default_min_payload } else { min_payload })
            &&& r->Ok_0.pinned == s.local_pinned
            &&& s.local.chunk is None ==> r->Ok_0.retired is None && t == s
            &&& s.local.chunk is Some ==> {
                &&& r->Ok_0.retired == Some(SwapOut {
                    chunk: s.local.chunk->0,
                    drop_count: s.local.drop_count() as u16,
                    issued: s.local.issued as u64,
                    wasted: s.local.free_bytes() as usize,
                })
                &&& t == (ArenaState {
                    local: ChunkState::empty(),
                    local_pinned: false,
                    pinned: if s.local_pinned { s.pinned.push(s.local.chunk->0) } else { s.pinned },
                    wasted: if s.local_pinned || s.local.issued > 0 {
                        sat64(s.wasted + s.local.free_bytes())
                    } else {
                        s.wasted
                    },
                    ..s
                })
            }
        })
}

/// The outcome of rotating the shared chunk out (see `refill_shared`).
pub open spec fn refill_shared_step(s: ArenaState, t: ArenaState, min_payload: usize, r: Result<RefillRequest, AllocError>) -> bool {
    &&& (min_payload > s.config.shared_max_bump_extent ==> r == Err::<RefillRequest, AllocError>(AllocError::Exhausted)
            && t == s)
    &&& (min_payload <= s.config.shared_max_bump_extent ==> {
            &&& r is Ok
            &&& r->Ok_0.want == (if min_payload < s.config.default_min_payload { s.config.default_min_payload } else { min_payload })
            &&& !r->Ok_0.pinned
            &&& s.shared.chunk is None ==> r->Ok_0.retired is None && t == s
            &&& s.shared.chunk is Some ==> {
                &&& r->Ok_0.retired == Some(SwapOut {
                    chunk: s.shared.chunk->0,
                    drop_count: s.shared.drop_count() as u16,
                    issued: s.shared.issued as u64,
                    wasted: s.shared.free_bytes() as usize,
                })
                &&& t == (ArenaState {
                    shared: ChunkState::empty(),
                    wasted: if s.shared.issued > 0 { sat64(s.wasted + s.shared.free_bytes()) } else { s.wasted },
                    ..s
                })
            }
        })
}

/// The outcome of a reset (see `reset`): both slots emptied, every pinned
/// chunk released most recent first, the reset counted.
pub open spec fn reset_step(s: ArenaState, t: ArenaState, r: ResetReport) -> bool {
    &&& t == (ArenaState {
        local: ChunkState::empty(),
        local_pinned: false,
        shared: ChunkState::empty(),
        pinned: Seq::empty(),
        resets: sat64(s.resets + 1),
        ..s
    })
    &&& r.pinned@ == s.pinned.reverse()
    &&& r.local == swap_out_of(s.local)
    &&& r.shared == swap_out_of(s.shared)
}

/// What leaves a slot when it is emptied.
pub open spec fn swap_out_of(slot: ChunkState) -> Option<SwapOut> {
    match slot.chunk {
        None => None,
        Some(c) => Some(SwapOut {
            chunk: c,
            drop_count: slot.drop_count() as u16,
            issued: slot.issued as u64,
            wasted: slot.free_bytes() as usize,
        }),
    }
}

/// The outcome of `Allocator::allocate` on the arena (see `allocate`).
pub open spec fn allocate_step(s: ArenaState, t: ArenaState, layout: Layout, r: Step) -> bool {
    &&& (layout.align >= s.config.smart_ptr_align_cap ==> r == Step::Failed(AllocError::AlignmentTooLarge) && t == s)
    &&& (layout.align < s.config.smart_ptr_align_cap && layout.size == 0 ==> r == (Step::Dangling { addr: layout.align })
            && t == s)
    &&& (layout.align < s.config.smart_ptr_align_cap && layout.size > 0 ==> {
            let hint = crate::sizing::sat(layout.size + layout.align);
            if s.local.chunk is Some && bump_fits(s.local.data, s.local.drop_back, layout.align as int, layout.size as int, 0) {
                &&& r is Placed
                &&& local_placed(s, t, r->Placed_0, layout, layout.size as int, 0, 1, AllocFlavor::Rc)
            } else if hint > s.config.max_normal_alloc {
                t == s && r == Step::Oversized { needed: hint as usize }
            } else {
                t == s && r == Step::Refill { needed: hint as usize }
            }
        })
}

/// The outcome of a raw layout allocation (see `allocate_layout`).
pub open spec fn allocate_layout_step(s: ArenaState, t: ArenaState, layout: Layout, r: Step) -> bool {
    &&& (layout.align >= s.config.smart_ptr_align_cap ==> r == Step::Failed(AllocError::AlignmentTooLarge) && t == s)
    &&& (layout.align < s.config.smart_ptr_align_cap ==> {
        let b = bumped_of(layout);
        if layout.size > s.config.max_normal_alloc {
            t == s && r == Step::Oversized { needed: value_needed(layout, 0) as usize }
        } else if s.local.chunk is Some && bump_fits(s.local.data, s.local.drop_back, layout.align as int, b, 0) {
            &&& r is Placed
            &&& local_placed(s, t, r->Placed_0, layout, b, 0, 1, AllocFlavor::Rc)
        } else {
            t == s && r == Step::Refill { needed: value_needed(layout, 0) as usize }
        }
    })
}

impl ArenaCore {
    /// Value allocation in the local slot (references, `Rc`, `Box`).
    ///
    /// Rejects alignments at or above the smart-pointer cap. Otherwise the
    /// value (at least one byte) is bump-placed in the current local chunk
    /// together with a drop entry when it needs dropping; a miss routes to
    /// an oversized chunk when the value is larger than `max_normal_alloc`
    /// and to a refill otherwise.
    pub fn try_alloc_inner_value(&mut self, layout: Layout, needs_drop: bool, flavor: AllocFlavor) -> (r: Step)
        requires
            old(self)@.wf(),
            layout.wf(),
            flavor != AllocFlavor::SimpleRef ==> old(self)@.local.issued + 1 < LARGE - 1,
        ensures
            final(self)@.wf(),
            value_step(old(self)@, final(self)@, layout, needs_drop, flavor, r),
    {
        if layout.align >= self.config.smart_ptr_align_cap {
            return Step::Failed(AllocError::AlignmentTooLarge);
        }
        let entry = entry_size_for(needs_drop);
        let bumped = if layout.size == 0 { 1 } else { layout.size };
        if bumped <= MAX_CHUNK_BYTES {
            if let Some(res) = self.local.try_bump(layout.align, bumped, entry) {
                let chunk = self.local.chunk().unwrap();
                match flavor {
                    AllocFlavor::SimpleRef => {
                        self.local_pinned = true;
                    },
                    _ => {
                        self.local.bump_smart_pointers_issued();
                    },
                }
                self.charged = add_sat64(self.charged, layout.size as u64);
                let rec = if entry > 0 {
                    Some(DropEntry { slot: res.entry_slot, value_offset: res.value_offset, len: 1, noop: flavor == AllocFlavor::Box })
                } else {
                    None
                };
                return Step::Placed(Placement { chunk, value: res.value, entry: rec });
            }
        }
        let needed = slow_refill_needed(layout, entry);
        if layout.size > self.config.max_normal_alloc {
            Step::Oversized { needed }
        } else {
            Step::Refill { needed }
        }
    }

    /// Rotate the local chunk out ahead of installing a fresh one of at
    /// least `min_payload` bytes.
    ///
    /// Requests beyond the local bump extent are refused. Otherwise the
    /// displaced chunk is pinned until reset if it handed out a reference
    /// (and reported for release otherwise). Its free tail is counted as
    /// waste while the chunk stays held — pinned, or kept alive by the
    /// handles it issued; a chunk with neither is released at once and adds
    /// nothing. The slot is left empty for [`Self::install_local`].
    pub fn refill_local(&mut self, min_payload: usize) -> (r: Result<RefillRequest, AllocError>)
        requires
            old(self)@.wf(),
        ensures
            final(self)@.wf(),
            refill_local_step(old(self)@, final(self)@, min_payload, r),
    {
        if min_payload > self.config.local_max_bump_extent {
            return Err(AllocError::Exhausted);
        }
        let pinned = self.local_pinned;
        let retired = self.local.take_out();
        if let Some(out) = retired {
            if pinned || out.issued > 0 {
                self.wasted = add_sat64(self.wasted, out.wasted as u64);
            }
            if pinned {
                self.pinned.push(out.chunk);
            }
        }
        self.local_pinned = false;
        let want = if min_payload < self.config.default_min_payload { self.config.default_min_payload } else { min_payload };
        Ok(RefillRequest { want, retired, pinned })
    }

    /// Install `grant` as the current local chunk. Its bump extent is
    /// capped at the local maximum.
    pub fn install_local(&mut self, grant: ChunkGrant)
        requires
            old(self)@.wf(),
            old(self)@.local.chunk is None,
            grant.wf(),
        ensures
            final(self)@.wf(),
            final(self)@ == (ArenaState { local: installed(grant, old(self)@.config.local_max_bump_extent as int), ..old(self)@ }),
    {
        self.local.install(grant.chunk, grant.payload_base, grant.capacity, self.config.local_max_bump_extent);
    }
}

/// The slot state right after `grant` is installed with the bump extent
/// capped at `max_extent`.
pub open spec fn installed(grant: ChunkGrant, max_extent: int) -> ChunkState {
    let extent = if grant.capacity < max_extent { grant.capacity as int } else { max_extent };
    ChunkState {
        chunk: Some(grant.chunk),
        payload_base: grant.payload_base as int,
        payload_end: grant.payload_base + extent,
        data: grant.payload_base as int,
        drop_back: grant.payload_base + extent,
        issued: 0,
    }
}

/// A refill keeps its promise: once a chunk granted with at least the
/// requested payload is installed, the value that asked for the refill
/// fits in it.
pub proof fn law_refill_then_value_fits(layout: Layout, needs_drop: bool, grant: ChunkGrant, config: ArenaConfig)
    requires
        config.wf(),
        layout.wf(),
        layout.align < config.smart_ptr_align_cap,
        layout.size <= config.max_normal_alloc,
        grant.wf(),
        grant.capacity >= value_needed(layout, entry_of(needs_drop)),
        grant.capacity >= config.default_min_payload,
        value_needed(layout, entry_of(needs_drop)) <= config.local_max_bump_extent,
        layout.size >= 1 || installed(grant, config.local_max_bump_extent as int).payload_end
            - grant.payload_base > value_needed(layout, entry_of(needs_drop)),
    ensures
        bumped_of(layout) <= MAX_CHUNK_BYTES,
        bump_fits(
            installed(grant, config.local_max_bump_extent as int).data,
            installed(grant, config.local_max_bump_extent as int).drop_back,
            layout.align as int,
            bumped_of(layout),
            entry_of(needs_drop),
        ),
{
    crate::align::lemma_word_aligned_padding(grant.payload_base as int, layout.align as int);
}


/// Layout of `len` elements of `elem`, when it does not overflow.
pub open spec fn array_ok(elem: Layout, len: int) -> bool {
    elem.size * len + (elem.align - 1) <= isize::MAX
}

/// The layout of `len` elements of `elem`.
pub open spec fn array_of(elem: Layout, len: int) -> Layout {
    Layout { size: (elem.size * len) as usize, align: elem.align }
}

/// Back-stack bytes of a slice: one entry when the elements need dropping
/// and the slice is not empty.
pub open spec fn slice_entry(has_drop_fn: bool, len: int) -> int {
    if has_drop_fn && len != 0 { DROP_ENTRY_SIZE as int } else { 0 }
}

/// Refill budget of the slice slow path.
pub open spec fn slice_refill_needed(layout: Layout, entry: int) -> int {
    crate::sizing::sat(crate::sizing::sat(layout.size + layout.align) + (if entry != 0 { DROP_ENTRY_SIZE as int } else { 0 }))
}

/// Where a one-shot chunk places its single allocation.
pub open spec fn oversized_value(grant: ChunkGrant, layout: Layout) -> int {
    round_up(grant.payload_base as int, layout.align as int)
}

/// The drop entry of a one-shot chunk: at the very end of its payload.
pub open spec fn oversized_entry(grant: ChunkGrant, layout: Layout, entry: int, len: int, noop: bool) -> Option<DropEntry> {
    if entry > 0 {
        Some(DropEntry {
            slot: (grant.payload_base + grant.capacity - entry) as usize,
            value_offset: (oversized_value(grant, layout) - grant.payload_base) as u16,
            len: len as u16,
            noop,
        })
    } else {
        None
    }
}

impl ArenaCore {
    /// Serve a local allocation (`len` elements of total `layout`) from the
    /// one-shot chunk `grant`, which is never installed as the current
    /// chunk. A reference allocation pins the chunk until reset; `Rc` and
    /// `Box` allocations leave it owned by their handle.
    pub fn place_oversized(&mut self, grant: ChunkGrant, layout: Layout, needs_entry: bool, len: u16, flavor: AllocFlavor) -> (r: Placement)
        requires
            old(self)@.wf(),
            layout.wf(),
            layout.align <= CHUNK_ALIGN,
            grant.wf(),
            grant.capacity >= value_needed(layout, entry_of(needs_entry)),
        ensures
            final(self)@.wf(),
            r.chunk == grant.chunk,
            r.value == oversized_value(grant, layout),
            r.value % layout.align == 0,
            grant.payload_base <= r.value,
            r.value + layout.size + entry_of(needs_entry) <= grant.payload_base + grant.capacity,
            r.entry == oversized_entry(grant, layout, entry_of(needs_entry), len as int, flavor == AllocFlavor::Box),
            r.entry is Some <==> needs_entry,
            r.entry is Some ==> r.entry->0.slot + DROP_ENTRY_SIZE == grant.payload_base + grant.capacity,
            r.entry is Some ==> r.value + layout.size <= r.entry->0.slot,
            r.entry is Some ==> r.entry->0.value_offset == r.value - grant.payload_base,
            final(self)@ == (ArenaState {
                pinned: if flavor == AllocFlavor::SimpleRef { old(self)@.pinned.push(grant.chunk) } else { old(self)@.pinned },
                charged: sat64(old(self)@.charged + layout.size),
                ..old(self)@
            }),
    {
        let entry = entry_size_for(needs_entry);
        proof {
            crate::align::lemma_word_aligned_padding(grant.payload_base as int, layout.align as int);
        }
        let offset = aligned_payload_offset(grant.payload_base, layout.align, layout.size, grant.capacity, entry);
        let value = grant.payload_base + offset;
        let rec = if entry > 0 {
            Some(DropEntry {
                slot: grant.payload_base + grant.capacity - entry,
                value_offset: offset as u16,
                len,
                noop: flavor == AllocFlavor::Box,
            })
        } else {
            None
        };
        if flavor == AllocFlavor::SimpleRef {
            self.pinned.push(grant.chunk);
        }
        self.charged = add_sat64(self.charged, layout.size as u64);
        Placement { chunk: grant.chunk, value, entry: rec }
    }

    /// Serve an `Arc` allocation from the one-shot shared chunk `grant`,
    /// which stays owned by the handle.
    pub fn place_oversized_shared(&mut self, grant: ChunkGrant, layout: Layout, needs_entry: bool, len: u16) -> (r: Placement)
        requires
            old(self)@.wf(),
            layout.wf(),
            layout.align <= CHUNK_ALIGN,
            grant.wf(),
            grant.capacity >= value_needed(layout, entry_of(needs_entry)),
        ensures
            final(self)@.wf(),
            r.chunk == grant.chunk,
            r.value == oversized_value(grant, layout),
            r.value % layout.align == 0,
            grant.payload_base <= r.value,
            r.value + layout.size + entry_of(needs_entry) <= grant.payload_base + grant.capacity,
            r.entry == oversized_entry(grant, layout, entry_of(needs_entry), len as int, false),
            r.entry is Some <==> needs_entry,
            r.entry is Some ==> r.entry->0.slot + DROP_ENTRY_SIZE == grant.payload_base + grant.capacity,
            r.entry is Some ==> r.value + layout.size <= r.entry->0.slot,
            r.entry is Some ==> r.entry->0.value_offset == r.value - grant.payload_base,
            final(self)@ == (ArenaState { charged: sat64(old(self)@.charged + layout.size), ..old(self)@ }),
    {
        let entry = entry_size_for(needs_entry);
        proof {
            crate::align::lemma_word_aligned_padding(grant.payload_base as int, layout.align as int);
        }
        let offset = aligned_payload_offset(grant.payload_base, layout.align, layout.size, grant.capacity, entry);
        let value = grant.payload_base + offset;
        let rec = if entry > 0 {
            Some(DropEntry { slot: grant.payload_base + grant.capacity - entry, value_offset: offset as u16, len, noop: false })
        } else {
            None
        };
        self.charged = add_sat64(self.charged, layout.size as u64);
        Placement { chunk: grant.chunk, value, entry: rec }
    }

    /// Value allocation in the shared slot (`Arc`): every placement counts
    /// one handle and a value that needs dropping gets a real drop entry.
    pub fn try_alloc_inner_arc(&mut self, layout: Layout, needs_drop: bool) -> (r: Step)
        requires
            old(self)@.wf(),
            layout.wf(),
            old(self)@.shared.issued + 1 < LARGE - 1,
        ensures
            final(self)@.wf(),
            arc_step(old(self)@, final(self)@, layout, needs_drop, r),
    {
        if layout.align >= self.config.smart_ptr_align_cap {
            return Step::Failed(AllocError::AlignmentTooLarge);
        }
        let entry = entry_size_for(needs_drop);
        let bumped = if layout.size == 0 { 1 } else { layout.size };
        let needed = slow_refill_needed(layout, entry);
        if bumped > MAX_CHUNK_BYTES {
            return Step::Oversized { needed };
        }
        if let Some(res) = self.shared.try_bump(layout.align, bumped, entry) {
            let chunk = self.shared.chunk().unwrap();
            self.shared.bump_smart_pointers_issued();
            self.charged = add_sat64(self.charged, layout.size as u64);
            let rec = if entry > 0 {
                Some(DropEntry { slot: res.entry_slot, value_offset: res.value_offset, len: 1, noop: false })
            } else {
                None
            };
            return Step::Placed(Placement { chunk, value: res.value, entry: rec });
        }
        if layout.size > self.config.max_normal_alloc {
            Step::Oversized { needed }
        } else {
            Step::Refill { needed }
        }
    }

    /// Rotate the shared chunk out ahead of installing a fresh one of at
    /// least `min_payload` bytes. Shared chunks are never pinned: the
    /// displaced chunk is reported for reconciliation with its handles, and
    /// its free tail counts as waste only while those handles keep it alive
    /// (a chunk that issued none is released at once).
    pub fn refill_shared(&mut self, min_payload: usize) -> (r: Result<RefillRequest, AllocError>)
        requires
            old(self)@.wf(),
        ensures
            final(self)@.wf(),
            refill_shared_step(old(self)@, final(self)@, min_payload, r),
    {
        if min_payload > self.config.shared_max_bump_extent {
            return Err(AllocError::Exhausted);
        }
        let retired = self.shared.take_out();
        if let Some(out) = retired {
            if out.issued > 0 {
                self.wasted = add_sat64(self.wasted, out.wasted as u64);
            }
        }
        let want = if min_payload < self.config.default_min_payload { self.config.default_min_payload } else { min_payload };
        Ok(RefillRequest { want, retired, pinned: false })
    }

    /// Install `grant` as the current shared chunk.
    pub fn install_shared(&mut self, grant: ChunkGrant)
        requires
            old(self)@.wf(),
            old(self)@.shared.chunk is None,
            grant.wf(),
        ensures
            final(self)@.wf(),
            final(self)@ == (ArenaState { shared: installed(grant, old(self)@.config.shared_max_bump_extent as int), ..old(self)@ }),
    {
        self.shared.install(grant.chunk, grant.payload_base, grant.capacity, self.config.shared_max_bump_extent);
    }
}


impl ArenaCore {
    /// Slice allocation of `len` elements of `elem` in the local slot.
    ///
    /// Fails on layout overflow, on alignments at or above the
    /// smart-pointer cap, and when a slice whose elements need dropping
    /// (`has_drop_fn`) is longer than `u16::MAX`. A non-empty slice with a
    /// drop function gets one drop entry covering all its elements (a
    /// no-op entry for `Box`). A miss routes to an oversized chunk above
    /// `max_normal_alloc` and to a refill otherwise.
    pub fn try_alloc_slice_local_with(&mut self, elem: Layout, len: usize, has_drop_fn: bool, flavor: AllocFlavor) -> (r: Step)
        requires
            old(self)@.wf(),
            elem.wf(),
            flavor != AllocFlavor::SimpleRef ==> old(self)@.local.issued + 1 < LARGE - 1,
        ensures
            final(self)@.wf(),
            slice_local_step(old(self)@, final(self)@, elem, len, has_drop_fn, flavor, r),
    {
        let layout = match Layout::array(elem, len) {
            None => {
                return Step::Failed(AllocError::CapacityOverflow);
            },
            Some(l) => l,
        };
        if layout.align >= self.config.smart_ptr_align_cap {
            return Step::Failed(AllocError::AlignmentTooLarge);
        }
        let entry = if has_drop_fn && len != 0 { DROP_ENTRY_SIZE } else { 0 };
        if entry != 0 && len > 65535 {
            return Step::Failed(AllocError::Exhausted);
        }
        let bumped = if layout.size == 0 { 1 } else { layout.size };
        if let Some(res) = self.local.try_bump(layout.align, bumped, entry) {
            let chunk = self.local.chunk().unwrap();
            match flavor {
                AllocFlavor::SimpleRef => {
                    self.local_pinned = true;
                },
                _ => {
                    self.local.bump_smart_pointers_issued();
                },
            }
            self.charged = add_sat64(self.charged, layout.size as u64);
            let rec = if entry > 0 {
                Some(DropEntry { slot: res.entry_slot, value_offset: res.value_offset, len: len as u16, noop: flavor == AllocFlavor::Box })
            } else {
                None
            };
            return Step::Placed(Placement { chunk, value: res.value, entry: rec });
        }
        if layout.size > self.config.max_normal_alloc {
            Step::Oversized { needed: slow_refill_needed(layout, entry) }
        } else {
            Step::Refill { needed: crate::sizing::worst_case_refill_for(layout, entry) }
        }
    }

    /// Slice allocation in the local slot for elements that never need
    /// dropping: no drop entry, and simple references are capped at the
    /// chunk alignment rather than the smart-pointer alignment.
    pub fn try_alloc_slice_local_no_drop_with(&mut self, elem: Layout, len: usize, flavor: AllocFlavor) -> (r: Step)
        requires
            old(self)@.wf(),
            elem.wf(),
            flavor != AllocFlavor::SimpleRef ==> old(self)@.local.issued + 1 < LARGE - 1,
        ensures
            final(self)@.wf(),
            slice_no_drop_step(old(self)@, final(self)@, elem, len, flavor, r),
    {
        let layout = match Layout::array(elem, len) {
            None => {
                return Step::Failed(AllocError::CapacityOverflow);
            },
            Some(l) => l,
        };
        let cap = match flavor {
            AllocFlavor::SimpleRef => self.config.chunk_align_cap,
            _ => self.config.smart_ptr_align_cap,
        };
        if layout.align >= cap {
            return Step::Failed(AllocError::AlignmentTooLarge);
        }
        let bumped = if layout.size == 0 { 1 } else { layout.size };
        if let Some(res) = self.local.try_bump(layout.align, bumped, 0) {
            let chunk = self.local.chunk().unwrap();
            match flavor {
                AllocFlavor::SimpleRef => {
                    self.local_pinned = true;
                },
                _ => {
                    self.local.bump_smart_pointers_issued();
                },
            }
            self.charged = add_sat64(self.charged, layout.size as u64);
            return Step::Placed(Placement { chunk, value: res.value, entry: None });
        }
        if layout.size > self.config.max_normal_alloc {
            Step::Oversized { needed: slow_refill_needed(layout, 0) }
        } else {
            Step::Refill { needed: crate::sizing::compute_worst_case_size(layout, false) }
        }
    }

    /// Slice allocation of `len` elements of `elem` in the shared slot
    /// (`Arc<[T]>`). Same checks and routing as the local slice path; the
    /// drop entry is always real and every placement counts one handle.
    pub fn try_alloc_slice_shared_with(&mut self, elem: Layout, len: usize, has_drop_fn: bool) -> (r: Step)
        requires
            old(self)@.wf(),
            elem.wf(),
            old(self)@.shared.issued + 1 < LARGE - 1,
        ensures
            final(self)@.wf(),
            slice_shared_step(old(self)@, final(self)@, elem, len, has_drop_fn, r),
    {
        let layout = match Layout::array(elem, len) {
            None => {
                return Step::Failed(AllocError::CapacityOverflow);
            },
            Some(l) => l,
        };
        if layout.align >= self.config.smart_ptr_align_cap {
            return Step::Failed(AllocError::AlignmentTooLarge);
        }
        let entry = if has_drop_fn && len != 0 { DROP_ENTRY_SIZE } else { 0 };
        if entry != 0 && len > 65535 {
            return Step::Failed(AllocError::Exhausted);
        }
        let bumped = if layout.size == 0 { 1 } else { layout.size };
        if let Some(res) = self.shared.try_bump(layout.align, bumped, entry) {
            let chunk = self.shared.chunk().unwrap();
            self.shared.bump_smart_pointers_issued();
            self.charged = add_sat64(self.charged, layout.size as u64);
            let rec = if entry > 0 {
                Some(DropEntry { slot: res.entry_slot, value_offset: res.value_offset, len: len as u16, noop: false })
            } else {
                None
            };
            return Step::Placed(Placement { chunk, value: res.value, entry: rec });
        }
        if layout.size > self.config.max_normal_alloc {
            Step::Oversized { needed: slow_refill_needed(layout, entry) }
        } else {
            Step::Refill { needed: crate::sizing::worst_case_refill_for(layout, entry) }
        }
    }
}

/// The relocation layout of a string buffer of `new_size` bytes is valid.
pub open spec fn string_layout_ok(new_size: usize, align: usize) -> bool {
    is_pow2(align as int) && (if new_size == 0 { 1 } else { new_size as int }) + (align - 1) <= isize::MAX
}

/// Alignment cap of a drop-free local slice: the chunk cap for simple
/// references, the smart-pointer cap for `Rc` and `Box`.
pub open spec fn no_drop_cap(config: ArenaConfig, flavor: AllocFlavor) -> int {
    if flavor == AllocFlavor::SimpleRef { config.chunk_align_cap as int } else { config.smart_ptr_align_cap as int }
}


impl ArenaCore {
    /// Allocate `layout` for a raw allocator client in the local slot; the
    /// caller owns one chunk reference per placement.
    ///
    /// Rejects alignments at or above the smart-pointer cap and routes
    /// requests above `max_normal_alloc` to an oversized chunk up front.
    pub fn allocate_layout(&mut self, layout: Layout) -> (r: Step)
        requires
            old(self)@.wf(),
            layout.wf(),
            old(self)@.local.issued + 1 < LARGE - 1,
        ensures
            final(self)@.wf(),
            allocate_layout_step(old(self)@, final(self)@, layout, r),
    {
        if layout.align >= self.config.smart_ptr_align_cap {
            return Step::Failed(AllocError::AlignmentTooLarge);
        }
        let needed = slow_refill_needed(layout, 0);
        if layout.size > self.config.max_normal_alloc {
            return Step::Oversized { needed };
        }
        let bumped = if layout.size == 0 { 1 } else { layout.size };
        if let Some(res) = self.local.try_bump(layout.align, bumped, 0) {
            let chunk = self.local.chunk().unwrap();
            self.local.bump_smart_pointers_issued();
            self.charged = add_sat64(self.charged, layout.size as u64);
            return Step::Placed(Placement { chunk, value: res.value, entry: None });
        }
        Step::Refill { needed }
    }

    /// `Allocator::allocate` on the arena: zero-sized requests get a
    /// dangling aligned address; others are bump-placed with one alignment
    /// of slack in the refill hint, or served by an oversized chunk when the
    /// hint exceeds `max_normal_alloc`.
    pub fn allocate(&mut self, layout: Layout) -> (r: Step)
        requires
            old(self)@.wf(),
            layout.wf(),
            old(self)@.local.issued + 1 < LARGE - 1,
        ensures
            final(self)@.wf(),
            allocate_step(old(self)@, final(self)@, layout, r),
    {
        if layout.align >= self.config.smart_ptr_align_cap {
            return Step::Failed(AllocError::AlignmentTooLarge);
        }
        if layout.size == 0 {
            return Step::Dangling { addr: layout.align };
        }
        let hint = layout.size.saturating_add(layout.align);
        if let Some(res) = self.local.try_bump(layout.align, layout.size, 0) {
            let chunk = self.local.chunk().unwrap();
            self.local.bump_smart_pointers_issued();
            self.charged = add_sat64(self.charged, layout.size as u64);
            return Step::Placed(Placement { chunk, value: res.value, entry: None });
        }
        if self.is_oversized(hint) {
            Step::Oversized { needed: hint }
        } else {
            Step::Refill { needed: hint }
        }
    }

    /// `Allocator::deallocate`: whether the block owns a chunk reference
    /// that must be released (zero-sized blocks own none).
    pub fn deallocate(&self, layout: Layout) -> (r: bool)
        ensures
            r <==> layout.size != 0,
    {
        layout.size != 0
    }

    /// Grow the allocation at `base_addr` from `old_bytes` to `new_bytes`
    /// in place: it must end at the local bump cursor and the chunk must
    /// have room. The growth is charged to the statistics.
    pub fn try_grow_in_place(&mut self, base_addr: usize, old_bytes: usize, new_bytes: usize) -> (r: bool)
        requires
            old(self)@.wf(),
            new_bytes >= old_bytes,
        ensures
            final(self)@.wf(),
            r <==> (old(self)@.local.chunk is Some && base_addr + old_bytes == old(self)@.local.data
                && old(self)@.local.data + (new_bytes - old_bytes) <= old(self)@.local.drop_back),
            r ==> final(self)@ == (ArenaState {
                local: ChunkState { data: old(self)@.local.data + (new_bytes - old_bytes), ..old(self)@.local },
                charged: sat64(old(self)@.charged + (new_bytes - old_bytes)),
                ..old(self)@
            }),
            !r ==> final(self)@ == old(self)@,
    {
        let grown = self.local.try_grow_in_place(base_addr, old_bytes, new_bytes);
        if grown {
            self.charged = add_sat64(self.charged, (new_bytes - old_bytes) as u64);
        }
        grown
    }

    /// `Allocator::grow`: in place when the alignment is unchanged and the
    /// block can grow at the cursor, otherwise by relocation.
    pub fn grow(&mut self, base_addr: usize, old_layout: Layout, new_layout: Layout) -> (r: Resize)
        requires
            old(self)@.wf(),
            new_layout.size >= old_layout.size,
        ensures
            final(self)@.wf(),
            (r == Resize::InPlace) <==> (new_layout.align == old_layout.align && old(self)@.local.chunk is Some
                && base_addr + old_layout.size == old(self)@.local.data
                && old(self)@.local.data + (new_layout.size - old_layout.size) <= old(self)@.local.drop_back),
            r == Resize::InPlace ==> final(self)@ == (ArenaState {
                local: ChunkState { data: old(self)@.local.data + (new_layout.size - old_layout.size), ..old(self)@.local },
                charged: sat64(old(self)@.charged + (new_layout.size - old_layout.size)),
                ..old(self)@
            }),
            r == Resize::Relocate ==> final(self)@ == old(self)@,
    {
        if new_layout.align == old_layout.align && self.try_grow_in_place(base_addr, old_layout.size, new_layout.size) {
            Resize::InPlace
        } else {
            Resize::Relocate
        }
    }

    /// `Allocator::shrink`: a non-empty block with unchanged alignment keeps
    /// its (larger) storage; anything else is relocated.
    pub fn shrink(&self, old_layout: Layout, new_layout: Layout) -> (r: Resize)
        ensures
            (r == Resize::InPlace) <==> (new_layout.size != 0 && new_layout.align == old_layout.align),
    {
        if new_layout.size != 0 && new_layout.align == old_layout.align {
            Resize::InPlace
        } else {
            Resize::Relocate
        }
    }

    /// Growth of a string buffer at `ptr_addr` from `old_size` to
    /// `new_size` bytes: in place when the buffer ends at the local cursor
    /// and the chunk has room, otherwise relocation into a fresh block of
    /// the returned layout (see [`Self::allocate_layout`]).
    pub fn grow_for_string(&mut self, ptr_addr: usize, old_size: usize, new_size: usize, align: usize) -> (r: Result<Option<Layout>, AllocError>)
        requires
            old(self)@.wf(),
            new_size >= old_size,
        ensures
            final(self)@.wf(),
            new_size > crate::align::isize_limit_for(align as int) ==> r == Err::<Option<Layout>, AllocError>(AllocError::CapacityOverflow)
                && final(self)@ == old(self)@,
            new_size <= crate::align::isize_limit_for(align as int) ==> {
                let s = old(self)@;
                if s.local.chunk is Some && ptr_addr + old_size == s.local.data && s.local.data + (new_size - old_size) <= s.local.drop_back {
                    &&& r == Ok::<Option<Layout>, AllocError>(None)
                    &&& final(self)@ == (ArenaState {
                        local: ChunkState { data: s.local.data + (new_size - old_size), ..s.local },
                        charged: sat64(s.charged + (new_size - old_size)),
                        ..s
                    })
                } else {
                    &&& final(self)@ == s
                    &&& string_layout_ok(new_size, align) ==> r == Ok::<Option<Layout>, AllocError>(Some(Layout {
                        size: if new_size == 0 { 1 } else { new_size },
                        align,
                    }))
                    &&& !string_layout_ok(new_size, align) ==> r == Err::<Option<Layout>, AllocError>(AllocError::CapacityOverflow)
                }
            },
    {
        crate::align::check_isize_overflow(new_size, align)?;
        if self.try_grow_in_place(ptr_addr, old_size, new_size) {
            return Ok(None);
        }
        let size = if new_size == 0 { 1 } else { new_size };
        match Layout::from_size_align(size, align) {
            Some(l) => Ok(Some(l)),
            None => Err(AllocError::CapacityOverflow),
        }
    }

    /// Count one growing-buffer relocation.
    pub fn record_relocation(&mut self)
        requires
            old(self)@.wf(),
        ensures
            final(self)@.wf(),
            final(self)@ == (ArenaState { relocations: sat64(old(self)@.relocations + 1), ..old(self)@ }),
    {
        self.relocations = add_sat64(self.relocations, 1);
    }

    /// Move the local cursor back by `reclaim_bytes` when a buffer ending at
    /// `buffer_end` is the most recent allocation.
    pub fn try_shrink_at_cursor(&mut self, buffer_end: usize, reclaim_bytes: usize) -> (r: bool)
        requires
            old(self)@.wf(),
            buffer_end == old(self)@.local.data && old(self)@.local.chunk is Some
                ==> old(self)@.local.payload_base + reclaim_bytes <= buffer_end,
        ensures
            final(self)@.wf(),
            r <==> (buffer_end == old(self)@.local.data && old(self)@.local.chunk is Some),
            r ==> final(self)@ == (ArenaState {
                local: ChunkState { data: old(self)@.local.data - reclaim_bytes, ..old(self)@.local },
                ..old(self)@
            }),
            !r ==> final(self)@ == old(self)@,
    {
        self.local.try_shrink_at_cursor(buffer_end, reclaim_bytes)
    }

    /// Record a drop entry for a buffer of `len` elements at `value_addr`
    /// that was allocated in chunk `owner`. Only the current local chunk can
    /// take one, and only when the entry slot does not collide with
    /// allocated payload.
    pub fn try_install_slice_drop_entry(&mut self, owner: u64, value_addr: usize, len: u16) -> (r: Option<DropEntry>)
        requires
            old(self)@.wf(),
            old(self)@.local.chunk == Some(owner) ==> old(self)@.local.payload_base <= value_addr < old(self)@.local.payload_end,
        ensures
            final(self)@.wf(),
            r is Some <==> (old(self)@.local.chunk == Some(owner)
                && old(self)@.local.drop_back - DROP_ENTRY_SIZE >= old(self)@.local.data),
            r is Some ==> {
                &&& r->0 == (DropEntry {
                    slot: (old(self)@.local.drop_back - DROP_ENTRY_SIZE) as usize,
                    value_offset: (value_addr - old(self)@.local.payload_base) as u16,
                    len,
                    noop: false,
                })
                &&& final(self)@ == (ArenaState {
                    local: ChunkState { drop_back: old(self)@.local.drop_back - DROP_ENTRY_SIZE, ..old(self)@.local },
                    ..old(self)@
                })
            },
            r is None ==> final(self)@ == old(self)@,
    {
        match self.local.try_install_drop_entry(owner, value_addr) {
            None => None,
            Some(slot) => Some(DropEntry { slot: slot.slot, value_offset: slot.value_offset, len, noop: false }),
        }
    }

    /// Reset for a new allocation phase: both slots are emptied and every
    /// pinned chunk is released, most recently pinned first. A released
    /// chunk's tail leaves the wasted-tail gauge when the backing side gives
    /// the chunk back (`release_retired_tail`); a chunk still held by handles
    /// keeps it there.
    pub fn reset(&mut self) -> (r: ResetReport)
        requires
            old(self)@.wf(),
        ensures
            final(self)@.wf(),
            reset_step(old(self)@, final(self)@, r),
    {
        let pinned = self.pinned.clear();
        let local = self.local.take_out();
        let shared = self.shared.take_out();
        self.local_pinned = false;
        self.resets = add_sat64(self.resets, 1);
        ResetReport { local, shared, pinned }
    }
}


impl ArenaCore {
    /// `try_alloc_with`: an arena-lifetime reference to one value.
    pub fn try_alloc_with(&mut self, layout: Layout, needs_drop: bool) -> (r: Step)
        requires
            old(self)@.wf(),
            layout.wf(),
        ensures
            final(self)@.wf(),
            value_step(old(self)@, final(self)@, layout, needs_drop, AllocFlavor::SimpleRef, r),
    {
        self.try_alloc_inner_value(layout, needs_drop, AllocFlavor::SimpleRef)
    }

    /// `try_alloc_rc_with`: one value owned by an `Rc`.
    pub fn try_alloc_rc_with(&mut self, layout: Layout, needs_drop: bool) -> (r: Step)
        requires
            old(self)@.wf(),
            layout.wf(),
            old(self)@.local.issued + 1 < LARGE - 1,
        ensures
            final(self)@.wf(),
            value_step(old(self)@, final(self)@, layout, needs_drop, AllocFlavor::Rc, r),
    {
        self.try_alloc_inner_value(layout, needs_drop, AllocFlavor::Rc)
    }

    /// `try_alloc_box_with`: one value owned by a `Box`.
    pub fn try_alloc_box_with(&mut self, layout: Layout, needs_drop: bool) -> (r: Step)
        requires
            old(self)@.wf(),
            layout.wf(),
            old(self)@.local.issued + 1 < LARGE - 1,
        ensures
            final(self)@.wf(),
            value_step(old(self)@, final(self)@, layout, needs_drop, AllocFlavor::Box, r),
    {
        self.try_alloc_inner_value(layout, needs_drop, AllocFlavor::Box)
    }

    /// `try_alloc_uninit_box`: uninitialized storage for one value in a
    /// `Box` (uninitialized storage needs no drop entry).
    pub fn try_alloc_uninit_box(&mut self, layout: Layout) -> (r: Step)
        requires
            old(self)@.wf(),
            layout.wf(),
            old(self)@.local.issued + 1 < LARGE - 1,
        ensures
            final(self)@.wf(),
            value_step(old(self)@, final(self)@, layout, false, AllocFlavor::Box, r),
    {
        self.try_alloc_inner_value(layout, false, AllocFlavor::Box)
    }

    /// `try_alloc_uninit_box_pin`: like `try_alloc_uninit_box`; pinning
    /// does not change the placement.
    pub fn try_alloc_uninit_box_pin(&mut self, layout: Layout) -> (r: Step)
        requires
            old(self)@.wf(),
            layout.wf(),
            old(self)@.local.issued + 1 < LARGE - 1,
        ensures
            final(self)@.wf(),
            value_step(old(self)@, final(self)@, layout, false, AllocFlavor::Box, r),
    {
        self.try_alloc_uninit_box(layout)
    }

    /// `try_alloc_arc_with`: one value owned by an `Arc`.
    pub fn try_alloc_arc_with(&mut self, layout: Layout, needs_drop: bool) -> (r: Step)
        requires
            old(self)@.wf(),
            layout.wf(),
            old(self)@.shared.issued + 1 < LARGE - 1,
        ensures
            final(self)@.wf(),
            arc_step(old(self)@, final(self)@, layout, needs_drop, r),
    {
        self.try_alloc_inner_arc(layout, needs_drop)
    }

    /// `try_alloc_uninit_arc`: uninitialized storage for one value in an
    /// `Arc`.
    pub fn try_alloc_uninit_arc(&mut self, layout: Layout) -> (r: Step)
        requires
            old(self)@.wf(),
            layout.wf(),
            old(self)@.shared.issued + 1 < LARGE - 1,
        ensures
            final(self)@.wf(),
            arc_step(old(self)@, final(self)@, layout, false, r),
    {
        self.try_alloc_inner_arc(layout, false)
    }

    /// `try_alloc_slice_fill_with_arc`: `len` elements owned by an
    /// `Arc<[T]>`.
    pub fn try_alloc_slice_fill_with_arc(&mut self, elem: Layout, len: usize, needs_drop: bool) -> (r: Step)
        requires
            old(self)@.wf(),
            elem.wf(),
            old(self)@.shared.issued + 1 < LARGE - 1,
        ensures
            final(self)@.wf(),
            elem.align >= old(self)@.config.smart_ptr_align_cap ==> r == Step::Failed(AllocError::AlignmentTooLarge)
                && final(self)@ == old(self)@,
            elem.align < old(self)@.config.smart_ptr_align_cap ==> slice_shared_step(old(self)@, final(self)@, elem, len, needs_drop, r),
    {
        if let Err(e) = crate::sizing::check_slice_arc_layout(elem.align, self.config.smart_ptr_align_cap) {
            return Step::Failed(e);
        }
        self.try_alloc_slice_shared_with(elem, len, needs_drop)
    }

    /// `try_alloc_uninit_slice_arc`: uninitialized storage for `len`
    /// elements in an `Arc<[T]>`.
    pub fn try_alloc_uninit_slice_arc(&mut self, elem: Layout, len: usize) -> (r: Step)
        requires
            old(self)@.wf(),
            elem.wf(),
            old(self)@.shared.issued + 1 < LARGE - 1,
        ensures
            final(self)@.wf(),
            elem.align >= old(self)@.config.smart_ptr_align_cap ==> r == Step::Failed(AllocError::AlignmentTooLarge)
                && final(self)@ == old(self)@,
            elem.align < old(self)@.config.smart_ptr_align_cap ==> slice_shared_step(old(self)@, final(self)@, elem, len, false, r),
    {
        self.try_alloc_slice_fill_with_arc(elem, len, false)
    }

    /// `try_alloc_slice_fill_with_box`: `len` elements owned by a thin
    /// `Box<[T]>` in the shared slot. Elements that need dropping are
    /// capped at `u16::MAX`; the box drops them itself, so no drop entry is
    /// recorded.
    pub fn try_alloc_slice_fill_with_box(&mut self, elem: Layout, len: usize, needs_drop: bool) -> (r: Step)
        requires
            old(self)@.wf(),
            elem.wf(),
            old(self)@.shared.issued + 1 < LARGE - 1,
        ensures
            final(self)@.wf(),
            elem.align >= old(self)@.config.smart_ptr_align_cap ==> r == Step::Failed(AllocError::AlignmentTooLarge)
                && final(self)@ == old(self)@,
            elem.align < old(self)@.config.smart_ptr_align_cap && needs_drop && len > u16::MAX
                ==> r == Step::Failed(AllocError::Exhausted) && final(self)@ == old(self)@,
            elem.align < old(self)@.config.smart_ptr_align_cap && !(needs_drop && len > u16::MAX)
                ==> thin_slice_step(old(self)@, final(self)@, elem, len, r),
    {
        if let Err(e) = crate::sizing::check_slice_box_layout(elem.align, needs_drop, len, self.config.smart_ptr_align_cap) {
            return Step::Failed(e);
        }
        self.try_alloc_thin_slice_shared(elem, len)
    }

    /// `try_alloc_uninit_slice_box`: uninitialized storage for `len`
    /// elements in a `Box<[T]>`.
    pub fn try_alloc_uninit_slice_box(&mut self, elem: Layout, len: usize) -> (r: Step)
        requires
            old(self)@.wf(),
            elem.wf(),
            old(self)@.shared.issued + 1 < LARGE - 1,
        ensures
            final(self)@.wf(),
            elem.align >= old(self)@.config.smart_ptr_align_cap ==> r == Step::Failed(AllocError::AlignmentTooLarge)
                && final(self)@ == old(self)@,
            elem.align < old(self)@.config.smart_ptr_align_cap ==> thin_slice_step(old(self)@, final(self)@, elem, len, r),
    {
        self.try_alloc_slice_fill_with_box(elem, len, false)
    }

    /// `try_alloc_slice_fill_with`: `len` elements behind an arena-lifetime
    /// reference. Alignments at or above the chunk cap are rejected up
    /// front; elements that need dropping then take the drop-aware path.
    pub fn try_alloc_slice_fill_with(&mut self, elem: Layout, len: usize, needs_drop: bool) -> (r: Step)
        requires
            old(self)@.wf(),
            elem.wf(),
        ensures
            final(self)@.wf(),
            elem.align >= old(self)@.config.chunk_align_cap ==> r == Step::Failed(AllocError::AlignmentTooLarge)
                && final(self)@ == old(self)@,
            elem.align < old(self)@.config.chunk_align_cap && needs_drop
                ==> slice_local_step(old(self)@, final(self)@, elem, len, true, AllocFlavor::SimpleRef, r),
            elem.align < old(self)@.config.chunk_align_cap && !needs_drop
                ==> slice_no_drop_step(old(self)@, final(self)@, elem, len, AllocFlavor::SimpleRef, r),
    {
        if let Err(e) = crate::sizing::reject_over_aligned(elem.align, self.config.chunk_align_cap) {
            return Step::Failed(e);
        }
        if needs_drop {
            self.try_alloc_slice_local_with(elem, len, true, AllocFlavor::SimpleRef)
        } else {
            self.try_alloc_slice_local_no_drop_with(elem, len, AllocFlavor::SimpleRef)
        }
    }

    /// `try_alloc_slice_copy`: a copy of a slice of `len` elements of `elem`
    /// behind an arena-lifetime reference (copyable elements never need
    /// dropping).
    pub fn try_alloc_slice_copy(&mut self, elem: Layout, len: usize) -> (r: Step)
        requires
            old(self)@.wf(),
            elem.wf(),
        ensures
            final(self)@.wf(),
            elem.align >= old(self)@.config.chunk_align_cap ==> r == Step::Failed(AllocError::AlignmentTooLarge)
                && final(self)@ == old(self)@,
            elem.align < old(self)@.config.chunk_align_cap
                ==> slice_no_drop_step(old(self)@, final(self)@, elem, len, AllocFlavor::SimpleRef, r),
    {
        self.try_alloc_slice_fill_with(elem, len, false)
    }
}


/// Bytes of a length-prefixed payload of `len` elements of `elem`: the
/// elements, but at least one alignment unit so the payload address stays
/// inside the reservation.
pub open spec fn prefixed_payload_bytes(elem: Layout, len: int) -> int {
    if elem.size * len < elem.align { elem.align as int } else { elem.size * len }
}

/// The reservation of a length-prefixed payload: the prefix, then the
/// payload, aligned to the element alignment.
pub open spec fn prefixed_layout(elem: Layout, len: int) -> Layout {
    Layout { size: (PREFIX_BYTES + prefixed_payload_bytes(elem, len)) as usize, align: elem.align }
}

/// The outcome of a length-prefixed allocation in the local slot (see
/// `try_alloc_prefixed_shared`).
pub open spec fn prefixed_step(s: ArenaState, t: ArenaState, elem: Layout, len: usize, r: Step) -> bool {
    let total = PREFIX_BYTES + prefixed_payload_bytes(elem, len as int);
    let layout = prefixed_layout(elem, len as int);
    if total > usize::MAX {
        t == s && r == Step::Failed(AllocError::CapacityOverflow)
    } else if s.local.chunk is Some && bump_fits(s.local.data, s.local.drop_back, elem.align as int, total, 0) {
        &&& r is Placed
        &&& local_placed(s, t, r->Placed_0, layout, total, 0, 1, AllocFlavor::Box)
    } else {
        &&& t == s
        &&& r == (if total > s.config.max_normal_alloc {
            Step::Oversized { needed: total as usize }
        } else {
            Step::Refill { needed: total as usize }
        })
    }
}

/// Offset of an unsized value's payload within its reservation: after
/// `meta_bytes` of allocation-resident metadata, rounded up to the value's
/// alignment; zero when there is no metadata.
pub open spec fn dst_payload_offset(meta_bytes: int, align: int) -> int {
    if meta_bytes == 0 { 0 } else if meta_bytes < align { align } else { meta_bytes }
}

/// The outcome of an unsized `Box` allocation in the local slot (see
/// `try_alloc_dst_box`).
pub open spec fn dst_box_step(s: ArenaState, t: ArenaState, layout: Layout, meta_bytes: usize, r: Step) -> bool {
    let total = dst_payload_offset(meta_bytes as int, layout.align as int) + bumped_of(layout);
    let hint = crate::sizing::sat(total + layout.align);
    if layout.align >= s.config.smart_ptr_align_cap {
        t == s && r == Step::Failed(AllocError::AlignmentTooLarge)
    } else if total > usize::MAX {
        t == s && r == Step::Failed(AllocError::CapacityOverflow)
    } else if s.local.chunk is Some && bump_fits(s.local.data, s.local.drop_back, layout.align as int, total, 0) {
        &&& r is Placed
        &&& local_placed(s, t, r->Placed_0, Layout { size: total as usize, align: layout.align }, total, 0, 1, AllocFlavor::Box)
    } else {
        &&& t == s
        &&& r == (if hint > s.config.max_normal_alloc {
            Step::Oversized { needed: hint as usize }
        } else {
            Step::Refill { needed: hint as usize }
        })
    }
}

/// The outcome of a raw layout allocation in the shared slot (see
/// `allocate_shared_layout`).
pub open spec fn allocate_shared_layout_step(s: ArenaState, t: ArenaState, layout: Layout, r: Step) -> bool {
    if layout.size > s.config.max_normal_alloc {
        t == s && r == Step::Oversized { needed: value_needed(layout, 0) as usize }
    } else if s.shared.chunk is Some && bump_fits(s.shared.data, s.shared.drop_back, layout.align as int, bumped_of(layout), 0) {
        &&& r is Placed
        &&& shared_placed(s, t, r->Placed_0, layout, bumped_of(layout), 0, 1)
    } else {
        t == s && r == Step::Refill { needed: value_needed(layout, 0) as usize }
    }
}

impl ArenaCore {
    /// Length-prefixed allocation of `len` elements of `elem` for a thin
    /// `Box<str>` / `Box<[T]>` handle: `PREFIX_BYTES` of element count, then
    /// the payload (at least one alignment unit), reserved aligned to the
    /// element alignment, which is at most a word so the payload after the
    /// prefix is aligned too. The placement's address is that of the prefix;
    /// the payload starts `PREFIX_BYTES` later. A miss routes to an
    /// oversized chunk above `max_normal_alloc` and to a refill otherwise.
    pub fn try_alloc_prefixed_shared(&mut self, elem: Layout, len: usize) -> (r: Step)
        requires
            old(self)@.wf(),
            elem.wf(),
            elem.align <= WORD_ALIGN,
            old(self)@.local.issued + 1 < LARGE - 1,
        ensures
            final(self)@.wf(),
            prefixed_step(old(self)@, final(self)@, elem, len, r),
    {
        let bytes = match len.checked_mul(elem.size) {
            None => {
                proof {
                    assert(elem.size * len == len * elem.size) by (nonlinear_arith);
                }
                return Step::Failed(AllocError::CapacityOverflow);
            },
            Some(b) => b,
        };
        proof {
            assert(elem.size * len == len * elem.size) by (nonlinear_arith);
        }
        let payload = if bytes < elem.align { elem.align } else { bytes };
        let total = match PREFIX_BYTES.checked_add(payload) {
            None => {
                return Step::Failed(AllocError::CapacityOverflow);
            },
            Some(t) => t,
        };
        if let Some(res) = self.local.try_bump(elem.align, total, 0) {
            let chunk = self.local.chunk().unwrap();
            self.local.bump_smart_pointers_issued();
            self.charged = add_sat64(self.charged, total as u64);
            return Step::Placed(Placement { chunk, value: res.value, entry: None });
        }
        if total > self.config.max_normal_alloc {
            Step::Oversized { needed: total }
        } else {
            Step::Refill { needed: total }
        }
    }

    /// Length-prefixed allocation of `len` bytes (`Box<str>`): the payload
    /// is at least one byte.
    pub fn try_alloc_prefixed_shared_bytes(&mut self, len: usize) -> (r: Step)
        requires
            old(self)@.wf(),
            old(self)@.local.issued + 1 < LARGE - 1,
        ensures
            final(self)@.wf(),
            prefixed_step(old(self)@, final(self)@, Layout { size: 1, align: 1 }, len, r),
    {
        proof {
            assert(is_pow2(1));
        }
        self.try_alloc_prefixed_shared(Layout { size: 1, align: 1 }, len)
    }

    /// Unsized-value allocation for a `Box<T>` whose metadata
    /// (`meta_bytes`) lives in the allocation: rejects alignments at or
    /// above the smart-pointer cap; reserves the metadata, rounded up to
    /// the value's alignment, followed by the value (at least one byte).
    /// The refill hint adds one alignment of slack. The placement's address
    /// is that of the reservation; the payload starts
    /// `dst_payload_offset(meta_bytes, align)` later.
    pub fn try_alloc_dst_box(&mut self, layout: Layout, meta_bytes: usize) -> (r: Step)
        requires
            old(self)@.wf(),
            layout.wf(),
            old(self)@.local.issued + 1 < LARGE - 1,
        ensures
            final(self)@.wf(),
            dst_box_step(old(self)@, final(self)@, layout, meta_bytes, r),
    {
        if layout.align >= self.config.smart_ptr_align_cap {
            return Step::Failed(AllocError::AlignmentTooLarge);
        }
        let payload_offset = if meta_bytes == 0 {
            0
        } else if meta_bytes < layout.align {
            layout.align
        } else {
            meta_bytes
        };
        let value_bytes = if layout.size == 0 { 1 } else { layout.size };
        let total = match payload_offset.checked_add(value_bytes) {
            None => {
                return Step::Failed(AllocError::CapacityOverflow);
            },
            Some(t) => t,
        };
        let hint = total.saturating_add(layout.align);
        if let Some(res) = self.local.try_bump(layout.align, total, 0) {
            let chunk = self.local.chunk().unwrap();
            self.local.bump_smart_pointers_issued();
            self.charged = add_sat64(self.charged, total as u64);
            return Step::Placed(Placement { chunk, value: res.value, entry: None });
        }
        if hint > self.config.max_normal_alloc {
            Step::Oversized { needed: hint }
        } else {
            Step::Refill { needed: hint }
        }
    }

    /// Raw layout allocation in the shared slot (`Arc` of an unsized value,
    /// shared byte buffers); the caller owns one chunk reference per
    /// placement. Requests above `max_normal_alloc` go to an oversized
    /// chunk up front; a miss refills the shared slot with one alignment
    /// of slack beyond word alignment.
    pub fn allocate_shared_layout(&mut self, layout: Layout) -> (r: Step)
        requires
            old(self)@.wf(),
            layout.wf(),
            layout.align < old(self)@.config.smart_ptr_align_cap,
            old(self)@.shared.issued + 1 < LARGE - 1,
        ensures
            final(self)@.wf(),
            allocate_shared_layout_step(old(self)@, final(self)@, layout, r),
    {
        if let Err(e) = crate::align::check_isize_overflow(layout.size, layout.align) {
            return Step::Failed(e);
        }
        let needed = slow_refill_needed(layout, 0);
        if layout.size > self.config.max_normal_alloc {
            return Step::Oversized { needed };
        }
        let bumped = if layout.size == 0 { 1 } else { layout.size };
        if let Some(res) = self.shared.try_bump(layout.align, bumped, 0) {
            let chunk = self.shared.chunk().unwrap();
            self.shared.bump_smart_pointers_issued();
            self.charged = add_sat64(self.charged, layout.size as u64);
            return Step::Placed(Placement { chunk, value: res.value, entry: None });
        }
        Step::Refill { needed }
    }
}


/// Offset of a thin slice's payload within its reservation: the length
/// prefix, widened to the element alignment.
pub open spec fn thin_offset(elem: Layout) -> int {
    if PREFIX_BYTES >= elem.align { PREFIX_BYTES as int } else { elem.align as int }
}

/// The outcome of a thin (length-prefixed) slice allocation in the shared
/// slot (see `try_alloc_thin_slice_shared`).
pub open spec fn thin_slice_step(s: ArenaState, t: ArenaState, elem: Layout, len: usize, r: Step) -> bool {
    let total = thin_offset(elem) + elem.size * len;
    let hint = crate::sizing::sat(crate::sizing::sat(thin_offset(elem) + crate::sizing::sat(elem.size * len)) + elem.align);
    if elem.size * len > usize::MAX {
        t == s && r == Step::Failed(AllocError::Exhausted)
    } else if s.shared.chunk is Some && bump_fits(s.shared.data, s.shared.drop_back, elem.align as int, total, 0) {
        &&& r is Placed
        &&& shared_placed(s, t, r->Placed_0, Layout { size: total as usize, align: elem.align }, total, 0, len as int)
    } else {
        &&& t == s
        &&& r == (if hint > s.config.max_normal_alloc {
            Step::Oversized { needed: hint as usize }
        } else {
            Step::Refill { needed: hint as usize }
        })
    }
}

impl ArenaCore {
    /// Thin slice allocation of `len` elements of `elem` in the shared slot
    /// (`Box<[T]>`): the element count is stored just before the payload,
    /// so the reservation is the prefix widened to the element alignment
    /// followed by the elements. The placement's address is that of the
    /// reservation; the payload starts `thin_offset(elem)` later. An
    /// element-bytes overflow fails; a miss routes to an oversized chunk or
    /// a refill by the worst-case budget
    /// (`worst_case_thin_slice_payload`).
    pub fn try_alloc_thin_slice_shared(&mut self, elem: Layout, len: usize) -> (r: Step)
        requires
            old(self)@.wf(),
            elem.wf(),
            elem.align < old(self)@.config.smart_ptr_align_cap,
            old(self)@.shared.issued + 1 < LARGE - 1,
        ensures
            final(self)@.wf(),
            thin_slice_step(old(self)@, final(self)@, elem, len, r),
    {
        let bytes = match elem.size.checked_mul(len) {
            None => {
                return Step::Failed(AllocError::Exhausted);
            },
            Some(b) => b,
        };
        let offset = if PREFIX_BYTES >= elem.align { PREFIX_BYTES } else { elem.align };
        let hint = crate::sizing::worst_case_thin_slice_payload(elem, len);
        if let Some(total) = offset.checked_add(bytes) {
            if let Some(res) = self.shared.try_bump(elem.align, total, 0) {
                let chunk = self.shared.chunk().unwrap();
                self.shared.bump_smart_pointers_issued();
                self.charged = add_sat64(self.charged, total as u64);
                return Step::Placed(Placement { chunk, value: res.value, entry: None });
            }
        } else {
            proof {
                assert(!bump_fits(self@.shared.data, self@.shared.drop_back, elem.align as int, offset + bytes, 0));
            }
        }
        if hint > self.config.max_normal_alloc {
            Step::Oversized { needed: hint }
        } else {
            Step::Refill { needed: hint }
        }
    }
}


impl ArenaCore {
    /// `Box<Utf16Str>` from UTF-8 text: a length-prefixed `u16` reservation
    /// sized exactly for the transcoding of `s`, and, when it was placed,
    /// the code units to write after the prefix. The unit count overflowing
    /// `usize` is a capacity overflow.
    pub fn try_alloc_utf16_prefixed_from_str(&mut self, s: &str) -> (r: (Step, Vec<u16>))
        requires
            old(self)@.wf(),
            old(self)@.local.issued + 1 < LARGE - 1,
        ensures
            final(self)@.wf(),
            utf16_len_spec(s@) > usize::MAX ==> r.0 == Step::Failed(AllocError::CapacityOverflow)
                && final(self)@ == old(self)@,
            utf16_len_spec(s@) <= usize::MAX ==> prefixed_step(old(self)@, final(self)@, Layout { size: 2, align: 2 }, utf16_len_spec(s@) as usize, r.0),
            r.0 is Placed ==> r.1@ == encode_spec(s@) && r.1@.len() == utf16_len_spec(s@),
            !(r.0 is Placed) ==> r.1@ == Seq::<u16>::empty(),
    {
        let n = match utf16_len(s) {
            Err(e) => {
                return (Step::Failed(e), Vec::new());
            },
            Ok(n) => n,
        };
        proof {
            reveal_with_fuel(is_pow2, 2);
        }
        let step = self.try_alloc_prefixed_shared(Layout { size: 2, align: 2 }, n);
        match step {
            Step::Placed(_) => {
                let units = encode_utf16(s);
                proof {
                    crate::utf16::law_utf16_round_trip(s@);
                }
                (step, units)
            },
            _ => (step, Vec::new()),
        }
    }
}

impl ArenaCore {
    /// Serve a length-prefixed copy of `len` elements of `elem` (`Rc`,
    /// `Box` or `Arc` of `str` / `[T]`) from the one-shot chunk `grant`,
    /// which stays owned by the handle. The prefix sits at the start of the
    /// word-aligned payload and the elements follow it, aligned because the
    /// element alignment is at most a word. The placement's address is that
    /// of the prefix.
    pub fn place_prefixed_oversized(&mut self, grant: ChunkGrant, elem: Layout, len: usize) -> (r: Placement)
        requires
            old(self)@.wf(),
            elem.wf(),
            elem.align <= WORD_ALIGN,
            grant.wf(),
            PREFIX_BYTES + elem.size * len <= grant.capacity,
        ensures
            final(self)@.wf(),
            r == (Placement { chunk: grant.chunk, value: grant.payload_base, entry: None }),
            (r.value + PREFIX_BYTES) % (elem.align as int) == 0,
            r.value + PREFIX_BYTES + elem.size * len <= grant.payload_base + grant.capacity,
            final(self)@ == (ArenaState {
                charged: sat64(old(self)@.charged + PREFIX_BYTES + elem.size * len),
                ..old(self)@
            }),
    {
        proof {
            crate::constants::lemma_word_sizes();
            crate::align::lemma_word_aligned_padding(grant.payload_base as int, elem.align as int);
            crate::align::lemma_word_aligned_padding(PREFIX_BYTES as int, elem.align as int);
            vstd::arithmetic::div_mod::lemma_mod_adds(grant.payload_base as int, PREFIX_BYTES as int, elem.align as int);
        }
        let total = PREFIX_BYTES + elem.size * len;
        self.charged = add_sat64(self.charged, total as u64);
        Placement { chunk: grant.chunk, value: grant.payload_base, entry: None }
    }
}

impl ArenaCore {
    /// A chunk rotated out of a slot earlier, whose free tail was `tail`
    /// bytes, went back to the backing allocator: its tail leaves the
    /// wasted-tail gauge.
    pub fn release_retired_tail(&mut self, tail: usize)
        requires
            old(self)@.wf(),
        ensures
            final(self)@.wf(),
            final(self)@ == (ArenaState {
                wasted: if old(self)@.wasted >= tail { old(self)@.wasted - tail } else { 0 },
                ..old(self)@
            }),
    {
        self.wasted = self.wasted.saturating_sub(tail as u64);
    }
}

} // verus!
