//! Properties of the allocation planner that span several operations.

use vstd::prelude::*;
use crate::align::{lemma_pow2_and_eight, lemma_round_down, lemma_round_up, lemma_word_aligned_padding, round_down};
use crate::arena::{
    allocate_layout_step, allocate_step, arc_step, array_of, refill_shared_step, slice_local_step, bumped_of, entry_of, installed, law_refill_then_value_fits, prefixed_payload_bytes, prefixed_step,
    refill_local_step, reset_step, sat64, thin_offset, thin_slice_step, value_step, oversized_entry, oversized_value, value_needed, AllocFlavor, ArenaState, ChunkGrant,
    RefillRequest, ResetReport, Step,
};
use crate::chunk::ChunkState;
use crate::constants::{CHUNK_ALIGN, DROP_ENTRY_SIZE, PREFIX_BYTES, WORD_ALIGN};
use crate::sizing::Layout;

verus! {

/// Every placed value is aligned as requested, lies in what was free space
/// of the current chunk (between the old bump cursor and the new one), and
/// its drop entry, if any, takes the top of the old back-stack; the drop
/// count of the chunk grows by exactly the entries recorded.
pub proof fn law_placement_in_free_space(s: ArenaState, t: ArenaState, layout: Layout, needs_drop: bool, flavor: AllocFlavor, r: Step)
    requires
        s.wf(),
        layout.wf(),
        value_step(s, t, layout, needs_drop, flavor, r),
        r is Placed,
    ensures
        r->Placed_0.value % layout.align == 0,
        s.local.data <= r->Placed_0.value,
        r->Placed_0.value + bumped_of(layout) == t.local.data,
        t.local.data <= t.local.drop_back,
        t.local.drop_back == s.local.drop_back - entry_of(needs_drop),
        t.local.drop_count() == s.local.drop_count() + (if needs_drop { 1int } else { 0int }),
        needs_drop <==> r->Placed_0.entry is Some,
{
    lemma_round_up(s.local.data, layout.align as int);
    crate::constants::lemma_word_sizes();
    let e = DROP_ENTRY_SIZE as int;
    let d = s.local.payload_end - s.local.drop_back;
    vstd::arithmetic::div_mod::lemma_fundamental_div_mod(d, e);
    if needs_drop {
        assert(t.local.payload_end - t.local.drop_back == d + e);
        let q = d / e;
        assert((q + 1) * e == e * q + e) by (nonlinear_arith);
        vstd::arithmetic::div_mod::lemma_mod_bound(d, e);
        vstd::arithmetic::div_mod::lemma_fundamental_div_mod_converse_div(d + e, e, q + 1, d % e);
    }
}

/// Every placed value and its drop entry lie inside the current chunk's
/// payload, within the chunk's first `CHUNK_ALIGN` tile (where the chunk
/// can be recovered from the value's address), and the drop entry records
/// the value's offset from the payload base exactly.
pub proof fn law_placement_inside_first_tile(s: ArenaState, t: ArenaState, layout: Layout, needs_drop: bool, flavor: AllocFlavor, r: Step)
    requires
        s.wf(),
        layout.wf(),
        value_step(s, t, layout, needs_drop, flavor, r),
        r is Placed,
    ensures
        s.local.payload_base <= r->Placed_0.value,
        r->Placed_0.value + bumped_of(layout) <= s.local.payload_end,
        r->Placed_0.value < s.local.payload_base + CHUNK_ALIGN,
        r->Placed_0.entry is Some ==> r->Placed_0.entry->0.value_offset == r->Placed_0.value - s.local.payload_base,
        r->Placed_0.entry is Some ==> r->Placed_0.value + bumped_of(layout) <= r->Placed_0.entry->0.slot
            && r->Placed_0.entry->0.slot + DROP_ENTRY_SIZE <= s.local.payload_end,
{
    lemma_round_up(s.local.data, layout.align as int);
}

/// Two successive allocations in the same local chunk never overlap: the
/// second value starts at or after the end of the first, and it ends at or
/// below the first one's drop entry.
pub proof fn law_successive_placements_disjoint(
    s: ArenaState,
    t: ArenaState,
    u: ArenaState,
    l1: Layout,
    d1: bool,
    f1: AllocFlavor,
    r1: Step,
    l2: Layout,
    d2: bool,
    f2: AllocFlavor,
    r2: Step,
)
    requires
        s.wf(),
        l1.wf(),
        l2.wf(),
        value_step(s, t, l1, d1, f1, r1),
        r1 is Placed,
        value_step(t, u, l2, d2, f2, r2),
        r2 is Placed,
    ensures
        r1->Placed_0.chunk == r2->Placed_0.chunk,
        r1->Placed_0.value + bumped_of(l1) <= r2->Placed_0.value,
        r1->Placed_0.entry is Some ==> r2->Placed_0.value + bumped_of(l2) <= r1->Placed_0.entry->0.slot,
        r1->Placed_0.entry is Some && r2->Placed_0.entry is Some
            ==> r2->Placed_0.entry->0.slot + DROP_ENTRY_SIZE <= r1->Placed_0.entry->0.slot,
{
    lemma_round_up(s.local.data, l1.align as int);
    lemma_round_up(t.local.data, l2.align as int);
}

/// Routing: a request that misses the current chunk asks for a refill only
/// when it is at most `max_normal_alloc` bytes, and for a one-shot
/// oversized chunk only when it is larger.
pub proof fn law_value_routing(s: ArenaState, t: ArenaState, layout: Layout, needs_drop: bool, flavor: AllocFlavor, r: Step)
    requires
        s.wf(),
        layout.wf(),
        value_step(s, t, layout, needs_drop, flavor, r),
    ensures
        r is Refill ==> layout.size <= s.config.max_normal_alloc && t == s,
        r is Oversized ==> layout.size > s.config.max_normal_alloc && t == s,
        r is Failed <==> layout.align >= s.config.smart_ptr_align_cap,
        !(r is Dangling),
{
}

/// Requests above `max_normal_alloc` never go through a refill of the
/// normal chunk pool: raw layouts are sent straight to a one-shot chunk.
pub proof fn law_large_layout_is_oversized(s: ArenaState, t: ArenaState, layout: Layout, r: Step)
    requires
        s.wf(),
        layout.wf(),
        layout.align < s.config.smart_ptr_align_cap,
        layout.size > s.config.max_normal_alloc,
        allocate_layout_step(s, t, layout, r),
    ensures
        r is Oversized,
        t == s,
{
}

/// After a reset, the next allocation installs a fresh chunk: no request
/// is placed until a refill or a one-shot chunk supplies memory.
pub proof fn law_reset_then_allocation_refills(
    s: ArenaState,
    t: ArenaState,
    rep: ResetReport,
    u: ArenaState,
    layout: Layout,
    needs_drop: bool,
    flavor: AllocFlavor,
    r: Step,
)
    requires
        s.wf(),
        layout.wf(),
        reset_step(s, t, rep),
        value_step(t, u, layout, needs_drop, flavor, r),
    ensures
        !(r is Placed),
        u == t,
        t.local.chunk is None && t.shared.chunk is None && t.pinned.len() == 0,
{
}

/// A chunk that handed out an arena-lifetime reference is pinned, not
/// released, when the next refill rotates it out; the reset after that
/// releases it.
pub proof fn law_reference_chunk_pinned_until_reset(
    s: ArenaState,
    t: ArenaState,
    layout: Layout,
    needs_drop: bool,
    r: Step,
    min_payload: usize,
    u: ArenaState,
    q: Result<RefillRequest, crate::error::AllocError>,
    v: ArenaState,
    rep: ResetReport,
)
    requires
        s.wf(),
        layout.wf(),
        value_step(s, t, layout, needs_drop, AllocFlavor::SimpleRef, r),
        r is Placed,
        refill_local_step(t, u, min_payload, q),
        q is Ok,
        reset_step(u, v, rep),
    ensures
        q->Ok_0.pinned,
        u.pinned == s.pinned.push(r->Placed_0.chunk),
        rep.pinned@[0] == r->Placed_0.chunk,
        v.pinned.len() == 0,
{
    assert(u.pinned.reverse()[0] == u.pinned[u.pinned.len() - 1]);
}

/// A refill keeps its promise: when the value that asked for a refill is
/// retried after a chunk granted with at least the requested payload is
/// installed, it is placed.
pub proof fn law_refill_keeps_its_promise(
    s: ArenaState,
    layout: Layout,
    needs_drop: bool,
    flavor: AllocFlavor,
    needed: usize,
    t: ArenaState,
    q: Result<RefillRequest, crate::error::AllocError>,
    grant: ChunkGrant,
    u: ArenaState,
    v: ArenaState,
    r: Step,
)
    requires
        s.wf(),
        layout.wf(),
        value_step(s, s, layout, needs_drop, flavor, Step::Refill { needed }),
        refill_local_step(s, t, needed, q),
        q is Ok,
        grant.wf(),
        grant.capacity >= q->Ok_0.want,
        u == (ArenaState { local: installed(grant, t.config.local_max_bump_extent as int), ..t }),
        layout.size >= 1 || installed(grant, t.config.local_max_bump_extent as int).payload_end
            - grant.payload_base > needed,
        value_step(u, v, layout, needs_drop, flavor, r),
    ensures
        r is Placed,
{
    law_refill_then_value_fits(layout, needs_drop, grant, s.config);
}

/// A slice refill keeps its promise: once a chunk granted with at least the
/// requested payload is installed in the local slot, the slice that asked
/// for the refill is placed when retried.
pub proof fn law_slice_refill_keeps_its_promise(
    s: ArenaState,
    elem: Layout,
    len: usize,
    has_drop_fn: bool,
    flavor: AllocFlavor,
    needed: usize,
    t: ArenaState,
    q: Result<RefillRequest, crate::error::AllocError>,
    grant: ChunkGrant,
    u: ArenaState,
    v: ArenaState,
    r: Step,
)
    requires
        s.wf(),
        elem.wf(),
        slice_local_step(s, s, elem, len, has_drop_fn, flavor, Step::Refill { needed }),
        refill_local_step(s, t, needed, q),
        q is Ok,
        grant.wf(),
        grant.capacity >= q->Ok_0.want,
        u == (ArenaState { local: installed(grant, t.config.local_max_bump_extent as int), ..t }),
        slice_local_step(u, v, elem, len, has_drop_fn, flavor, r),
    ensures
        r is Placed,
{
    let layout = array_of(elem, len as int);
    lemma_word_aligned_padding(grant.payload_base as int, layout.align as int);
}

/// An `Arc` refill keeps its promise: once a chunk granted with at least
/// the requested payload is installed in the shared slot, the value that
/// asked for the refill is placed when retried.
pub proof fn law_arc_refill_keeps_its_promise(
    s: ArenaState,
    layout: Layout,
    needs_drop: bool,
    needed: usize,
    t: ArenaState,
    q: Result<RefillRequest, crate::error::AllocError>,
    grant: ChunkGrant,
    u: ArenaState,
    v: ArenaState,
    r: Step,
)
    requires
        s.wf(),
        layout.wf(),
        arc_step(s, s, layout, needs_drop, Step::Refill { needed }),
        refill_shared_step(s, t, needed, q),
        q is Ok,
        grant.wf(),
        grant.capacity >= q->Ok_0.want,
        u == (ArenaState { shared: installed(grant, t.config.shared_max_bump_extent as int), ..t }),
        layout.size >= 1 || installed(grant, t.config.shared_max_bump_extent as int).payload_end
            - grant.payload_base > needed,
        arc_step(u, v, layout, needs_drop, r),
    ensures
        r is Placed,
{
    lemma_word_aligned_padding(grant.payload_base as int, layout.align as int);
}

/// Growing the most recent allocation in place and then shrinking it back
/// by the same amount restores the bump cursor.
pub proof fn law_grow_then_shrink_restores_cursor(s: ArenaState, t: ArenaState, u: ArenaState, base: usize, old_bytes: usize, new_bytes: usize)
    requires
        s.wf(),
        new_bytes >= old_bytes,
        s.local.chunk is Some,
        base + old_bytes == s.local.data,
        s.local.data + (new_bytes - old_bytes) <= s.local.drop_back,
        t == (ArenaState {
            local: ChunkState { data: s.local.data + (new_bytes - old_bytes), ..s.local },
            charged: sat64(s.charged + (new_bytes - old_bytes)),
            ..s
        }),
        u == (ArenaState { local: ChunkState { data: t.local.data - (new_bytes - old_bytes), ..t.local }, ..t }),
    ensures
        u.local == s.local,
        base + new_bytes == t.local.data,
{
}

/// A length-prefixed reservation holds its prefix and then its payload:
/// the payload, right after the `PREFIX_BYTES` of element count, is aligned
/// for the elements and ends at the new bump cursor.
pub proof fn law_prefixed_payload_aligned(s: ArenaState, t: ArenaState, elem: Layout, len: usize, r: Step)
    requires
        s.wf(),
        elem.wf(),
        elem.align <= WORD_ALIGN,
        prefixed_step(s, t, elem, len, r),
        r is Placed,
    ensures
        s.local.data <= r->Placed_0.value,
        (r->Placed_0.value + PREFIX_BYTES) % (elem.align as int) == 0,
        r->Placed_0.value + PREFIX_BYTES + prefixed_payload_bytes(elem, len as int) == t.local.data,
        t.local.data <= t.local.drop_back,
{
    let v = r->Placed_0.value as int;
    lemma_round_up(s.local.data, elem.align as int);
    lemma_pow2_and_eight(elem.align as int);
    vstd::arithmetic::div_mod::lemma_mod_adds(v, PREFIX_BYTES as int, elem.align as int);
}

/// A thin slice's payload follows its element-count prefix inside the
/// reservation, is aligned for the elements, and ends at the new bump
/// cursor of the shared slot.
pub proof fn law_thin_slice_payload_aligned(s: ArenaState, t: ArenaState, elem: Layout, len: usize, r: Step)
    requires
        s.wf(),
        elem.wf(),
        thin_slice_step(s, t, elem, len, r),
        r is Placed,
    ensures
        s.shared.data <= r->Placed_0.value,
        r->Placed_0.value + PREFIX_BYTES <= r->Placed_0.value + thin_offset(elem),
        (r->Placed_0.value + thin_offset(elem)) % (elem.align as int) == 0,
        r->Placed_0.value + thin_offset(elem) + elem.size * len == t.shared.data,
        t.shared.data <= t.shared.drop_back,
{
    let v = r->Placed_0.value as int;
    lemma_round_up(s.shared.data, elem.align as int);
    lemma_pow2_and_eight(elem.align as int);
    vstd::arithmetic::div_mod::lemma_mod_adds(v, thin_offset(elem), elem.align as int);
    if elem.align > PREFIX_BYTES {
        vstd::arithmetic::div_mod::lemma_mod_self_0(elem.align as int);
    }
}

/// `Arc` placements keep to the shared slot: the value is aligned, lies in
/// what was free space of the shared chunk, its drop entry takes the top of
/// the old back-stack, the chunk counts one more handle, and the local slot
/// is untouched.
pub proof fn law_arc_placement_in_shared_free_space(s: ArenaState, t: ArenaState, layout: Layout, needs_drop: bool, r: Step)
    requires
        s.wf(),
        layout.wf(),
        arc_step(s, t, layout, needs_drop, r),
        r is Placed,
    ensures
        r->Placed_0.chunk == s.shared.chunk->0,
        r->Placed_0.value % layout.align == 0,
        s.shared.data <= r->Placed_0.value,
        r->Placed_0.value + bumped_of(layout) == t.shared.data,
        t.shared.data <= t.shared.drop_back,
        t.shared.drop_back == s.shared.drop_back - entry_of(needs_drop),
        t.shared.issued == s.shared.issued + 1,
        t.local == s.local,
        needs_drop <==> r->Placed_0.entry is Some,
{
    lemma_round_up(s.shared.data, layout.align as int);
}

/// Masking recovers the chunk: when the local chunk's payload lies in the
/// `CHUNK_ALIGN` tile starting at `base`, rounding any placed value's
/// address down to the tile gives `base` back.
pub proof fn law_mask_recovers_chunk(s: ArenaState, t: ArenaState, layout: Layout, needs_drop: bool, flavor: AllocFlavor, r: Step, base: int)
    requires
        s.wf(),
        layout.wf(),
        value_step(s, t, layout, needs_drop, flavor, r),
        r is Placed,
        base >= 0,
        base % (CHUNK_ALIGN as int) == 0,
        base <= s.local.payload_base,
        s.local.payload_end <= base + CHUNK_ALIGN,
    ensures
        round_down(r->Placed_0.value as int, CHUNK_ALIGN as int) == base,
{
    let v = r->Placed_0.value as int;
    let a = CHUNK_ALIGN as int;
    lemma_round_up(s.local.data, layout.align as int);
    lemma_round_down(v, a);
    vstd::arithmetic::div_mod::lemma_fundamental_div_mod(base, a);
    vstd::arithmetic::div_mod::lemma_fundamental_div_mod(v, a);
    vstd::arithmetic::div_mod::lemma_fundamental_div_mod_converse_mod(v, a, base / a, v - base);
}

/// Blocks handed out by `Allocator::allocate` are aligned and never overlap:
/// a second placement starts at or after the end of the first, in the same
/// chunk, and both lie below the back-stack.
pub proof fn law_allocate_blocks_disjoint(
    s: ArenaState,
    t: ArenaState,
    u: ArenaState,
    l1: Layout,
    r1: Step,
    l2: Layout,
    r2: Step,
)
    requires
        s.wf(),
        l1.wf(),
        l2.wf(),
        allocate_step(s, t, l1, r1),
        r1 is Placed,
        allocate_step(t, u, l2, r2),
        r2 is Placed,
    ensures
        r1->Placed_0.value % l1.align == 0,
        r2->Placed_0.value % l2.align == 0,
        r1->Placed_0.chunk == r2->Placed_0.chunk,
        r1->Placed_0.value + l1.size <= r2->Placed_0.value,
        r2->Placed_0.value + l2.size == u.local.data,
        u.local.data <= u.local.drop_back,
{
    lemma_round_up(s.local.data, l1.align as int);
    lemma_round_up(t.local.data, l2.align as int);
}

/// A one-shot chunk keeps its single drop entry at the top of its
/// back-stack: the entry slot ends exactly where the chunk's payload ends
/// (where the chunk's release reads it back), the value lies wholly below
/// the slot, and the entry records the value's offset from the payload
/// base. There is an entry exactly when one was asked for.
pub proof fn law_oversized_entry_tops_the_back_stack(grant: ChunkGrant, layout: Layout, needs_entry: bool, len: u16, noop: bool)
    requires
        grant.wf(),
        layout.wf(),
        layout.align <= CHUNK_ALIGN,
        grant.capacity >= value_needed(layout, entry_of(needs_entry)),
    ensures
        ({
            let v = oversized_value(grant, layout);
            let e = oversized_entry(grant, layout, entry_of(needs_entry), len as int, noop);
            &&& (e is Some <==> needs_entry)
            &&& grant.payload_base <= v
            &&& v % (layout.align as int) == 0
            &&& (e is Some ==> e->0.slot + DROP_ENTRY_SIZE == grant.payload_base + grant.capacity)
            &&& (e is Some ==> v + layout.size <= e->0.slot)
            &&& (e is Some ==> e->0.value_offset == v - grant.payload_base)
            &&& (e is Some ==> e->0.len == len && e->0.noop == noop)
        }),
{
    crate::constants::lemma_word_sizes();
    lemma_word_aligned_padding(grant.payload_base as int, layout.align as int);
}

} // verus!
