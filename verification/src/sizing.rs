//! Layouts, refill size hints and the routing predicates of the
//! allocation paths.

use vstd::prelude::*;
use crate::align::is_pow2;
use crate::constants::{CHUNK_ALIGN, DROP_ENTRY_SIZE, MAX_CHUNK_BYTES, MAX_SMART_PTR_ALIGN, PREFIX_BYTES, WORD_ALIGN};
use crate::error::AllocError;

verus! {

/// `x` saturated at `usize::MAX`.
pub open spec fn sat(x: int) -> int {
    if x > usize::MAX { usize::MAX as int } else { x }
}

/// `x - y` floored at 0.
pub open spec fn sat_sub(x: int, y: int) -> int {
    if x < y { 0 } else { x - y }
}

/// Size and alignment of a memory block.
#[derive(Clone, Copy, Debug, PartialEq, Eq, Structural)]
pub struct Layout {
    /// Size in bytes.
    pub size: usize,
    /// Alignment in bytes; a power of two.
    pub align: usize,
}

impl Layout {
    /// A valid layout: power-of-two alignment, and the size rounded up to
    /// the alignment does not exceed `isize::MAX`.
    pub open spec fn wf(self) -> bool {
        &&& is_pow2(self.align as int)
        &&& self.size + (self.align - 1) <= isize::MAX
    }

    /// Build a layout, or `None` when `align` is not a power of two or the
    /// padded size would exceed `isize::MAX`.
    pub fn from_size_align(size: usize, align: usize) -> (r: Option<Layout>)
        ensures
            r is Some <==> (is_pow2(align as int) && size + (align - 1) <= isize::MAX),
            r is Some ==> r->0 == (Layout { size, align }),
    {
        if !is_power_of_two(align) {
            return None;
        }
        if align - 1 > isize::MAX as usize || size > (isize::MAX as usize) - (align - 1) {
            return None;
        }
        Some(Layout { size, align })
    }

    /// Layout of `len` consecutive elements of layout `elem`, or `None` on
    /// overflow.
    pub fn array(elem: Layout, len: usize) -> (r: Option<Layout>)
        requires
            elem.wf(),
        ensures
            r is Some <==> elem.size * len + (elem.align - 1) <= isize::MAX,
            r is Some ==> r->0 == (Layout { size: (elem.size * len) as usize, align: elem.align }),
            r is Some ==> r->0.wf(),
    {
        match elem.size.checked_mul(len) {
            None => {
                proof {
                    assert(elem.size * len > usize::MAX);
                }
                None
            },
            Some(total) => {
                if total > (isize::MAX as usize) - (elem.align - 1) {
                    None
                } else {
                    Some(Layout { size: total, align: elem.align })
                }
            },
        }
    }
}

/// `a * b`, saturated at `usize::MAX`.
pub fn saturating_mul(a: usize, b: usize) -> (r: usize)
    ensures
        r == sat(a * b),
{
    match a.checked_mul(b) {
        Some(p) => p,
        None => usize::MAX,
    }
}

/// Executable power-of-two test.
pub fn is_power_of_two(n: usize) -> (r: bool)
    ensures
        r <==> is_pow2(n as int),
    decreases n,
{
    if n == 0 {
        false
    } else if n == 1 {
        true
    } else if n % 2 != 0 {
        false
    } else {
        is_power_of_two(n / 2)
    }
}

/// Worst-case chunk bytes needed for one `layout` allocation, with a
/// trailing drop entry when `has_drop`. Saturates at `usize::MAX`.
pub fn compute_worst_case_size(layout: Layout, has_drop: bool) -> (r: usize)
    ensures
        r == sat(sat(layout.size + layout.align) + (if has_drop { DROP_ENTRY_SIZE as int } else { 0 })),
{
    let entry = if has_drop { DROP_ENTRY_SIZE } else { 0 };
    layout.size.saturating_add(layout.align).saturating_add(entry)
}

/// Refill budget for a request that reserves `entry_size` back-stack bytes.
pub fn worst_case_refill_for(layout: Layout, entry_size: usize) -> (r: usize)
    ensures
        r == sat(sat(layout.size + layout.align) + (if entry_size != 0 { DROP_ENTRY_SIZE as int } else { 0 })),
{
    compute_worst_case_size(layout, entry_size != 0)
}

/// Refill budget for the value slow path: the value, the worst-case
/// padding beyond word alignment, and the drop entry.
pub fn slow_refill_needed(layout: Layout, entry_size: usize) -> (r: usize)
    requires
        layout.wf(),
        entry_size <= DROP_ENTRY_SIZE,
    ensures
        r == layout.size + sat_sub(layout.align as int, WORD_ALIGN as int) + entry_size,
{
    layout.size + layout.align.saturating_sub(WORD_ALIGN) + entry_size
}

/// Worst-case bytes of one value allocation: value bytes plus alignment
/// padding.
pub fn worst_case_payload(layout: Layout) -> (r: usize)
    ensures
        r == sat(layout.size + layout.align),
{
    layout.size.saturating_add(layout.align)
}

/// Worst-case bytes of one strong-prefixed value allocation: the
/// `prefix_bytes` of strong count, the value (at least one byte) and the
/// front alignment slack `block_align`.
pub fn worst_case_strong_payload(prefix_bytes: usize, layout: Layout, block_align: usize) -> (r: usize)
    ensures
        r == sat(sat(prefix_bytes + (if layout.size == 0 { 1 } else { layout.size as int })) + block_align),
{
    let value_bytes = if layout.size == 0 { 1 } else { layout.size };
    prefix_bytes.saturating_add(value_bytes).saturating_add(block_align)
}

/// Worst-case payload bytes of a slice of `len` elements of layout `elem`.
pub fn worst_case_slice_payload(elem: Layout, len: usize) -> (r: usize)
    ensures
        r == sat(sat(elem.size * len) + elem.align),
{
    saturating_mul(elem.size, len).saturating_add(elem.align)
}

/// Worst-case bytes of a length-prefixed thin slice: the prefix (at least
/// one alignment unit), the elements and one alignment slack.
pub fn worst_case_thin_slice_payload(elem: Layout, len: usize) -> (r: usize)
    ensures
        r == sat(sat((if PREFIX_BYTES >= elem.align { PREFIX_BYTES as int } else { elem.align as int })
            + sat(elem.size * len)) + elem.align),
{
    let payload_offset = if PREFIX_BYTES >= elem.align { PREFIX_BYTES } else { elem.align };
    let value_bytes = saturating_mul(elem.size, len);
    payload_offset.saturating_add(value_bytes).saturating_add(elem.align)
}

/// Worst-case bytes of a strong-prefixed slice: the `prefix_bytes` of
/// strong count and length, the elements (at least one byte) and the front
/// alignment slack `block_align`.
pub fn worst_case_strong_slice_payload(prefix_bytes: usize, elem: Layout, len: usize, block_align: usize) -> (r: usize)
    ensures
        r == sat(sat(prefix_bytes + (if sat(elem.size * len) < 1 { 1 } else { sat(elem.size * len) })) + block_align),
{
    let bytes = saturating_mul(elem.size, len);
    let value_bytes = if bytes < 1 { 1 } else { bytes };
    prefix_bytes.saturating_add(value_bytes).saturating_add(block_align)
}

/// Worst-case bytes of a strong-prefixed unsized value: the
/// `prefix_bytes` of strong count and metadata, the payload, and the
/// front alignment slack `block_align`.
pub fn worst_case_strong_dst(payload_bytes: usize, prefix_bytes: usize, block_align: usize) -> (r: usize)
    ensures
        r == sat(sat(prefix_bytes + payload_bytes) + block_align),
{
    prefix_bytes.saturating_add(payload_bytes).saturating_add(block_align)
}

/// `bumped > MAX_CHUNK_BYTES`: the request cannot fit any current chunk.
pub fn bumped_exceeds_chunk(bumped: usize) -> (r: bool)
    ensures
        r <==> bumped > MAX_CHUNK_BYTES,
{
    bumped > MAX_CHUNK_BYTES
}

/// `size > max_normal_alloc`: the request is routed to a one-shot
/// oversized chunk.
pub fn size_exceeds_normal_alloc(size: usize, max_normal_alloc: usize) -> (r: bool)
    ensures
        r <==> size > max_normal_alloc,
{
    size > max_normal_alloc
}

/// The chunk a reservation was made in is no longer the current one.
pub fn current_chunk_evicted(cur_addr: usize, target_addr: usize) -> (r: bool)
    ensures
        r <==> cur_addr != target_addr,
{
    cur_addr != target_addr
}

/// A request reserves a drop entry.
pub fn has_drop_entry(entry_size: usize) -> (r: bool)
    ensures
        r <==> entry_size > 0,
{
    entry_size > 0
}

/// Back-stack bytes reserved for a request: one entry for a value that
/// needs dropping, none otherwise.
pub fn entry_size_for(needs_drop: bool) -> (r: usize)
    ensures
        r == (if needs_drop { DROP_ENTRY_SIZE } else { 0 }),
{
    if needs_drop { DROP_ENTRY_SIZE } else { 0 }
}

/// Reject element alignments that no single chunk could satisfy
/// (simple-reference slices, capped at `align_cap`).
pub fn reject_over_aligned(align: usize, align_cap: usize) -> (r: Result<(), AllocError>)
    ensures
        r is Err <==> align >= align_cap,
        r is Err ==> r == Err::<(), AllocError>(AllocError::AlignmentTooLarge),
{
    if align >= align_cap {
        Err(AllocError::AlignmentTooLarge)
    } else {
        Ok(())
    }
}

/// Up-front check of the `Arc<[T]>` / `Rc<[T]>` slice family.
pub fn check_slice_arc_layout(align: usize, smart_ptr_align_cap: usize) -> (r: Result<(), AllocError>)
    ensures
        r is Err <==> align >= smart_ptr_align_cap,
        r is Err ==> r == Err::<(), AllocError>(AllocError::AlignmentTooLarge),
{
    if align >= smart_ptr_align_cap {
        Err(AllocError::AlignmentTooLarge)
    } else {
        Ok(())
    }
}

/// Up-front checks of the `Box<[T]>` slice family: the alignment cap, and
/// a `u16` length cap for elements that need dropping (so the slice can
/// later own a drop entry).
pub fn check_slice_box_layout(align: usize, needs_drop: bool, len: usize, smart_ptr_align_cap: usize) -> (r: Result<(), AllocError>)
    ensures
        r is Err <==> (align >= smart_ptr_align_cap || (needs_drop && len > u16::MAX)),
        align >= smart_ptr_align_cap ==> r == Err::<(), AllocError>(AllocError::AlignmentTooLarge),
        align < smart_ptr_align_cap && r is Err ==> r == Err::<(), AllocError>(AllocError::Exhausted),
{
    if align >= smart_ptr_align_cap {
        return Err(AllocError::AlignmentTooLarge);
    }
    if needs_drop && len > 65535 {
        return Err(AllocError::Exhausted);
    }
    Ok(())
}

/// Truncate `value` to `u16` under the caller's bound.
pub fn u16_truncate(value: usize) -> (r: u16)
    requires
        value <= u16::MAX,
    ensures
        r == value,
{
    value as u16
}

/// In-payload offset of `value_addr` within a chunk whose payload starts at
/// `payload_base`, for values inside the first chunk tile.
pub fn value_offset_in_chunk(payload_base: usize, value_addr: usize) -> (r: u16)
    requires
        payload_base <= value_addr,
        value_addr - payload_base <= u16::MAX,
    ensures
        r == value_addr - payload_base,
{
    u16_truncate(value_addr - payload_base)
}

/// Routing facts used by the allocation paths: the default caps are
/// ordered, and a request at or above the smart-pointer cap is also
/// rejected by the chunk cap only when it reaches `CHUNK_ALIGN`.
pub proof fn lemma_cap_order()
    ensures
        MAX_SMART_PTR_ALIGN < CHUNK_ALIGN,
        MAX_SMART_PTR_ALIGN <= u16::MAX,
        is_pow2(MAX_SMART_PTR_ALIGN as int),
        is_pow2(CHUNK_ALIGN as int),
        is_pow2(WORD_ALIGN as int),
{
    reveal_with_fuel(is_pow2, 18);
}

} // verus!
