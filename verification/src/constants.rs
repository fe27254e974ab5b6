//! Size and alignment limits of the chunk layout.

use vstd::prelude::*;

verus! {

/// Alignment of every chunk allocation; chunk headers are recovered by
/// masking a value address down to this boundary.
pub const CHUNK_ALIGN: usize = 65536;

/// Largest chunk (header + payload) that may become the current chunk.
pub const MAX_CHUNK_BYTES: usize = 65536;

/// Smart-pointer allocations reject alignments at or above this cap so
/// the value always lies inside the first chunk tile.
pub const MAX_SMART_PTR_ALIGN: usize = 32768;

/// Default oversized-allocation cutover.
pub const MAX_NORMAL_ALLOC: usize = 16384;

/// Smallest accepted value of the `max_normal_alloc` knob.
pub const MIN_MAX_NORMAL_ALLOC: usize = 4096;

/// Smallest non-zero preallocation accepted by `with_capacity`, and the
/// size of the smallest chunk class.
pub const MIN_CHUNK_BYTES: usize = 512;

/// Number of chunk size classes: `MIN_CHUNK_BYTES << k` for
/// `k < SIZE_CLASS_COUNT`, the last one being `MAX_CHUNK_BYTES`.
pub const SIZE_CLASS_COUNT: u8 = 8;

/// Bytes of one drop entry in a chunk's back-stack: two words.
pub const DROP_ENTRY_SIZE: usize = 2 * WORD_ALIGN;

/// Size and alignment of `usize`; chunk payloads start at a multiple of it.
pub const WORD_ALIGN: usize = usize::BITS as usize / 8;

/// Bytes of the inline element-count prefix of a length-prefixed payload:
/// one `usize`.
pub const PREFIX_BYTES: usize = WORD_ALIGN;

/// Refcount inflation held by an installed chunk; handle counters per
/// chunk tenure stay strictly below `LARGE - 1`.
pub const LARGE: u64 = 0x4000_0000_0000_0000;

/// Surplus of chunk strong refs pre-credited when a chunk is installed.
pub const LARGE_SHARED_REF_SURPLUS: u32 = 0x4000_0000;

/// Largest strong count an `Arc` clone may observe before it aborts.
pub const MAX_STRONG_REFCOUNT: u32 = 0x7FFF_FFFF;

/// The word-size constants on the targets this crate builds for: a
/// 64-bit word of 8 bytes or a 32-bit word of 4 bytes, a one-word length
/// prefix, and a two-word drop entry.
pub proof fn lemma_word_sizes()
    ensures
        (WORD_ALIGN == 8 && usize::BITS == 64) || (WORD_ALIGN == 4 && usize::BITS == 32),
        DROP_ENTRY_SIZE == 2 * WORD_ALIGN,
        PREFIX_BYTES == WORD_ALIGN,
{
}

} // verus!
