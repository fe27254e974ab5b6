//! The "current chunk" slot: the bump cursor and drop-entry back-stack of
//! the chunk that is currently accepting allocations.
//!
//! Addresses are plain integers. A chunk's payload spans
//! `[payload_base, payload_end)`; values grow upward from `payload_base`
//! (the bump cursor `data`), drop entries grow downward from `payload_end`
//! (the back-stack limit `drop_back`).

use vstd::prelude::*;
use crate::align::{bump_fits, is_pow2, round_up, try_bump_fit};
use crate::constants::{CHUNK_ALIGN, DROP_ENTRY_SIZE, LARGE, WORD_ALIGN};

verus! {

/// Mathematical state of a current-chunk slot.
pub struct ChunkState {
    /// Identity of the installed chunk; `None` while the slot is empty.
    pub chunk: Option<u64>,
    /// First payload byte.
    pub payload_base: int,
    /// One past the last byte usable by the bump cursor.
    pub payload_end: int,
    /// Bump cursor: next free payload byte.
    pub data: int,
    /// Back-stack limit: start of the drop-entry stack.
    pub drop_back: int,
    /// Smart-pointer handles issued from the chunk during this tenure.
    pub issued: int,
}

impl ChunkState {
    /// An empty slot: no chunk, every address at the dangling address 1.
    pub open spec fn empty() -> ChunkState {
        ChunkState { chunk: None, payload_base: 1, payload_end: 1, data: 1, drop_back: 1, issued: 0 }
    }

    /// The slot invariant.
    pub open spec fn wf(self) -> bool {
        match self.chunk {
            None => self == ChunkState::empty(),
            Some(_) => {
                &&& 1 <= self.payload_base <= self.data <= self.drop_back <= self.payload_end
                &&& self.payload_end <= isize::MAX
                &&& self.payload_end - self.payload_base < CHUNK_ALIGN
                &&& self.payload_base % (WORD_ALIGN as int) == 0
                &&& (self.payload_end - self.drop_back) % (DROP_ENTRY_SIZE as int) == 0
                &&& 0 <= self.issued < LARGE - 1
            },
        }
    }

    /// Number of drop entries on the back-stack.
    pub open spec fn drop_count(self) -> int {
        (self.payload_end - self.drop_back) / (DROP_ENTRY_SIZE as int)
    }

    /// Bytes between the bump cursor and the back-stack.
    pub open spec fn free_bytes(self) -> int {
        self.drop_back - self.data
    }
}

/// Where a successful bump reservation placed a value.
#[derive(Clone, Copy, Debug, PartialEq, Eq)]
pub struct Reservation {
    /// Address of the value (aligned as requested).
    pub value: usize,
    /// One past the reserved value bytes: the new bump cursor.
    pub end: usize,
    /// Address of the reserved drop-entry slot (the new back-stack limit);
    /// equal to the old limit when no entry was reserved.
    pub entry_slot: usize,
    /// Offset of the value from the payload base.
    pub value_offset: u16,
}

/// A drop-entry slot reserved for a buffer already in the chunk.
#[derive(Clone, Copy, Debug, PartialEq, Eq)]
pub struct EntrySlot {
    /// Address of the entry slot (the new back-stack limit).
    pub slot: usize,
    /// Offset of the buffer from the payload base.
    pub value_offset: u16,
}

/// What a chunk slot held when it was emptied.
#[derive(Clone, Copy, Debug, PartialEq, Eq)]
pub struct SwapOut {
    /// The chunk that left the slot.
    pub chunk: u64,
    /// Drop entries recorded in its back-stack.
    pub drop_count: u16,
    /// Smart-pointer handles issued during its tenure.
    pub issued: u64,
    /// Free bytes left between its bump cursor and its back-stack.
    pub wasted: usize,
}

/// The current-chunk slot of one allocation pipeline.
#[derive(Debug)]
pub struct CurrentChunk {
    chunk: Option<u64>,
    payload_base: usize,
    payload_end: usize,
    data: usize,
    drop_back: usize,
    smart_pointers_issued: u64,
}

impl View for CurrentChunk {
    type V = ChunkState;

    closed spec fn view(&self) -> ChunkState {
        ChunkState {
            chunk: self.chunk,
            payload_base: self.payload_base as int,
            payload_end: self.payload_end as int,
            data: self.data as int,
            drop_back: self.drop_back as int,
            issued: self.smart_pointers_issued as int,
        }
    }
}

impl CurrentChunk {
    /// A slot with no chunk installed. The first bump attempt fails and
    /// routes to the refill path.
    pub fn empty() -> (r: CurrentChunk)
        ensures
            r@ == ChunkState::empty(),
            r@.wf(),
    {
        CurrentChunk { chunk: None, payload_base: 1, payload_end: 1, data: 1, drop_back: 1, smart_pointers_issued: 0 }
    }

    /// The installed chunk, if any.
    pub fn chunk(&self) -> (r: Option<u64>)
        ensures
            r == self@.chunk,
    {
        self.chunk
    }

    /// The bump cursor.
    pub fn data(&self) -> (r: usize)
        ensures
            r == self@.data,
    {
        self.data
    }

    /// The back-stack limit.
    pub fn drop_back(&self) -> (r: usize)
        ensures
            r == self@.drop_back,
    {
        self.drop_back
    }

    /// The first payload byte of the installed chunk.
    pub fn payload_base(&self) -> (r: usize)
        ensures
            r == self@.payload_base,
    {
        self.payload_base
    }

    /// Smart-pointer handles issued during this tenure.
    pub fn smart_pointers_issued(&self) -> (r: u64)
        ensures
            r == self@.issued,
    {
        self.smart_pointers_issued
    }

    /// Install a fresh chunk whose payload starts at `payload_base` and
    /// holds `capacity` bytes. The bump extent is capped at
    /// `max_bump_extent` so every value stays inside the first chunk tile.
    pub fn install(&mut self, chunk: u64, payload_base: usize, capacity: usize, max_bump_extent: usize)
        requires
            old(self)@.chunk is None,
            payload_base >= 1,
            payload_base % WORD_ALIGN == 0,
            max_bump_extent < CHUNK_ALIGN,
            payload_base + (if capacity < max_bump_extent { capacity } else { max_bump_extent }) <= isize::MAX,
        ensures
            final(self)@ == (ChunkState {
                chunk: Some(chunk),
                payload_base: payload_base as int,
                payload_end: payload_base + (if capacity < max_bump_extent { capacity } else { max_bump_extent }),
                data: payload_base as int,
                drop_back: payload_base + (if capacity < max_bump_extent { capacity } else { max_bump_extent }),
                issued: 0,
            }),
            final(self)@.wf(),
    {
        proof {
            crate::constants::lemma_word_sizes();
        }
        let extent = if capacity < max_bump_extent { capacity } else { max_bump_extent };
        self.chunk = Some(chunk);
        self.payload_base = payload_base;
        self.payload_end = payload_base + extent;
        self.data = payload_base;
        self.drop_back = payload_base + extent;
        self.smart_pointers_issued = 0;
    }

    /// Number of drop entries currently recorded in the back-stack.
    pub fn drop_count(&self) -> (r: u16)
        requires
            self@.wf(),
        ensures
            r == self@.drop_count(),
    {
        ((self.payload_end - self.drop_back) / DROP_ENTRY_SIZE) as u16
    }

    /// Free bytes between the bump cursor and the back-stack (0 for an
    /// empty slot).
    pub fn wasted_tail(&self) -> (r: usize)
        requires
            self@.wf(),
        ensures
            r == self@.free_bytes(),
    {
        self.drop_back - self.data
    }

    /// Empty the slot, reporting what the outgoing chunk held.
    pub fn take_out(&mut self) -> (r: Option<SwapOut>)
        requires
            old(self)@.wf(),
        ensures
            final(self)@ == ChunkState::empty(),
            old(self)@.chunk is None ==> r is None,
            old(self)@.chunk is Some ==> r == Some(SwapOut {
                chunk: old(self)@.chunk->0,
                drop_count: old(self)@.drop_count() as u16,
                issued: old(self)@.issued as u64,
                wasted: old(self)@.free_bytes() as usize,
            }),
    {
        let r = match self.chunk {
            None => None,
            Some(c) => Some(SwapOut {
                chunk: c,
                drop_count: self.drop_count(),
                issued: self.smart_pointers_issued,
                wasted: self.wasted_tail(),
            }),
        };
        self.chunk = None;
        self.payload_base = 1;
        self.payload_end = 1;
        self.data = 1;
        self.drop_back = 1;
        self.smart_pointers_issued = 0;
        r
    }

    /// Record one more smart-pointer handle issued from this chunk.
    pub fn bump_smart_pointers_issued(&mut self)
        requires
            old(self)@.wf(),
            old(self)@.chunk is Some,
            old(self)@.issued + 1 < LARGE - 1,
        ensures
            final(self)@ == (ChunkState { issued: old(self)@.issued + 1, ..old(self)@ }),
            final(self)@.wf(),
    {
        self.smart_pointers_issued = self.smart_pointers_issued + 1;
    }

    /// Reserve `bumped` bytes aligned to `align`, plus `entry_size` bytes
    /// at the top of the back-stack, in the current chunk.
    ///
    /// On success the bump cursor moves to the end of the value and the
    /// back-stack limit moves down by `entry_size`; nothing else changes.
    /// On failure the slot is unchanged.
    pub fn try_bump(&mut self, align: usize, bumped: usize, entry_size: usize) -> (r: Option<Reservation>)
        requires
            old(self)@.wf(),
            is_pow2(align as int),
            align <= CHUNK_ALIGN,
            bumped >= 1,
            entry_size == 0 || entry_size == DROP_ENTRY_SIZE,
        ensures
            final(self)@.wf(),
            r is None <==> (old(self)@.chunk is None
                || !bump_fits(old(self)@.data, old(self)@.drop_back, align as int, bumped as int, entry_size as int)),
            r is None ==> final(self)@ == old(self)@,
            r is Some ==> {
                let res = r->0;
                &&& res.value == round_up(old(self)@.data, align as int)
                &&& res.value % align == 0
                &&& old(self)@.data <= res.value
                &&& res.end == res.value + bumped
                &&& res.entry_slot == old(self)@.drop_back - entry_size
                &&& res.end <= res.entry_slot
                &&& res.value_offset == res.value - old(self)@.payload_base
                &&& final(self)@ == (ChunkState { data: res.end as int, drop_back: res.entry_slot as int, ..old(self)@ })
            },
    {
        if self.chunk.is_none() {
            return None;
        }
        let fit = try_bump_fit(self.data, self.drop_back, align, bumped, entry_size);
        if !fit.fits {
            return None;
        }
        let offset = fit.aligned - self.payload_base;
        self.data = fit.end;
        self.drop_back = fit.new_drop_back;
        proof {
            assert((self.payload_end - self.drop_back) % (DROP_ENTRY_SIZE as int) == 0) by {
                let e = DROP_ENTRY_SIZE as int;
                let d = old(self)@.payload_end - old(self)@.drop_back;
                if entry_size == DROP_ENTRY_SIZE {
                    vstd::arithmetic::div_mod::lemma_mod_adds(d, e, e);
                    vstd::arithmetic::div_mod::lemma_mod_self_0(e);
                }
            }
        }
        Some(Reservation { value: fit.aligned, end: fit.end, entry_slot: fit.new_drop_back, value_offset: offset as u16 })
    }

    /// Grow the allocation `[base_addr, base_addr + old_bytes)` to
    /// `new_bytes` in place. Succeeds only when the allocation ends exactly
    /// at the bump cursor and the chunk has room below the back-stack; the
    /// cursor then advances by the growth.
    pub fn try_grow_in_place(&mut self, base_addr: usize, old_bytes: usize, new_bytes: usize) -> (r: bool)
        requires
            old(self)@.wf(),
            new_bytes >= old_bytes,
        ensures
            final(self)@.wf(),
            r <==> (base_addr + old_bytes == old(self)@.data
                && old(self)@.data + (new_bytes - old_bytes) <= old(self)@.drop_back
                && old(self)@.chunk is Some),
            r ==> final(self)@ == (ChunkState { data: old(self)@.data + (new_bytes - old_bytes), ..old(self)@ }),
            !r ==> final(self)@ == old(self)@,
    {
        if self.chunk.is_none() {
            return false;
        }
        match base_addr.checked_add(old_bytes) {
            None => false,
            Some(buf_end) => {
                if buf_end != self.data {
                    return false;
                }
                let growth = new_bytes - old_bytes;
                if growth > self.drop_back - self.data {
                    return false;
                }
                self.data = self.data + growth;
                true
            },
        }
    }

    /// Give back the last `reclaim_bytes` of an allocation that ends at
    /// `buffer_end`, when that allocation is the most recent one (it ends
    /// at the bump cursor). Returns whether the cursor moved back.
    pub fn try_shrink_at_cursor(&mut self, buffer_end: usize, reclaim_bytes: usize) -> (r: bool)
        requires
            old(self)@.wf(),
            buffer_end == old(self)@.data && old(self)@.chunk is Some
                ==> old(self)@.payload_base + reclaim_bytes <= buffer_end,
        ensures
            final(self)@.wf(),
            r <==> (buffer_end == old(self)@.data && old(self)@.chunk is Some),
            r ==> final(self)@ == (ChunkState { data: old(self)@.data - reclaim_bytes, ..old(self)@ }),
            !r ==> final(self)@ == old(self)@,
    {
        if self.chunk.is_some() && buffer_end == self.data {
            self.data = self.data - reclaim_bytes;
            true
        } else {
            false
        }
    }

    /// Reserve a drop-entry slot for a buffer at `value_addr` that lives in
    /// chunk `owner`. Succeeds only when `owner` is the installed chunk and
    /// the slot does not collide with allocated payload; returns the slot's
    /// address and the buffer's offset from the payload base.
    pub fn try_install_drop_entry(&mut self, owner: u64, value_addr: usize) -> (r: Option<EntrySlot>)
        requires
            old(self)@.wf(),
            old(self)@.chunk == Some(owner) ==> old(self)@.payload_base <= value_addr < old(self)@.payload_end,
        ensures
            final(self)@.wf(),
            r is Some <==> (old(self)@.chunk == Some(owner)
                && old(self)@.drop_back - DROP_ENTRY_SIZE >= old(self)@.data),
            r is Some ==> {
                &&& r->0.slot == old(self)@.drop_back - DROP_ENTRY_SIZE
                &&& r->0.value_offset == value_addr - old(self)@.payload_base
                &&& final(self)@ == (ChunkState { drop_back: old(self)@.drop_back - DROP_ENTRY_SIZE, ..old(self)@ })
            },
            r is None ==> final(self)@ == old(self)@,
    {
        match self.chunk {
            None => None,
            Some(c) => {
                if c != owner {
                    return None;
                }
                if self.drop_back - self.data < DROP_ENTRY_SIZE {
                    return None;
                }
                let slot = self.drop_back - DROP_ENTRY_SIZE;
                self.drop_back = slot;
                proof {
                    let e = DROP_ENTRY_SIZE as int;
                    let d = old(self)@.payload_end - old(self)@.drop_back;
                    vstd::arithmetic::div_mod::lemma_mod_adds(d, e, e);
                    vstd::arithmetic::div_mod::lemma_mod_self_0(e);
                }
                Some(EntrySlot { slot, value_offset: (value_addr - self.payload_base) as u16 })
            },
        }
    }
}

} // verus!
