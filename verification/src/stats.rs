//! Runtime statistics of an arena.

use vstd::prelude::*;
use crate::arena::{sat64, ArenaCore};

verus! {

/// Runtime statistics for an arena.
///
/// Lifetime counters accumulate over the life of the arena; live gauges
/// follow the chunks currently held from the backing allocator.
#[derive(Clone, Copy, Debug, PartialEq, Eq)]
pub struct ArenaStats {
    /// Total cacheable, power-of-two chunks allocated.
    pub normal_chunks_allocated: u64,
    /// Total single-allocation chunks above `max_normal_alloc`.
    pub oversized_chunks_allocated: u64,
    /// Total bytes currently held from the underlying allocator.
    pub total_bytes_allocated: u64,
    /// Maximum value reached by `total_bytes_allocated`.
    pub peak_bytes_allocated: u64,
    /// Normal chunks held by or being returned to the reusable cache.
    pub cached_chunks: u64,
    /// Allocation footprint of the cached chunks.
    pub cached_bytes: u64,
    /// Normal chunks acquired from the cache instead of the allocator.
    pub normal_chunks_reused: u64,
    /// Completed resets.
    pub resets: u64,
    /// Unused tail bytes across currently held chunks.
    pub wasted_tail_bytes: u64,
    /// Growing-collection buffer relocations.
    pub relocations: u64,
}

impl Default for ArenaStats {
    fn default() -> (r: ArenaStats)
        ensures
            r == (ArenaStats {
                normal_chunks_allocated: 0,
                oversized_chunks_allocated: 0,
                total_bytes_allocated: 0,
                peak_bytes_allocated: 0,
                cached_chunks: 0,
                cached_bytes: 0,
                normal_chunks_reused: 0,
                resets: 0,
                wasted_tail_bytes: 0,
                relocations: 0,
            }),
    {
        ArenaStats {
            normal_chunks_allocated: 0,
            oversized_chunks_allocated: 0,
            total_bytes_allocated: 0,
            peak_bytes_allocated: 0,
            cached_chunks: 0,
            cached_bytes: 0,
            normal_chunks_reused: 0,
            resets: 0,
            wasted_tail_bytes: 0,
            relocations: 0,
        }
    }
}

/// The gauges kept by the chunk provider (the backing-allocator side).
#[derive(Clone, Copy, Debug, PartialEq, Eq)]
pub struct ProviderStats {
    /// Normal chunks allocated.
    pub normal_chunks_allocated: u64,
    /// Oversized chunks allocated.
    pub oversized_chunks_allocated: u64,
    /// Bytes currently held from the allocator.
    pub bytes_outstanding: u64,
    /// High-water mark of `bytes_outstanding`.
    pub peak_bytes: u64,
    /// Chunks in the reusable cache.
    pub cached_chunks: u64,
    /// Bytes in the reusable cache.
    pub cached_bytes: u64,
    /// Chunks served from the cache.
    pub normal_chunks_reused: u64,
}

impl ArenaCore {
    /// Snapshot of the arena's statistics given the provider's gauges. The
    /// wasted tail folds in the free tails of both current chunks, the slack
    /// that would become waste if the next allocation forced a refill.
    pub fn stats(&self, provider: ProviderStats) -> (r: ArenaStats)
        requires
            self@.wf(),
        ensures
            r == (ArenaStats {
                normal_chunks_allocated: provider.normal_chunks_allocated,
                oversized_chunks_allocated: provider.oversized_chunks_allocated,
                total_bytes_allocated: provider.bytes_outstanding,
                peak_bytes_allocated: provider.peak_bytes,
                cached_chunks: provider.cached_chunks,
                cached_bytes: provider.cached_bytes,
                normal_chunks_reused: provider.normal_chunks_reused,
                resets: self@.resets as u64,
                wasted_tail_bytes: sat64(sat64(self@.wasted + self@.local.free_bytes()) + self@.shared.free_bytes()) as u64,
                relocations: self@.relocations as u64,
            }),
    {
        let (wasted, resets, relocations) = self.counters();
        let local_free = self.local_free_bytes() as u64;
        let shared_free = self.shared_free_bytes() as u64;
        ArenaStats {
            normal_chunks_allocated: provider.normal_chunks_allocated,
            oversized_chunks_allocated: provider.oversized_chunks_allocated,
            total_bytes_allocated: provider.bytes_outstanding,
            peak_bytes_allocated: provider.peak_bytes,
            cached_chunks: provider.cached_chunks,
            cached_bytes: provider.cached_bytes,
            normal_chunks_reused: provider.normal_chunks_reused,
            resets,
            wasted_tail_bytes: wasted.saturating_add(local_free).saturating_add(shared_free),
            relocations,
        }
    }
}


impl ProviderStats {
    /// Gauges of a provider that has not allocated anything.
    pub fn empty() -> (r: ProviderStats)
        ensures
            r == (ProviderStats {
                normal_chunks_allocated: 0,
                oversized_chunks_allocated: 0,
                bytes_outstanding: 0,
                peak_bytes: 0,
                cached_chunks: 0,
                cached_bytes: 0,
                normal_chunks_reused: 0,
            }),
    {
        ProviderStats {
            normal_chunks_allocated: 0,
            oversized_chunks_allocated: 0,
            bytes_outstanding: 0,
            peak_bytes: 0,
            cached_chunks: 0,
            cached_bytes: 0,
            normal_chunks_reused: 0,
        }
    }

    /// The byte budget, if any, admits `bytes` more outstanding bytes.
    pub fn admits(&self, bytes: u64, budget: Option<usize>) -> (r: bool)
        ensures
            r <==> match budget {
                None => true,
                Some(b) => self.bytes_outstanding + bytes <= b,
            },
    {
        match budget {
            None => true,
            Some(b) => match self.bytes_outstanding.checked_add(bytes) {
                None => false,
                Some(total) => total <= b as u64,
            },
        }
    }

    /// A chunk of `bytes` was obtained from the backing allocator: count
    /// it, raise the outstanding bytes, and carry the peak along.
    pub fn acquired(self, bytes: u64, oversized: bool) -> (r: ProviderStats)
        ensures
            r == (ProviderStats {
                normal_chunks_allocated: if oversized { self.normal_chunks_allocated } else {
                    sat64(self.normal_chunks_allocated + 1) as u64
                },
                oversized_chunks_allocated: if oversized { sat64(self.oversized_chunks_allocated + 1) as u64 } else {
                    self.oversized_chunks_allocated
                },
                bytes_outstanding: sat64(self.bytes_outstanding + bytes) as u64,
                peak_bytes: if sat64(self.bytes_outstanding + bytes) > self.peak_bytes {
                    sat64(self.bytes_outstanding + bytes) as u64
                } else {
                    self.peak_bytes
                },
                ..self
            }),
    {
        let outstanding = self.bytes_outstanding.saturating_add(bytes);
        let peak = if outstanding > self.peak_bytes { outstanding } else { self.peak_bytes };
        if oversized {
            ProviderStats {
                oversized_chunks_allocated: self.oversized_chunks_allocated.saturating_add(1),
                bytes_outstanding: outstanding,
                peak_bytes: peak,
                ..self
            }
        } else {
            ProviderStats {
                normal_chunks_allocated: self.normal_chunks_allocated.saturating_add(1),
                bytes_outstanding: outstanding,
                peak_bytes: peak,
                ..self
            }
        }
    }

    /// A chunk of `bytes` went back to the backing allocator.
    pub fn released(self, bytes: u64) -> (r: ProviderStats)
        ensures
            r == (ProviderStats {
                bytes_outstanding: if self.bytes_outstanding >= bytes { (self.bytes_outstanding - bytes) as u64 } else { 0 },
                ..self
            }),
    {
        ProviderStats { bytes_outstanding: self.bytes_outstanding.saturating_sub(bytes), ..self }
    }
}

impl ProviderStats {
    /// A chunk of `bytes` was put into the reusable cache.
    pub fn cached(self, bytes: u64) -> (r: ProviderStats)
        ensures
            r == (ProviderStats {
                cached_chunks: sat64(self.cached_chunks + 1) as u64,
                cached_bytes: sat64(self.cached_bytes + bytes) as u64,
                ..self
            }),
    {
        ProviderStats {
            cached_chunks: self.cached_chunks.saturating_add(1),
            cached_bytes: self.cached_bytes.saturating_add(bytes),
            ..self
        }
    }

    /// A cached chunk of `bytes` was handed out again instead of a fresh
    /// one: it leaves the cache and counts as reused.
    pub fn reused_from_cache(self, bytes: u64) -> (r: ProviderStats)
        ensures
            r == (ProviderStats {
                cached_chunks: if self.cached_chunks >= 1 { (self.cached_chunks - 1) as u64 } else { 0 },
                cached_bytes: if self.cached_bytes >= bytes { (self.cached_bytes - bytes) as u64 } else { 0 },
                normal_chunks_reused: sat64(self.normal_chunks_reused + 1) as u64,
                ..self
            }),
    {
        ProviderStats {
            cached_chunks: self.cached_chunks.saturating_sub(1),
            cached_bytes: self.cached_bytes.saturating_sub(bytes),
            normal_chunks_reused: self.normal_chunks_reused.saturating_add(1),
            ..self
        }
    }
}

} // verus!
