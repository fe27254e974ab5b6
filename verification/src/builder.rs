//! Chunk size classes and the fluent arena builder.

use vstd::prelude::*;
use crate::arena::ArenaConfig;
use crate::constants::{
    CHUNK_ALIGN, MAX_CHUNK_BYTES, MAX_NORMAL_ALLOC, MAX_SMART_PTR_ALIGN, MIN_CHUNK_BYTES, MIN_MAX_NORMAL_ALLOC,
    SIZE_CLASS_COUNT,
};

verus! {

/// Total bytes of chunk class `k`: `MIN_CHUNK_BYTES` doubled `k` times.
pub open spec fn class_bytes(k: nat) -> nat
    decreases k,
{
    if k == 0 { MIN_CHUNK_BYTES as nat } else { 2 * class_bytes((k - 1) as nat) }
}

/// Every class is at least the smallest chunk.
pub proof fn lemma_class_bytes_min(k: nat)
    ensures
        class_bytes(k) >= MIN_CHUNK_BYTES,
    decreases k,
{
    if k > 0 {
        lemma_class_bytes_min((k - 1) as nat);
    }
}

/// Class sizes grow with the class index.
pub proof fn lemma_class_bytes_monotone(j: nat, k: nat)
    requires
        j <= k,
    ensures
        class_bytes(j) <= class_bytes(k),
        class_bytes(j) >= MIN_CHUNK_BYTES,
    decreases k,
{
    lemma_class_bytes_min(j);
    if k > j {
        lemma_class_bytes_monotone(j, (k - 1) as nat);
        lemma_class_bytes_min((k - 1) as nat);
    }
}

/// The largest class is exactly one chunk tile.
pub proof fn lemma_max_class_bytes()
    ensures
        class_bytes((SIZE_CLASS_COUNT - 1) as nat) == MAX_CHUNK_BYTES,
{
    reveal_with_fuel(class_bytes, 8);
}

/// A chunk size class: `MIN_CHUNK_BYTES << k` total bytes.
#[derive(Clone, Copy, Debug, PartialEq, Eq, Structural)]
pub struct SizeClass {
    index: u8,
}

impl View for SizeClass {
    type V = nat;

    closed spec fn view(&self) -> nat {
        self.index as nat
    }
}

impl SizeClass {
    /// A valid class index.
    pub open spec fn wf(self) -> bool {
        self@ < SIZE_CLASS_COUNT
    }

    /// The smallest class.
    pub fn zero() -> (r: SizeClass)
        ensures
            r@ == 0,
    {
        SizeClass { index: 0 }
    }

    /// The largest class.
    pub fn max() -> (r: SizeClass)
        ensures
            r@ == SIZE_CLASS_COUNT - 1,
    {
        SizeClass { index: SIZE_CLASS_COUNT - 1 }
    }

    /// The class index.
    pub fn index(&self) -> (r: u8)
        ensures
            r == self@,
    {
        self.index
    }

    /// Total bytes of chunks of this class.
    pub fn bytes(&self) -> (r: usize)
        requires
            self.wf(),
        ensures
            r == class_bytes(self@),
    {
        let mut b: usize = MIN_CHUNK_BYTES;
        let mut k: u8 = 0;
        while k < self.index
            invariant
                k <= self.index < SIZE_CLASS_COUNT,
                b == class_bytes(k as nat),
            decreases self.index - k,
        {
            proof {
                lemma_class_bytes_monotone((k + 1) as nat, (SIZE_CLASS_COUNT - 1) as nat);
                lemma_max_class_bytes();
            }
            b = b * 2;
            k = k + 1;
        }
        b
    }

    /// The next larger class, saturating at the largest.
    pub fn saturating_inc(&self) -> (r: SizeClass)
        requires
            self.wf(),
        ensures
            r@ == (if self@ + 1 < SIZE_CLASS_COUNT { self@ + 1 } else { self@ }),
            r.wf(),
    {
        if self.index + 1 < SIZE_CLASS_COUNT {
            SizeClass { index: self.index + 1 }
        } else {
            SizeClass { index: self.index }
        }
    }

    /// The smallest class whose chunks hold at least `bytes`, or the largest
    /// class when none does.
    pub fn min_for_bytes(bytes: usize) -> (r: SizeClass)
        ensures
            r.wf(),
            bytes <= MAX_CHUNK_BYTES ==> class_bytes(r@) >= bytes,
            r@ > 0 ==> class_bytes((r@ - 1) as nat) < bytes,
            bytes > MAX_CHUNK_BYTES ==> r@ == SIZE_CLASS_COUNT - 1,
    {
        let mut k: u8 = 0;
        let mut b: usize = MIN_CHUNK_BYTES;
        proof {
            lemma_class_bytes_monotone(0, (SIZE_CLASS_COUNT - 1) as nat);
            lemma_max_class_bytes();
        }
        while k + 1 < SIZE_CLASS_COUNT && b < bytes
            invariant
                k < SIZE_CLASS_COUNT,
                b == class_bytes(k as nat),
                b <= MAX_CHUNK_BYTES,
                k > 0 ==> class_bytes((k - 1) as nat) < bytes,
            decreases SIZE_CLASS_COUNT - k,
        {
            proof {
                lemma_class_bytes_monotone((k + 1) as nat, (SIZE_CLASS_COUNT - 1) as nat);
                lemma_max_class_bytes();
            }
            b = b * 2;
            k = k + 1;
        }
        proof {
            lemma_max_class_bytes();
        }
        SizeClass { index: k }
    }
}

/// Where the per-allocator chunk geometry puts its limits: the bump extent
/// of local and shared chunks (the chunk tile minus the header) and the
/// smallest payload requested on refill.
#[derive(Clone, Copy, Debug, PartialEq, Eq)]
pub struct ChunkGeometry {
    /// Bump extent of local chunks.
    pub local_max_bump_extent: usize,
    /// Bump extent of shared chunks.
    pub shared_max_bump_extent: usize,
    /// Smallest payload requested on refill.
    pub default_min_payload: usize,
}

impl ChunkGeometry {
    /// A geometry whose extents fit one chunk tile and admit the default
    /// cutover.
    pub open spec fn wf(self) -> bool {
        &&& MAX_NORMAL_ALLOC <= self.local_max_bump_extent < CHUNK_ALIGN
        &&& MAX_NORMAL_ALLOC <= self.shared_max_bump_extent < CHUNK_ALIGN
        &&& self.default_min_payload >= 1
    }

    /// The upper bound of the `max_normal_alloc` knob: the smaller bump
    /// extent.
    pub open spec fn upper(self) -> int {
        if self.local_max_bump_extent < self.shared_max_bump_extent {
            self.local_max_bump_extent as int
        } else {
            self.shared_max_bump_extent as int
        }
    }
}

/// The configuration of an arena with the given knobs.
pub open spec fn config_for(geometry: ChunkGeometry, max_normal_alloc: usize) -> ArenaConfig {
    ArenaConfig {
        max_normal_alloc,
        local_max_bump_extent: geometry.local_max_bump_extent,
        shared_max_bump_extent: geometry.shared_max_bump_extent,
        default_min_payload: geometry.default_min_payload,
        chunk_align_cap: CHUNK_ALIGN,
        smart_ptr_align_cap: MAX_SMART_PTR_ALIGN,
    }
}

/// The configuration of `Arena::new`: the default cutover, no budget, no
/// preallocation.
pub fn default_config(geometry: ChunkGeometry) -> (r: ArenaConfig)
    requires
        geometry.wf(),
    ensures
        r == config_for(geometry, MAX_NORMAL_ALLOC),
        r.wf(),
{
    proof {
        crate::sizing::lemma_cap_order();
    }
    ArenaConfig {
        max_normal_alloc: MAX_NORMAL_ALLOC,
        local_max_bump_extent: geometry.local_max_bump_extent,
        shared_max_bump_extent: geometry.shared_max_bump_extent,
        default_min_payload: geometry.default_min_payload,
        chunk_align_cap: CHUNK_ALIGN,
        smart_ptr_align_cap: MAX_SMART_PTR_ALIGN,
    }
}

/// What building an arena amounts to: its configuration, its byte budget,
/// and the chunks to preallocate (a class and a count).
#[derive(Clone, Copy, Debug, PartialEq, Eq)]
pub struct BuildPlan {
    /// The arena's configuration.
    pub config: ArenaConfig,
    /// Cap on outstanding chunk bytes, if any.
    pub byte_budget: Option<usize>,
    /// Chunks to preallocate into the cache.
    pub preallocate: Option<(SizeClass, usize)>,
}

/// Fluent builder for an arena. All knobs have defaults that reproduce
/// `Arena::new` exactly.
#[derive(Clone, Copy, Debug, PartialEq, Eq)]
pub struct ArenaBuilder {
    max_normal_alloc: usize,
    byte_budget: Option<usize>,
    capacity: usize,
}

/// Mathematical knobs of a builder.
pub struct BuilderKnobs {
    /// The oversized-allocation cutover.
    pub max_normal_alloc: usize,
    /// Cap on outstanding chunk bytes.
    pub byte_budget: Option<usize>,
    /// Bytes to preallocate.
    pub capacity: usize,
}

impl View for ArenaBuilder {
    type V = BuilderKnobs;

    closed spec fn view(&self) -> BuilderKnobs {
        BuilderKnobs { max_normal_alloc: self.max_normal_alloc, byte_budget: self.byte_budget, capacity: self.capacity }
    }
}

/// `capacity` rounded up to whole chunks of `class_bytes`.
pub open spec fn chunk_count(capacity: int, class_bytes: int) -> int {
    (capacity + class_bytes - 1) / class_bytes
}

/// `r` resolves a preallocation of `capacity` bytes: none for 0; otherwise
/// the smallest class covering it (the largest class when none does) and
/// the fewest chunks of that class reaching it.
pub open spec fn capacity_resolution(capacity: usize, r: Option<(SizeClass, usize)>) -> bool {
    &&& (capacity == 0 <==> r is None)
    &&& (r is Some ==> {
        let (class, count) = r->0;
        &&& class.wf()
        &&& class@ > 0 ==> class_bytes((class@ - 1) as nat) < capacity
        &&& capacity <= MAX_CHUNK_BYTES ==> class_bytes(class@) >= capacity
        &&& capacity > MAX_CHUNK_BYTES ==> class@ == SIZE_CLASS_COUNT - 1
        &&& count == chunk_count(capacity as int, class_bytes(class@) as int)
        &&& count * class_bytes(class@) >= capacity
        &&& (count - 1) * class_bytes(class@) < capacity
    })
}

/// The knobs of a fresh builder: the default cutover, no budget, no
/// preallocation.
pub open spec fn default_knobs() -> BuilderKnobs {
    BuilderKnobs { max_normal_alloc: MAX_NORMAL_ALLOC, byte_budget: None, capacity: 0 }
}

/// `plan` is what building with `knobs` over `geometry` gives.
pub open spec fn build_outcome(knobs: BuilderKnobs, geometry: ChunkGeometry, plan: BuildPlan) -> bool {
    &&& plan.config == config_for(geometry, knobs.max_normal_alloc)
    &&& plan.byte_budget == knobs.byte_budget
    &&& capacity_resolution(knobs.capacity, plan.preallocate)
}

impl ArenaBuilder {
    /// A builder with the default knobs.
    pub fn new() -> (r: ArenaBuilder)
        ensures
            r@ == default_knobs(),
    {
        ArenaBuilder { max_normal_alloc: MAX_NORMAL_ALLOC, byte_budget: None, capacity: 0 }
    }

    /// Set the oversized-allocation cutover. Must lie in
    /// `[4096, max bump extent]` when the arena is built.
    pub fn max_normal_alloc(self, bytes: usize) -> (r: ArenaBuilder)
        ensures
            r@ == (BuilderKnobs { max_normal_alloc: bytes, ..self@ }),
    {
        ArenaBuilder { max_normal_alloc: bytes, ..self }
    }

    /// Cap the outstanding chunk-capacity bytes (live + cached).
    pub fn byte_budget(self, bytes: usize) -> (r: ArenaBuilder)
        ensures
            r@ == (BuilderKnobs { byte_budget: Some(bytes), ..self@ }),
    {
        ArenaBuilder { byte_budget: Some(bytes), ..self }
    }

    /// Preallocate `bytes` of total chunk allocation up front; must be 0 or
    /// at least `MIN_CHUNK_BYTES` when the arena is built.
    pub fn with_capacity(self, bytes: usize) -> (r: ArenaBuilder)
        ensures
            r@ == (BuilderKnobs { capacity: bytes, ..self@ }),
    {
        ArenaBuilder { capacity: bytes, ..self }
    }

    /// The knobs are in range for an arena with the bump extent `upper`.
    /// Building with knobs out of range is a usage error.
    pub fn knobs_valid(&self, upper: usize) -> (r: bool)
        ensures
            r <==> (MIN_MAX_NORMAL_ALLOC <= self@.max_normal_alloc <= upper
                && (self@.capacity == 0 || self@.capacity >= MIN_CHUNK_BYTES)),
    {
        MIN_MAX_NORMAL_ALLOC <= self.max_normal_alloc && self.max_normal_alloc <= upper
            && (self.capacity == 0 || self.capacity >= MIN_CHUNK_BYTES)
    }

    /// Resolve a preallocation of `capacity` total bytes into the class that
    /// covers it (capped at the largest class) and the number of chunks of
    /// that class needed to reach it.
    pub fn resolve_capacity(capacity: usize) -> (r: Option<(SizeClass, usize)>)
        ensures
            capacity_resolution(capacity, r),
    {
        if capacity == 0 {
            return None;
        }
        let class = SizeClass::min_for_bytes(capacity);
        let total = class.bytes();
        proof {
            lemma_class_bytes_monotone(0, class@);
            vstd::arithmetic::div_mod::lemma_div_decreases(capacity as int, total as int);
        }
        let count = capacity / total + if capacity % total == 0 { 0 } else { 1 };
        proof {
            let c = capacity as int;
            let t = total as int;
            vstd::arithmetic::div_mod::lemma_fundamental_div_mod(c, t);
            vstd::arithmetic::div_mod::lemma_mod_bound(c, t);
            let q = c / t;
            let m = c % t;
            assert(t * q == q * t) by (nonlinear_arith);
            assert((q + 1) * t == q * t + t) by (nonlinear_arith);
            assert((q - 1) * t == q * t - t) by (nonlinear_arith);
            if m == 0 {
                assert(q * t + (t - 1) == c + t - 1);
                vstd::arithmetic::div_mod::lemma_fundamental_div_mod_converse_div(c + t - 1, t, q, t - 1);
            } else {
                assert((q + 1) * t + (m - 1) == c + t - 1);
                vstd::arithmetic::div_mod::lemma_fundamental_div_mod_converse_div(c + t - 1, t, q + 1, m - 1);
            }
        }
        Some((class, count))
    }

    /// Consume the builder: the configuration, budget and preallocation of
    /// the arena it describes.
    pub fn try_build(self, geometry: ChunkGeometry) -> (r: BuildPlan)
        requires
            geometry.wf(),
            MIN_MAX_NORMAL_ALLOC <= self@.max_normal_alloc <= geometry.upper(),
            self@.capacity == 0 || self@.capacity >= MIN_CHUNK_BYTES,
        ensures
            build_outcome(self@, geometry, r),
            r.config.wf(),
    {
        proof {
            crate::sizing::lemma_cap_order();
        }
        let preallocate = Self::resolve_capacity(self.capacity);
        let config = ArenaConfig {
            max_normal_alloc: self.max_normal_alloc,
            local_max_bump_extent: geometry.local_max_bump_extent,
            shared_max_bump_extent: geometry.shared_max_bump_extent,
            default_min_payload: geometry.default_min_payload,
            chunk_align_cap: CHUNK_ALIGN,
            smart_ptr_align_cap: MAX_SMART_PTR_ALIGN,
        };
        BuildPlan { config, byte_budget: self.byte_budget, preallocate }
    }
}


/// A builder left at its defaults (`ArenaBuilder::new`) builds
/// (`try_build`) exactly what `Arena::new` builds: the default cutover, no
/// byte budget, nothing preallocated.
pub proof fn law_default_builder_reproduces_new(geometry: ChunkGeometry, plan: BuildPlan)
    requires
        geometry.wf(),
        build_outcome(default_knobs(), geometry, plan),
    ensures
        plan.config == config_for(geometry, MAX_NORMAL_ALLOC),
        plan.byte_budget is None,
        plan.preallocate is None,
{
}

} // verus!
