# multitude

A bump-arena allocator whose placement logic is verified with Verus.

- `src/` is the verified library. `ArenaCore` (in `arena.rs`) is the
  allocation planner: it owns the local and shared current-chunk slots, the
  list of chunks pinned until reset, and the statistics counters, and answers
  every request with a `Step` — placed (address and drop entry), refill the
  slot, serve from a one-shot oversized chunk, or fail. The contracts state
  each step over the mathematical `ArenaState`; `laws.rs` proves the
  properties that span operations (placements are aligned, disjoint and inside
  their chunk's first tile; refills keep their promise; references pin their
  chunk until reset; and so on). Alignment arithmetic, size budgets, size
  classes and the builder, reference-count bookkeeping, statistics and UTF-16
  transcoding live in their own modules.
- `app/` is the memory side: it obtains chunks from the global allocator,
  writes values where the planner placed them, records and replays drop
  entries, and frees chunks when the planner releases them.
- `tests/` exercises the library on concrete values.
