# palimpsest_sim

The deterministic, headless core of a world simulation, verified with Verus.

- `src/` — the verified library: simulation time and the monotonic clock,
  stable entity identities and their allocator, structured events and their
  validation, the due-time/FIFO scheduler (a binary heap with lazy
  invalidation), snapshot validation and framing, the event-store rules,
  the action vocabulary and the bounded outcome-event log, kernel
  observations and advance guards, the action runtime's start, cancel,
  movement, arrival and dispatch decisions, the decision driver's request
  merging and interrupt rule, render snapshot validation, the worker's
  command rules, the long-run chaos detectors, the canonical truth hash,
  and FNV-1a-64 digests. Contracts are stated over views; the laws that relate
  several operations are public proof functions named `law_*`.
- Not included: the world map with its pathfinding and activity sites and
  the hunger/fatigue model are separate crates outside this one, so the
  action runtime, world kernel, person runtime, render snapshot, simulation
  worker, chaos runner and spawn-layout search built on them are not here;
  the rules they apply to plain values are (see the `src/lib.rs` module
  documentation).
- `app/` — the I/O edge: serde wire forms of the library's values, the
  SQLite event store, and the bincode snapshot codec.
- `tests/` — executable tests of the library.
