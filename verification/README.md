# lau-ensign

The ensign system: small model agents that wake up on call, orient in a room,
keep the room's story, and stay at yellow alert even when the deadband reads
green.

- `src/` is the verified library (Verus). It holds the ensign's lifecycle and
  counters, the deadband trend classification, the story narrative and the
  report texts, each with its contract, and the laws that hold across any
  sequence of an ensign's operations (`src/laws.rs`, and the story laws in
  `src/story.rs`).
- `app/` holds the types that carry floating-point readings (deadband values,
  gravity, energy, significance) and their serde forms; it measures, and hands
  the library the plain values it decides on.
- `tests/` exercises the library on concrete values.
