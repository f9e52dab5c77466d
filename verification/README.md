# Kestrel core, verified

Kestrel is an endpoint behaviour detection engine: kernel and Endpoint
Security collectors turn system activity into events, rules match them, and
actions (alert, block, kill, quarantine) are decided and carried out, with
offline replay that gives the same results for the same events.

This crate holds the parts of Kestrel whose behaviour can be stated and
proved with Verus:

- `src/` is the library. Its functions carry `requires`/`ensures`
  contracts that Verus checks; those without one are methods of traits that
  users implement, or hand on text, clock readings or values that nothing
  here inspects. The `law_*` proof functions state
  properties that hold across calls (circuit breaker phases, rate limits,
  decision caching, replay ordering, normalization, batching and more).
  Calls into outside crates (sha2, uuid, lru, aho-corasick, ahash,
  serde_json, libc) go through small trusted wrappers whose contracts say
  what those crates document.
- `tests/` runs the library on concrete values.
- `app/` is the command-line program around the library: argument parsing,
  files, JSON serialization, async plumbing, loading and polling the eBPF
  object through aya (each polling step is decided by the library's
  `EbpfCollector`), and the parts that compute with floating point.
