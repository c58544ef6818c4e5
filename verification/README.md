# arc_swap

Storages for reference counted handles, with generation tokens for conditional updates, verified
with Verus.

A comparison of addresses cannot tell a value that stayed from a value that was replaced and put
back. A token can: it holds the address of a value and the generation of its publication, and every
write makes a new generation. The counter stops at its last value and never wraps, so a stale token
stays stale.

- `src/storage.rs`: the storage and its operations
- `src/observation.rs`: the tokens
- `src/debug.rs`, `src/digits.rs`: tokens in formatted output and as text
- `src/guard.rs`, `src/refused.rs`, `src/ref_cnt.rs`, `src/as_raw.rs`: what goes in and comes out
- `src/model.rs`, `src/laws.rs`: the model of a storage, and what holds over any course of writes
- `src/claim.rs`, `src/claim_laws.rs`: the claim protocol for two atomic words, and what holds
  under any interleaving of threads
- `app/`: sharing a storage between threads, weak handles, the atomics
