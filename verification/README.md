# once_cell_no_std

A `OnceCell` that can be shared between threads and never blocks: a caller that meets another
caller's initialization in progress gets a `ConcurrentInitialization` error instead of waiting.

The library is written in Verus.

- `src/lib.rs`: `OnceCell`, `Insertion`, `CellState`, and how each operation turns the outcome of
  a claim into its result.
- `src/imp.rs`: the state machine. A state byte (`AtomicU8`) moves between `INCOMPLETE`,
  `RUNNING` and `COMPLETE`; one strong compare-exchange decides who may run an init function, and
  a guard ends the claim (back to `INCOMPLETE` on failure or panic, to `COMPLETE` once the value
  is stored). The value lives in a `std::sync::OnceLock` that only the claimant writes.
- `src/error.rs`: the error types; every error that rejects a value hands it back.
- `src/show.rs`: the debugging text of a cell that holds a value: the value's own `Debug`
  text, framed and (in the multi-line form) indented by verified code.
- `app/lib.rs`: exported functions that instantiate the API for a panic checker.

What a cell holds changes under shared references, so the contracts state what holds of every
outcome of an operation (an init function's error is reported as returned, a rejected value comes
back unchanged, a failed read never reports `Initialized`), not which outcome comes.
