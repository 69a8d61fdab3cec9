# arrayvec_scenarios

Scenarios for the fixed-capacity `ArrayVec` and `ArrayString` of the
`arrayvec` crate (0.5), proved with Verus.

Each scenario builds vectors or strings, runs a sequence of operations and
returns what it observed; its contract states those observations exactly,
and Verus proves them from the contracts of the calls into `arrayvec`.
The tests under `tests/` run the same scenarios against the real crate.

Layout:

- `src/model.rs` – the model of a bounded vector and a bounded string over
  `Seq` (push, extend, drain, insert, remove at, retain, append text) and
  the laws that relate the operations.
- `src/vec_usize.rs`, `src/vec_i32.rs`, `src/vec_bytes.rs`,
  `src/vec_owned.rs`, `src/vec_zst.rs` – vectors by element type: for each
  capacity used, a type holding the `arrayvec` vector, a name for its
  contents, the calls it needs with their contracts, and the scenarios
  that use it.
- `src/strings.rs` – the same for `ArrayString`.
- `src/errors.rs` – the declaration of `arrayvec::CapacityError`.
- `app/lib.rs` – the scenarios that observe drops, unwinding, layout,
  auto traits, hashing and printing, and those whose point is a panic.
