# newtype_tools

Ergonomic utilities for the Rust newtype idiom, verified with Verus.

- `src/step.rs`: the `Step` and `MinMax` traits. A `Step` type is modelled as an
  interval of the integer line; the laws of stepping (`steps_between`,
  `forward_checked`, `backward_checked` and their relations) are proved once for
  every `Step` type.
- `src/int_steps.rs`: `Step` and `MinMax` for the primitive integer types.
- `src/iter.rs`: `Iterator`, the iterator over a range of newtypes, with the
  laws of iteration (fused, ordered, exact size).
- `src/derive.rs` and `src/derive/`: the logic of the `newtype` attribute and
  of the `Newtype` derive: the kinds and derive items with their names, the
  grammar of the attributes over their tokens (with `syn` reading the types,
  expressions, identifiers and literals in them), the messages of the
  refusals, and the plan of the code they expand to.
- `app/lib.rs`: the attribute and the derive as token-stream functions that
  write the planned code with `quote`.
