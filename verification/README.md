# cpsat-rs

A builder for Google OR-Tools CP-SAT models, verified with Verus.

- `src/` — the verified library: variable handles (`vars`), linear expressions
  and their arithmetic (`expressions`), the model builder (`model`), the model
  and response messages (`proto`), solver parameters (`params`) and the
  reading of a solver response (`solver`). Each builder call states exactly
  which message it appends; the encodings that carry meaning (moving an
  expression's constant to the bounds, implication, min as a negated max,
  maximization as negated minimization, negated literals) are proved to mean
  what they say under every assignment; for moving the constant, every
  assignment under which the weighted sum of the terms fits in an `i64`.
- `app/` — the protobuf wire format (prost), the call into OR-Tools' C API,
  the solver's floating-point statistics and the parameters and objective
  fields that are doubles.
- `tests/` — tests of the library on concrete values.

Solving requires the OR-Tools C++ library.
