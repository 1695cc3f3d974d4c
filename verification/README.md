# michis_rand_distr_derive

The decisions behind `#[derive(StandardDistribution)]`, verified with Verus.

- `src/` is the verified library. It works on plain values: the item's name, its type
  parameters, its variants and fields with their `skip` flags and `weight` literals (kind and
  text). It checks the attributes, picks how the generated `sample` method chooses a variant
  (weighted, among the non-skipped variants, a constant, or uniform), and fills every field
  (randomly, or from `Default` when skipped). `src/laws.rs` states what holds of every checked input:
  a skipped variant is never chosen, a zero weight acts as `skip`, the chooser never picks an
  index without an arm, and without attributes the choice is uniform.
- `app/` is the procedural-macro front end: it reads the input with `syn` and `darling`,
  hands the library its plain values, and renders the returned plans with `quote`.
- `tests/` runs the library on the shapes of input that the derive supports and rejects.
