# cairo_context

A binding to the cairo drawing context, split in two.

- `src/` is the verified library (Verus): the statuses that cairo reports with
  their codes and the check made after each operation (`status.rs`), the
  enumerated settings of a context with their codes in cairo's C interface and
  the proofs that the codes round-trip (`settings.rs`), the conversion of
  array lengths to and from C counts, and how many rectangles a clip list
  exposes (`counts.rs`).
- `app/` is ordinary Rust: `Context`, whose methods each make one call into
  libcairo through `cairo-sys-rs` with raw pointers and floating-point values,
  and the handles for patterns, paths, fonts and surfaces. The status check,
  the setting codes and the array counts around those calls come from the
  library; `app/` itself decides only to panic, as the original does, where
  cairo breaks its own promises (an unknown status or setting code, a
  negative count) and where the check fails after an operation.
- `tests/` exercises the library.
