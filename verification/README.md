# rust_cuda

A small CUDA toolkit whose core is verified with Verus.

- `src/` (verified): the tensor type (`tensor`), the error type and the status
  checks of the CUDA driver and NVVM bindings (`error`, `cuda`, `nvvm`), and
  the NVVM IR generator of the `#[cuda]` kernel attribute: the syntax it walks
  (`ast`), what it emits (`ir_spec`, with laws in `ir_laws`), the generator
  (`codegen`), the module text (`kernel`) and the check that a walk does not
  overflow its counter (`walk_check`). Decimal notation is in `text`.
- `app/` (not verified): the foreign CUDA and NVVM calls, the error type with
  its `Display`, and the attribute's expansion, which parses and prints Rust
  tokens with `syn` and `quote`.
- `tests/`: tests of the library.
