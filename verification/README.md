# Descend

Descend is a safe systems programming language for AI accelerators.  This
crate holds its MLIR back end and its diagnostics, with their behaviour stated
in contracts and proved with Verus.

## Layout

- `src/ast.rs`, `src/ast/`: the syntax tree the back end consumes, natural
  number evaluation, and the rendering of types for diagnostics.
- `src/ty_check/error.rs`: the errors of the type checker.
- `src/error.rs`: compilation errors and the diagnostics made from type-checker
  errors.
- `src/codegen/mlir/ir.rs`: the MLIR program the back end builds — types,
  operations, blocks, functions and modules, with values numbered per function.
- `src/codegen/mlir/to_mlir/`: lowering of Descend types and function
  signatures, and the textual output for NPU kernels with HIVM address spaces.
- `src/codegen/mlir/builder/`: lowering of function bodies.  `outcome.rs` states
  what lowering an expression yields — an error, or a value of a given type,
  and the variables bound afterwards — and every builder function is proved to
  meet it; `lowering.rs` states exactly which operations lowering appends, on
  which values, and to which value each name is bound afterwards, and every
  builder function is proved to meet that too; `laws.rs` states properties that span constructs; `support.rs`
  decides whether a program stays within the supported constructs.
- `src/codegen/mlir.rs`: code generation for a whole program: programs with a
  function parameter in NPU memory take the textual HIVM path, all others are
  built as a module.
- `app/`: command-line arguments, reading sources and writing outputs, the MLIR
  libraries that verify and print a module, and `miette` diagnostics.
- `tests/`: tests of the library.
