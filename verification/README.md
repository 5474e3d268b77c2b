# teac

Pieces of a compiler for a small imperative language, with their behaviour
stated in contracts and proved:

- `src/ast.rs`: the syntax tree; `src/ast/tree.rs` renders any node as an
  indented text tree; `src/ast/copies.rs` copies expression trees.
- `src/ir.rs`: IR data types and generator errors; `src/ir/gen/conversions.rs`
  maps written types and declarations to IR data types;
  `src/ir/gen/static_eval.rs` evaluates constant expressions with checked
  `i32` arithmetic.
- `src/backend/aarch64/`: the aarch64 instruction model, register classes,
  the virtual registers each instruction reads and writes, and its
  control-flow successors.
- `app/lib.rs`: adapters to `std::fmt::Formatter` and `std::collections::HashMap`.
