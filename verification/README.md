# stellar

The core of a compiler for the Stellar programming language, written in Verus
and proved against its contracts.

- `src/` is the verified library: source files and their line tables,
  locations, diagnostics, string interning, the lexer, the parser from source
  to syntax tree, the lowering of the syntax tree to HIR, the database of
  packages and their entities, package manifests and project paths.
- `tests/` runs the library on concrete inputs.
- `app/` is the command line interface: reading files, printing tokens,
  syntax trees, HIR, manifests and diagnostics, walking a package's source
  directory, and the syntax tree visitor.

How far the contracts go differs by part. The lexer and the lowering are
stated in full. The parser's contracts state that every failure is reported
and that parsing moves forward. For a fragment of the language they also
state what the tree holds: how many nodes of which kind, and, for every
identifier of a path, of a function's or struct's name, and of the names
and path types of parameters and fields, the token it was read from and the
interned ID of that token's name. The fragment is: paths, imports, type
constructors whose arguments are paths, path patterns, expressions of
identifiers and binary operators (their shape, precedence and grouping),
identifier statements, functions whose parameters are names with path types
and whose bodies are `;` or empty, structs with such fields and methods,
plain type aliases, and modules that begin with imports and such functions
and structs. Of imports, methods, return types and binary expressions the
contracts give the shape but not the identifiers. Beyond the fragment
(nested type arguments, lambdas, `if`, `match`, enums, interfaces, patterns
other than paths, and so on) they say which kind of node the first token
decides, not the whole tree.
