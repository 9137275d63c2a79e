# lelang

A compiler for lelang, a small C-like language, with LLVM as its back end.
The library in `src/` is verified with Verus; `app/` holds what talks to
the outside world.

## Library (`src/`)

- `lexer`: tokens, their spans, and a cursor over them (`LELexer`) with a
  mathematical model of the token stream.
- `ast/nodes`: the syntax tree and its model.
- `ast/parser`: the recursive-descent parser. `grammar` states the grammar
  as spec functions over the token stream; every parsing function is proved
  to return exactly what its grammar function describes, errors included,
  and to leave the cursor where the grammar says it stops, on success and
  on error alike.
  `laws` proves that operators of higher precedence bind tighter and that
  operators of equal precedence associate to the left.
- `ast/program`: whole programs (`Ast::from_lexer`).
- `ast/tree`: the syntax tree as a ptree tree of labels, proved against a
  model of the builder's contents.
- `arg_parser`: the compiler's settings and the reading of the optimize
  level.
- `code_generator`: the decisions of the code generator: type promotion,
  the instruction, predicate and casts each operator is built with and the
  type of its result (a comparison gives a `bool`), the checks of calls and
  initializers, and the scoped symbol table with its laws (lookup after
  insertion, no redefinition, closing a scope undoes opening it).
- `code_gen`: the first, integer-only generator: its instructions, the
  variable an assignment stores into, and the walk through a block, which
  opens the block's scope on entry and closes it on leaving.

## Around it (`app/`)

The clap command line, the driver that writes tokens, trees or compiled
code, and the inkwell calls that carry out the library's plans.
