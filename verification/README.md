# lexum-compiler

The front end of the Lexum compiler, written in Verus: the library's functions
carry contracts that Verus proves. Two small functions in `src/text.rs` are
trusted rather than proved: `push_char` (a call of `String::push`) and
`debug_names_text` (the `Debug` rendering of a list of names, whose result is
named `debug_names`).

- `src/lexer` — the lexer (`lex`), stated character by character in
  `lexer/scan.rs`; the outline tokens of `lexer/token.rs`.
- `src/parser` — the recursive-descent parser (`parse`, `Parser`), stated over
  token sequences in `parser/grammar.rs` and `parser/statements.rs`; the
  outline parser in `parser/outline.rs`; what every expression parse
  satisfies in `parser/laws.rs`.
- `src/ast.rs` — the syntax tree and its mathematical model; `ast/tree.rs` the
  outline of a system.
- `src/semantic` — the validator (`SemanticValidator::validate`): its rules in
  `semantic/rules.rs`, its diagnostics in `semantic/messages.rs`, and what a
  validated program is proved to satisfy in `semantic/laws.rs`.
- `src/semantics.rs`, `src/error.rs` — the outline checks and their error.
- `src/lib.rs` — `compile_source`, which runs lexer, parser and validator.
- `app/` — the same errors as `miette` diagnostics, and `compile_source`
  returning a `miette::Report`.
