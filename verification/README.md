# sqlparser_mysql

Parsers for pieces of MySQL statements (identifiers, literals, columns,
arithmetic and condition expressions, joins, table options, ...), each one
verified with Verus against a mathematical statement of its grammar.

Layout:

- `src/base/input.rs`: the input model (a string viewed as `Seq<char>`), the
  rule outcome `Parsed` (`Done(end, value)`, `NoMatch`, `Abort`) and the
  relations `agrees` / `str_agrees` that tie an executable parser's result to
  its rule.
- `src/base/*.rs`: one module per grammar piece. Each holds a `spec_*` rule,
  an executable `*_at` parser proved to agree with it, a public `parse`-style
  entry point on `&str`, and, where the type has a text form, a `*_text` spec
  with the `to_string` that produces it.
- `src/common`, `src/common_statement`: the option enums shared by the
  statement parsers.
- `src/das/set_statement.rs`: `SET variable = value`.

Inputs on which a rule is `Abort` (a number too large for its target type)
are excluded by the `requires` of the parsers that can reach them.
