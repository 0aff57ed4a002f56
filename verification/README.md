# pine_sema

Semantic checks for a Pine-compatible scripting language, written in Verus:
every function in `src/` carries a `requires`/`ensures` contract proved by the
verifier.

- `src/` — the verified library: the type lattice and acceptance rules,
  call-argument binding and validation (time, timestamp, drawing, array, map,
  alert, strategy and `request.security` calls), user-defined types and
  functions and their constructors, imported constructor planning,
  `varip` persistence, integer constant evaluation, the expression and
  statement analysis over a stack of scopes (operators, calls, names,
  conditionals, switches, history references, declarations, tuple
  declarations, reassignments and field mutations, user-defined method
  bodies) with its compatibility report, history-requirement inference over
  the lowered program, and the compile cache. `refusal_laws` proves that
  every feature the analysis refuses is also reported as a diagnostic at its
  span. Laws that relate several functions
  are public `proof fn`s named `lemma_*`.
- `tests/` — executable tests of the library on concrete values.
- `app/` — the floating-point constant folding and strategy-declaration
  settings, which the verified library does not model.
