# A verified interpreter for a call-by-push-value calculus

The library holds the syntax of a small call-by-push-value language (values,
computations, value and computation types), capture-unaware substitution, two
evaluators and a type synthesizer, each with a contract proved by Verus.

- `src/syntax.rs`: the annotated syntax trees, their mathematical model
  (`ValModel`, `CompModel`, ...) given as views, size measures, and copies and
  type equalities whose results are proved.
- `src/semantics.rs`: the meaning of the language as spec functions:
  substitution, the primitive operations, big-step evaluation (`run`, with fuel)
  and the transitions of the stack machine (`step`, `run_machine`).
- `src/eval.rs`: `substVal`, `substCompute`, the big-step evaluator `eval` and the
  stack machine `eval_with_stack`, each proved to compute its spec.
- `src/typeSyn.rs`: typing environments, `lookup`, `typeSynVal` and
  `typeSynCompute`, proved against the typing judgement `syn_val`/`syn_comp`.
- `src/laws.rs`: properties that span functions: fuel monotonicity of both
  evaluators, agreement of the stack machine with big-step evaluation on every
  program that the latter evaluates, big-step evaluation of `to` and `push`
  through their parts, the stack machine under a pending `to`, projection or
  argument frame, substitution of an absent variable and of a variable with no
  binder, and shadowing in typing environments.
- `src/typing_laws.rs`: an environment entry for a name that does not occur
  changes neither a type nor an error.
- `src/text.rs`: string helpers, and the one call into std whose result is
  trusted (the `Debug` rendering in one error message of the stack machine).

The syntax has no conditional, and no construct branches on a boolean (`PmSum`
matches injections only), so a program such as
`bind 1 < 2 to x. if x then return 1 else return 2` has no term here and no
test runs it.
