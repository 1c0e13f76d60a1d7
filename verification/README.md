# xcfun_eval

Host-side logic of an exchange-correlation functional evaluator, verified
with Verus.

- `src/` is the verified library: variable layouts and their lengths
  (`vars`), functional identifiers and their dependency flags
  (`functional_id`, `dependency`), which functionals and launch triples have
  kernels (`dispatch`), Taylor-layout sizes (`taylor`, `monomial`), the
  configuration and validation of an evaluation (`functional`), and the
  launch plans that say which kernel launches an evaluation makes, how each
  launch input block is built and where each kernel coefficient is
  accumulated (`launch_plan`). Cross-function properties are in `laws` and
  next to the plans they speak of.
- `app/` holds the floating-point side: the weights and settings array, name
  lookup for `set`/`get`, and the execution of the verified plans through a
  kernel back end supplied by the caller.
- `tests/` exercises the library on concrete values.
