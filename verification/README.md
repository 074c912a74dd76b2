# russcip

A safe Rust interface to the SCIP optimization suite, whose logic is
verified with Verus.

## Layout

- `src/` — the verified library.
  - `model.rs`, `scip.rs`: the typestate of a model and the calls it makes on
    SCIP. Each operation states, in its contract, the exact SCIP calls it
    appends to the model's log; what SCIP answers (return codes, statuses,
    counts, addresses of created objects) is an argument.
  - `retcode.rs`, `status.rs`, `result.rs`, `variable.rs`, `separator.rs`,
    `heuristic.rs`, `eventhdlr.rs`: SCIP's codes and masks, read and written
    back, with round-trip and union laws.
  - `builder/`: the plugin builders, their defaults and setters.
  - `pricer.rs`, `branchrule.rs`, `conshdlr.rs`, `separator.rs`,
    `nodesel.rs`: what the plugin callbacks report to SCIP from a plugin's
    answer, each callback stated over what the plugin returned; an included
    heuristic or pricer is handed back with the callback that runs it.
  - `probing.rs`, `diving.rs`: probing and diving modes, with the probing
    path that the calls leave and the laws of backtracking.
  - `param.rs`: typed parameters.
  - `grammar/`: the grammar behind `expr!` and `cons!`: tokens, numerals,
    the rules as spec functions, the reader that follows them, the law
    that every place it reports names a token of its input, and the
    messages of its errors.
- `tests/`: the tests, with SCIP's answers as inputs.
- `app/`: the runtime around the library: the SCIP C API that makes the
  logged calls, the callbacks SCIP makes into plugins, the token bridge of
  the macros (`proc-macro2`, `quote`, `proc-macro-crate`), the plugin
  settings that hold floating-point values, and the reference counts that
  keep a SCIP instance alive while a model or a constraint refers to it.
