# wasm_glue

Generates the JavaScript glue for a WebAssembly module, with a proof that it does what the model
says.

* `src/` is the library. All of it is verified by Verus, except for the calls into `walrus`,
  `serde_json`, `wasm_bindgen_shared` and the standard library, whose contracts are believed. Each
  of these says in its documentation which function it calls and what is claimed of it.
* `tests/` runs the library, on modules that `walrus` builds.
* `app/` runs the generator: it reads files and drives the translation of exports and imports.

The model of a run is `context::GlueView`. A function `f` of `Context` has a contract that says
that it leads to the state and the result of `GlueView::f`. The helper functions of the glue are a
table, `GlueView::steps`; `helper_laws`, `keys` and `calls` show that the table is sound.
`run_laws`, `class_laws` and `reader_laws` state what holds over any calls of a run, and `laws` what
holds of the bindings and of the finished glue.
