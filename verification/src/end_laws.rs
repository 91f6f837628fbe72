//! What of a run ends up in the finished glue, and what makes its end fail.
use crate::config::OutputMode;
use crate::context::GlueView;
use crate::error::GlueErrorView;
use crate::export::{class_js, class_ts};
use crate::export_laws::{law_classes_only_add, law_every_class_is_written};
use crate::finalize::{init_ts, lemma_classes_frame};
use crate::glue_laws::{
    assignments, ended, law_bundled, law_commonjs, law_script, law_web, lemma_followed,
};
use crate::names::{in_order, law_in_order, precedes};
use crate::parts::{
    holds, in_a_row, is_compact, law_squeezed_holds, lemma_first, lemma_second, lemma_start_holds,
    lemma_starts,
};
use crate::text::trimmed;
use vstd::prelude::*;

verus! {

/// The type of `init` tells of a memory, in its documentation and among its parameters, if and only
/// if it takes one.
pub proof fn law_init_type(has_memory: bool)
    ensures
        init_ts(has_memory) == "\n\
            /**\n\
            * If `module_or_path` is {RequestInfo}, makes a request and\n\
            * for everything else, calls `WebAssembly.instantiate` directly.\n\
            *\n\
            * @param {RequestInfo | BufferSource | WebAssembly.Module} module_or_path\n\
            "@ + (if has_memory {
            "* @param {WebAssembly.Memory} maybe_memory\n"@
        } else {
            ""@
        }) + "\
            *\n\
            * @returns {Promise<any>}\n\
            */\n\
            export default function init \
                (module_or_path: RequestInfo | BufferSource | WebAssembly.Module"@ + (if has_memory {
            ", maybe_memory: WebAssembly.Memory"@
        } else {
            ""@
        }) + "): Promise<any>;
        "@,
{
}

/// What stands among the items of the glue stands in what an ES module for a bundler is put together
/// from.
proof fn lemma_bundled_holds(state: GlueView, module_name: Seq<char>, start: bool, part: Seq<char>)
    requires
        state.config.mode is Bundler || state.config.mode matches OutputMode::Node {
            experimental_modules: true,
        },
        state.finalize_js(module_name, start).result is Ok,
        holds(state.globals, part) || holds(state.imports_post, part),
        is_compact(part),
    ensures
        holds(state.finalize_js(module_name, start).result->Ok_0.0, part),
{
    law_bundled(state, module_name, start);
    let text = in_a_row(assignments(state, "\nexport const "@));
    let wasm = "import * as wasm from './"@ + module_name + "_bg';\n"@;
    let run = if start {
        "\nwasm.__wbindgen_start();\n"@
    } else {
        ""@
    };
    let head = state.import_header()->Ok_0 + wasm + "\n"@;
    lemma_items_hold(head, state.imports_post, state.globals, part);
    let items = head + state.imports_post + "\n"@ + state.globals;
    lemma_followed(items, "\n"@, "\n"@, text, run, part);
    lemma_first(items + "\n"@ + "\n"@ + text + run, "\n"@, part);
    law_squeezed_holds(items + "\n"@ + "\n"@ + text + run + "\n"@, part);
}

/// What stands in one of two texts stands in both together, with a line feed between them.
proof fn lemma_items_hold(head: Seq<char>, a: Seq<char>, b: Seq<char>, part: Seq<char>)
    requires
        holds(a, part) || holds(b, part),
    ensures
        holds(head + a + "\n"@ + b, part),
{
    if holds(b, part) {
        lemma_second(head + a + "\n"@, b, part);
    } else {
        lemma_second(head, a, part);
        lemma_first(head + a, "\n"@, part);
        lemma_first(head + a + "\n"@, b, part);
    }
}

/// The same for a CommonJS module.
proof fn lemma_commonjs_holds(
    state: GlueView,
    module_name: Seq<char>,
    start: bool,
    part: Seq<char>,
)
    requires
        state.config.mode matches OutputMode::Node { experimental_modules: false },
        state.finalize_js(module_name, start).result is Ok,
        holds(state.globals, part) || holds(state.imports_post, part),
        is_compact(part),
    ensures
        holds(state.finalize_js(module_name, start).result->Ok_0.0, part),
{
    law_commonjs(state, module_name, start);
    let text = in_a_row(assignments(state, "\nmodule.exports."@));
    let load = "wasm = require('./"@ + module_name + "_bg');\n"@;
    let run = if start {
        "wasm.__wbindgen_start();\n"@
    } else {
        ""@
    };
    let head = "let wasm;\n"@ + state.import_header()->Ok_0 + "\n"@;
    lemma_items_hold(head, state.imports_post, state.globals, part);
    let items = head + state.imports_post + "\n"@ + state.globals;
    lemma_followed(items, "\n"@, "\n"@, text, load, part);
    let all = items + "\n"@ + "\n"@ + text + load;
    lemma_first(all, run, part);
    lemma_first(all + run, "\n"@, part);
    law_squeezed_holds(all + run + "\n"@, part);
}

/// The same for an ES module for browsers.
proof fn lemma_web_holds(state: GlueView, module_name: Seq<char>, start: bool, part: Seq<char>)
    requires
        state.config.mode is Web,
        state.finalize_js(module_name, start).result is Ok,
        holds(state.globals, part),
        is_compact(part),
    ensures
        holds(state.finalize_js(module_name, start).result->Ok_0.0, part),
{
    law_web(state, module_name, start);
    let before = GlueView { imports_post: state.imports_post + "let wasm;\n"@, ..state };
    let init = before.gen_init(start);
    let head = state.import_header()->Ok_0 + "\n"@;
    lemma_items_hold(head, init.state.imports_post, state.globals, part);
    let items = head + init.state.imports_post + "\n"@ + state.globals;
    let js = init.result->Ok_0.0;
    lemma_followed(items, "\n"@, js, "\n"@, "export default init;\n"@, part);
    let all = items + "\n"@ + js + "\n"@ + "export default init;\n"@;
    lemma_first(all, "\n"@, part);
    law_squeezed_holds(all + "\n"@, part);
}

/// The same for a script.
proof fn lemma_script_holds(state: GlueView, module_name: Seq<char>, start: bool, part: Seq<char>)
    requires
        state.config.mode is NoModules,
        state.finalize_js(module_name, start).result is Ok,
        holds(state.globals, part),
        is_compact(part),
    ensures
        holds(state.finalize_js(module_name, start).result->Ok_0.0, part),
{
    law_script(state, module_name, start);
    let init = state.gen_init(start);
    let head = "(function() {\nconst __exports = {};\nlet wasm;\n"@ + "\n"@;
    lemma_items_hold(head, init.state.imports_post, state.globals, part);
    let items = head + init.state.imports_post + "\n"@ + state.globals;
    let js = init.result->Ok_0.0;
    let last = "self."@ + state.config.mode->global@ + " = Object.assign(init, __exports);\n"@;
    lemma_followed(items, "\n"@, js, "\n"@, last, part);
    let all = items + "\n"@ + js + "\n"@ + last;
    lemma_first(all, "\n"@, part);
    lemma_first(all + "\n"@, "})();\n"@, part);
    law_squeezed_holds(all + "\n"@ + "})();\n"@, part);
}

/// What is among the items when the glue is put together stands in it.
proof fn lemma_items_reach(state: GlueView, module_name: Seq<char>, start: bool, part: Seq<char>)
    requires
        state.finalize_js(module_name, start).result is Ok,
        holds(state.globals, part),
        is_compact(part),
    ensures
        holds(state.finalize_js(module_name, start).result->Ok_0.0, part),
        state.typescript.is_prefix_of(state.finalize_js(module_name, start).result->Ok_0.1),
{
    match state.config.mode {
        OutputMode::Web => {
            lemma_web_holds(state, module_name, start, part);
            law_web(state, module_name, start);
            let before = GlueView { imports_post: state.imports_post + "let wasm;\n"@, ..state };
            lemma_starts(state.typescript, before.gen_init(start).result->Ok_0.1, part);
        },
        OutputMode::NoModules { global } => {
            lemma_script_holds(state, module_name, start, part);
            law_script(state, module_name, start);
            lemma_starts(state.typescript, state.gen_init(start).result->Ok_0.1, part);
        },
        OutputMode::Node { experimental_modules: false } => {
            lemma_commonjs_holds(state, module_name, start, part);
            law_commonjs(state, module_name, start);
            lemma_starts(state.typescript, part, part);
        },
        _ => {
            lemma_bundled_holds(state, module_name, start, part);
            law_bundled(state, module_name, start);
            lemma_starts(state.typescript, part, part);
        },
    }
}

/// The end of a run puts the glue together from the items that are there when the classes are
/// written.
proof fn lemma_end(state: GlueView, module_name: Seq<char>) -> (last: GlueView)
    requires
        state.finalize(module_name).result is Ok,
    ensures
        state.write_classes().result is Ok,
        state.finalize(module_name) == last.finalize_js(module_name, state.starts()),
        last.globals == state.write_classes().state.globals,
        last.typescript == state.write_classes().state.typescript,
{
    lemma_classes_frame(state);
    let module = state.wind_up().state.module.collected();
    let last = ended(state, module);
    assert(last == GlueView { module, exposed: None, ..state.wind_up().state });
    last
}

/// Whatever is among the items of the glue is in the finished JavaScript, and the TypeScript so far
/// is what the finished TypeScript starts with. (Three line feeds in a row would be squeezed.)
pub proof fn law_items_are_finished(state: GlueView, module_name: Seq<char>, part: Seq<char>)
    requires
        state.finalize(module_name).result is Ok,
        holds(state.globals, part),
        is_compact(part),
    ensures
        holds(state.finalize(module_name).result->Ok_0.0, part),
        state.typescript.is_prefix_of(state.finalize(module_name).result->Ok_0.1),
{
    let last = lemma_end(state, module_name);
    law_classes_only_add(state);
    lemma_start_holds(state.globals, last.globals, part);
    lemma_items_reach(last, module_name, state.starts(), part);
    lemma_starts(state.typescript, last.typescript, state.finalize(module_name).result->Ok_0.1);
}

/// Every class is in the finished glue, in JavaScript and in TypeScript.
pub proof fn law_classes_are_finished(state: GlueView, module_name: Seq<char>, name: Seq<char>)
    requires
        state.finalize(module_name).result is Ok,
        state.classes is Some,
        state.classes->0.dom().finite(),
        state.classes->0.contains_key(name),
        is_compact(trimmed(class_js(state.config, name, state.classes->0[name]))),
    ensures
        holds(
            state.finalize(module_name).result->Ok_0.0,
            trimmed(class_js(state.config, name, state.classes->0[name])),
        ),
        holds(
            state.finalize(module_name).result->Ok_0.1,
            class_ts(name, state.classes->0[name]),
        ),
{
    let last = lemma_end(state, module_name);
    let class = state.classes->0[name];
    law_every_class_is_written(state, name);
    let text = trimmed(class_js(state.config, name, class));
    lemma_items_reach(last, module_name, state.starts(), text);
    lemma_start_holds(
        last.typescript,
        state.finalize(module_name).result->Ok_0.1,
        class_ts(name, class),
    );
}

/// A script cannot import anything from a module: its end fails then, and the error names the first
/// module in the order of names.
pub proof fn law_script_imports_nothing(state: GlueView, module_name: Seq<char>, start: bool)
    requires
        state.config.mode is NoModules,
        state.js_imports.dom().finite(),
        !state.js_imports.dom().is_empty(),
    ensures
        exists|first: Seq<char>|
            {
                &&& #[trigger] state.js_imports.contains_key(first)
                &&& forall|other: Seq<char>|
                    state.js_imports.contains_key(other) && other != first ==> #[trigger] precedes(
                        first,
                        other,
                    )
                &&& state.finalize_js(module_name, start).result == Err::<(Seq<char>, Seq<char>), _>(
                    GlueErrorView::ModuleImport(first),
                )
                &&& state.finalize_js(module_name, start).state == state
            },
{
    let names = in_order(state.js_imports.dom());
    law_in_order(state.js_imports.dom());
    let some = state.js_imports.dom().choose();
    assert(names.to_set().contains(some));
    let first = names[0];
    assert(names.to_set().contains(first));
    assert(state.js_imports.contains_key(first));
    assert forall|other: Seq<char>|
        state.js_imports.contains_key(other) && other != first implies #[trigger] precedes(
        first,
        other,
    ) by {
        assert(names.to_set().contains(other));
        let i = choose|i: int| 0 <= i < names.len() && names[i] == other;
        assert(names[i] == other);
    }
}

/// Imports can be hooked up if and only if the module still has them all.
pub proof fn law_hooking_up(
    state: GlueView,
    from: Seq<char>,
    target: Seq<char>,
    definitions: Seq<(usize, Seq<char>)>,
)
    ensures
        ({
            let outcome = state.hook_up(from, target, definitions);
            let all = forall|i: int|
                0 <= i < definitions.len() ==> state.module.imports.contains_key(
                    (#[trigger] definitions[i]).0,
                );
            &&& outcome.result is Ok <==> all
            &&& outcome.result matches Err(error) ==> error is UnusedImport
            &&& outcome.state.module.imports.dom() == state.module.imports.dom()
        }),
    decreases definitions.len(),
{
    if definitions.len() > 0 {
        let rest = definitions.drop_last();
        law_hooking_up(state, from, target, rest);
        assert forall|i: int| 0 <= i < rest.len() implies rest[i] == #[trigger] definitions[i] by {}
        let before = state.hook_up(from, target, rest);
        let n = definitions.len() - 1;
        if before.result is Ok {
            assert forall|i: int| 0 <= i < n implies state.module.imports.contains_key(
                (#[trigger] definitions[i]).0,
            ) by {
                assert(state.module.imports.contains_key(rest[i].0));
            }
            assert(before.state.module.imports.dom().contains(definitions[n].0)
                == state.module.imports.dom().contains(definitions[n].0));
        } else {
            let i = choose|i: int|
                0 <= i < rest.len() && !state.module.imports.contains_key((#[trigger] rest[i]).0);
            assert(!state.module.imports.contains_key(definitions[i].0));
        }
        assert(state.hook_up(from, target, definitions).state.module.imports.dom()
            =~= state.module.imports.dom());
    }
}

} // verus!
