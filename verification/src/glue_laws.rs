//! What the finished glue consists of, for each environment.
use crate::config::OutputMode;
use crate::context::{GlueView, ImportedItem};
use crate::finalize::{
    import_text, imports_text, init_ts, items_text, lemma_classes_frame, memory_text,
};
use crate::laws::{law_finalize, law_finalize_start, lemma_finalize_js, lemma_hooked};
use crate::module::{ExportItem, Limits, ModuleView};
use crate::names::{in_order, law_in_order};
use crate::parts::{
    holds, in_a_row, is_compact, joined, law_parts_stand, law_squeezed_holds, lemma_first,
    lemma_second,
};
use crate::snippets::{INIT_0, INIT_1, INIT_2, INIT_3, INIT_4, INIT_5};
use crate::text::{decimal, squeezed, trimmed};
use vstd::prelude::*;

verus! {

/// An imported item, as it stands between the braces of an import.
pub open spec fn item_entry(es: bool, item: ImportedItem) -> Seq<char> {
    match item.1 {
        None => item.0,
        Some(local) => item.0 + (if es {
            " as "@
        } else {
            ": "@
        }) + local,
    }
}

/// The items of an import stand one by one, with a comma between each and the next.
pub proof fn law_items_are_joined(es: bool, items: Seq<ImportedItem>)
    ensures
        items_text(es, items) == joined(
            Seq::new(items.len(), |i: int| item_entry(es, items[i])),
            ", "@,
        ),
    decreases items.len(),
{
    let entries = Seq::new(items.len(), |i: int| item_entry(es, items[i]));
    if items.len() > 0 {
        let rest = items.drop_last();
        law_items_are_joined(es, rest);
        assert(entries.drop_last() =~= Seq::new(rest.len(), |i: int| item_entry(es, rest[i])));
        assert(entries.last() == item_entry(es, items.last()));
        reveal_strlit("");
        if items.len() == 1 {
            assert(items_text(es, rest) =~= Seq::empty());
            assert(items_text(es, items) =~= entries[0]);
        } else {
            assert(items_text(es, items) =~= joined(entries.drop_last(), ", "@) + ", "@
                + entries.last());
        }
    }
}

/// The import of the items of one JavaScript module.
pub open spec fn statement(es: bool, module: Seq<char>, items: Seq<ImportedItem>) -> Seq<char> {
    let list = joined(Seq::new(items.len(), |i: int| item_entry(es, items[i])), ", "@);
    if es {
        "import { "@ + list + " } from '"@ + module + "';\n"@
    } else {
        "const { "@ + list + " } = require(String.raw`"@ + module + "`);\n"@
    }
}

/// The imports of some modules are one statement for each.
proof fn lemma_statements(
    es: bool,
    imports: Map<Seq<char>, Seq<ImportedItem>>,
    modules: Seq<Seq<char>>,
)
    ensures
        imports_text(es, imports, modules) == in_a_row(
            Seq::new(modules.len(), |i: int| statement(es, modules[i], imports[modules[i]])),
        ),
    decreases modules.len(),
{
    let all = Seq::new(modules.len(), |i: int| statement(es, modules[i], imports[modules[i]]));
    if modules.len() > 0 {
        let rest = modules.drop_last();
        lemma_statements(es, imports, rest);
        assert(all.drop_last() =~= Seq::new(
            rest.len(),
            |i: int| statement(es, rest[i], imports[rest[i]]),
        ));
        law_items_are_joined(es, imports[modules.last()]);
        assert(all.last() == import_text(es, modules.last(), imports[modules.last()]));
    }
}

/// The import header has one statement for each module that something is imported from, in
/// ascending order of the modules, and each statement lists all that is imported from its module.
/// An ES module imports, a CommonJS module requires, and a script does neither.
pub proof fn law_import_header(state: GlueView, module: Seq<char>)
    requires
        state.js_imports.dom().finite(),
        state.import_header() is Ok,
    ensures
        state.config.mode is NoModules ==> state.import_header()->Ok_0 == Seq::<char>::empty()
            && state.js_imports.dom().is_empty(),
        !(state.config.mode is NoModules) ==> {
            let es = !(state.config.mode matches OutputMode::Node { experimental_modules: false });
            let modules = in_order(state.js_imports.dom());
            &&& modules.to_set() == state.js_imports.dom()
            &&& state.import_header()->Ok_0 == in_a_row(
                Seq::new(
                    modules.len(),
                    |i: int| statement(es, modules[i], state.js_imports[modules[i]]),
                ),
            )
            &&& state.js_imports.contains_key(module) ==> holds(
                state.import_header()->Ok_0,
                statement(es, module, state.js_imports[module]),
            )
        },
{
    let modules = in_order(state.js_imports.dom());
    let es = !(state.config.mode matches OutputMode::Node { experimental_modules: false });
    let all = Seq::new(
        modules.len(),
        |i: int| statement(es, modules[i], state.js_imports[modules[i]]),
    );
    law_in_order(state.js_imports.dom());
    lemma_statements(es, state.js_imports, modules);
    if state.js_imports.contains_key(module) {
        assert(modules.to_set().contains(module));
        let i = choose|i: int| 0 <= i < modules.len() && modules[i] == module;
        law_parts_stand(all, i);
        assert(all[i] == statement(es, module, state.js_imports[module]));
    }
}

/// Assigns to an import of the WebAssembly module the JavaScript that provides it.
pub open spec fn assignment(target: Seq<char>, name: Seq<char>, js: Seq<char>) -> Seq<char> {
    target + name + " = "@ + trimmed(js) + ";\n"@
}

/// What the name of a provided import stands behind.
pub open spec fn provided_as(mode: OutputMode) -> Seq<char> {
    match mode {
        OutputMode::Bundler { browser_only } => "\nexport const "@,
        OutputMode::Node { experimental_modules: true } => "\nexport const "@,
        OutputMode::Node { experimental_modules: false } => "\nmodule.exports."@,
        OutputMode::Web => "imports.wbg."@,
        OutputMode::NoModules { global } => "imports.wbg."@,
    }
}

/// The assignments to all imports that JavaScript provides, in the order in which they were given.
pub open spec fn assignments(state: GlueView, target: Seq<char>) -> Seq<Seq<char>> {
    Seq::new(
        state.wasm_imports.len(),
        |i: int|
            assignment(
                target,
                state.module.imports[state.wasm_imports[i].0].name,
                state.wasm_imports[i].1,
            ),
    )
}

/// Hooking up imports writes one assignment for each definition, in their order.
pub proof fn law_hooked_text(
    state: GlueView,
    from: Seq<char>,
    target: Seq<char>,
    definitions: Seq<(usize, Seq<char>)>,
)
    requires
        state.hook_up(from, target, definitions).result is Ok,
    ensures
        state.hook_up(from, target, definitions).result->Ok_0 == in_a_row(
            Seq::new(
                definitions.len(),
                |i: int|
                    assignment(
                        target,
                        state.module.imports[definitions[i].0].name,
                        definitions[i].1,
                    ),
            ),
        ),
    decreases definitions.len(),
{
    if definitions.len() > 0 {
        let rest = definitions.drop_last();
        let before = state.hook_up(from, target, rest);
        law_hooked_text(state, from, target, rest);
        lemma_hooked(state, from, target, rest);
        let name = |i: int| state.module.imports[definitions[i].0].name;
        let all = Seq::new(
            definitions.len(),
            |i: int|
                assignment(target, state.module.imports[definitions[i].0].name, definitions[i].1),
        );
        assert(all.drop_last() =~= Seq::new(
            rest.len(),
            |i: int| assignment(target, state.module.imports[rest[i].0].name, rest[i].1),
        ));
        let id = definitions.last().0;
        assert(before.state.module.imports[id].name == state.module.imports[id].name);
        assert(state.hook_up(from, target, definitions).result->Ok_0 =~= in_a_row(all.drop_last())
            + all.last());
    }
}

/// An ES module that imports the WebAssembly module: first its imports, then its items, then what
/// it provides to the WebAssembly module. It runs the start function last, where it is to.
pub proof fn law_bundled(state: GlueView, module_name: Seq<char>, start: bool)
    requires
        state.config.mode is Bundler || state.config.mode matches OutputMode::Node {
            experimental_modules: true,
        },
        state.finalize_js(module_name, start).result is Ok,
    ensures
        state.import_header() is Ok,
        state.finalize_js(module_name, start).result->Ok_0 == (
            squeezed(
                state.import_header()->Ok_0 + ("import * as wasm from './"@ + module_name
                    + "_bg';\n"@) + "\n"@ + state.imports_post + "\n"@ + state.globals + "\n"@
                    + "\n"@ + in_a_row(assignments(state, "\nexport const "@)) + (if start {
                    "\nwasm.__wbindgen_start();\n"@
                } else {
                    ""@
                }) + "\n"@,
            ),
            state.typescript,
        ),
{
    let from = "./"@ + module_name + ".js"@;
    let target = "\nexport const "@;
    law_hooked_text(state, from, target, state.wasm_imports);
    lemma_hooked(state, from, target, state.wasm_imports);
    reveal_strlit("");
    let header = state.import_header()->Ok_0;
    let text = in_a_row(assignments(state, target));
    let run = if start {
        "\nwasm.__wbindgen_start();\n"@
    } else {
        ""@
    };
    let wasm = "import * as wasm from './"@ + module_name + "_bg';\n"@;
    let none = Seq::<char>::empty();
    assert(""@ + (header + "import * as wasm from './"@ + module_name + "_bg';\n"@) + "\n"@
        + state.imports_post + "\n"@ + state.globals + "\n"@ + none + "\n"@ + (text + run) + "\n"@
        + ""@ =~= header + wasm + "\n"@ + state.imports_post + "\n"@ + state.globals + "\n"@ + "\n"@
        + text + run + "\n"@);
    assert(state.typescript + none =~= state.typescript);
}

/// A CommonJS module: first its imports, then its items, then what it provides to the WebAssembly
/// module, and only then it loads that, and runs the start function where it is to.
pub proof fn law_commonjs(state: GlueView, module_name: Seq<char>, start: bool)
    requires
        state.config.mode matches OutputMode::Node { experimental_modules: false },
        state.finalize_js(module_name, start).result is Ok,
    ensures
        state.import_header() is Ok,
        state.finalize_js(module_name, start).result->Ok_0 == (
            squeezed(
                "let wasm;\n"@ + state.import_header()->Ok_0 + "\n"@ + state.imports_post + "\n"@
                    + state.globals + "\n"@ + "\n"@ + in_a_row(
                    assignments(state, "\nmodule.exports."@),
                ) + ("wasm = require('./"@ + module_name + "_bg');\n"@) + (if start {
                    "wasm.__wbindgen_start();\n"@
                } else {
                    ""@
                }) + "\n"@,
            ),
            state.typescript,
        ),
{
    let from = "./"@ + module_name + ".js"@;
    let target = "\nmodule.exports."@;
    law_hooked_text(state, from, target, state.wasm_imports);
    lemma_hooked(state, from, target, state.wasm_imports);
    reveal_strlit("");
    let header = state.import_header()->Ok_0;
    let text = in_a_row(assignments(state, target));
    let run = if start {
        "wasm.__wbindgen_start();\n"@
    } else {
        ""@
    };
    let load = "wasm = require('./"@ + module_name + "_bg');\n"@;
    let none = Seq::<char>::empty();
    assert("let wasm;\n"@ + header + "\n"@ + state.imports_post + "\n"@ + state.globals + "\n"@
        + none + "\n"@ + (text + "wasm = require('./"@ + module_name + "_bg');\n"@ + run) + "\n"@
        + ""@ =~= "let wasm;\n"@ + header + "\n"@ + state.imports_post + "\n"@ + state.globals
        + "\n"@ + "\n"@ + text + load + run + "\n"@);
    assert(state.typescript + none =~= state.typescript);
}

/// An ES module for browsers: first its imports, then the variable for the WebAssembly module and
/// its items, then `init`, which is what it exports by default.
pub proof fn law_web(state: GlueView, module_name: Seq<char>, start: bool)
    requires
        state.config.mode is Web,
        state.finalize_js(module_name, start).result is Ok,
    ensures
        ({
            let before = GlueView { imports_post: state.imports_post + "let wasm;\n"@, ..state };
            let init = before.gen_init(start);
            &&& state.import_header() is Ok
            &&& init.result is Ok
            &&& state.finalize_js(module_name, start).result->Ok_0 == (
                squeezed(
                    state.import_header()->Ok_0 + "\n"@ + init.state.imports_post + "\n"@
                        + state.globals + "\n"@ + init.result->Ok_0.0 + "\n"@
                        + "export default init;\n"@ + "\n"@,
                ),
                state.typescript + init.result->Ok_0.1,
            )
        }),
{
    let before = GlueView { imports_post: state.imports_post + "let wasm;\n"@, ..state };
    let init = before.gen_init(start);
    lemma_hooked(before.hook_up_memory().state, "wbg"@, "imports.wbg."@, before.wasm_imports);
    reveal_strlit("");
    let header = state.import_header()->Ok_0;
    let post = init.state.imports_post;
    let js = init.result->Ok_0.0;
    assert(""@ + header + "\n"@ + post + "\n"@ + state.globals + "\n"@ + js + "\n"@
        + "export default init;\n"@ + "\n"@ + ""@ =~= header + "\n"@ + post + "\n"@ + state.globals
        + "\n"@ + js + "\n"@ + "export default init;\n"@ + "\n"@);
}

/// A script is a function that is called at once. What it exports, and `init`, end up on the
/// global object, under the name that was asked for.
pub proof fn law_script(state: GlueView, module_name: Seq<char>, start: bool)
    requires
        state.config.mode is NoModules,
        state.finalize_js(module_name, start).result is Ok,
    ensures
        ({
            let init = state.gen_init(start);
            let global = state.config.mode->global@;
            &&& init.result is Ok
            &&& state.finalize_js(module_name, start).result->Ok_0 == (
                squeezed(
                    "(function() {\nconst __exports = {};\nlet wasm;\n"@ + "\n"@
                        + init.state.imports_post + "\n"@ + state.globals + "\n"@
                        + init.result->Ok_0.0 + "\n"@ + ("self."@ + global
                        + " = Object.assign(init, __exports);\n"@) + "\n"@ + "})();\n"@,
                ),
                state.typescript + init.result->Ok_0.1,
            )
        }),
{
    let init = state.gen_init(start);
    lemma_hooked(state.hook_up_memory().state, "wbg"@, "imports.wbg."@, state.wasm_imports);
    reveal_strlit("(function() {\n");
    reveal_strlit("const __exports = {};\n");
    reveal_strlit("let wasm;\n");
    reveal_strlit("(function() {\nconst __exports = {};\nlet wasm;\n");
    let first = "(function() {\n"@ + "const __exports = {};\n"@ + "let wasm;\n"@;
    assert(first =~= "(function() {\nconst __exports = {};\nlet wasm;\n"@);
    let post = init.state.imports_post;
    let js = init.result->Ok_0.0;
    let none = Seq::<char>::empty();
    let last = "self."@ + state.config.mode->global@ + " = Object.assign(init, __exports);\n"@;
    assert(first + none + "\n"@ + post + "\n"@ + state.globals + "\n"@ + js + "\n"@ + last + "\n"@
        + "})();\n"@ =~= first + "\n"@ + post + "\n"@ + state.globals + "\n"@ + js + "\n"@ + last
        + "\n"@ + "})();\n"@);
}

/// An expression for a memory tells its initial size, its maximum size if it has one, and that
/// threads share it if they do.
pub proof fn law_memory_text(memory: Limits)
    ensures
        memory_text(memory) == "new WebAssembly.Memory({initial:"@ + decimal(memory.initial as nat)
            + (if memory.maximum is Some {
            ",maximum:"@ + decimal(memory.maximum->0 as nat)
        } else {
            Seq::empty()
        }) + (if memory.shared {
            ",shared:true"@
        } else {
            Seq::empty()
        }) + "})"@,
{
    reveal_strlit("new WebAssembly.Memory({");
    reveal_strlit("initial:");
    reveal_strlit("new WebAssembly.Memory({initial:");
    reveal_strlit("");
    assert("new WebAssembly.Memory({"@ + "initial:"@ =~= "new WebAssembly.Memory({initial:"@);
    assert(""@ =~= Seq::<char>::empty());
}

/// `init` sets up an object with all that the glue provides to the WebAssembly module before it
/// loads that.
///
/// Where the module imports its memory, `init` takes one as its second argument. It hands the
/// module that, or makes one where it loads the module by its address. It runs the start function
/// once the module is loaded, where it is to.
pub proof fn law_init(state: GlueView, start: bool)
    requires
        state.gen_init(start).result is Ok,
    ensures
        ({
            let limits = state.module.memories[state.memory].limits;
            let imported = state.module.memories.contains_key(state.memory)
                && state.module.memories[state.memory].import is Some;
            &&& state.gen_init(start).result->Ok_0.0 == INIT_0@ + (if imported {
                ", maybe_memory"@
            } else {
                Seq::empty()
            }) + INIT_1@ + ((if state.wasm_imports.len() > 0 {
                "imports.wbg = {};\n"@
            } else {
                Seq::empty()
            }) + in_a_row(assignments(state, "imports.wbg."@))) + INIT_2@ + (if imported {
                "memory = imports.wbg.memory = "@ + memory_text(limits) + ";"@
            } else {
                Seq::empty()
            }) + INIT_3@ + (if imported {
                "memory = imports.wbg.memory = maybe_memory;"@
            } else {
                Seq::empty()
            }) + INIT_4@ + (if start {
                "wasm.__wbindgen_start();"@
            } else {
                Seq::empty()
            }) + INIT_5@
            &&& state.gen_init(start).result->Ok_0.1 == init_ts(imported)
        }),
{
    reveal_strlit("");
    assert(""@ =~= Seq::<char>::empty());
    let hooked = state.hook_up_memory().state;
    law_hooked_text(hooked, "wbg"@, "imports.wbg."@, state.wasm_imports);
    assert(assignments(hooked, "imports.wbg."@) =~= assignments(state, "imports.wbg."@));
}

/// Where the module imports its memory, that comes from the glue from then on, which has a
/// variable for it. Otherwise neither is the case.
pub proof fn law_imported_memory(state: GlueView, start: bool)
    requires
        state.gen_init(start).result is Ok,
    ensures
        ({
            let after = state.gen_init(start).state;
            let memory = state.module.memories[state.memory];
            if state.module.memories.contains_key(state.memory) && memory.import is Some {
                &&& after.imports_post == state.imports_post + "let memory;\n"@
                &&& after.module.imports.contains_key(memory.import->0)
                &&& after.module.imports[memory.import->0].module == "wbg"@
                &&& after.module.imports[memory.import->0].name
                    == state.module.imports[memory.import->0].name
            } else {
                after.imports_post == state.imports_post
            }
        }),
{
    let hooked = state.hook_up_memory().state;
    let id = state.module.memories[state.memory].import->0;
    lemma_hooked(hooked, "wbg"@, "imports.wbg."@, state.wasm_imports);
    if state.imported_memory() is Some {
        assert(hooked.module.imports.dom().contains(id));
        assert(state.gen_init(start).state.module.imports.dom().contains(id));
        lemma_stays_hooked(hooked, state.wasm_imports, id);
    }
}

/// What comes from `wbg` still does when imports are hooked up.
proof fn lemma_stays_hooked(state: GlueView, definitions: Seq<(usize, Seq<char>)>, id: usize)
    requires
        state.module.imports.contains_key(id),
        state.module.imports[id].module == "wbg"@,
    ensures
        state.hook_up("wbg"@, "imports.wbg."@, definitions).state.module.imports[id].module
            == "wbg"@,
    decreases definitions.len(),
{
    if definitions.len() > 0 {
        lemma_stays_hooked(state, definitions.drop_last(), id);
    }
}

/// The end of a run writes the classes, and puts together the glue from what there is then, without
/// helpers to come. It runs the start function if and only if the module has one and the options
/// ask for it.
pub proof fn law_end(state: GlueView, module_name: Seq<char>)
    requires
        state.finalize(module_name).result is Ok,
    ensures
        state.write_classes().result is Ok,
        exists|module: ModuleView|
            state.finalize(module_name) == (#[trigger] ended(state, module)).finalize_js(
                module_name,
                state.config.emit_start && state.module.start is Some,
            ),
{
    lemma_classes_frame(state);
    let module = state.wind_up().state.module.collected();
    assert(ended(state, module) == GlueView {
        module,
        exposed: None,
        ..state.wind_up().state
    });
}

/// The state from which the glue is put together, for some state of the module.
pub open spec fn ended(state: GlueView, module: ModuleView) -> GlueView {
    GlueView { module, exposed: None, ..state.write_classes().state }
}

/// What the glue provides to the WebAssembly module is the same when it is put together.
proof fn lemma_same_assignments(state: GlueView, module_name: Seq<char>, target: Seq<char>)
    requires
        state.finalize(module_name).result is Ok,
    ensures
        ({
            let module = state.wind_up().state.module.collected();
            let last = ended(state, module);
            &&& state.finalize(module_name) == last.finalize_js(module_name, state.starts())
            &&& last.config == state.config
            &&& assignments(last, target) == assignments(state, target)
        }),
{
    lemma_classes_frame(state);
    let module = state.wind_up().state.module.collected();
    let last = ended(state, module);
    assert(last == GlueView { module, exposed: None, ..state.wind_up().state });
    lemma_finalize_js(last, module_name, state.starts());
    assert forall|i: int| 0 <= i < state.wasm_imports.len() implies last.module.imports[(
    #[trigger] state.wasm_imports[i]).0] == state.module.imports[state.wasm_imports[i].0] by {
        let id = state.wasm_imports[i].0;
        let end = last.finalize_js(module_name, state.starts()).state.module.imports;
        assert(last.wasm_imports[i] == state.wasm_imports[i]);
        assert(end.dom().contains(id));
        assert(last.module.imports.dom().contains(id));
    }
    assert(assignments(last, target) =~= assignments(state, target));
}

/// What stands in a text stands in it with others behind it.
pub proof fn lemma_followed(
    whole: Seq<char>,
    a: Seq<char>,
    b: Seq<char>,
    c: Seq<char>,
    d: Seq<char>,
    part: Seq<char>,
)
    requires
        holds(whole, part),
    ensures
        holds(whole + a, part),
        holds(whole + a + b, part),
        holds(whole + a + b + c, part),
        holds(whole + a + b + c + d, part),
{
    lemma_first(whole, a, part);
    lemma_first(whole + a, b, part);
    lemma_first(whole + a + b, c, part);
    lemma_first(whole + a + b + c, d, part);
}

/// `init` holds each assignment.
proof fn lemma_init_holds(state: GlueView, start: bool, part: Seq<char>)
    requires
        state.gen_init(start).result is Ok,
        holds(in_a_row(assignments(state, "imports.wbg."@)), part),
    ensures
        holds(state.gen_init(start).result->Ok_0.0, part),
{
    law_init(state, start);
    let text = in_a_row(assignments(state, "imports.wbg."@));
    let limits = state.module.memories[state.memory].limits;
    let imported = state.module.memories.contains_key(state.memory)
        && state.module.memories[state.memory].import is Some;
    let none = Seq::<char>::empty();
    let parameter = if imported {
        ", maybe_memory"@
    } else {
        none
    };
    let object = if state.wasm_imports.len() > 0 {
        "imports.wbg = {};\n"@
    } else {
        none
    };
    let new = if imported {
        "memory = imports.wbg.memory = "@ + memory_text(limits) + ";"@
    } else {
        none
    };
    let given = if imported {
        "memory = imports.wbg.memory = maybe_memory;"@
    } else {
        none
    };
    let run = if start {
        "wasm.__wbindgen_start();"@
    } else {
        none
    };
    lemma_second(object, text, part);
    let first = INIT_0@ + parameter + INIT_1@;
    lemma_second(first, object + text, part);
    let set_up = first + (object + text);
    lemma_followed(set_up, INIT_2@, new, INIT_3@, given, part);
    lemma_followed(set_up + INIT_2@ + new + INIT_3@ + given, INIT_4@, run, INIT_5@, none, part);
}

/// In an ES module for browsers each import is provided.
proof fn lemma_provided_web(state: GlueView, module_name: Seq<char>, start: bool, part: Seq<char>)
    requires
        state.config.mode is Web,
        state.finalize_js(module_name, start).result is Ok,
        holds(in_a_row(assignments(state, "imports.wbg."@)), part),
        is_compact(part),
    ensures
        holds(state.finalize_js(module_name, start).result->Ok_0.0, part),
{
    law_web(state, module_name, start);
    let before = GlueView { imports_post: state.imports_post + "let wasm;\n"@, ..state };
    let init = before.gen_init(start);
    assert(assignments(before, "imports.wbg."@) =~= assignments(state, "imports.wbg."@));
    lemma_init_holds(before, start, part);
    let a = state.import_header()->Ok_0 + "\n"@ + init.state.imports_post + "\n"@ + state.globals
        + "\n"@;
    let js = init.result->Ok_0.0;
    lemma_second(a, js, part);
    lemma_followed(a + js, "\n"@, "export default init;\n"@, "\n"@, Seq::empty(), part);
    law_squeezed_holds(a + js + "\n"@ + "export default init;\n"@ + "\n"@, part);
}

/// In a script each import is provided.
proof fn lemma_provided_script(
    state: GlueView,
    module_name: Seq<char>,
    start: bool,
    part: Seq<char>,
)
    requires
        state.config.mode is NoModules,
        state.finalize_js(module_name, start).result is Ok,
        holds(in_a_row(assignments(state, "imports.wbg."@)), part),
        is_compact(part),
    ensures
        holds(state.finalize_js(module_name, start).result->Ok_0.0, part),
{
    law_script(state, module_name, start);
    let init = state.gen_init(start);
    lemma_init_holds(state, start, part);
    let a = "(function() {\nconst __exports = {};\nlet wasm;\n"@ + "\n"@ + init.state.imports_post
        + "\n"@ + state.globals + "\n"@;
    let js = init.result->Ok_0.0;
    let last = "self."@ + state.config.mode->global@ + " = Object.assign(init, __exports);\n"@;
    lemma_second(a, js, part);
    lemma_followed(a + js, "\n"@, last, "\n"@, "})();\n"@, part);
    law_squeezed_holds(a + js + "\n"@ + last + "\n"@ + "})();\n"@, part);
}

/// In a CommonJS module each import is provided.
proof fn lemma_provided_commonjs(
    state: GlueView,
    module_name: Seq<char>,
    start: bool,
    part: Seq<char>,
)
    requires
        state.config.mode matches OutputMode::Node { experimental_modules: false },
        state.finalize_js(module_name, start).result is Ok,
        holds(in_a_row(assignments(state, "\nmodule.exports."@)), part),
        is_compact(part),
    ensures
        holds(state.finalize_js(module_name, start).result->Ok_0.0, part),
{
    law_commonjs(state, module_name, start);
    let text = in_a_row(assignments(state, "\nmodule.exports."@));
    let load = "wasm = require('./"@ + module_name + "_bg');\n"@;
    let run = if start {
        "wasm.__wbindgen_start();\n"@
    } else {
        ""@
    };
    let a = "let wasm;\n"@ + state.import_header()->Ok_0 + "\n"@ + state.imports_post + "\n"@
        + state.globals + "\n"@ + "\n"@;
    lemma_second(a, text, part);
    lemma_followed(a + text, load, run, "\n"@, Seq::empty(), part);
    law_squeezed_holds(a + text + load + run + "\n"@, part);
}

/// In an ES module that imports the WebAssembly module each import is provided.
proof fn lemma_provided_bundled(
    state: GlueView,
    module_name: Seq<char>,
    start: bool,
    part: Seq<char>,
)
    requires
        state.config.mode is Bundler || state.config.mode matches OutputMode::Node {
            experimental_modules: true,
        },
        state.finalize_js(module_name, start).result is Ok,
        holds(in_a_row(assignments(state, "\nexport const "@)), part),
        is_compact(part),
    ensures
        holds(state.finalize_js(module_name, start).result->Ok_0.0, part),
{
    law_bundled(state, module_name, start);
    let text = in_a_row(assignments(state, "\nexport const "@));
    let wasm = "import * as wasm from './"@ + module_name + "_bg';\n"@;
    let run = if start {
        "\nwasm.__wbindgen_start();\n"@
    } else {
        ""@
    };
    let a = state.import_header()->Ok_0 + wasm + "\n"@ + state.imports_post + "\n"@
        + state.globals + "\n"@ + "\n"@;
    lemma_second(a, text, part);
    lemma_followed(a + text, run, "\n"@, Seq::empty(), Seq::empty(), part);
    law_squeezed_holds(a + text + run + "\n"@, part);
}

/// In the finished glue each import that JavaScript provides is assigned that JavaScript, under its
/// own name, whatever other imports are provided. (Three line feeds in a row would be squeezed.)
pub proof fn law_imports_are_provided(state: GlueView, module_name: Seq<char>, i: int)
    requires
        state.finalize(module_name).result is Ok,
        0 <= i < state.wasm_imports.len(),
        is_compact(
            assignment(
                provided_as(state.config.mode),
                state.module.imports[state.wasm_imports[i].0].name,
                state.wasm_imports[i].1,
            ),
        ),
    ensures
        holds(
            state.finalize(module_name).result->Ok_0.0,
            assignment(
                provided_as(state.config.mode),
                state.module.imports[state.wasm_imports[i].0].name,
                state.wasm_imports[i].1,
            ),
        ),
{
    let target = provided_as(state.config.mode);
    let start = state.starts();
    lemma_same_assignments(state, module_name, target);
    let last = ended(state, state.wind_up().state.module.collected());
    let all = assignments(state, target);
    law_parts_stand(all, i);
    match state.config.mode {
        OutputMode::Web => lemma_provided_web(last, module_name, start, all[i]),
        OutputMode::NoModules { global } => lemma_provided_script(
            last,
            module_name,
            start,
            all[i],
        ),
        OutputMode::Node { experimental_modules: false } => lemma_provided_commonjs(
            last,
            module_name,
            start,
            all[i],
        ),
        _ => lemma_provided_bundled(last, module_name, start, all[i]),
    }
}

/// An internal export goes if and only if the glue does not use it; any other export stays. And
/// the imports that the glue provides come from the glue.
pub proof fn law_module_after(state: GlueView, module_name: Seq<char>, id: usize, i: int)
    requires
        state.can_finalize(),
        state.finalize(module_name).result is Ok,
        !state.module.exports.contains_key(state.module.next_export),
    ensures
        ({
            let after = state.finalize(module_name).state.module;
            &&& state.module.exports.contains_key(id) ==> (after.exports.contains_key(id)
                <==> state.required.contains(state.module.exports[id].name)
                || !"__wbindgen"@.is_prefix_of(state.module.exports[id].name))
            &&& 0 <= i < state.wasm_imports.len() ==> after.imports.contains_key(
                state.wasm_imports[i].0,
            ) && after.imports[state.wasm_imports[i].0].module == (match state.config.mode {
                OutputMode::Web => "wbg"@,
                OutputMode::NoModules { global } => "wbg"@,
                _ => "./"@ + module_name + ".js"@,
            })
        }),
{
    law_finalize(state, module_name);
}

/// The start function that the glue is to run is exported as `__wbindgen_start`, and the module no
/// longer runs it itself.
pub proof fn law_start_after(state: GlueView, module_name: Seq<char>)
    requires
        state.can_finalize(),
        state.finalize(module_name).result is Ok,
        state.config.emit_start,
        state.module.start is Some,
    ensures
        state.finalize(module_name).state.module.start is None,
        exists|id: usize| #[trigger]
            state.finalize(module_name).state.module.exports.contains_key(id)
                && state.finalize(module_name).state.module.exports[id].name
                == "__wbindgen_start"@ && state.finalize(module_name).state.module.exports[id].item
                == ExportItem::Function(state.module.start->0),
{
    law_finalize_start(state, module_name);
    lemma_classes_frame(state);
    let up = state.wind_up().state;
    let last = GlueView { module: up.module.collected(), exposed: None, ..up };
    lemma_finalize_js(last, module_name, state.starts());
    let id = state.module.next_export;
    assert(up.module.exports.contains_key(id));
    assert(state.finalize(module_name).state.module.exports.contains_key(id));
}

} // verus!
