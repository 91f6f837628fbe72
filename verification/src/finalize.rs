//! The end of a run: the glue is put together.
use crate::class::ClassView;
use crate::config::OutputMode;
use crate::context::{
    definitions_view, done, failed, item_view, items_view, text_view, Context, GlueView,
    ImportedItem, Outcome,
};
use crate::error::{GlueError, GlueErrorView};
use crate::module::{
    ascending_ids, collect_garbage, delete_export, export_function, exports, holds_id, import_ids,
    memory, memory_ids, move_import, start, take_start, ExportItem, ImportView, Limits, ModuleView,
};
use crate::names::{in_order, law_in_order};
use crate::snippets::{
    INIT_0, INIT_1, INIT_2, INIT_3, INIT_4, INIT_5, TS_INIT_0, TS_INIT_1, TS_INIT_2,
    TS_INIT_MEMORY_DOC, TS_INIT_MEMORY_PARAM,
};
use crate::text::{decimal, has_prefix, squeeze, squeezed, to_decimal, trim, trimmed};
use vstd::prelude::*;

verus! {

/// The items that are imported from one module, as they stand in an import.
pub open spec fn items_text(es: bool, items: Seq<ImportedItem>) -> Seq<char>
    decreases items.len(),
{
    if items.len() == 0 {
        Seq::empty()
    } else {
        items_text(es, items.drop_last()) + (if items.len() > 1 {
            ", "@
        } else {
            ""@
        }) + items.last().0 + (match items.last().1 {
            Some(rename) => (if es {
                " as "@
            } else {
                ": "@
            }) + rename,
            None => Seq::empty(),
        })
    }
}

/// The import of some items from a module, which an ES module and a CommonJS module write in
/// different ways.
pub open spec fn import_text(es: bool, module: Seq<char>, items: Seq<ImportedItem>) -> Seq<char> {
    if es {
        "import { "@ + items_text(es, items) + " } from '"@ + module + "';\n"@
    } else {
        "const { "@ + items_text(es, items) + " } = require(String.raw`"@ + module + "`);\n"@
    }
}

/// The imports from those modules.
pub open spec fn imports_text(
    es: bool,
    imports: Map<Seq<char>, Seq<ImportedItem>>,
    modules: Seq<Seq<char>>,
) -> Seq<char>
    decreases modules.len(),
{
    if modules.len() == 0 {
        Seq::empty()
    } else {
        imports_text(es, imports, modules.drop_last()) + import_text(
            es,
            modules.last(),
            imports[modules.last()],
        )
    }
}

/// There is a text wherever there is an import.
pub proof fn law_imports_text(
    es: bool,
    imports: Map<Seq<char>, Seq<ImportedItem>>,
    modules: Seq<Seq<char>>,
)
    ensures
        imports_text(es, imports, modules).len() == 0 <==> modules.len() == 0,
{
    if modules.len() > 0 {
        let text = import_text(es, modules.last(), imports[modules.last()]);
        reveal_strlit("import { ");
        reveal_strlit("const { ");
        assert(text.len() > 0);
    }
}

/// An expression for a memory like that one.
pub open spec fn memory_text(memory: Limits) -> Seq<char> {
    "new WebAssembly.Memory({"@ + "initial:"@ + decimal(
        memory.initial as nat,
    ) + (match memory.maximum {
        Some(maximum) => ",maximum:"@ + decimal(maximum as nat),
        None => Seq::empty(),
    }) + (if memory.shared {
        ",shared:true"@
    } else {
        ""@
    }) + "})"@
}

/// The type of `init`.
pub open spec fn init_ts(has_memory: bool) -> Seq<char> {
    if has_memory {
        TS_INIT_0@ + TS_INIT_MEMORY_DOC@ + TS_INIT_1@ + TS_INIT_MEMORY_PARAM@ + TS_INIT_2@
    } else {
        TS_INIT_0@ + ""@ + TS_INIT_1@ + ""@ + TS_INIT_2@
    }
}

/// The function `init`. It sets up a memory where the module imports one.
pub open spec fn init_js(memory: Option<Limits>, imports: Seq<char>, start: bool) -> Seq<char> {
    let imported = memory is Some;
    INIT_0@ + (if imported {
        ", maybe_memory"@
    } else {
        ""@
    }) + INIT_1@ + imports + INIT_2@ + (if imported {
        "memory = imports.wbg.memory = "@ + memory_text(memory->0) + ";"@
    } else {
        Seq::empty()
    }) + INIT_3@ + (if imported {
        "memory = imports.wbg.memory = maybe_memory;"@
    } else {
        ""@
    }) + INIT_4@ + (if start {
        "wasm.__wbindgen_start();"@
    } else {
        ""@
    }) + INIT_5@
}

impl ModuleView {
    /// The module with an import that comes from another module.
    pub open spec fn import_from(self, id: usize, from: Seq<char>) -> ModuleView {
        ModuleView {
            imports: self.imports.insert(
                id,
                ImportView { module: from, ..self.imports[id] },
            ),
            ..self
        }
    }
}

impl GlueView {
    /// Whether an export of the module is internal and nothing in the glue uses it.
    pub open spec fn is_unused(self, name: Seq<char>) -> bool {
        "__wbindgen"@.is_prefix_of(name) && !self.required.contains(name)
    }

    /// The internal exports that nothing in the glue uses are removed.
    pub open spec fn unexport_unused(self) -> GlueView {
        let all = self.module.exports;
        GlueView {
            module: ModuleView {
                exports: Map::new(
                    |i: usize| all.contains_key(i) && !self.is_unused(all[i].name),
                    |i: usize| all[i],
                ),
                ..self.module
            },
            ..self
        }
    }

    /// The start function, if there is one, becomes an export.
    pub open spec fn unstart(self) -> GlueView {
        match self.module.start {
            Some(function) => GlueView {
                module: ModuleView { start: None, ..self.module }.export_item(
                    "__wbindgen_start"@,
                    ExportItem::Function(function),
                ),
                ..self
            },
            None => self,
        }
    }

    /// The imports of JavaScript. A script cannot import anything.
    pub open spec fn import_header(self) -> Result<Seq<char>, GlueErrorView> {
        let modules = in_order(self.js_imports.dom());
        if !self.config.mode.no_modules() {
            Ok(imports_text(self.config.mode.uses_es_modules(), self.js_imports, modules))
        } else if self.js_imports.dom().is_empty() {
            Ok(Seq::empty())
        } else {
            Err(GlueErrorView::ModuleImport(modules[0]))
        }
    }

    /// Imports of the WebAssembly module are made to come from `from`. The text assigns to each,
    /// where `target` is what its name stands behind, what provides it.
    pub open spec fn hook_up(
        self,
        from: Seq<char>,
        target: Seq<char>,
        definitions: Seq<(usize, Seq<char>)>,
    ) -> Outcome<Seq<char>>
        decreases definitions.len(),
    {
        if definitions.len() == 0 {
            done(self, Seq::empty())
        } else {
            let before = self.hook_up(from, target, definitions.drop_last());
            let (id, js) = definitions.last();
            let module = before.state.module;
            match before.result {
                Err(error) => before,
                Ok(text) => if module.imports.contains_key(id) {
                    done(
                        GlueView { module: module.import_from(id, from), ..before.state },
                        text + target + module.imports[id].name + " = "@ + trimmed(js) + ";\n"@,
                    )
                } else {
                    failed(before.state, GlueErrorView::UnusedImport)
                },
            }
        }
    }

    /// The memory that values are passed through, where it is imported and something uses it.
    pub open spec fn imported_memory(self) -> Option<Limits> {
        if self.module.memories.contains_key(self.memory) && self.memory_entry().import is Some {
            Some(self.memory_entry().limits)
        } else {
            None
        }
    }

    /// The memory is made to come from `wbg`, where it is imported.
    pub open spec fn hook_up_memory(self) -> Outcome<()> {
        match self.imported_memory() {
            None => done(self, ()),
            Some(_) => if self.module.imports.contains_key(self.memory_entry().import->0) {
                done(
                    GlueView {
                        module: self.module.import_from(self.memory_entry().import->0, "wbg"@),
                        imports_post: self.imports_post + "let memory;\n"@,
                        ..self
                    },
                    (),
                )
            } else {
                failed(self, GlueErrorView::UnusedImport)
            },
        }
    }

    /// The function that loads the WebAssembly module, and its type.
    pub open spec fn gen_init(self, start: bool) -> Outcome<(Seq<char>, Seq<char>)> {
        let memory = self.hook_up_memory();
        match memory.result {
            Err(error) => failed(memory.state, error),
            Ok(_) => {
                let hooked = memory.state.hook_up("wbg"@, "imports.wbg."@, self.wasm_imports);
                match hooked.result {
                    Err(error) => failed(hooked.state, error),
                    Ok(text) => {
                        let first = if self.wasm_imports.len() > 0 {
                            "imports.wbg = {};\n"@
                        } else {
                            ""@
                        };
                        done(
                            hooked.state,
                            (
                                init_js(self.imported_memory(), first + text, start),
                                init_ts(self.imported_memory() is Some),
                            ),
                        )
                    },
                }
            },
        }
    }

    /// The finished JavaScript and TypeScript.
    pub open spec fn assemble(
        self,
        first: Seq<char>,
        imports: Seq<char>,
        init: (Seq<char>, Seq<char>),
        footer: Seq<char>,
        last: Seq<char>,
    ) -> (Seq<char>, Seq<char>) {
        (
            squeezed(
                first + imports + "\n"@ + self.imports_post + "\n"@ + self.globals + "\n"@ + init.0
                    + "\n"@ + footer + "\n"@ + last,
            ),
            self.typescript + init.1,
        )
    }

    /// A script, which hangs what it exports on the global object.
    pub open spec fn finalize_script(
        self,
        global: Seq<char>,
        imports: Seq<char>,
        start: bool,
    ) -> Outcome<(Seq<char>, Seq<char>)> {
        let init = self.gen_init(start);
        match init.result {
            Err(error) => failed(init.state, error),
            Ok(texts) => done(
                init.state,
                init.state.assemble(
                    "(function() {\n"@ + "const __exports = {};\n"@ + "let wasm;\n"@,
                    imports,
                    texts,
                    "self."@ + global + " = Object.assign(init, __exports);\n"@,
                    "})();\n"@,
                ),
            ),
        }
    }

    /// An ES module for browsers.
    pub open spec fn finalize_web(self, imports: Seq<char>, start: bool) -> Outcome<
        (Seq<char>, Seq<char>),
    > {
        let state = GlueView { imports_post: self.imports_post + "let wasm;\n"@, ..self };
        let init = state.gen_init(start);
        match init.result {
            Err(error) => failed(init.state, error),
            Ok(texts) => done(
                init.state,
                init.state.assemble(""@, imports, texts, "export default init;\n"@, ""@),
            ),
        }
    }

    /// A CommonJS module. It loads the WebAssembly module at its end, once its own exports are
    /// there.
    pub open spec fn finalize_commonjs(
        self,
        module_name: Seq<char>,
        imports: Seq<char>,
        start: bool,
    ) -> Outcome<(Seq<char>, Seq<char>)> {
        let hooked = self.hook_up(
            "./"@ + module_name + ".js"@,
            "\nmodule.exports."@,
            self.wasm_imports,
        );
        match hooked.result {
            Err(error) => failed(hooked.state, error),
            Ok(text) => done(
                hooked.state,
                hooked.state.assemble(
                    "let wasm;\n"@,
                    imports,
                    (Seq::empty(), Seq::empty()),
                    text + "wasm = require('./"@ + module_name + "_bg');\n"@ + (if start {
                        "wasm.__wbindgen_start();\n"@
                    } else {
                        ""@
                    }),
                    ""@,
                ),
            ),
        }
    }

    /// An ES module that imports the WebAssembly module like any other.
    pub open spec fn finalize_esm(
        self,
        module_name: Seq<char>,
        imports: Seq<char>,
        start: bool,
    ) -> Outcome<(Seq<char>, Seq<char>)> {
        let hooked = self.hook_up(
            "./"@ + module_name + ".js"@,
            "\nexport const "@,
            self.wasm_imports,
        );
        match hooked.result {
            Err(error) => failed(hooked.state, error),
            Ok(text) => done(
                hooked.state,
                hooked.state.assemble(
                    ""@,
                    imports + "import * as wasm from './"@ + module_name + "_bg';\n"@,
                    (Seq::empty(), Seq::empty()),
                    text + (if start {
                        "\nwasm.__wbindgen_start();\n"@
                    } else {
                        ""@
                    }),
                    ""@,
                ),
            ),
        }
    }

    /// The glue is put together, as the environment that it runs in asks.
    pub open spec fn finalize_js(self, module_name: Seq<char>, start: bool) -> Outcome<
        (Seq<char>, Seq<char>),
    > {
        match self.import_header() {
            Err(error) => failed(self, error),
            Ok(imports) => match self.config.mode {
                OutputMode::NoModules { global } => self.finalize_script(global@, imports, start),
                OutputMode::Web => self.finalize_web(imports, start),
                OutputMode::Node { experimental_modules: false } => self.finalize_commonjs(
                    module_name,
                    imports,
                    start,
                ),
                _ => self.finalize_esm(module_name, imports, start),
            },
        }
    }

    /// What a run comes to before the garbage of the module is collected: the classes are
    /// written, and the module exports what the glue needs.
    pub open spec fn wind_up(self) -> Outcome<()> {
        let written = self.write_classes();
        match written.result {
            Err(error) => written,
            Ok(_) => {
                let trimmed = written.state.unexport_unused();
                done(
                    if self.config.emit_start {
                        trimmed.unstart()
                    } else {
                        trimmed
                    },
                    (),
                )
            },
        }
    }

    /// Whether the glue runs the start function of the module.
    pub open spec fn starts(self) -> bool {
        self.config.emit_start && self.module.start is Some
    }

    /// The end of a run: what nothing uses any more is removed from the module, and the glue is
    /// put together.
    pub open spec fn finalize(self, module_name: Seq<char>) -> Outcome<(Seq<char>, Seq<char>)> {
        let up = self.wind_up();
        match up.result {
            Err(error) => failed(up.state, error),
            Ok(_) => GlueView {
                module: up.state.module.collected(),
                exposed: None,
                ..up.state
            }.finalize_js(module_name, self.starts()),
        }
    }

    /// Whether a run can end: the module is intact where its garbage is collected.
    pub open spec fn can_finalize(self) -> bool {
        self.wind_up().result is Ok ==> self.wind_up().state.module.intact()
    }
}

/// The model of a result that is two texts.
pub open spec fn texts_view(result: Result<(String, String), GlueError>) -> Result<
    (Seq<char>, Seq<char>),
    GlueErrorView,
> {
    match result {
        Ok((js, ts)) => Ok((js@, ts@)),
        Err(error) => Err(error@),
    }
}

/// Writes the items that are imported from one module.
fn write_items(es: bool, items: &Vec<(String, Option<String>)>) -> (r: String)
    ensures
        r@ == items_text(es, items_view(*items)),
{
    let ghost all = items_view(*items);
    let mut r = String::new();
    let mut i: usize = 0;
    assert(all.take(0) == Seq::<ImportedItem>::empty());
    while i < items.len()
        invariant
            all == items_view(*items),
            i <= items.len(),
            r@ == items_text(es, all.take(i as int)),
        decreases items.len() - i,
    {
        let ghost start = r@;
        if i > 0 {
            r.append(", ");
        } else {
            r.append("");
        }
        r.append(items[i].0.as_str());
        let ghost named = r@;
        let mut rename = String::new();
        if let Some(other) = &items[i].1 {
            if es {
                rename.append(" as ");
            } else {
                rename.append(": ");
            }
            rename.append(other.as_str());
            assert(rename@ == (if es {
                " as "@
            } else {
                ": "@
            }) + other@);
        }
        r.append(rename.as_str());
        proof {
            let next = all.take(i as int + 1);
            assert(next.drop_last() == all.take(i as int));
            assert(next.last() == item_view(items@[i as int]));
        }
        i += 1;
    }
    assert(all.take(all.len() as int) == all);
    r
}

/// Writes the import of some items from a module.
fn write_import(es: bool, module: &str, items: &Vec<(String, Option<String>)>) -> (r: String)
    ensures
        r@ == import_text(es, module@, items_view(*items)),
{
    let text = write_items(es, items);
    let mut r = String::new();
    if es {
        r.append("import { ");
        r.append(text.as_str());
        r.append(" } from '");
        r.append(module);
        r.append("';\n");
    } else {
        r.append("const { ");
        r.append(text.as_str());
        r.append(" } = require(String.raw`");
        r.append(module);
        r.append("`);\n");
    }
    assert(r@ == import_text(es, module@, items_view(*items)));
    r
}

/// Writes an expression for a memory.
fn write_memory(memory: &Limits) -> (r: String)
    ensures
        r@ == memory_text(*memory),
{
    let mut r = "new WebAssembly.Memory({".to_string();
    r.append("initial:");
    r.append(to_decimal(memory.initial as u64).as_str());
    let mut maximum = String::new();
    if let Some(max) = memory.maximum {
        maximum.append(",maximum:");
        maximum.append(to_decimal(max as u64).as_str());
        assert(maximum@ == ",maximum:"@ + decimal(max as nat));
    }
    r.append(maximum.as_str());
    if memory.shared {
        r.append(",shared:true");
    } else {
        r.append("");
    }
    r.append("})");
    r
}

/// Writes the function `init`.
fn write_init(memory: &Option<Limits>, imports: &str, start: bool) -> (r: String)
    ensures
        r@ == init_js(*memory, imports@, start),
{
    let imported = memory.is_some();
    let mut new_memory = String::new();
    if let Some(memory) = memory {
        new_memory.append("memory = imports.wbg.memory = ");
        new_memory.append(write_memory(memory).as_str());
        new_memory.append(";");
        assert(new_memory@ == "memory = imports.wbg.memory = "@ + memory_text(*memory) + ";"@);
    }
    let mut r = INIT_0.to_string();
    r.append(
        if imported {
            ", maybe_memory"
        } else {
            ""
        },
    );
    r.append(INIT_1);
    r.append(imports);
    r.append(INIT_2);
    r.append(new_memory.as_str());
    r.append(INIT_3);
    r.append(
        if imported {
            "memory = imports.wbg.memory = maybe_memory;"
        } else {
            ""
        },
    );
    r.append(INIT_4);
    r.append(
        if start {
            "wasm.__wbindgen_start();"
        } else {
            ""
        },
    );
    r.append(INIT_5);
    r
}

/// `./` and `.js` around the name of a module.
fn glue_path(module_name: &str) -> (r: String)
    ensures
        r@ == "./"@ + module_name@ + ".js"@,
{
    let mut r = "./".to_string();
    r.append(module_name);
    r.append(".js");
    r
}

impl<'a> Context<'a> {
    /// Removes the internal exports that nothing in the glue uses.
    pub fn unexport_unused_internal_exports(&mut self)
        requires
            old(self).wf(),
        ensures
            final(self).wf(),
            final(self)@ == old(self)@.unexport_unused(),
            !old(self)@.module.exports.contains_key(old(self)@.module.next_export),
    {
        proof {
            reveal(Context::model);
            reveal(Context::wf);
        }
        let list = exports(self.module);
        let ghost before = self@;
        let ghost all = before.module.exports;
        let ghost ids = list@.map_values(|export: (usize, String)| export.0);
        let mut i: usize = 0;
        while i < list.len()
            invariant
                i <= list.len(),
                before == old(self)@,
                all == before.module.exports,
                ids == list@.map_values(|export: (usize, String)| export.0),
                ascending_ids(ids),
                ids.to_set() == all.dom(),
                forall|j: int|
                    0 <= j < list@.len() ==> (#[trigger] list@[j]).1@ == all[list@[j].0].name,
                forall|j: int|
                    0 <= j < list@.len() ==> (#[trigger] list@[j]).0 < before.module.next_export,
                self.wf(),
                self@ == (GlueView {
                    module: ModuleView { exports: self@.module.exports, ..before.module },
                    ..before
                }),
                forall|k: usize| #[trigger]
                    self@.module.exports.contains_key(k) <==> all.contains_key(k) && !(
                    before.is_unused(all[k].name) && ids.take(i as int).contains(k)),
                forall|k: usize| #[trigger]
                    self@.module.exports.contains_key(k) ==> self@.module.exports[k] == all[k],
            decreases list.len() - i,
        {
            proof {
                reveal(Context::model);
                reveal(Context::wf);
            }
            let (id, name) = &list[i];
            let ghost taken = ids.take(i as int);
            proof {
                let next = ids.take(i as int + 1);
                assert(ids[i as int] == *id);
                assert(ids.to_set().contains(*id));
                assert(!taken.contains(*id)) by {
                    if taken.contains(*id) {
                        let k = choose|k: int| 0 <= k < taken.len() && taken[k] == *id;
                        assert(ids[k] < ids[i as int]);
                    }
                }
                assert(next == taken.push(*id));
                assert forall|k: usize| #[trigger]
                    next.contains(k) <==> taken.contains(k) || k == *id by {
                    if taken.contains(k) {
                        let j = choose|j: int| 0 <= j < taken.len() && taken[j] == k;
                        assert(next[j] == k);
                    }
                    assert(next[i as int] == *id);
                }
            }
            if has_prefix(name.as_str(), "__wbindgen") && !self.required_internal_exports.contains(
                name.as_str(),
            ) {
                delete_export(self.module, *id);
            }
            i += 1;
        }
        proof {
            assert(ids.take(ids.len() as int) == ids);
            assert(self@.module.exports =~= before.unexport_unused().module.exports);
            if all.contains_key(before.module.next_export) {
                assert(ids.to_set().contains(before.module.next_export));
                let k = choose|k: int| 0 <= k < ids.len() && ids[k] == before.module.next_export;
                assert(list@[k].0 < before.module.next_export);
            }
        }
    }

    /// Makes the start function of the module, if there is one, an export named
    /// `__wbindgen_start`, and tells whether there is one.
    pub fn unstart_start_function(&mut self) -> (r: bool)
        requires
            old(self).wf(),
            old(self)@.module.has_start(),
        ensures
            final(self).wf(),
            r == old(self)@.module.start is Some,
            final(self)@ == old(self)@.unstart(),
            r ==> !old(self)@.module.exports.contains_key(old(self)@.module.next_export),
    {
        proof {
            reveal(Context::model);
            reveal(Context::wf);
        }
        let start = match take_start(self.module) {
            Some(id) => id,
            None => return false,
        };
        export_function(self.module, "__wbindgen_start", start);
        true
    }

    /// The imports of JavaScript. A script cannot import anything.
    pub fn js_import_header(&self) -> (r: Result<String, GlueError>)
        requires
            self.wf(),
        ensures
            match r {
                Ok(imports) => self@.import_header() == Ok::<_, GlueErrorView>(imports@),
                Err(error) => self@.import_header() == Err::<Seq<char>, _>(error@),
            },
            r is Err <==> self@.config.mode.no_modules() && !self@.js_imports.dom().is_empty(),
            r is Ok ==> (r->Ok_0@.len() == 0 <==> self@.js_imports.dom().is_empty()),
    {
        proof {
            reveal(Context::model);
            reveal(Context::wf);
        }
        let ghost imports = self@.js_imports;
        let ghost modules = in_order(imports.dom());
        assert(imports.dom() =~= self.js_imports@.dom());
        proof {
            self.js_imports.law_finite();
            law_in_order(imports.dom());
            law_imports_text(self.config.mode.uses_es_modules(), imports, modules);
        }
        if self.config.mode.no_modules() {
            if self.js_imports.len() > 0 {
                return Err(GlueError::ModuleImport(self.js_imports.name_at(0).to_string()));
            }
            return Ok(String::new());
        }
        let es = self.config.mode.uses_es_modules();
        let mut r = String::new();
        let mut i: usize = 0;
        assert(modules.take(0) == Seq::<Seq<char>>::empty());
        while i < self.js_imports.len()
            invariant
                self.js_imports.wf(),
                imports == self.js_imports@.map_values(
                    |items: Vec<(String, Option<String>)>| items_view(items),
                ),
                imports.dom() == self.js_imports@.dom(),
                modules == in_order(imports.dom()),
                i <= modules.len(),
                r@ == imports_text(es, imports, modules.take(i as int)),
            decreases modules.len() - i,
        {
            let module = self.js_imports.name_at(i);
            let text = write_import(es, module, self.js_imports.value_at(i));
            r.append(text.as_str());
            assert(modules.take(i as int + 1).drop_last() == modules.take(i as int));
            i += 1;
        }
        assert(modules.take(modules.len() as int) == modules);
        Ok(r)
    }

    /// The type of the function that loads the WebAssembly module.
    pub fn ts_for_init_fn(has_memory: bool) -> (r: String)
        ensures
            r@ == init_ts(has_memory),
    {
        let (memory_doc, memory_param) = if has_memory {
            (TS_INIT_MEMORY_DOC, TS_INIT_MEMORY_PARAM)
        } else {
            ("", "")
        };
        let mut r = TS_INIT_0.to_string();
        r.append(memory_doc);
        r.append(TS_INIT_1);
        r.append(memory_param);
        r.append(TS_INIT_2);
        r
    }

    /// Makes the imports that the glue provides come from `from`, and writes what provides them.
    fn hook_up(&mut self, from: &str, target: &str) -> (r: Result<String, GlueError>)
        requires
            old(self).wf(),
        ensures
            final(self).wf(),
            old(self)@.hook_up(from@, target@, old(self)@.wasm_imports) == (Outcome {
                state: final(self)@,
                result: text_view(r),
            }),
    {
        let ghost start = self@;
        let ghost all = start.wasm_imports;
        let mut r = String::new();
        let mut i: usize = 0;
        proof {
            reveal(Context::model);
            assert(all.take(0) == Seq::<(usize, Seq<char>)>::empty());
        }
        while i < self.wasm_import_definitions.len()
            invariant
                i <= self.wasm_import_definitions.len(),
                all == definitions_view(self.wasm_import_definitions@),
                start == old(self)@,
                all == start.wasm_imports,
                self.wf(),
                start.hook_up(from@, target@, all.take(i as int)) == done(self@, r@),
            decreases self.wasm_import_definitions.len() - i,
        {
            proof {
                reveal(Context::model);
                reveal(Context::wf);
            }
            let ghost now = self@;
            let id = self.wasm_import_definitions[i].0;
            proof {
                let next = all.take(i as int + 1);
                assert(next.drop_last() == all.take(i as int));
                assert(next.last() == all[i as int]);
                assert(next.last().0 == id);
            }
            if !holds_id(&import_ids(self.module), id) {
                proof {
                    lemma_hook_up_stops(start, from@, target@, all, i as int + 1);
                }
                return Err(GlueError::UnusedImport);
            }
            let name = move_import(self.module, id, from);
            r.append(target);
            r.append(name.as_str());
            r.append(" = ");
            r.append(trim(self.wasm_import_definitions[i].1.as_str()));
            r.append(";\n");
            i += 1;
        }
        proof {
            assert(all.take(all.len() as int) == all);
        }
        Ok(r)
    }

    /// Makes the memory, where it is imported, come from `wbg`, and hands it back.
    fn hook_up_memory(&mut self) -> (r: Result<Option<Limits>, GlueError>)
        requires
            old(self).wf(),
        ensures
            final(self).wf(),
            final(self)@.wasm_imports == old(self)@.wasm_imports,
            match r {
                Ok(memory) => old(self)@.hook_up_memory() == done(final(self)@, ()) && memory
                    == old(self)@.imported_memory(),
                Err(error) => old(self)@.hook_up_memory() == failed::<()>(final(self)@, error@),
            },
    {
        proof {
            reveal(Context::model);
            reveal(Context::wf);
        }
        if !holds_id(&memory_ids(self.module), self.memory) {
            return Ok(None);
        }
        let (limits, import) = memory(self.module, self.memory);
        match import {
            None => Ok(None),
            Some(None) => Err(GlueError::UnusedImport),
            Some(Some(id)) => {
                move_import(self.module, id, "wbg");
                self.imports_post.append("let memory;\n");
                Ok(Some(limits))
            },
        }
    }

    /// Writes the function that loads the WebAssembly module, and its type.
    pub fn gen_init(&mut self, needs_manual_start: bool) -> (r: Result<(String, String), GlueError>)
        requires
            old(self).wf(),
        ensures
            final(self).wf(),
            old(self)@.gen_init(needs_manual_start) == (Outcome {
                state: final(self)@,
                result: texts_view(r),
            }),
    {
        let memory = match self.hook_up_memory() {
            Ok(memory) => memory,
            Err(error) => return Err(error),
        };
        let ghost hooked = self@;
        let mut imports_init = String::new();
        if self.has_definitions() {
            imports_init.append("imports.wbg = {};\n");
        } else {
            imports_init.append("");
        }
        assert(imports_init@ == (if hooked.wasm_imports.len() > 0 {
            "imports.wbg = {};\n"@
        } else {
            ""@
        }));
        let text = match self.hook_up("wbg", "imports.wbg.") {
            Ok(text) => text,
            Err(error) => return Err(error),
        };
        imports_init.append(text.as_str());
        let js = write_init(&memory, imports_init.as_str(), needs_manual_start);
        let ts = Self::ts_for_init_fn(memory.is_some());
        Ok((js, ts))
    }

    /// Whether the glue provides an import of the WebAssembly module.
    fn has_definitions(&self) -> (r: bool)
        ensures
            r == (self@.wasm_imports.len() > 0),
    {
        proof {
            reveal(Context::model);
        }
        self.wasm_import_definitions.len() > 0
    }

    /// Puts the parts of the glue together.
    fn assemble(
        &self,
        first: &str,
        imports: &str,
        init: (String, String),
        footer: &str,
        last: &str,
    ) -> (r: (String, String))
        ensures
            (r.0@, r.1@) == self@.assemble(
                first@,
                imports@,
                (init.0@, init.1@),
                footer@,
                last@,
            ),
    {
        proof {
            reveal(Context::model);
        }
        let (init_js, init_ts) = init;
        let mut js = first.to_string();
        js.append(imports);
        js.append("\n");
        js.append(self.imports_post.as_str());
        js.append("\n");
        js.append(self.globals.as_str());
        js.append("\n");
        js.append(init_js.as_str());
        js.append("\n");
        js.append(footer);
        js.append("\n");
        js.append(last);
        let mut ts = self.typescript.clone();
        ts.append(init_ts.as_str());
        (squeeze(js.as_str()), ts)
    }

    /// Puts a script together.
    fn finalize_script(&mut self, global: &str, imports: &str, start: bool) -> (r: Result<
        (String, String),
        GlueError,
    >)
        requires
            old(self).wf(),
        ensures
            final(self).wf(),
            old(self)@.finalize_script(global@, imports@, start) == (Outcome {
                state: final(self)@,
                result: texts_view(r),
            }),
    {
        let init = match self.gen_init(start) {
            Ok(init) => init,
            Err(error) => return Err(error),
        };
        let mut first = "(function() {\n".to_string();
        first.append("const __exports = {};\n");
        first.append("let wasm;\n");
        let mut footer = "self.".to_string();
        footer.append(global);
        footer.append(" = Object.assign(init, __exports);\n");
        Ok(self.assemble(first.as_str(), imports, init, footer.as_str(), "})();\n"))
    }

    /// Puts an ES module for browsers together.
    fn finalize_web(&mut self, imports: &str, start: bool) -> (r: Result<
        (String, String),
        GlueError,
    >)
        requires
            old(self).wf(),
        ensures
            final(self).wf(),
            old(self)@.finalize_web(imports@, start) == (Outcome {
                state: final(self)@,
                result: texts_view(r),
            }),
    {
        self.import_later("let wasm;\n");
        let init = match self.gen_init(start) {
            Ok(init) => init,
            Err(error) => return Err(error),
        };
        Ok(self.assemble("", imports, init, "export default init;\n", ""))
    }

    /// Adds a text right behind the imports.
    fn import_later(&mut self, text: &str)
        requires
            old(self).wf(),
        ensures
            final(self).wf(),
            final(self)@ == (GlueView {
                imports_post: old(self)@.imports_post + text@,
                ..old(self)@
            }),
    {
        proof {
            reveal(Context::model);
            reveal(Context::wf);
        }
        self.imports_post.append(text);
    }

    /// Puts a CommonJS module together.
    fn finalize_commonjs(&mut self, module_name: &str, imports: &str, start: bool) -> (r: Result<
        (String, String),
        GlueError,
    >)
        requires
            old(self).wf(),
        ensures
            final(self).wf(),
            old(self)@.finalize_commonjs(module_name@, imports@, start) == (Outcome {
                state: final(self)@,
                result: texts_view(r),
            }),
    {
        let path = glue_path(module_name);
        let mut footer = match self.hook_up(path.as_str(), "\nmodule.exports.") {
            Ok(text) => text,
            Err(error) => return Err(error),
        };
        footer.append("wasm = require('./");
        footer.append(module_name);
        footer.append("_bg');\n");
        if start {
            footer.append("wasm.__wbindgen_start();\n");
        } else {
            footer.append("");
        }
        let init = (String::new(), String::new());
        Ok(self.assemble("let wasm;\n", imports, init, footer.as_str(), ""))
    }

    /// Puts an ES module together that imports the WebAssembly module like any other.
    fn finalize_esm(&mut self, module_name: &str, imports: String, start: bool) -> (r: Result<
        (String, String),
        GlueError,
    >)
        requires
            old(self).wf(),
        ensures
            final(self).wf(),
            old(self)@.finalize_esm(module_name@, imports@, start) == (Outcome {
                state: final(self)@,
                result: texts_view(r),
            }),
    {
        let mut imports = imports;
        imports.append("import * as wasm from './");
        imports.append(module_name);
        imports.append("_bg';\n");
        let path = glue_path(module_name);
        let mut footer = match self.hook_up(path.as_str(), "\nexport const ") {
            Ok(text) => text,
            Err(error) => return Err(error),
        };
        if start {
            footer.append("\nwasm.__wbindgen_start();\n");
        } else {
            footer.append("");
        }
        let init = (String::new(), String::new());
        Ok(self.assemble("", imports.as_str(), init, footer.as_str(), ""))
    }

    /// Puts the glue together, as the environment that it runs in asks.
    pub fn finalize_js(&mut self, module_name: &str, needs_manual_start: bool) -> (r: Result<
        (String, String),
        GlueError,
    >)
        requires
            old(self).wf(),
        ensures
            final(self).wf(),
            old(self)@.finalize_js(module_name@, needs_manual_start) == (Outcome {
                state: final(self)@,
                result: texts_view(r),
            }),
    {
        let imports = match self.js_import_header() {
            Ok(imports) => imports,
            Err(error) => return Err(error),
        };
        let config = self.options();
        match &config.mode {
            OutputMode::NoModules { global } => self.finalize_script(
                global.as_str(),
                imports.as_str(),
                needs_manual_start,
            ),
            OutputMode::Web => self.finalize_web(imports.as_str(), needs_manual_start),
            OutputMode::Node { experimental_modules: false } => self.finalize_commonjs(
                module_name,
                imports.as_str(),
                needs_manual_start,
            ),
            _ => self.finalize_esm(module_name, imports, needs_manual_start),
        }
    }

    /// Ends the run: gives the JavaScript and the TypeScript of the glue.
    ///
    /// The classes are written, the internal exports that nothing uses are removed, the start
    /// function becomes an export where the glue is to run it, and what nothing refers to any
    /// more is removed from the module. From then on no helper can be exposed.
    ///
    /// What is used in the module has to be there, as it is in one that was parsed. It fails where
    /// the glue provides an import that nothing in the module uses.
    pub fn finalize(&mut self, module_name: &str) -> (r: Result<(String, String), GlueError>)
        requires
            old(self).wf(),
            old(self)@.classes is Some,
            old(self)@.can_finalize(),
        ensures
            final(self).wf(),
            old(self)@.finalize(module_name@) == (Outcome {
                state: final(self)@,
                result: texts_view(r),
            }),
            r is Ok ==> !old(self)@.module.exports.contains_key(old(self)@.module.next_export),
    {
        let ghost start = self@;
        proof {
            lemma_classes_frame(start);
        }
        match self.write_classes() {
            Ok(()) => {},
            Err(error) => return Err(error),
        }
        self.unexport_unused_internal_exports();
        let mut needs_manual_start = false;
        if self.options().emit_start {
            proof {
                lemma_start_is_there(start);
            }
            needs_manual_start = self.unstart_start_function();
        }
        self.collect();
        self.finalize_js(module_name, needs_manual_start)
    }

    /// Removes what nothing uses from the module. No helper can be exposed any more.
    fn collect(&mut self)
        requires
            old(self).wf(),
            old(self)@.module.intact(),
        ensures
            final(self).wf(),
            final(self)@ == (GlueView {
                module: old(self)@.module.collected(),
                exposed: None,
                ..old(self)@
            }),
    {
        proof {
            reveal(Context::model);
            reveal(Context::wf);
        }
        collect_garbage(self.module);
        self.exposed_globals = None;
    }

    /// Whether the start function of the module, if it has one, is there.
    pub fn start_is_there(&self) -> (r: bool)
        ensures
            r == self@.module.has_start(),
    {
        proof {
            reveal(Context::model);
        }
        match start(self.module) {
            Some(None) => false,
            _ => true,
        }
    }
}

/// Where a run can end and the glue is to run the start function, that is there.
proof fn lemma_start_is_there(state: GlueView)
    requires
        state.can_finalize(),
        state.write_classes().result is Ok,
        state.config.emit_start,
    ensures
        state.module.has_start(),
{
    lemma_classes_frame(state);
    if state.module.start is Some {
        let up = state.wind_up().state.module;
        let item = ExportItem::Function(state.module.start->0);
        let id = state.module.next_export;
        assert(up.exports.contains_key(id) && up.exports[id].item == item);
        assert(up.leads_to(seq![item], item));
        assert(up.used(item));
    }
}

/// Nothing is hooked up behind an import that is gone.
proof fn lemma_hook_up_stops(
    state: GlueView,
    from: Seq<char>,
    target: Seq<char>,
    definitions: Seq<(usize, Seq<char>)>,
    n: int,
)
    requires
        0 <= n <= definitions.len(),
        state.hook_up(from, target, definitions.take(n)).result is Err,
    ensures
        state.hook_up(from, target, definitions) == state.hook_up(
            from,
            target,
            definitions.take(n),
        ),
    decreases definitions.len() - n,
{
    if n == definitions.len() {
        assert(definitions.take(n) == definitions);
    } else {
        assert(definitions.take(n + 1).drop_last() == definitions.take(n));
        lemma_hook_up_stops(state, from, target, definitions, n + 1);
    }
}

/// Writing classes changes nothing but the texts and the identifiers.
proof fn lemma_each_frame(
    state: GlueView,
    classes: Map<Seq<char>, ClassView>,
    names: Seq<Seq<char>>,
)
    ensures
        state.write_each(classes, names).state.config == state.config,
        state.write_each(classes, names).state.module == state.module,
        state.write_each(classes, names).state.exposed == state.exposed,
        state.write_each(classes, names).state.required == state.required,
        state.write_each(classes, names).state.wasm_imports == state.wasm_imports,
        state.write_each(classes, names).state.classes == state.classes,
        state.write_each(classes, names).state.js_imports == state.js_imports,
        state.write_each(classes, names).state.imported == state.imported,
        state.write_each(classes, names).state.memory == state.memory,
    decreases names.len(),
{
    if names.len() > 0 {
        lemma_each_frame(state, classes, names.drop_last());
    }
}

/// Writing all classes changes nothing but the texts, the identifiers and the classes.
pub proof fn lemma_classes_frame(state: GlueView)
    ensures
        state.write_classes().state.config == state.config,
        state.write_classes().state.module == state.module,
        state.write_classes().state.exposed == state.exposed,
        state.write_classes().state.required == state.required,
        state.write_classes().state.wasm_imports == state.wasm_imports,
        state.write_classes().state.classes is None,
        state.write_classes().state.js_imports == state.js_imports,
        state.write_classes().state.imported == state.imported,
        state.write_classes().state.memory == state.memory,
{
    lemma_each_frame(
        GlueView { classes: None, ..state },
        state.classes->0,
        in_order(state.classes->0.dom()),
    );
}

} // verus!
