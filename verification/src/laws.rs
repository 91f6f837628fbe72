//! What holds of the bindings and of the end of a run.
use crate::bindings::ImportNameView;
use crate::class::{doc_comment, ClassView};
use crate::config::OutputMode;
use crate::context::{gap, GlueView};
use crate::error::GlueErrorView;
use crate::export::{class_ts, field_ts, fields_ts};
use crate::finalize::{imports_text, lemma_classes_frame};
use crate::generate::with_definition;
use crate::module::{ExportItem, ModuleView};
use crate::names::{ascending, identifier, in_order, law_identifiers_differ, law_in_order};
use crate::package_json::DependencyView;
use crate::text::{law_squeezed_short, lemma_decimal_not_empty, squeezed, three_feeds};
use vstd::prelude::*;

verus! {

/// The name that an identifier is asked for under, where an item is imported.
pub open spec fn asks_for(import: ImportNameView) -> Option<Seq<char>> {
    match import {
        ImportNameView::Global { name } => Some(name),
        ImportNameView::Module { module, name } => Some(name),
        ImportNameView::LocalModule { module, name } => Some(name),
        ImportNameView::InlineJs { crate_name, snippet, name } => Some(name),
        ImportNameView::VendorPrefixed { name, prefixes } => None,
    }
}

/// An item keeps its local name: importing it again changes nothing.
pub proof fn law_import_again(state: GlueView, import: ImportNameView, fields: Seq<Seq<char>>)
    requires
        state.import_name(import, fields).result is Ok,
    ensures
        state.import_name(import, fields).state.import_name(import, fields) == state.import_name(
            import,
            fields,
        ),
{
}

/// Two items that have the same name where they come from get different local names.
pub proof fn law_imports_differ(state: GlueView, a: ImportNameView, b: ImportNameView)
    requires
        a != b,
        asks_for(a) is Some,
        asks_for(a) == asks_for(b),
        !state.imported.contains_key(a),
        !state.imported.contains_key(b),
        state.local_name(a).result is Ok,
        state.local_name(a).state.local_name(b).result is Ok,
    ensures
        state.local_name(a).result->Ok_0 != state.local_name(a).state.local_name(b).result->Ok_0,
{
    let name = asks_for(a)->0;
    let first = state.local_name(a);
    assert(first.state.identifiers == state.identifiers.insert(name));
    law_identifiers_differ(state.identifiers, first.state.identifiers, name);
}

/// A class cannot be exported under a name under which something was exported before.
pub proof fn law_no_shadowing(
    state: GlueView,
    name: Seq<char>,
    contents: Seq<char>,
    comments: Option<Seq<char>>,
    class: Seq<char>,
    class_comments: Option<Seq<char>>,
)
    requires
        "class"@.is_prefix_of(class),
    ensures
        state.export(name, contents, comments).state.export(name, class, class_comments).result
            == Err::<(), _>(GlueErrorView::ShadowedClass(name)),
{
    let used = state.export(name, contents, comments).state.identifiers;
    assert(used == state.identifiers.insert(name));
    lemma_decimal_not_empty(used.count(name) + 1);
    assert(identifier(used, name).len() > name.len());
}

/// The documentation of an item stands right before it.
pub proof fn law_docs_attach(text: Seq<char>, comments: Seq<char>, js_doc: Option<Seq<char>>)
    ensures
        gap(text + doc_comment(comments, js_doc)) == 0,
{
    let docs = doc_comment(comments, js_doc);
    let all = text + docs;
    let end = "*/\n"@;
    assert(docs.subrange(docs.len() - end.len(), docs.len() as int) =~= end);
    assert(all.subrange(all.len() - end.len(), all.len() as int) =~= end);
}

/// A package that a manifest asks for stays as the manifest asked for it.
pub proof fn law_dependencies_stay(
    state: GlueView,
    path: Seq<char>,
    list: Seq<DependencyView>,
    name: Seq<char>,
)
    requires
        state.dependencies.contains_key(name),
    ensures
        state.add_dependencies(path, list).state.dependencies.contains_key(name),
        state.add_dependencies(path, list).state.dependencies[name] == state.dependencies[name],
    decreases list.len(),
{
    if list.len() > 0 {
        law_dependencies_stay(state, path, list.drop_last(), name);
    }
}

/// The dependencies of a manifest that is accepted are there, and nothing asked for one before.
pub proof fn law_dependencies_added(
    state: GlueView,
    path: Seq<char>,
    list: Seq<DependencyView>,
    i: int,
)
    requires
        0 <= i < list.len(),
        state.add_dependencies(path, list).result is Ok,
    ensures
        !state.dependencies.contains_key(list[i].0),
        list[i].1 is Some,
        state.add_dependencies(path, list).state.dependencies.contains_key(list[i].0),
        state.add_dependencies(path, list).state.dependencies[list[i].0] == (path, list[i].1->0),
    decreases list.len(),
{
    let rest = list.drop_last();
    let before = state.add_dependencies(path, rest);
    if i < rest.len() {
        law_dependencies_added(state, path, rest, i);
    } else if state.dependencies.contains_key(list[i].0) {
        law_dependencies_stay(state, path, rest, list[i].0);
    }
}

/// Two manifests cannot ask for the same package: the second is refused, and the error names
/// both.
pub proof fn law_dependencies_clash(
    state: GlueView,
    path: Seq<char>,
    list: Seq<DependencyView>,
    i: int,
    other_path: Seq<char>,
    version: Seq<char>,
)
    requires
        0 <= i < list.len(),
        state.add_dependencies(path, list).result is Ok,
    ensures
        state.add_dependencies(path, list).state.add_dependency(
            other_path,
            (list[i].0, Some(version)),
        ).result == Err::<(), _>(
            GlueErrorView::DuplicateDependency {
                name: list[i].0,
                path: other_path,
                previous: path,
            },
        ),
{
    law_dependencies_added(state, path, list, i);
}

/// Where the imports that the glue provides come from in the end.
pub open spec fn glue_module(mode: OutputMode, module_name: Seq<char>) -> Seq<char> {
    if mode is NoModules || mode is Web {
        "wbg"@
    } else {
        "./"@ + module_name + ".js"@
    }
}

/// Hooking up imports changes where they come from, and nothing else of the module.
#[verifier::rlimit(50)]
pub proof fn lemma_hooked(
    state: GlueView,
    from: Seq<char>,
    target: Seq<char>,
    definitions: Seq<(usize, Seq<char>)>,
)
    ensures
        ({
            let end = state.hook_up(from, target, definitions);
            let imports = end.state.module.imports;
            &&& end.state == GlueView {
                module: ModuleView { imports, ..state.module },
                ..state
            }
            &&& imports.dom() == state.module.imports.dom()
            &&& forall|id: usize| #[trigger]
                imports.contains_key(id) ==> imports[id].name == state.module.imports[id].name
            &&& end.result is Ok ==> forall|i: int|
                0 <= i < definitions.len() ==> imports.contains_key(
                    (#[trigger] definitions[i]).0,
                ) && imports[definitions[i].0].module == from
        }),
    decreases definitions.len(),
{
    if definitions.len() == 0 {
        let end = state.hook_up(from, target, definitions);
        assert(end.state.module.imports == state.module.imports);
    } else {
        let rest = definitions.drop_last();
        lemma_hooked(state, from, target, rest);
        let before = state.hook_up(from, target, rest);
        let end = state.hook_up(from, target, definitions);
        if end.result is Ok {
            let id = definitions.last().0;
            assert(end.state.module.imports.dom() =~= state.module.imports.dom());
            assert forall|i: int| 0 <= i < definitions.len() implies end.state.module.imports.contains_key(
                (#[trigger] definitions[i]).0,
            ) && end.state.module.imports[definitions[i].0].module == from by {
                if i < rest.len() {
                    assert(rest[i] == definitions[i]);
                }
            }
        }
    }
}

/// Putting the glue together changes where imports come from, and nothing else of the module.
#[verifier::rlimit(50)]
pub proof fn lemma_finalize_js(state: GlueView, module_name: Seq<char>, start: bool)
    requires
        state.finalize_js(module_name, start).result is Ok,
    ensures
        ({
            let end = state.finalize_js(module_name, start);
            let imports = end.state.module.imports;
            &&& end.state.module == ModuleView { imports, ..state.module }
            &&& end.state.exposed == state.exposed
            &&& end.state.classes == state.classes
            &&& end.state.wasm_imports == state.wasm_imports
            &&& end.state.js_imports == state.js_imports
            &&& imports.dom() == state.module.imports.dom()
            &&& forall|id: usize| #[trigger]
                imports.contains_key(id) ==> imports[id].name == state.module.imports[id].name
            &&& forall|i: int|
                0 <= i < state.wasm_imports.len() ==> imports.contains_key(
                    (#[trigger] state.wasm_imports[i]).0,
                ) && imports[state.wasm_imports[i].0].module == glue_module(
                    state.config.mode,
                    module_name,
                )
            &&& forall|i: int| !#[trigger] three_feeds(end.result->Ok_0.0, i)
        }),
{
    let path = "./"@ + module_name + ".js"@;
    let web = GlueView { imports_post: state.imports_post + "let wasm;\n"@, ..state };
    assert(state.hook_up_memory().result is Ok ==> state.hook_up_memory().state.module.imports.dom()
        =~= state.module.imports.dom());
    assert(web.hook_up_memory().result is Ok ==> web.hook_up_memory().state.module.imports.dom()
        =~= state.module.imports.dom());
    lemma_hooked(state, path, "\nmodule.exports."@, state.wasm_imports);
    lemma_hooked(state, path, "\nexport const "@, state.wasm_imports);
    lemma_hooked(
        state.hook_up_memory().state,
        "wbg"@,
        "imports.wbg."@,
        state.wasm_imports,
    );
    lemma_hooked(web.hook_up_memory().state, "wbg"@, "imports.wbg."@, state.wasm_imports);
    assert forall|text: Seq<char>, i: int| !#[trigger] three_feeds(squeezed(text), i) by {
        law_squeezed_short(text, i);
    }
}

/// What a module exports is there once its garbage is collected.
proof fn lemma_exports_stay(module: ModuleView, i: usize)
    requires
        module.intact(),
        module.exports.contains_key(i),
    ensures
        module.collected().has(module.exports[i].item),
{
    let item = module.exports[i].item;
    assert(module.leads_to(seq![item], item));
    assert(module.used(item));
}

/// The end of a run.
///
/// The module exports what it exported, but for the internal exports that the glue does not use,
/// and what it exports is there. The imports that the glue provides come from the glue, under
/// their names. There are no three line feeds in a row in the JavaScript. No helper can be
/// exposed any more, and no class can be added.
#[verifier::rlimit(50)]
pub proof fn law_finalize(state: GlueView, module_name: Seq<char>)
    requires
        state.can_finalize(),
        state.finalize(module_name).result is Ok,
        !state.module.exports.contains_key(state.module.next_export),
    ensures
        forall|i: usize| #[trigger]
            state.module.exports.contains_key(i) ==> if state.is_unused(
                state.module.exports[i].name,
            ) {
                !state.finalize(module_name).state.module.exports.contains_key(i)
            } else {
                let end = state.finalize(module_name).state.module;
                &&& end.exports.contains_key(i)
                &&& end.exports[i] == state.module.exports[i]
                &&& end.has(state.module.exports[i].item)
            },
        forall|i: int|
            0 <= i < state.wasm_imports.len() ==> {
                let id = (#[trigger] state.wasm_imports[i]).0;
                let imports = state.finalize(module_name).state.module.imports;
                &&& imports.contains_key(id)
                &&& state.module.imports.contains_key(id)
                &&& imports[id].module == glue_module(state.config.mode, module_name)
                &&& imports[id].name == state.module.imports[id].name
            },
        forall|i: int| !#[trigger] three_feeds(state.finalize(module_name).result->Ok_0.0, i),
        !state.finalize(module_name).state.open(),
        state.finalize(module_name).state.classes is None,
{
    let end = state.finalize(module_name).state;
    let up = state.wind_up().state;
    lemma_classes_frame(state);
    let last = GlueView { module: up.module.collected(), exposed: None, ..up };
    lemma_finalize_js(last, module_name, state.starts());
    let written = state.write_classes().state;
    assert(up.module.imports == state.module.imports);
    assert forall|id: usize| #[trigger] end.module.imports.contains_key(id) implies {
        &&& state.module.imports.contains_key(id)
        &&& last.module.imports[id] == state.module.imports[id]
    } by {
        assert(last.module.imports.dom().contains(id));
    }
    assert forall|i: usize| #[trigger]
        state.module.exports.contains_key(i) implies if state.is_unused(
        state.module.exports[i].name,
    ) {
        !end.module.exports.contains_key(i)
    } else {
        &&& end.module.exports.contains_key(i)
        &&& end.module.exports[i] == state.module.exports[i]
        &&& end.module.has(state.module.exports[i].item)
    } by {
        let exports = written.unexport_unused().module.exports;
        assert(i != state.module.next_export);
        assert(exports.contains_key(i) == !state.is_unused(state.module.exports[i].name));
        assert(up.module.exports.contains_key(i) == exports.contains_key(i));
        assert(end.module.exports == up.module.exports);
        if exports.contains_key(i) {
            lemma_exports_stay(up.module, i);
        }
    }
}

/// The start function of the module becomes an export where the glue is to run it; elsewhere it
/// stays as it is.
pub proof fn law_finalize_start(state: GlueView, module_name: Seq<char>)
    requires
        state.can_finalize(),
        state.finalize(module_name).result is Ok,
    ensures
        !state.config.emit_start ==> state.finalize(module_name).state.module.start
            == state.module.start,
        state.config.emit_start ==> state.finalize(module_name).state.module.start is None,
        state.starts() ==> state.finalize(module_name).state.module.exports_name(
            "__wbindgen_start"@,
        ),
        state.starts() ==> state.finalize(module_name).state.module.functions.contains(
            state.module.start->0,
        ),
{
    let end = state.finalize(module_name).state;
    let up = state.wind_up().state;
    lemma_classes_frame(state);
    let last = GlueView { module: up.module.collected(), exposed: None, ..up };
    lemma_finalize_js(last, module_name, state.starts());
    if state.starts() {
        let id = state.module.next_export;
        assert(up.module.exports.contains_key(id));
        assert(end.module.exports.contains_key(id));
        lemma_exports_stay(up.module, id);
    }
}

/// An internal export that the glue uses is still there in the end.
pub proof fn law_required_stays(state: GlueView, module_name: Seq<char>, name: Seq<char>)
    requires
        state.can_finalize(),
        state.finalize(module_name).result is Ok,
        !state.module.exports.contains_key(state.module.next_export),
        state.required.contains(name),
        state.module.exports_name(name),
    ensures
        state.finalize(module_name).state.module.exports_name(name),
{
    law_finalize(state, module_name);
    let i = choose|i: usize| #[trigger]
        state.module.exports.contains_key(i) && state.module.exports[i].name == name;
    assert(state.finalize(module_name).state.module.exports.contains_key(i));
}

/// Winding up keeps an intact module intact, so a run on one can end.
pub proof fn law_intact_can_finalize(state: GlueView)
    requires
        state.module.intact(),
    ensures
        state.can_finalize(),
{
    let up = state.wind_up();
    lemma_classes_frame(state);
    if up.result is Ok {
        let before = state.module;
        let after = up.state.module;
        assert(after.references == before.references && after.imports == before.imports);
        assert forall|item: ExportItem| after.is_root(item) implies before.is_root(item) by {
            if after.exports_item(item) {
                let i = choose|i: usize| #[trigger]
                    after.exports.contains_key(i) && after.exports[i].item == item;
                if !state.starts() || i != before.next_export {
                    assert(before.exports.contains_key(i) && before.exports[i].item == item);
                }
            }
            if after.imports_item(item) {
                let i = choose|i: usize| #[trigger]
                    after.imports.contains_key(i) && after.imports[i].item == item;
                assert(before.imports.contains_key(i) && before.imports[i].item == item);
            }
        }
        assert forall|item: ExportItem| #[trigger] after.used(item) implies before.used(item) by {
            let path = choose|path: Seq<ExportItem>| #[trigger] after.leads_to(path, item);
            assert(before.is_path(path)) by {
                assert forall|i: int| 0 <= i < path.len() - 1 implies before.references.contains(
                    (#[trigger] path[i], path[i + 1]),
                ) by {
                    assert(after.references.contains((path[i], path[i + 1])));
                }
            }
            assert(before.leads_to(path, item));
        }
        assert(forall|item: ExportItem| after.has(item) == before.has(item));
    }
}

/// Where everything that the glue provides is there, hooking it up succeeds.
proof fn lemma_hook_up_succeeds(
    state: GlueView,
    from: Seq<char>,
    target: Seq<char>,
    definitions: Seq<(usize, Seq<char>)>,
)
    requires
        forall|i: int|
            0 <= i < definitions.len() ==> state.module.imports.contains_key(
                (#[trigger] definitions[i]).0,
            ),
    ensures
        state.hook_up(from, target, definitions).result is Ok,
    decreases definitions.len(),
{
    if definitions.len() > 0 {
        let rest = definitions.drop_last();
        assert forall|i: int| 0 <= i < rest.len() implies state.module.imports.contains_key(
            (#[trigger] rest[i]).0,
        ) by {
            assert(rest[i] == definitions[i]);
        }
        lemma_hook_up_succeeds(state, from, target, rest);
        lemma_hooked(state, from, target, rest);
        assert(state.module.imports.contains_key(definitions[definitions.len() - 1].0));
    }
}

/// A run ends well where the classes can be written, a script imports nothing, and the module uses
/// the imports that the glue provides and, where it has one, the import of its memory.
pub proof fn law_finalize_succeeds(state: GlueView, module_name: Seq<char>)
    requires
        state.wind_up().result is Ok,
        state.import_header() is Ok,
        forall|i: int|
            0 <= i < state.wasm_imports.len() ==> {
                let id = (#[trigger] state.wasm_imports[i]).0;
                &&& state.module.imports.contains_key(id)
                &&& state.wind_up().state.module.used(state.module.imports[id].item)
            },
        state.module.memories.contains_key(state.memory) ==> (state.memory_entry().import matches Some(
            id,
        ) ==> {
            &&& state.module.imports.contains_key(id)
            &&& state.module.imports[id].item == ExportItem::Memory(state.memory)
        }),
    ensures
        state.finalize(module_name).result is Ok,
{
    let up = state.wind_up().state;
    lemma_classes_frame(state);
    let last = GlueView { module: up.module.collected(), exposed: None, ..up };
    assert(up.module.imports == state.module.imports);
    assert(up.module.memories == state.module.memories);
    let web = GlueView { imports_post: last.imports_post + "let wasm;\n"@, ..last };
    let path = "./"@ + module_name + ".js"@;
    assert forall|i: int| 0 <= i < last.wasm_imports.len() implies last.module.imports.contains_key(
        (#[trigger] last.wasm_imports[i]).0,
    ) by {
        assert(state.module.imports.contains_key(state.wasm_imports[i].0));
    }
    lemma_hook_up_succeeds(last, path, "\nmodule.exports."@, last.wasm_imports);
    lemma_hook_up_succeeds(last, path, "\nexport const "@, last.wasm_imports);
    lemma_hook_up_succeeds(
        last.hook_up_memory().state,
        "wbg"@,
        "imports.wbg."@,
        last.wasm_imports,
    );
    lemma_hook_up_succeeds(
        web.hook_up_memory().state,
        "wbg"@,
        "imports.wbg."@,
        last.wasm_imports,
    );
}

/// The last JavaScript that is given for an import provides it, and the other imports keep
/// theirs.
pub proof fn law_definitions(
    definitions: Seq<(usize, Seq<char>)>,
    id: usize,
    js: Seq<char>,
    other: (usize, Seq<char>),
)
    ensures
        with_definition(definitions, id, js).contains((id, js)),
        other.0 != id ==> with_definition(definitions, id, js).contains(other)
            == definitions.contains(other),
    decreases definitions.len(),
{
    let all = with_definition(definitions, id, js);
    if definitions.len() == 0 {
        assert(all[0] == (id, js));
    } else {
        let rest = definitions.skip(1);
        assert(definitions =~= seq![definitions[0]] + rest);
        if definitions[0].0 == id {
            assert(all[0] == (id, js));
            assert(all =~= seq![(id, js)] + rest);
            lemma_contains_first((id, js), rest, other);
            lemma_contains_first(definitions[0], rest, other);
        } else {
            law_definitions(rest, id, js, other);
            lemma_contains_first(definitions[0], with_definition(rest, id, js), other);
            lemma_contains_first(definitions[0], with_definition(rest, id, js), (id, js));
            lemma_contains_first(definitions[0], rest, other);
        }
    }
}

/// What a list holds that has one more item in front.
proof fn lemma_contains_first<T>(first: T, rest: Seq<T>, item: T)
    ensures
        (seq![first] + rest).contains(item) == (item == first || rest.contains(item)),
{
    let all = seq![first] + rest;
    assert(all[0] == first);
    assert(forall|i: int| 0 <= i < rest.len() ==> all[i + 1] == #[trigger] rest[i]);
    if all.contains(item) && item != first {
        let i = choose|i: int| 0 <= i < all.len() && all[i] == item;
        assert(rest[i - 1] == item);
    }
}

/// An item that nothing names is not used.
proof fn lemma_unnamed(module: ModuleView, item: ExportItem)
    requires
        !module.names(item),
    ensures
        !module.used(item),
{
    if module.used(item) {
        let path = choose|path: Seq<ExportItem>| #[trigger] module.leads_to(path, item);
        let n = path.len() as int;
        if n > 1 {
            assert(module.references.contains((path[n - 2], path[n - 2 + 1])));
        }
    }
}

/// Winding up names no memory.
proof fn lemma_memory_unnamed(state: GlueView, item: ExportItem)
    requires
        state.wind_up().result is Ok,
        item is Memory,
        !state.module.names(item),
    ensures
        !state.wind_up().state.module.names(item),
{
    let up = state.wind_up().state.module;
    lemma_classes_frame(state);
    if up.exports_item(item) {
        let i = choose|i: usize| #[trigger]
            up.exports.contains_key(i) && up.exports[i].item == item;
        assert(state.module.exports.contains_key(i) && state.module.exports[i].item == item);
    }
    if up.imports_item(item) {
        let i = choose|i: usize| #[trigger]
            up.imports.contains_key(i) && up.imports[i].item == item;
        assert(state.module.imports.contains_key(i) && state.module.imports[i].item == item);
    }
}

/// The memory that was added for the glue is gone in the end: nothing uses it.
pub proof fn law_added_memory_goes(state: GlueView, module_name: Seq<char>)
    requires
        state.finalize(module_name).result is Ok,
        !state.module.names(ExportItem::Memory(state.memory)),
    ensures
        !state.finalize(module_name).state.module.memories.contains_key(state.memory),
{
    let up = state.wind_up().state;
    let last = GlueView { module: up.module.collected(), exposed: None, ..up };
    lemma_finalize_js(last, module_name, state.starts());
    lemma_memory_unnamed(state, ExportItem::Memory(state.memory));
    lemma_unnamed(up.module, ExportItem::Memory(state.memory));
}

/// What stands behind the imports of an ES module.
spec fn behind_imports(
    state: GlueView,
    more: Seq<char>,
    init: Seq<char>,
    footer: Seq<char>,
) -> Seq<char> {
    more + "\n"@ + state.imports_post + "\n"@ + state.globals + "\n"@ + init + "\n"@ + footer + "\n"@
        + ""@
}

/// The imports stand at the start of what is put together.
proof fn lemma_imports_first(
    state: GlueView,
    imports: Seq<char>,
    more: Seq<char>,
    init: (Seq<char>, Seq<char>),
    footer: Seq<char>,
)
    ensures
        state.assemble(""@, imports + more, init, footer, ""@).0 == squeezed(
            imports + behind_imports(state, more, init.0, footer),
        ),
{
    reveal_strlit("");
    let a = imports + more;
    assert(""@ + a =~= a);
    assert(a + "\n"@ + state.imports_post + "\n"@ + state.globals + "\n"@ + init.0 + "\n"@ + footer
        + "\n"@ + ""@ =~= imports + behind_imports(state, more, init.0, footer));
}

/// The imports stand at the start of a module for browsers.
proof fn lemma_web_imports_first(state: GlueView, imports: Seq<char>, start: bool) -> (rest: Seq<
    char,
>)
    requires
        state.finalize_web(imports, start).result is Ok,
    ensures
        state.finalize_web(imports, start).result->Ok_0.0 == squeezed(imports + rest),
{
    let web = GlueView { imports_post: state.imports_post + "let wasm;\n"@, ..state };
    let init = web.gen_init(start);
    let footer = "export default init;\n"@;
    let none = Seq::<char>::empty();
    lemma_imports_first(init.state, imports, none, init.result->Ok_0, footer);
    assert(imports + none =~= imports);
    behind_imports(init.state, none, init.result->Ok_0.0, footer)
}

/// The imports stand at the start of an ES module.
proof fn lemma_esm_imports_first(
    state: GlueView,
    module_name: Seq<char>,
    imports: Seq<char>,
    start: bool,
) -> (rest: Seq<char>)
    requires
        state.finalize_esm(module_name, imports, start).result is Ok,
    ensures
        state.finalize_esm(module_name, imports, start).result->Ok_0.0 == squeezed(imports + rest),
{
    let path = "./"@ + module_name + ".js"@;
    let hooked = state.hook_up(path, "\nexport const "@, state.wasm_imports);
    let more = "import * as wasm from './"@ + module_name + "_bg';\n"@;
    let footer = hooked.result->Ok_0 + (if start {
        "\nwasm.__wbindgen_start();\n"@
    } else {
        ""@
    });
    let none = Seq::<char>::empty();
    lemma_imports_first(hooked.state, imports, more, (none, none), footer);
    assert(imports + "import * as wasm from './"@ + module_name + "_bg';\n"@ =~= imports + more);
    behind_imports(hooked.state, more, none, footer)
}

/// The imports of an ES module stand at its start.
pub proof fn law_imports_come_first(state: GlueView, module_name: Seq<char>)
    requires
        state.finalize(module_name).result is Ok,
        state.config.mode.uses_es_modules(),
    ensures
        exists|rest: Seq<char>|
            state.finalize(module_name).result->Ok_0.0 == squeezed(
                #[trigger] (imports_text(
                    true,
                    state.finalize(module_name).state.js_imports,
                    in_order(state.finalize(module_name).state.js_imports.dom()),
                ) + rest),
            ),
{
    let up = state.wind_up().state;
    lemma_classes_frame(state);
    let start = state.starts();
    let last = GlueView { module: up.module.collected(), exposed: None, ..up };
    lemma_finalize_js(last, module_name, start);
    let imports = imports_text(true, last.js_imports, in_order(last.js_imports.dom()));
    let rest = if last.config.mode is Web {
        lemma_web_imports_first(last, imports, start)
    } else {
        lemma_esm_imports_first(last, module_name, imports, start)
    };
    assert(state.finalize(module_name).result->Ok_0.0 == squeezed(imports + rest));
}

/// The fields with those names in TypeScript, one by one.
pub open spec fn field_texts(
    fields: Map<Seq<char>, (Seq<char>, bool)>,
    names: Seq<Seq<char>>,
) -> Seq<Seq<char>> {
    names.map_values(|name: Seq<char>| field_ts(name, fields[name].0, fields[name].1))
}

/// The text of some fields is that of each, one behind the other.
proof fn lemma_field_texts(fields: Map<Seq<char>, (Seq<char>, bool)>, names: Seq<Seq<char>>)
    ensures
        fields_ts(fields, names) == field_texts(fields, names).flatten_alt(),
    decreases names.len(),
{
    let texts = field_texts(fields, names);
    if names.len() > 0 {
        lemma_field_texts(fields, names.drop_last());
        assert(texts.drop_last() =~= field_texts(fields, names.drop_last()));
    }
}

/// In TypeScript the fields of a class stand behind its other members, each once, in ascending
/// order of their names.
pub proof fn law_class_fields(name: Seq<char>, class: ClassView)
    requires
        class.fields.dom().finite(),
    ensures
        ascending(in_order(class.fields.dom())),
        in_order(class.fields.dom()).to_set() == class.fields.dom(),
        in_order(class.fields.dom()).no_duplicates(),
        class_ts(name, class) == "export class "@ + name + " {\n"@ + "  free(): void;"@
            + class.typescript + field_texts(
            class.fields,
            in_order(class.fields.dom()),
        ).flatten() + "}\n"@,
{
    let names = in_order(class.fields.dom());
    law_in_order(class.fields.dom());
    lemma_field_texts(class.fields, names);
    field_texts(class.fields, names).lemma_flatten_and_flatten_alt_are_equivalent();
}

} // verus!
