//! What holds of single operations on a run: how it starts, what they note, and when they can be
//! performed.
use crate::bindings::{AuxExport, WasmBindgenAux};
use crate::config::{Bindgen, OutputMode};
use crate::context::GlueView;
use crate::error::GlueErrorView;
use crate::generate::ExportGlueView;
use crate::module::{ExportItem, ExportView, ModuleView, TableKind};
use crate::names::identifier;
use crate::text::{decimal, lemma_decimal_not_empty, trimmed};
use vstd::prelude::*;

verus! {

/// At the start of a run there are no helpers, imports, classes, dependencies and names, there is no
/// JavaScript, and the TypeScript is a note for linters.
pub proof fn law_new_run(config: Bindgen, module: ModuleView, memory: usize)
    ensures
        ({
            let state = GlueView::start(config, module, memory);
            &&& state.globals.len() == 0 && state.imports_post.len() == 0
            &&& state.typescript == "/* tslint:disable */\n"@
            &&& state.open()
            &&& forall|key: Seq<char>| !#[trigger] state.is_exposed(key)
            &&& forall|name: Seq<char>| !#[trigger] state.required.contains(name)
            &&& forall|name: Seq<char>| #[trigger] state.identifiers.count(name) == 0
            &&& forall|name: Seq<char>| !#[trigger] state.js_imports.contains_key(name)
            &&& forall|name: Seq<char>| !#[trigger] state.dependencies.contains_key(name)
            &&& state.classes is Some && state.classes->0.dom().is_empty()
            &&& state.imported.dom().is_empty() && state.wasm_imports.len() == 0
            &&& state.config == config && state.module == module && state.memory == memory
        }),
{
}

/// An internal export that is required is noted, whether it is there or not. It is an error only
/// where it is not there, and only the first time.
pub proof fn law_required(state: GlueView, name: Seq<char>)
    ensures
        ({
            let outcome = state.require_internal_export(name);
            let there = exists|i: usize| #[trigger]
                state.module.exports.contains_key(i) && state.module.exports[i].name == name;
            &&& forall|other: Seq<char>| #[trigger]
                outcome.state.required.contains(other) <==> state.required.contains(other) || other
                    == name
            &&& outcome.state == (GlueView { required: outcome.state.required, ..state })
            &&& outcome.result is Ok <==> there || state.required.contains(name)
            &&& outcome.result matches Err(error) ==> error == GlueErrorView::MissingInternalExport(
                name,
            )
            &&& outcome.state.require_internal_export(name).result is Ok
        }),
{
}

/// The internal exports go that the glue does not use, and no others. Nothing else changes.
pub proof fn law_unexport(state: GlueView, id: usize)
    ensures
        ({
            let after = state.unexport_unused();
            let internal = "__wbindgen"@.is_prefix_of(state.module.exports[id].name);
            let used = state.required.contains(state.module.exports[id].name);
            &&& after.module.exports.contains_key(id) <==> state.module.exports.contains_key(id) && (
            used || !internal)
            &&& after.module.exports.contains_key(id) ==> after.module.exports[id]
                == state.module.exports[id]
            &&& after == (GlueView {
                module: ModuleView { exports: after.module.exports, ..state.module },
                ..state
            })
        }),
{
}

/// The start function becomes an export of its own, and stops being the start function. Without one
/// nothing changes.
pub proof fn law_unstart(state: GlueView)
    ensures
        state.module.start is None ==> state.unstart() == state,
        state.module.start matches Some(function) ==> ({
            let after = state.unstart();
            &&& after.module.start is None
            &&& after.module.exports == state.module.exports.insert(
                state.module.next_export,
                ExportView { name: "__wbindgen_start"@, item: ExportItem::Function(function) },
            )
            &&& after.module.imports == state.module.imports
            &&& after.module.functions == state.module.functions
            &&& after == (GlueView { module: after.module, ..state })
        }),
{
}

/// A class that is not there has no members and no documentation.
pub proof fn law_missing_class(state: GlueView, name: Seq<char>)
    requires
        state.classes is Some,
        !state.classes->0.contains_key(name),
    ensures
        ({
            let class = state.class(name);
            &&& class.contents.len() == 0 && class.typescript.len() == 0 && class.comments.len()
                == 0
            &&& !class.has_constructor && !class.wrap_needed
            &&& class.fields.dom().is_empty()
        }),
{
}

/// An item can be exported unless it is a constant of an ES module whose name is taken.
pub proof fn law_can_export(state: GlueView, name: Seq<char>, contents: Seq<char>)
    ensures
        ({
            let es = !(state.config.mode is NoModules || state.config.mode matches OutputMode::Node {
                experimental_modules: false,
            });
            let constant = !"class"@.is_prefix_of(contents) && !"function"@.is_prefix_of(
                trimmed(contents),
            );
            let taken = state.identifiers.count(name) > 0 || name == "default"@;
            state.can_export(name, contents) <==> !(es && constant && taken)
        }),
{
    let number = decimal(state.identifiers.count(name) + 1);
    lemma_decimal_not_empty(state.identifiers.count(name) + 1);
    assert((name + number).len() > name.len());
}

/// An export can be bound where it belongs to a class if and only if classes can be added to.
pub proof fn law_can_bind(state: GlueView, export: AuxExport, glue: ExportGlueView)
    requires
        !(export.kind is Function),
    ensures
        state.can_bind(export, glue) <==> state.classes is Some,
{
}

/// It can always be told which import comes next, and which export where the module has it. The rest
/// can be added where structs have classes and, in an ES module, the names of enums are free and
/// differ.
pub proof fn law_can_generate(state: GlueView, aux: WasmBindgenAux, bound: nat)
    ensures
        ({
            let (exports, imports) = (aux.export_map@.len(), aux.import_map@.len());
            let es = !(state.config.mode is NoModules || state.config.mode matches OutputMode::Node {
                experimental_modules: false,
            });
            let free = forall|i: int|
                0 <= i < aux.enums@.len() ==> identifier(
                    state.identifiers,
                    (#[trigger] aux.enums@[i]).name@,
                ) == aux.enums@[i].name@;
            let differ = forall|i: int, j: int|
                0 <= i < j < aux.enums@.len() ==> (#[trigger] aux.enums@[i]).name@ != (
                #[trigger] aux.enums@[j]).name@;
            &&& bound < exports ==> (state.can_generate(aux, bound)
                <==> state.module.exports.contains_key(aux.export_map@[bound as int].id))
            &&& exports <= bound < exports + imports ==> state.can_generate(aux, bound)
            &&& exports + imports <= bound ==> (state.can_generate(aux, bound) <==> (!es || free
                && differ) && (aux.structs@.len() == 0 || state.classes is Some))
        }),
{
}

/// Values can be passed, read and handed over where the heap of the glue holds them, and where a
/// table of the module does if there is one or it is exported already.
pub proof fn law_can_use_values(state: GlueView)
    ensures
        ({
            let table = state.is_exposed("anyref_table"@) || exists|i: usize| #[trigger]
                state.module.is_table(TableKind::Anyref, i);
            let fill = table || state.is_exposed("add_to_anyref_table"@);
            &&& state.has_anyref_table() <==> table
            &&& state.can_add_values() <==> fill
            &&& !state.config.anyref || fill ==> state.can_pass_values()
                && state.can_handle_errors()
            &&& !state.config.anyref || table ==> state.can_read_values()
            &&& state.can_read_values() && !table ==> !state.config.anyref || state.is_exposed(
                "get_array_js_value_from_wasm"@,
            )
            &&& state.can_handle_errors() && !fill ==> !state.config.anyref || state.is_exposed(
                "handle_error"@,
            )
        }),
{
}

/// A module in which the start function is there, or which has none, can be run.
pub proof fn law_has_start(module: ModuleView)
    ensures
        module.has_start() <==> (module.start is None || module.functions.contains(
            module.start->0,
        )),
{
}

} // verus!
