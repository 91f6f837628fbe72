//! What holds of the bindings: what is asked for each export and each import, and what each
//! export, enum and struct becomes.
use crate::bindings::{AuxEnum, AuxExport, AuxExportKind, AuxImport, AuxStruct, WasmBindgenAux};
use crate::class::{doc_comment, framed, ClassView};
use crate::config::OutputMode;
use crate::context::{with_item, GlueView};
use crate::error::GlueErrorView;
use crate::export::export_text;
use crate::export_laws::{law_export_text, lemma_line};
use crate::generate::{enum_js, enum_ts, variants_js, variants_ts, ActionView, ExportGlueView};
use crate::helper_laws::lemma_item_behind;
use crate::manifest_laws::law_files_only_install;
use crate::names::identifier;
use crate::parts::{holds, in_a_row, lemma_middle, lemma_start_holds, lemma_starts, lemma_within};
use crate::text::{decimal, lines, trimmed, trimmed_end, trimmed_start};
use vstd::prelude::*;

verus! {

/// For every import that is asked for, the request says that exceptions are caught if and only if
/// the id of the import is one of those whose exceptions are caught, and that the last argument is
/// spread if and only if it is one of those for which it is. In a debug run exceptions are logged.
pub proof fn law_import_request(state: GlueView, aux: WasmBindgenAux, i: int)
    requires
        0 <= i < aux.import_map@.len(),
    ensures
        ({
            let outcome = state.generate(aux, (aux.export_map@.len() + i) as nat);
            let id = aux.import_map@[i].id;
            &&& outcome.state == state
            &&& outcome.result matches Ok(ActionView::Import {
                variadic,
                catch,
                catch_and_rethrow,
            })
            &&& catch <==> exists|k: int|
                0 <= k < aux.imports_with_catch@.len() && #[trigger] aux.imports_with_catch@[k]
                    == id
            &&& variadic <==> exists|k: int|
                0 <= k < aux.imports_with_variadic@.len()
                    && #[trigger] aux.imports_with_variadic@[k] == id
            &&& catch_and_rethrow <==> state.config.debug
        }),
{
}

/// Two imports that are on the same lists are asked for alike.
pub proof fn law_import_requests_agree(state: GlueView, aux: WasmBindgenAux, i: int, j: int)
    requires
        0 <= i < aux.import_map@.len(),
        0 <= j < aux.import_map@.len(),
    ensures
        ({
            let first = state.generate(aux, (aux.export_map@.len() + i) as nat).result;
            let second = state.generate(aux, (aux.export_map@.len() + j) as nat).result;
            let (a, b) = (aux.import_map@[i].id, aux.import_map@[j].id);
            first == second <==> aux.imports_with_catch@.contains(a)
                == aux.imports_with_catch@.contains(b) && aux.imports_with_variadic@.contains(a)
                == aux.imports_with_variadic@.contains(b)
        }),
{
}

/// For every export that is asked for, the request tells what it is called in JavaScript, what of
/// the module it calls, which class it constructs, and whether it is a method, which may consume
/// its object. Getters and setters are methods that do not. Only functions start with a word.
pub proof fn law_export_request(state: GlueView, aux: WasmBindgenAux, i: int)
    requires
        0 <= i < aux.export_map@.len(),
    ensures
        ({
            let outcome = state.generate(aux, i as nat);
            let export = aux.export_map@[i];
            &&& outcome.state == state
            &&& outcome.result matches Ok(ActionView::Export(request))
            &&& request.invocation == "wasm."@ + state.module.exports[export.id].name
            &&& request.prefix == (if export.kind is Function {
                "function"@
            } else {
                ""@
            })
            &&& match export.kind {
                AuxExportKind::Function(name) => request.js_name == name@,
                AuxExportKind::Constructor(class) => request.js_name == "constructor"@,
                AuxExportKind::Getter { class, field } => request.js_name == field@,
                AuxExportKind::Setter { class, field } => request.js_name == field@,
                AuxExportKind::StaticFunction { class, name } => request.js_name == name@,
                AuxExportKind::Method { class, name, consumed } => request.js_name == name@,
            }
            &&& match request.constructor {
                Some(class) => export.kind matches AuxExportKind::Constructor(name) && name@
                    == class,
                None => !(export.kind is Constructor),
            }
            &&& request.method == (match export.kind {
                AuxExportKind::Method { class, name, consumed } => Some(consumed),
                AuxExportKind::Getter { class, field } => Some(false),
                AuxExportKind::Setter { class, field } => Some(false),
                _ => None,
            })
        }),
{
}

/// All is asked for exactly where all exports and imports are bound: then nothing is asked for any
/// more.
pub proof fn law_all_is_asked_for(state: GlueView, aux: WasmBindgenAux, bound: nat)
    ensures
        ({
            let result = state.generate(aux, bound).result;
            let (exports, imports) = (aux.export_map@.len(), aux.import_map@.len());
            &&& (result is Ok && result->Ok_0 is Export) <==> bound < exports
            &&& (result is Ok && result->Ok_0 is Import) <==> exports <= bound < exports
                + imports
            &&& bound < exports + imports ==> result is Ok && state.generate(aux, bound).state
                == state
        }),
{
}

/// An error of a translation tells which export or which import it is about, and nothing is bound.
pub proof fn law_failed_translation(
    state: GlueView,
    export: AuxExport,
    import: AuxImport,
    error: GlueErrorView,
)
    ensures
        state.answer_export(export, Err(error)).state == state,
        state.answer_export(export, Err(error)).result == Err::<(), _>(
            GlueErrorView::Export { name: export.debug_name@, cause: Box::new(error) },
        ),
        state.answer_import(import, Err(error)).state == state,
        state.answer_import(import, Err(error)).result == Err::<(), _>(
            GlueErrorView::Import { description: import.description@, cause: Box::new(error) },
        ),
{
}

/// A translated export is bound, and an error on the way tells which export it is about.
pub proof fn law_translated_export(state: GlueView, export: AuxExport, glue: ExportGlueView)
    ensures
        ({
            let answer = state.answer_export(export, Ok(glue));
            let bound = state.generate_export(export, glue);
            &&& answer.state == bound.state
            &&& answer.result is Ok <==> bound.result is Ok
            &&& bound.result matches Err(error) ==> answer.result == Err::<(), _>(
                GlueErrorView::Export { name: export.debug_name@, cause: Box::new(error) },
            )
        }),
{
}

/// A function is exported behind its documentation, and TypeScript gets its signature. No class
/// changes.
pub proof fn law_bound_function(
    state: GlueView,
    export: AuxExport,
    glue: ExportGlueView,
    name: String,
)
    requires
        export.kind == AuxExportKind::Function(name),
        state.generate_export(export, glue).result is Ok,
    ensures
        ({
            let after = state.generate_export(export, glue).state;
            let docs = doc_comment(export.comments@, Some(glue.js_doc));
            let local = identifier(state.identifiers, name@);
            &&& after.globals == with_item(
                state.globals + docs,
                export_text(state.config.mode, name@, local, trimmed(glue.js)),
            ) + "\n"@
            &&& after.typescript == state.typescript + docs + "export "@ + glue.ts + "\n"@
            &&& after.classes == state.classes
        }),
{
}

/// The class that an export belongs to, if it belongs to one.
pub open spec fn owner(kind: AuxExportKind) -> Option<Seq<char>> {
    match kind {
        AuxExportKind::Function(name) => None,
        AuxExportKind::Constructor(class) => Some(class@),
        AuxExportKind::Getter { class, field } => Some(class@),
        AuxExportKind::Setter { class, field } => Some(class@),
        AuxExportKind::StaticFunction { class, name } => Some(class@),
        AuxExportKind::Method { class, name, consumed } => Some(class@),
    }
}

/// How a member is written in front of its body.
pub open spec fn member_head(kind: AuxExportKind) -> Seq<char> {
    match kind {
        AuxExportKind::Function(name) => Seq::empty(),
        AuxExportKind::Constructor(class) => "constructor"@,
        AuxExportKind::Getter { class, field } => "get "@ + field@,
        AuxExportKind::Setter { class, field } => "set "@ + field@,
        AuxExportKind::StaticFunction { class, name } => "static "@ + name@,
        AuxExportKind::Method { class, name, consumed } => name@,
    }
}

/// A member is added behind the members that its class has, with its documentation in front. A
/// method, a static function and a constructor are declared in TypeScript too, with the same
/// documentation; a getter and a setter make a field, and leave the other declarations alone.
/// Nothing but that class changes.
pub proof fn law_bound_member(state: GlueView, export: AuxExport, glue: ExportGlueView)
    requires
        owner(export.kind) is Some,
        state.classes is Some,
    ensures
        ({
            let outcome = state.generate_export(export, glue);
            let after = outcome.state;
            let owner = owner(export.kind)->0;
            let class = state.class(owner);
            let docs = doc_comment(export.comments@, Some(glue.js_doc));
            let accessor = export.kind is Getter || export.kind is Setter;
            &&& outcome.result is Ok <==> !(export.kind is Constructor && class.has_constructor)
            &&& outcome.result matches Err(error) ==> error == GlueErrorView::DuplicateConstructor(
                owner,
            ) && after.class(owner) == class
            &&& outcome.result is Ok ==> {
                &&& after.class(owner).contents == class.contents + docs + member_head(export.kind)
                    + glue.js + "\n"@
                &&& after.class(owner).typescript == class.typescript + (if accessor {
                    Seq::empty()
                } else {
                    docs + "  "@ + (if export.kind is StaticFunction {
                        "static "@
                    } else {
                        Seq::empty()
                    }) + glue.ts + "\n"@
                })
                &&& after.class(owner).comments == class.comments
                &&& after.class(owner).wrap_needed == class.wrap_needed
                &&& after.class(owner).has_constructor == (class.has_constructor
                    || export.kind is Constructor)
            }
            &&& after.classes is Some
            &&& forall|other: Seq<char>|
                other != owner ==> #[trigger] after.class(other) == state.class(other)
            &&& after == (GlueView { classes: after.classes, ..state })
        }),
{
    reveal_strlit("");
    let class = state.class(owner(export.kind)->0);
    let docs = doc_comment(export.comments@, Some(glue.js_doc));
    assert(""@ =~= Seq::<char>::empty());
    let front = class.contents + docs;
    let ts = class.typescript + docs + "  "@;
    assert(front + ""@ =~= front);
    assert(ts + ""@ =~= ts);
    let after = state.generate_export(export, glue).state;
    match export.kind {
        AuxExportKind::Constructor(name) => {
            if !class.has_constructor {
                assert(after.class(name@).typescript =~= class.typescript + (docs + "  "@
                    + Seq::<char>::empty() + glue.ts + "\n"@));
            }
        },
        AuxExportKind::StaticFunction { class: c, name } => {
            assert(after.class(c@).typescript =~= class.typescript + (docs + "  "@ + "static "@
                + glue.ts + "\n"@));
            assert(after.class(c@).contents =~= front + ("static "@ + name@) + glue.js + "\n"@);
        },
        AuxExportKind::Method { class: c, name, consumed } => {
            assert(after.class(c@).typescript =~= class.typescript + (docs + "  "@
                + Seq::<char>::empty() + glue.ts + "\n"@));
        },
        AuxExportKind::Getter { class: c, field } => {
            assert(after.class(c@).contents =~= front + ("get "@ + field@) + glue.js + "\n"@);
        },
        AuxExportKind::Setter { class: c, field } => {
            assert(after.class(c@).contents =~= front + ("set "@ + field@) + glue.js + "\n"@);
        },
        _ => {},
    }
    assert(class.typescript + Seq::<char>::empty() =~= class.typescript);
}

/// A class that needs a function which makes objects is else what it was, and so are the others.
pub proof fn law_wrap(state: GlueView, name: Seq<char>)
    requires
        state.classes is Some,
    ensures
        ({
            let after = state.require_class_wrap(name);
            let (old_class, new_class) = (state.class(name), after.class(name));
            &&& new_class.wrap_needed
            &&& new_class.contents == old_class.contents
            &&& new_class.typescript == old_class.typescript
            &&& new_class.comments == old_class.comments
            &&& new_class.has_constructor == old_class.has_constructor
            &&& new_class.fields == old_class.fields
            &&& after.classes is Some
            &&& after.classes->0.contains_key(name)
            &&& forall|other: Seq<char>|
                other != name ==> #[trigger] after.class(other) == state.class(other)
            &&& after == (GlueView { classes: after.classes, ..state })
        }),
{
}

/// What a variant becomes in JavaScript.
pub open spec fn variant_js(variant: (String, u32)) -> Seq<char> {
    variant.0@ + ":"@ + decimal(variant.1 as nat) + ","@
}

/// What a variant becomes in TypeScript.
pub open spec fn variant_ts(variant: (String, u32)) -> Seq<char> {
    "\n  "@ + variant.0@ + ","@
}

/// An enum has all its variants, in order, each with its value in JavaScript.
pub proof fn law_enum_text(name: Seq<char>, variants: Seq<(String, u32)>)
    ensures
        enum_js(variants) == "Object.freeze({ "@ + in_a_row(
            variants.map_values(|variant: (String, u32)| variant_js(variant)),
        ) + " })"@,
        enum_ts(name, variants) == "export enum "@ + name + " {"@ + in_a_row(
            variants.map_values(|variant: (String, u32)| variant_ts(variant)),
        ) + "\n}\n"@,
{
    lemma_variants(variants);
}

/// The variants of an enum stand one behind the other.
proof fn lemma_variants(variants: Seq<(String, u32)>)
    ensures
        variants_js(variants) == in_a_row(
            variants.map_values(|variant: (String, u32)| variant_js(variant)),
        ),
        variants_ts(variants) == in_a_row(
            variants.map_values(|variant: (String, u32)| variant_ts(variant)),
        ),
    decreases variants.len(),
{
    let js = variants.map_values(|variant: (String, u32)| variant_js(variant));
    let ts = variants.map_values(|variant: (String, u32)| variant_ts(variant));
    if variants.len() > 0 {
        let rest = variants.drop_last();
        lemma_variants(rest);
        assert(js.drop_last() =~= rest.map_values(|variant: (String, u32)| variant_js(variant)));
        assert(ts.drop_last() =~= rest.map_values(|variant: (String, u32)| variant_ts(variant)));
        let last = variants.last();
        assert(js.last() == variant_js(last));
        assert(ts.last() == variant_ts(last));
        assert(variants_js(rest) + last.0@ + ":"@ + decimal(last.1 as nat) + ","@ =~= variants_js(
            rest,
        ) + variant_js(last));
        assert(variants_ts(rest) + "\n  "@ + last.0@ + ","@ =~= variants_ts(rest) + variant_ts(
            last,
        ));
    }
}

/// A line of the documentation, as it stands in a comment.
pub open spec fn doc_line(line: Seq<char>) -> Seq<char> {
    "*"@ + line + "\n"@
}

/// A line of the JSDoc part, as it stands in a comment.
pub open spec fn js_doc_line(line: Seq<char>) -> Seq<char> {
    "* "@ + line + " \n"@
}

/// A comment holds all lines of the documentation, in order, and behind them those of the JSDoc
/// part where there is one.
pub proof fn law_doc_comment(comments: Seq<char>, js_doc: Option<Seq<char>>)
    ensures
        doc_comment(comments, js_doc) == "/**\n"@ + in_a_row(
            lines(comments).map_values(|line: Seq<char>| doc_line(line)),
        ) + (match js_doc {
            Some(docs) => in_a_row(lines(docs).map_values(|line: Seq<char>| js_doc_line(line))),
            None => Seq::empty(),
        }) + "*/\n"@,
{
    lemma_doc_lines(lines(comments));
    if let Some(docs) = js_doc {
        lemma_doc_lines(lines(docs));
    }
}

/// Lines in a frame stand one behind the other.
proof fn lemma_doc_lines(list: Seq<Seq<char>>)
    ensures
        framed(list, "*"@, "\n"@) == in_a_row(list.map_values(|line: Seq<char>| doc_line(line))),
        framed(list, "* "@, " \n"@) == in_a_row(
            list.map_values(|line: Seq<char>| js_doc_line(line)),
        ),
    decreases list.len(),
{
    let docs = list.map_values(|line: Seq<char>| doc_line(line));
    let js_docs = list.map_values(|line: Seq<char>| js_doc_line(line));
    if list.len() > 0 {
        let rest = list.drop_last();
        lemma_doc_lines(rest);
        assert(docs.drop_last() =~= rest.map_values(|line: Seq<char>| doc_line(line)));
        assert(js_docs.drop_last() =~= rest.map_values(|line: Seq<char>| js_doc_line(line)));
        assert(docs.last() == doc_line(list.last()));
        assert(js_docs.last() == js_doc_line(list.last()));
        let (a, b) = (framed(rest, "*"@, "\n"@), framed(rest, "* "@, " \n"@));
        assert(a + "*"@ + list.last() + "\n"@ =~= a + doc_line(list.last()));
        assert(b + "* "@ + list.last() + " \n"@ =~= b + js_doc_line(list.last()));
    }
}

/// What an enum becomes stands behind what was there, in JavaScript and in TypeScript.
pub proof fn law_enum_is_added(state: GlueView, item: AuxEnum)
    ensures
        ({
            let after = state.generate_enum(item).state;
            &&& state.generate_enum(item).result is Ok
            &&& state.globals.is_prefix_of(after.globals)
            &&& state.typescript.is_prefix_of(after.typescript)
            &&& holds(after.globals, enum_js(item.variants@))
            &&& holds(after.globals, item.name@ + " = "@ + enum_js(item.variants@) + ";\n"@)
            &&& holds(after.typescript, enum_ts(item.name@, item.variants@))
            &&& after.config == state.config
            &&& after.classes == state.classes
            &&& after.dependencies == state.dependencies
        }),
{
    let text = enum_js(item.variants@);
    let docs = doc_comment(item.comments@, None);
    let name = item.name@;
    let local = identifier(state.identifiers, name);
    lemma_enum_text(item.variants@);
    let exported = export_text(state.config.mode, name, local, text);
    let line = name + " = "@ + text + ";\n"@;
    let before = state.globals + docs;
    lemma_exported_enum(before, state.config.mode, name, local, text);
    lemma_middle(name + " = "@, text, ";\n"@);
    let all = with_item(before, exported);
    lemma_within(all, line, text);
    lemma_item_behind(before, exported);
    lemma_starts(state.globals, docs, all);
    lemma_starts(state.globals, before, all);
    let ts = enum_ts(name, item.variants@);
    lemma_middle(state.typescript, ts, docs);
    assert(state.typescript + ts + docs =~= state.generate_enum(item).state.typescript);
    lemma_starts(state.typescript, ts + docs, state.typescript);
    assert(state.typescript + (ts + docs) =~= state.typescript + ts + docs);
}

/// The text of an enum is no class and no function, and has no white space around it.
proof fn lemma_enum_text(variants: Seq<(String, u32)>)
    ensures
        ({
            let text = enum_js(variants);
            &&& trimmed(text) == text
            &&& !"class"@.is_prefix_of(text)
            &&& !"function"@.is_prefix_of(text)
        }),
{
    reveal_strlit("Object.freeze({ ");
    reveal_strlit(" })");
    reveal_strlit("class");
    reveal_strlit("function");
    let text = enum_js(variants);
    assert(text[0] == "Object.freeze({ "@[0]);
    assert(text.last() == " })"@[2]);
    assert(trimmed_start(text) == text);
    assert(trimmed_end(text) == text);
    if "class"@.is_prefix_of(text) {
        assert(text.subrange(0, 5)[0] == "class"@[0]);
    }
    if "function"@.is_prefix_of(text) {
        assert(text.subrange(0, 8)[0] == "function"@[0]);
    }
}

/// What is neither a class nor a function is exported under its name, as a constant.
proof fn lemma_exported_enum(
    before: Seq<char>,
    mode: OutputMode,
    name: Seq<char>,
    definition: Seq<char>,
    text: Seq<char>,
)
    requires
        !"class"@.is_prefix_of(text),
        !"function"@.is_prefix_of(text),
    ensures
        holds(
            with_item(before, export_text(mode, name, definition, text)),
            name + " = "@ + text + ";\n"@,
        ),
{
    law_export_text(mode, name, definition, text);
    let exported = export_text(mode, name, definition, text);
    let line = name + " = "@ + text + ";\n"@;
    reveal_strlit("export const ");
    reveal_strlit("module.exports.");
    reveal_strlit("__exports.");
    reveal_strlit(";\n");
    let head = if mode.uses_es_modules() {
        "export const "@
    } else if mode is Node {
        "module.exports."@
    } else {
        "__exports."@
    };
    assert(exported =~= head + line + Seq::<char>::empty());
    lemma_middle(head, line, Seq::empty());
    assert(exported[0] == head[0]);
    assert(exported[exported.len() - 2] == ";\n"@[0]);
    assert(exported.last() == ";\n"@[1]);
    lemma_line(before, exported, line);
}

/// All enums are added, and each stands in the texts behind what was there.
pub proof fn law_every_enum_is_added(state: GlueView, items: Seq<AuxEnum>)
    ensures
        ({
            let outcome = state.generate_enums(items);
            let after = outcome.state;
            &&& outcome.result is Ok
            &&& state.globals.is_prefix_of(after.globals)
            &&& state.typescript.is_prefix_of(after.typescript)
            &&& forall|i: int|
                0 <= i < items.len() ==> holds(
                    after.globals,
                    (#[trigger] items[i]).name@ + " = "@ + enum_js(items[i].variants@) + ";\n"@,
                ) && holds(after.typescript, enum_ts(items[i].name@, items[i].variants@))
            &&& after.config == state.config
            &&& after.classes == state.classes
            &&& after.dependencies == state.dependencies
        }),
    decreases items.len(),
{
    lemma_starts(state.globals, state.globals, state.globals);
    lemma_starts(state.typescript, state.typescript, state.typescript);
    if items.len() > 0 {
        let rest = items.drop_last();
        law_every_enum_is_added(state, rest);
        let before = state.generate_enums(rest).state;
        let after = state.generate_enums(items).state;
        law_enum_is_added(before, items.last());
        lemma_starts(state.globals, before.globals, after.globals);
        lemma_starts(state.typescript, before.typescript, after.typescript);
        assert forall|i: int| 0 <= i < items.len() implies holds(
            after.globals,
            (#[trigger] items[i]).name@ + " = "@ + enum_js(items[i].variants@) + ";\n"@,
        ) && holds(after.typescript, enum_ts(items[i].name@, items[i].variants@)) by {
            if i < rest.len() {
                assert(rest[i] == items[i]);
                lemma_start_holds(
                    before.globals,
                    after.globals,
                    items[i].name@ + " = "@ + enum_js(items[i].variants@) + ";\n"@,
                );
                lemma_start_holds(
                    before.typescript,
                    after.typescript,
                    enum_ts(items[i].name@, items[i].variants@),
                );
            }
        }
    }
}

/// Each struct is a class, which the last struct of that name documents. A class that no struct is
/// about stays as it is, and no struct adds members.
pub proof fn law_every_struct_is_a_class(state: GlueView, items: Seq<AuxStruct>, name: Seq<char>)
    requires
        state.classes is Some,
    ensures
        ({
            let after = state.generate_structs(items);
            let (old_class, new_class) = (state.class(name), after.class(name));
            &&& after == (GlueView { classes: after.classes, ..state })
            &&& after.classes is Some
            &&& forall|i: int|
                0 <= i < items.len() && (#[trigger] items[i]).name@ == name
                    ==> after.classes->0.contains_key(name)
            &&& forall|i: int|
                0 <= i < items.len() && (#[trigger] items[i]).name@ == name && (forall|j: int|
                    i < j < items.len() ==> (#[trigger] items[j]).name@ != name)
                    ==> new_class.comments == doc_comment(items[i].comments@, None)
            &&& (forall|i: int| 0 <= i < items.len() ==> (#[trigger] items[i]).name@ != name)
                ==> new_class == old_class && after.classes->0.contains_key(name)
                == state.classes->0.contains_key(name)
            &&& new_class == (ClassView { comments: new_class.comments, ..old_class })
        }),
    decreases items.len(),
{
    if items.len() > 0 {
        let rest = items.drop_last();
        law_every_struct_is_a_class(state, rest, name);
        assert forall|i: int| 0 <= i < rest.len() implies rest[i] == #[trigger] items[i] by {}
        assert(items[items.len() - 1] == items.last());
        let after = state.generate_structs(items);
        let before = state.generate_structs(rest);
        assert(after.class(name) == if items.last().name@ == name {
            ClassView { comments: doc_comment(items.last().comments@, None), ..before.class(name) }
        } else {
            before.class(name)
        });
        assert forall|i: int|
            0 <= i < items.len() && (#[trigger] items[i]).name@ == name && (forall|j: int|
                i < j < items.len() ==> (#[trigger] items[j]).name@
                    != name) implies after.class(name).comments == doc_comment(
            items[i].comments@,
            None,
        ) by {
            if i < rest.len() {
                assert(items[items.len() - 1].name@ != name);
                assert(rest[i].name@ == name);
                assert forall|j: int| i < j < rest.len() implies (#[trigger] rest[j]).name@
                    != name by {
                    assert(items[j].name@ != name);
                }
            }
        }
        if forall|i: int| 0 <= i < items.len() ==> (#[trigger] items[i]).name@ != name {
            assert forall|i: int| 0 <= i < rest.len() implies (#[trigger] rest[i]).name@ != name by {
                assert(items[i].name@ != name);
            }
        }
    }
}

/// Where nothing is left to bind, all enums, all structs, the additional TypeScript and the
/// dependencies of all `package.json` files are added, each once, and that is all.
pub proof fn law_rest(state: GlueView, aux: WasmBindgenAux, bound: nat)
    requires
        bound >= aux.export_map@.len() + aux.import_map@.len(),
    ensures
        ({
            let enums = state.generate_enums(aux.enums@).state;
            let structs = enums.generate_structs(aux.structs@);
            let files = structs.process_package_jsons(aux.package_jsons@);
            let outcome = state.generate(aux, bound);
            &&& outcome.result is Ok <==> files.result is Ok
            &&& outcome.result matches Ok(action) ==> action is Done
            &&& outcome.result matches Err(error) ==> files.result == Err::<(), _>(error)
            &&& outcome.state.globals == enums.globals
            &&& outcome.state.typescript == enums.typescript + aux.extra_typescript@
            &&& outcome.state.classes == structs.classes
            &&& outcome.state.dependencies == files.state.dependencies
        }),
{
    law_every_enum_is_added(state, aux.enums@);
    let enums = state.generate_enums(aux.enums@).state;
    lemma_struct_texts(enums, aux.structs@);
    let structs = enums.generate_structs(aux.structs@);
    law_files_only_install(structs, aux.package_jsons@, aux.extra_typescript@);
}

/// Structs leave the texts alone.
proof fn lemma_struct_texts(state: GlueView, items: Seq<AuxStruct>)
    ensures
        state.generate_structs(items) == (GlueView {
            classes: state.generate_structs(items).classes,
            ..state
        }),
    decreases items.len(),
{
    if items.len() > 0 {
        lemma_struct_texts(state, items.drop_last());
    }
}

} // verus!
