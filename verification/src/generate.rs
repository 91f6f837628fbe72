//! The bindings: what each export, import, enum and struct becomes.
//!
//! The glue of a single export or import depends on the types of its arguments. Whoever runs the
//! generator translates these, exposes the helpers that the translation needs, and hands the
//! result back; [`Context::generate`] tells what comes next.
use crate::bindings::{
    AuxEnum, AuxExport, AuxExportKind, AuxImport, AuxStruct, PackageJson, WasmBindgenAux,
};
use crate::class::{doc_comment, format_doc_comments, ClassView};
use crate::context::{
    definitions_view, done, failed, text_view, unit_view, Context, GlueView, Outcome,
};
use crate::error::{GlueError, GlueErrorView};
use crate::module::{exports, holds_id};
use crate::names::identifier;
use crate::text::{decimal, same, to_decimal};
use vstd::prelude::*;

verus! {

/// What is to be known of an export for its translation.
pub struct ExportRequest {
    /// The name of the function in JavaScript.
    pub js_name: String,
    /// The class that the function constructs, if it is a constructor.
    pub constructor: Option<String>,
    /// Whether the function is a method, and whether it consumes the object.
    pub method: Option<bool>,
    /// What the function starts with.
    pub prefix: &'static str,
    /// The function of the module that is called.
    pub invocation: String,
}

/// What is to be known of an import for its translation.
pub struct ImportRequest {
    /// Whether the last argument is spread.
    pub variadic: bool,
    /// Whether exceptions are caught.
    pub catch: bool,
    /// Whether exceptions are logged on their way.
    pub catch_and_rethrow: bool,
}

/// What comes next.
pub enum Action {
    /// An export is to be translated.
    Export(ExportRequest),
    /// An import is to be translated.
    Import(ImportRequest),
    /// All bindings are there.
    Done,
}

/// An export, translated.
pub struct ExportGlue {
    /// The function in JavaScript.
    pub js: String,
    /// The signature in TypeScript.
    pub ts: String,
    /// The JSDoc part of the documentation.
    pub js_doc: String,
    /// The TypeScript type of what the function returns.
    pub ret_ty: String,
}

/// The model of an [`ExportRequest`].
pub struct ExportRequestView {
    pub js_name: Seq<char>,
    pub constructor: Option<Seq<char>>,
    pub method: Option<bool>,
    pub prefix: Seq<char>,
    pub invocation: Seq<char>,
}

/// The model of an [`Action`].
pub enum ActionView {
    Export(ExportRequestView),
    Import { variadic: bool, catch: bool, catch_and_rethrow: bool },
    Done,
}

/// The model of an [`ExportGlue`].
pub struct ExportGlueView {
    pub js: Seq<char>,
    pub ts: Seq<char>,
    pub js_doc: Seq<char>,
    pub ret_ty: Seq<char>,
}

impl View for ExportRequest {
    type V = ExportRequestView;

    open spec fn view(&self) -> ExportRequestView {
        ExportRequestView {
            js_name: self.js_name@,
            constructor: match self.constructor {
                Some(class) => Some(class@),
                None => None,
            },
            method: self.method,
            prefix: self.prefix@,
            invocation: self.invocation@,
        }
    }
}

impl View for Action {
    type V = ActionView;

    open spec fn view(&self) -> ActionView {
        match *self {
            Action::Export(request) => ActionView::Export(request@),
            Action::Import(ImportRequest { variadic, catch, catch_and_rethrow }) =>
                ActionView::Import { variadic, catch, catch_and_rethrow },
            Action::Done => ActionView::Done,
        }
    }
}

impl View for ExportGlue {
    type V = ExportGlueView;

    open spec fn view(&self) -> ExportGlueView {
        ExportGlueView {
            js: self.js@,
            ts: self.ts@,
            js_doc: self.js_doc@,
            ret_ty: self.ret_ty@,
        }
    }
}

/// The model of a result that is an action.
pub open spec fn action_view(result: Result<Action, GlueError>) -> Result<
    ActionView,
    GlueErrorView,
> {
    match result {
        Ok(action) => Ok(action@),
        Err(error) => Err(error@),
    }
}

/// What is to be known of an export that the module calls `wasm_name`.
pub open spec fn export_request(kind: AuxExportKind, wasm_name: Seq<char>) -> ExportRequestView {
    let invocation = "wasm."@ + wasm_name;
    match kind {
        AuxExportKind::Function(name) => ExportRequestView {
            js_name: name@,
            constructor: None,
            method: None,
            prefix: "function"@,
            invocation,
        },
        AuxExportKind::Constructor(class) => ExportRequestView {
            js_name: "constructor"@,
            constructor: Some(class@),
            method: None,
            prefix: ""@,
            invocation,
        },
        AuxExportKind::Getter { class, field } => ExportRequestView {
            js_name: field@,
            constructor: None,
            method: Some(false),
            prefix: ""@,
            invocation,
        },
        AuxExportKind::Setter { class, field } => ExportRequestView {
            js_name: field@,
            constructor: None,
            method: Some(false),
            prefix: ""@,
            invocation,
        },
        AuxExportKind::StaticFunction { class, name } => ExportRequestView {
            js_name: name@,
            constructor: None,
            method: None,
            prefix: ""@,
            invocation,
        },
        AuxExportKind::Method { class, name, consumed } => ExportRequestView {
            js_name: name@,
            constructor: None,
            method: Some(consumed),
            prefix: ""@,
            invocation,
        },
    }
}

/// The variants of an enum, as they stand in JavaScript.
pub open spec fn variants_js(variants: Seq<(String, u32)>) -> Seq<char>
    decreases variants.len(),
{
    if variants.len() == 0 {
        Seq::empty()
    } else {
        variants_js(variants.drop_last()) + variants.last().0@ + ":"@ + decimal(
            variants.last().1 as nat,
        ) + ","@
    }
}

/// The variants of an enum, as they stand in TypeScript.
pub open spec fn variants_ts(variants: Seq<(String, u32)>) -> Seq<char>
    decreases variants.len(),
{
    if variants.len() == 0 {
        Seq::empty()
    } else {
        variants_ts(variants.drop_last()) + "\n  "@ + variants.last().0@ + ","@
    }
}

/// An enum in JavaScript.
pub open spec fn enum_js(variants: Seq<(String, u32)>) -> Seq<char> {
    "Object.freeze({ "@ + variants_js(variants) + " })"@
}

/// An enum in TypeScript.
pub open spec fn enum_ts(name: Seq<char>, variants: Seq<(String, u32)>) -> Seq<char> {
    "export enum "@ + name + " {"@ + variants_ts(variants) + "\n}\n"@
}

/// The definitions with one for an import: it takes the place of the one that is there, or else
/// it comes last.
pub open spec fn with_definition(
    definitions: Seq<(usize, Seq<char>)>,
    id: usize,
    js: Seq<char>,
) -> Seq<(usize, Seq<char>)>
    decreases definitions.len(),
{
    if definitions.len() == 0 {
        seq![(id, js)]
    } else if definitions[0].0 == id {
        definitions.update(0, (id, js))
    } else {
        seq![definitions[0]] + with_definition(definitions.skip(1), id, js)
    }
}

impl GlueView {
    /// What an export becomes, where its translation is `glue`.
    pub open spec fn generate_export(self, export: AuxExport, glue: ExportGlueView) -> Outcome<()> {
        let docs = doc_comment(export.comments@, Some(glue.js_doc));
        match export.kind {
            AuxExportKind::Function(name) => {
                let exported = self.export(name@, glue.js, Some(docs));
                match exported.result {
                    Ok(_) => done(
                        GlueView {
                            globals: exported.state.globals + "\n"@,
                            typescript: exported.state.typescript + "export "@ + glue.ts + "\n"@,
                            ..exported.state
                        },
                        (),
                    ),
                    Err(error) => exported,
                }
            },
            AuxExportKind::Constructor(name) => {
                let class = self.class(name@);
                if class.has_constructor {
                    failed(
                        self.with_class(name@, class),
                        GlueErrorView::DuplicateConstructor(name@),
                    )
                } else {
                    let constructed = ClassView { has_constructor: true, ..class };
                    done(
                        self.with_class(
                            name@,
                            constructed.push(docs, "constructor"@, ""@, glue.js, glue.ts),
                        ),
                        (),
                    )
                }
            },
            AuxExportKind::Getter { class, field } => done(
                self.with_class(
                    class@,
                    self.class(class@).push_field(docs, field@, glue.js, Some(glue.ret_ty), true),
                ),
                (),
            ),
            AuxExportKind::Setter { class, field } => done(
                self.with_class(
                    class@,
                    self.class(class@).push_field(docs, field@, glue.js, None, false),
                ),
                (),
            ),
            AuxExportKind::StaticFunction { class, name } => done(
                self.with_class(
                    class@,
                    self.class(class@).push(docs, name@, "static "@, glue.js, glue.ts),
                ),
                (),
            ),
            AuxExportKind::Method { class, name, consumed } => done(
                self.with_class(
                    class@,
                    self.class(class@).push(docs, name@, ""@, glue.js, glue.ts),
                ),
                (),
            ),
        }
    }

    /// Whether what an export becomes can be added: a function can be exported, and anything else
    /// belongs to a class, which can still be added to.
    pub open spec fn can_bind(self, export: AuxExport, glue: ExportGlueView) -> bool {
        match export.kind {
            AuxExportKind::Function(name) => self.can_export(name@, glue.js),
            _ => self.classes is Some,
        }
    }

    /// The answer to the request for an export. An error tells which export it is about.
    pub open spec fn answer_export(
        self,
        export: AuxExport,
        glue: Result<ExportGlueView, GlueErrorView>,
    ) -> Outcome<()> {
        let outcome = match glue {
            Ok(glue) => self.generate_export(export, glue),
            Err(error) => failed(self, error),
        };
        match outcome.result {
            Ok(_) => outcome,
            Err(error) => failed(
                outcome.state,
                GlueErrorView::Export { name: export.debug_name@, cause: Box::new(error) },
            ),
        }
    }

    /// JavaScript provides an import.
    pub open spec fn generate_import(self, id: usize, js: Seq<char>) -> GlueView {
        GlueView { wasm_imports: with_definition(self.wasm_imports, id, js), ..self }
    }

    /// The answer to the request for an import. An error tells which import it is about.
    pub open spec fn answer_import(
        self,
        import: AuxImport,
        js: Result<Seq<char>, GlueErrorView>,
    ) -> Outcome<()> {
        match js {
            Ok(js) => done(self.generate_import(import.id, js), ()),
            Err(error) => failed(
                self,
                GlueErrorView::Import {
                    description: import.description@,
                    cause: Box::new(error),
                },
            ),
        }
    }

    /// What an enum becomes.
    pub open spec fn generate_enum(self, item: AuxEnum) -> Outcome<()> {
        GlueView {
            typescript: self.typescript + enum_ts(item.name@, item.variants@),
            ..self
        }.export(item.name@, enum_js(item.variants@), Some(doc_comment(item.comments@, None)))
    }

    /// What some enums become.
    pub open spec fn generate_enums(self, items: Seq<AuxEnum>) -> Outcome<()>
        decreases items.len(),
    {
        if items.len() == 0 {
            done(self, ())
        } else {
            let before = self.generate_enums(items.drop_last());
            match before.result {
                Ok(_) => before.state.generate_enum(items.last()),
                Err(error) => before,
            }
        }
    }

    /// Whether enums can be exported: in ES modules each has to get its own name.
    pub open spec fn can_export_enums(self, items: Seq<AuxEnum>) -> bool {
        self.config.mode.uses_es_modules() ==> {
            &&& forall|i: int|
                0 <= i < items.len() ==> identifier(
                    self.identifiers,
                    (#[trigger] items[i]).name@,
                ) == items[i].name@
            &&& forall|i: int, j: int|
                0 <= i < j < items.len() ==> (#[trigger] items[i]).name@ != (
                #[trigger] items[j]).name@
        }
    }

    /// What a struct becomes: a class, which it documents.
    pub open spec fn generate_struct(self, item: AuxStruct) -> GlueView {
        self.with_class(
            item.name@,
            ClassView { comments: doc_comment(item.comments@, None), ..self.class(item.name@) },
        )
    }

    /// What some structs become.
    pub open spec fn generate_structs(self, items: Seq<AuxStruct>) -> GlueView
        decreases items.len(),
    {
        if items.len() == 0 {
            self
        } else {
            self.generate_structs(items.drop_last()).generate_struct(items.last())
        }
    }

    /// The dependencies of some `package.json` files are added, up to the first that cannot be.
    pub open spec fn process_package_jsons(self, files: Seq<PackageJson>) -> Outcome<()>
        decreases files.len(),
    {
        if files.len() == 0 {
            done(self, ())
        } else {
            let before = self.process_package_jsons(files.drop_last());
            match before.result {
                Ok(_) => before.state.process_package_json(
                    files.last().path@,
                    files.last().text(),
                ),
                Err(error) => before,
            }
        }
    }

    /// What is left when the exports and the imports are bound.
    pub open spec fn generate_rest(self, aux: WasmBindgenAux) -> Outcome<()> {
        let enums = self.generate_enums(aux.enums@);
        match enums.result {
            Err(error) => enums,
            Ok(_) => {
                let structs = enums.state.generate_structs(aux.structs@);
                GlueView {
                    typescript: structs.typescript + aux.extra_typescript@,
                    ..structs
                }.process_package_jsons(aux.package_jsons@)
            },
        }
    }

    /// What comes next, where so many exports and imports are bound.
    pub open spec fn generate(self, aux: WasmBindgenAux, bound: nat) -> Outcome<ActionView> {
        let exports = aux.export_map@;
        let imports = aux.import_map@;
        if bound < exports.len() {
            let export = exports[bound as int];
            done(
                self,
                ActionView::Export(
                    export_request(export.kind, self.module.exports[export.id].name),
                ),
            )
        } else if bound < exports.len() + imports.len() {
            let id = imports[bound - exports.len()].id;
            done(
                self,
                ActionView::Import {
                    variadic: aux.imports_with_variadic@.contains(id),
                    catch: aux.imports_with_catch@.contains(id),
                    catch_and_rethrow: self.config.debug,
                },
            )
        } else {
            let rest = self.generate_rest(aux);
            match rest.result {
                Ok(_) => done(rest.state, ActionView::Done),
                Err(error) => failed(rest.state, error),
            }
        }
    }

    /// Whether it can be told what comes next: an export that is to be translated has to be
    /// there, the enums have to be such that they can be exported, and structs need classes that
    /// can still be added to.
    pub open spec fn can_generate(self, aux: WasmBindgenAux, bound: nat) -> bool {
        if bound < aux.export_map@.len() {
            self.module.exports.contains_key(aux.export_map@[bound as int].id)
        } else if bound < aux.export_map@.len() + aux.import_map@.len() {
            true
        } else {
            &&& self.can_export_enums(aux.enums@)
            &&& aux.structs@.len() > 0 ==> self.classes is Some
        }
    }
}

/// The model of a translation, which may have failed.
pub open spec fn glue_view(glue: Result<ExportGlue, GlueError>) -> Result<
    ExportGlueView,
    GlueErrorView,
> {
    match glue {
        Ok(glue) => Ok(glue@),
        Err(error) => Err(error@),
    }
}

/// Says what is to be known of an export.
fn write_request(kind: &AuxExportKind, wasm_name: &str) -> (r: ExportRequest)
    ensures
        r@ == export_request(*kind, wasm_name@),
{
    let mut invocation = "wasm.".to_string();
    invocation.append(wasm_name);
    match kind {
        AuxExportKind::Function(name) => ExportRequest {
            js_name: name.clone(),
            constructor: None,
            method: None,
            prefix: "function",
            invocation,
        },
        AuxExportKind::Constructor(class) => ExportRequest {
            js_name: "constructor".to_string(),
            constructor: Some(class.clone()),
            method: None,
            prefix: "",
            invocation,
        },
        AuxExportKind::Getter { class: _, field: name }
        | AuxExportKind::Setter { class: _, field: name } => ExportRequest {
            js_name: name.clone(),
            constructor: None,
            method: Some(false),
            prefix: "",
            invocation,
        },
        AuxExportKind::StaticFunction { class: _, name } => ExportRequest {
            js_name: name.clone(),
            constructor: None,
            method: None,
            prefix: "",
            invocation,
        },
        AuxExportKind::Method { class: _, name, consumed } => ExportRequest {
            js_name: name.clone(),
            constructor: None,
            method: Some(*consumed),
            prefix: "",
            invocation,
        },
    }
}

/// Writes an enum in JavaScript.
fn write_enum_js(variants: &Vec<(String, u32)>) -> (r: String)
    ensures
        r@ == enum_js(variants@),
{
    let mut list = String::new();
    let mut i: usize = 0;
    assert(variants@.take(0) == Seq::<(String, u32)>::empty());
    while i < variants.len()
        invariant
            i <= variants.len(),
            list@ == variants_js(variants@.take(i as int)),
        decreases variants.len() - i,
    {
        assert(variants@.take(i as int + 1).drop_last() == variants@.take(i as int));
        list.append(variants[i].0.as_str());
        list.append(":");
        list.append(to_decimal(variants[i].1 as u64).as_str());
        list.append(",");
        i += 1;
    }
    assert(variants@.take(variants@.len() as int) == variants@);
    let mut r = "Object.freeze({ ".to_string();
    r.append(list.as_str());
    r.append(" })");
    r
}

/// Writes an enum in TypeScript.
fn write_enum_ts(name: &str, variants: &Vec<(String, u32)>) -> (r: String)
    ensures
        r@ == enum_ts(name@, variants@),
{
    let mut list = String::new();
    let mut i: usize = 0;
    assert(variants@.take(0) == Seq::<(String, u32)>::empty());
    while i < variants.len()
        invariant
            i <= variants.len(),
            list@ == variants_ts(variants@.take(i as int)),
        decreases variants.len() - i,
    {
        assert(variants@.take(i as int + 1).drop_last() == variants@.take(i as int));
        list.append("\n  ");
        list.append(variants[i].0.as_str());
        list.append(",");
        i += 1;
    }
    assert(variants@.take(variants@.len() as int) == variants@);
    let mut r = "export enum ".to_string();
    r.append(name);
    r.append(" {");
    r.append(list.as_str());
    r.append("\n}\n");
    r
}

impl<'a> Context<'a> {
    /// Adds what an export becomes, where `glue` is its translation.
    pub fn generate_export(&mut self, export: &AuxExport, glue: &ExportGlue) -> (r: Result<
        (),
        GlueError,
    >)
        requires
            old(self).wf(),
            old(self)@.can_bind(*export, glue@),
        ensures
            final(self).wf(),
            old(self)@.generate_export(*export, glue@) == (Outcome {
                state: final(self)@,
                result: unit_view(r),
            }),
    {
        let docs = format_doc_comments(export.comments.as_str(), Some(glue.js_doc.clone()));
        let js = glue.js.as_str();
        let ts = glue.ts.as_str();
        match &export.kind {
            AuxExportKind::Function(name) => {
                match self.export(name.as_str(), js, Some(docs)) {
                    Ok(()) => {},
                    Err(error) => return Err(error),
                }
                self.end_function(ts);
            },
            AuxExportKind::Constructor(class) => {
                let exported = self.class_mut(class.as_str());
                if exported.has_constructor {
                    return Err(GlueError::DuplicateConstructor(class.clone()));
                }
                exported.has_constructor = true;
                exported.push(docs.as_str(), "constructor", "", js, ts);
            },
            AuxExportKind::Getter { class, field } => {
                let exported = self.class_mut(class.as_str());
                let ret_ty = Some(glue.ret_ty.as_str());
                exported.push_field(docs.as_str(), field.as_str(), js, ret_ty, true);
            },
            AuxExportKind::Setter { class, field } => {
                let exported = self.class_mut(class.as_str());
                exported.push_field(docs.as_str(), field.as_str(), js, None, false);
            },
            AuxExportKind::StaticFunction { class, name } => {
                let exported = self.class_mut(class.as_str());
                exported.push(docs.as_str(), name.as_str(), "static ", js, ts);
            },
            AuxExportKind::Method { class, name, consumed: _ } => {
                let exported = self.class_mut(class.as_str());
                exported.push(docs.as_str(), name.as_str(), "", js, ts);
            },
        }
        Ok(())
    }

    /// Ends a function with a line feed, and gives it a type.
    fn end_function(&mut self, ts: &str)
        requires
            old(self).wf(),
        ensures
            final(self).wf(),
            final(self)@ == (GlueView {
                globals: old(self)@.globals + "\n"@,
                typescript: old(self)@.typescript + "export "@ + ts@ + "\n"@,
                ..old(self)@
            }),
    {
        proof {
            reveal(Context::model);
            reveal(Context::wf);
        }
        self.globals.append("\n");
        self.typescript.append("export ");
        self.typescript.append(ts);
        self.typescript.append("\n");
    }

    /// Takes the answer to the request for an export. An error tells which export it is about.
    pub fn answer_export(&mut self, export: &AuxExport, glue: Result<ExportGlue, GlueError>) -> (r:
        Result<(), GlueError>)
        requires
            old(self).wf(),
            glue is Ok ==> old(self)@.can_bind(*export, glue->Ok_0@),
        ensures
            final(self).wf(),
            old(self)@.answer_export(*export, glue_view(glue)) == (Outcome {
                state: final(self)@,
                result: unit_view(r),
            }),
    {
        let error = match glue {
            Ok(glue) => match self.generate_export(export, &glue) {
                Ok(()) => return Ok(()),
                Err(error) => error,
            },
            Err(error) => error,
        };
        Err(GlueError::Export { name: export.debug_name.clone(), cause: Box::new(error) })
    }

    /// Notes what JavaScript provides an import.
    pub fn generate_import(&mut self, id: usize, js: String)
        requires
            old(self).wf(),
        ensures
            final(self).wf(),
            final(self)@ == old(self)@.generate_import(id, js@),
    {
        proof {
            reveal(Context::model);
            reveal(Context::wf);
        }
        let ghost all = self.wasm_import_definitions@;
        let ghost views = definitions_view(all);
        let mut i: usize = 0;
        while i < self.wasm_import_definitions.len()
            invariant
                self.wasm_import_definitions@ == all,
                views == definitions_view(all),
                i <= all.len(),
                forall|j: int| 0 <= j < i ==> (#[trigger] views[j]).0 != id,
                self.wf(),
                self@ == old(self)@,
            decreases all.len() - i,
        {
            if self.wasm_import_definitions[i].0 == id {
                proof {
                    reveal(Context::model);
                    reveal(Context::wf);
                    lemma_definition(views, id, js@, i as int);
                }
                self.wasm_import_definitions[i] = (id, js);
                assert(definitions_view(self.wasm_import_definitions@) =~= views.update(
                    i as int,
                    (id, js@),
                ));
                return ;
            }
            i += 1;
        }
        proof {
            lemma_definition(views, id, js@, i as int);
        }
        self.wasm_import_definitions.push((id, js));
        assert(definitions_view(self.wasm_import_definitions@) =~= views.push((id, js@)));
    }

    /// Takes the answer to the request for an import. An error tells which import it is about.
    pub fn answer_import(&mut self, import: &AuxImport, js: Result<String, GlueError>) -> (r:
        Result<(), GlueError>)
        requires
            old(self).wf(),
        ensures
            final(self).wf(),
            old(self)@.answer_import(*import, text_view(js)) == (Outcome {
                state: final(self)@,
                result: unit_view(r),
            }),
    {
        match js {
            Ok(js) => {
                self.generate_import(import.id, js);
                Ok(())
            },
            Err(error) => Err(
                GlueError::Import {
                    description: import.description.clone(),
                    cause: Box::new(error),
                },
            ),
        }
    }

    /// Adds what an enum becomes.
    pub fn generate_enum(&mut self, item: &AuxEnum) -> (r: Result<(), GlueError>)
        requires
            old(self).wf(),
            old(self)@.can_export(item.name@, enum_js(item.variants@)),
        ensures
            final(self).wf(),
            old(self)@.generate_enum(*item) == (Outcome {
                state: final(self)@,
                result: unit_view(r),
            }),
    {
        let name = item.name.as_str();
        let js = write_enum_js(&item.variants);
        let ts = write_enum_ts(name, &item.variants);
        self.add_typescript(ts.as_str());
        self.export(name, js.as_str(), Some(format_doc_comments(item.comments.as_str(), None)))
    }

    /// Whether enums can be exported: in ES modules each has to get its own name.
    pub fn can_export_enums(&self, items: &Vec<AuxEnum>) -> (r: bool)
        ensures
            r == self@.can_export_enums(items@),
    {
        if !self.options().mode.uses_es_modules() {
            return true;
        }
        let mut j: usize = 0;
        while j < items.len()
            invariant
                self@.config.mode.uses_es_modules(),
                j <= items.len(),
                self@.can_export_enums(items@.take(j as int)),
            decreases items.len() - j,
        {
            let name = items[j].name.as_str();
            if !self.identifier_is_free(name) {
                assert(items@[j as int].name@ == name@);
                return false;
            }
            let mut i: usize = 0;
            while i < j
                invariant
                    self@.config.mode.uses_es_modules(),
                    i <= j < items.len(),
                    name@ == items@[j as int].name@,
                    forall|k: int| 0 <= k < i ==> (#[trigger] items@[k]).name@ != name@,
                decreases j - i,
            {
                if same(items[i].name.as_str(), name) {
                    assert(items@[i as int].name@ == items@[j as int].name@);
                    return false;
                }
                i += 1;
            }
            proof {
                let now = items@.take(j as int);
                let next = items@.take(j as int + 1);
                assert forall|i: int| 0 <= i < next.len() implies identifier(
                    self@.identifiers,
                    (#[trigger] next[i]).name@,
                ) == next[i].name@ by {
                    if i < j {
                        assert(next[i] == now[i]);
                    }
                }
                assert forall|i: int, k: int| 0 <= i < k < next.len() implies (
                #[trigger] next[i]).name@ != (#[trigger] next[k]).name@ by {
                    assert(next[i] == now[i]);
                    if k < j {
                        assert(next[k] == now[k]);
                    }
                }
            }
            j += 1;
        }
        assert(items@.take(items@.len() as int) == items@);
        true
    }

    /// Adds what some enums become.
    fn generate_enums(&mut self, items: &Vec<AuxEnum>) -> (r: Result<(), GlueError>)
        requires
            old(self).wf(),
            old(self)@.can_export_enums(items@),
        ensures
            final(self).wf(),
            old(self)@.generate_enums(items@) == (Outcome {
                state: final(self)@,
                result: unit_view(r),
            }),
            final(self)@.classes == old(self)@.classes,
    {
        let ghost start = self@;
        let ghost all = items@;
        let mut i: usize = 0;
        assert(all.take(0) == Seq::<AuxEnum>::empty());
        while i < items.len()
            invariant
                i <= items.len(),
                all == items@,
                start == old(self)@,
                start.can_export_enums(all),
                self.wf(),
                self@.classes == start.classes,
                start.generate_enums(all.take(i as int)) == done(self@, ()),
            decreases items.len() - i,
        {
            proof {
                lemma_enums_use_names(start, all, i as int);
                assert(all.take(i as int + 1).drop_last() == all.take(i as int));
                assert(all[i as int] == items@[i as int]);
            }
            match self.generate_enum(&items[i]) {
                Ok(()) => {},
                Err(error) => {
                    proof {
                        lemma_enums_stop(start, all, i as int + 1);
                    }
                    return Err(error);
                },
            }
            i += 1;
        }
        assert(all.take(all.len() as int) == all);
        Ok(())
    }

    /// Adds what a struct becomes.
    pub fn generate_struct(&mut self, item: &AuxStruct)
        requires
            old(self).wf(),
            old(self)@.classes is Some,
        ensures
            final(self).wf(),
            final(self)@ == old(self)@.generate_struct(*item),
    {
        let comments = format_doc_comments(item.comments.as_str(), None);
        self.class_mut(item.name.as_str()).comments = comments;
    }

    /// Adds what some structs become.
    fn generate_structs(&mut self, items: &Vec<AuxStruct>)
        requires
            old(self).wf(),
            items@.len() > 0 ==> old(self)@.classes is Some,
        ensures
            final(self).wf(),
            final(self)@ == old(self)@.generate_structs(items@),
    {
        let ghost start = self@;
        let mut i: usize = 0;
        assert(items@.take(0) == Seq::<AuxStruct>::empty());
        while i < items.len()
            invariant
                i <= items.len(),
                self.wf(),
                items@.len() > 0 ==> self@.classes is Some,
                self@ == start.generate_structs(items@.take(i as int)),
            decreases items.len() - i,
        {
            assert(items@.take(i as int + 1).drop_last() == items@.take(i as int));
            self.generate_struct(&items[i]);
            i += 1;
        }
        assert(items@.take(items@.len() as int) == items@);
    }

    /// Adds the dependencies of some `package.json` files.
    fn process_package_jsons(&mut self, files: &Vec<PackageJson>) -> (r: Result<(), GlueError>)
        requires
            old(self).wf(),
        ensures
            final(self).wf(),
            old(self)@.process_package_jsons(files@) == (Outcome {
                state: final(self)@,
                result: unit_view(r),
            }),
    {
        let ghost start = self@;
        let ghost all = files@;
        let mut i: usize = 0;
        assert(all.take(0) == Seq::<PackageJson>::empty());
        while i < files.len()
            invariant
                i <= files.len(),
                all == files@,
                start == old(self)@,
                self.wf(),
                start.process_package_jsons(all.take(i as int)) == done(self@, ()),
            decreases files.len() - i,
        {
            proof {
                assert(all.take(i as int + 1).drop_last() == all.take(i as int));
                assert(all.take(i as int + 1).last() == files@[i as int]);
            }
            match self.process_package_json(&files[i]) {
                Ok(()) => {},
                Err(error) => {
                    proof {
                        lemma_files_stop(start, all, i as int + 1);
                    }
                    return Err(error);
                },
            }
            i += 1;
        }
        assert(all.take(all.len() as int) == all);
        Ok(())
    }

    /// Whether the module has an export with that id.
    pub fn has_export(&self, id: usize) -> (r: bool)
        ensures
            r == self@.module.exports.contains_key(id),
    {
        self.export_name(id).is_some()
    }

    /// The name of the export with that id.
    fn export_name(&self, id: usize) -> (r: Option<String>)
        ensures
            match r {
                Some(name) => self@.module.exports.contains_key(id)
                    && self@.module.exports[id].name == name@,
                None => !self@.module.exports.contains_key(id),
            },
    {
        proof {
            reveal(Context::model);
        }
        let list = exports(self.module);
        let ghost view = self@.module;
        let ghost ids = list@.map_values(|export: (usize, String)| export.0);
        let mut i: usize = 0;
        while i < list.len()
            invariant
                i <= list.len(),
                view == self@.module,
                ids == list@.map_values(|export: (usize, String)| export.0),
                ids.to_set() == view.exports.dom(),
                forall|j: int|
                    0 <= j < list@.len() ==> (#[trigger] list@[j]).1@ == view.exports[list@[j].0].name,
                forall|j: int| 0 <= j < i ==> ids[j] != id,
            decreases list.len() - i,
        {
            if list[i].0 == id {
                proof {
                    assert(ids[i as int] == id);
                    assert(ids.to_set().contains(id));
                    assert(list@[i as int].1@ == view.exports[id].name);
                }
                return Some(list[i].1.clone());
            }
            i += 1;
        }
        assert(!ids.to_set().contains(id));
        None
    }

    /// Whether it can be told what comes next, where so many exports and imports are bound.
    pub fn can_generate(&self, aux: &WasmBindgenAux, bound: usize) -> (r: bool)
        ensures
            r == self@.can_generate(*aux, bound as nat),
    {
        if bound < aux.export_map.len() {
            self.has_export(aux.export_map[bound].id)
        } else if bound - aux.export_map.len() < aux.import_map.len() {
            true
        } else {
            self.can_export_enums(&aux.enums) && (aux.structs.len() == 0 || self.has_classes())
        }
    }

    /// Whether classes can still be added to.
    pub fn has_classes(&self) -> (r: bool)
        ensures
            r == self@.classes is Some,
    {
        proof {
            reveal(Context::model);
        }
        self.exported_classes.is_some()
    }

    /// Tells what comes next, where so many exports and imports are bound. First the exports are
    /// to be translated, then the imports, each in the order in which they are given. When all
    /// are bound, this adds the rest: the enums, the structs, the additional TypeScript and the
    /// NPM dependencies.
    pub fn generate(&mut self, aux: &WasmBindgenAux, bound: usize) -> (r: Result<
        Action,
        GlueError,
    >)
        requires
            old(self).wf(),
            old(self)@.can_generate(*aux, bound as nat),
        ensures
            final(self).wf(),
            old(self)@.generate(*aux, bound as nat) == (Outcome {
                state: final(self)@,
                result: action_view(r),
            }),
            bound < aux.export_map@.len() ==> {
                let export = aux.export_map@[bound as int];
                &&& r matches Ok(Action::Export(request))
                &&& request.invocation@ == "wasm."@ + old(self)@.module.exports[export.id].name
                &&& match request.constructor {
                    Some(class) => export.kind matches AuxExportKind::Constructor(name) && name@
                        == class@,
                    None => !(export.kind is Constructor),
                }
                &&& request.method is Some == (export.kind is Getter || export.kind is Setter
                    || export.kind is Method)
                &&& request.method == Some(true) <==> (export.kind matches AuxExportKind::Method {
                    class,
                    name,
                    consumed,
                } && consumed)
                &&& final(self)@ == old(self)@
            },
            aux.export_map@.len() <= bound < aux.export_map@.len() + aux.import_map@.len() ==> {
                let id = aux.import_map@[bound - aux.export_map@.len()].id;
                &&& r matches Ok(Action::Import(request))
                &&& request.catch == exists|i: int|
                    0 <= i < aux.imports_with_catch@.len() && #[trigger] aux.imports_with_catch@[i]
                        == id
                &&& request.variadic == exists|i: int|
                    0 <= i < aux.imports_with_variadic@.len()
                        && #[trigger] aux.imports_with_variadic@[i] == id
                &&& request.catch_and_rethrow == old(self)@.config.debug
                &&& final(self)@ == old(self)@
            },
            bound >= aux.export_map@.len() + aux.import_map@.len() ==> r is Err || r
                == Ok::<Action, GlueError>(Action::Done),
    {
        let exports = aux.export_map.len();
        if bound < exports {
            let export = &aux.export_map[bound];
            let wasm_name = match self.export_name(export.id) {
                Some(name) => name,
                None => vstd::pervasive::unreached(),
            };
            return Ok(Action::Export(write_request(&export.kind, wasm_name.as_str())));
        }
        if bound - exports < aux.import_map.len() {
            let id = aux.import_map[bound - exports].id;
            return Ok(
                Action::Import(
                    ImportRequest {
                        variadic: holds_id(&aux.imports_with_variadic, id),
                        catch: holds_id(&aux.imports_with_catch, id),
                        catch_and_rethrow: self.options().debug,
                    },
                ),
            );
        }
        match self.generate_enums(&aux.enums) {
            Ok(()) => {},
            Err(error) => return Err(error),
        }
        self.generate_structs(&aux.structs);
        self.add_typescript(aux.extra_typescript.as_str());
        match self.process_package_jsons(&aux.package_jsons) {
            Ok(()) => Ok(Action::Done),
            Err(error) => Err(error),
        }
    }
}

/// A definition takes the place of the first one for the same import, and the last place where
/// there is none.
proof fn lemma_definition(
    definitions: Seq<(usize, Seq<char>)>,
    id: usize,
    js: Seq<char>,
    at: int,
)
    requires
        0 <= at <= definitions.len(),
        at < definitions.len() ==> definitions[at].0 == id,
        forall|j: int| 0 <= j < at ==> (#[trigger] definitions[j]).0 != id,
    ensures
        with_definition(definitions, id, js) == (if at < definitions.len() {
            definitions.update(at, (id, js))
        } else {
            definitions.push((id, js))
        }),
    decreases at,
{
    if at > 0 {
        let rest = definitions.skip(1);
        assert(definitions[0].0 != id);
        assert forall|j: int| 0 <= j < at - 1 implies (#[trigger] rest[j]).0 != id by {
            assert(definitions[j + 1].0 != id);
        }
        lemma_definition(rest, id, js, at - 1);
        if at < definitions.len() {
            assert(seq![definitions[0]] + rest.update(at - 1, (id, js)) =~= definitions.update(
                at,
                (id, js),
            ));
        } else {
            assert(seq![definitions[0]] + rest.push((id, js)) =~= definitions.push((id, js)));
        }
    } else if definitions.len() == 0 {
        assert(definitions.push((id, js)) =~= seq![(id, js)]);
    }
}

/// Enums use their own names only, so the next one can be exported where all can be.
proof fn lemma_enums_use_names(state: GlueView, items: Seq<AuxEnum>, n: int)
    requires
        0 <= n < items.len(),
        state.can_export_enums(items),
        state.generate_enums(items.take(n)).result is Ok,
    ensures
        state.generate_enums(items.take(n)).state.can_export(
            items[n].name@,
            enum_js(items[n].variants@),
        ),
{
    lemma_enum_counts(state, items, n, items[n].name@);
}

/// Enums with other names leave an identifier free.
proof fn lemma_enum_counts(state: GlueView, items: Seq<AuxEnum>, n: int, name: Seq<char>)
    requires
        0 <= n <= items.len(),
        state.generate_enums(items.take(n)).result is Ok,
    ensures
        state.generate_enums(items.take(n)).state.config == state.config,
        (forall|i: int| 0 <= i < n ==> (#[trigger] items[i]).name@ != name)
            ==> state.generate_enums(items.take(n)).state.identifiers.count(name)
            == state.identifiers.count(name),
    decreases n,
{
    if n > 0 {
        assert(items.take(n).drop_last() == items.take(n - 1));
        lemma_enum_counts(state, items, n - 1, name);
    }
}

/// The enums behind one that cannot be exported are not.
proof fn lemma_enums_stop(state: GlueView, items: Seq<AuxEnum>, n: int)
    requires
        0 <= n <= items.len(),
        state.generate_enums(items.take(n)).result is Err,
    ensures
        state.generate_enums(items) == state.generate_enums(items.take(n)),
    decreases items.len() - n,
{
    if n == items.len() {
        assert(items.take(n) == items);
    } else {
        assert(items.take(n + 1).drop_last() == items.take(n));
        lemma_enums_stop(state, items, n + 1);
    }
}

/// The files behind one that cannot be used are not.
proof fn lemma_files_stop(state: GlueView, files: Seq<PackageJson>, n: int)
    requires
        0 <= n <= files.len(),
        state.process_package_jsons(files.take(n)).result is Err,
    ensures
        state.process_package_jsons(files) == state.process_package_jsons(files.take(n)),
    decreases files.len() - n,
{
    if n == files.len() {
        assert(files.take(n) == files);
    } else {
        assert(files.take(n + 1).drop_last() == files.take(n));
        lemma_files_stop(state, files, n + 1);
    }
}

} // verus!
