//! What holds over a whole run: the helpers that are exposed are those that were asked for.
use crate::bindings::{
    AuxEnum, AuxExport, AuxImport, AuxStruct, ImportNameView, PackageJson, WasmBindgenAux,
};
use crate::class::ClassView;
use crate::config::Bindgen;
use crate::context::GlueView;
use crate::error::GlueErrorView;
use crate::finalize::lemma_classes_frame;
use crate::generate::ExportGlueView;
use crate::helper_laws::lemma_step_exposes_none;
use crate::helpers::{lemma_expose, lemma_perform, top_layer, Helper, Step};
use crate::laws::lemma_hooked;
use crate::module::ModuleView;
use crate::package_json::{parsed_manifest, DependencyView, EntryView};
use vstd::prelude::*;

verus! {

/// A call of an operation, up to the end of the run.
pub enum Call {
    ShouldWrite { name: Seq<char> },
    Expose { helper: Helper },
    Run { steps: Seq<Step> },
    Global { text: Seq<char> },
    Require { name: Seq<char> },
    Import { source: ImportNameView, fields: Seq<Seq<char>> },
    Export { name: Seq<char>, contents: Seq<char>, comments: Option<Seq<char>> },
    RequireClassWrap { name: Seq<char> },
    GenerateExport { export: AuxExport, glue: ExportGlueView },
    AnswerExport { export: AuxExport, translated: Result<ExportGlueView, GlueErrorView> },
    GenerateImport { id: usize, js: Seq<char> },
    AnswerImport { import: AuxImport, provided: Result<Seq<char>, GlueErrorView> },
    Enumeration { item: AuxEnum },
    Structure { structure: AuxStruct },
    AddManifest { path: Seq<char>, manifest: Option<Seq<EntryView>> },
    Manifest { path: Seq<char>, read: Result<Seq<char>, Seq<char>> },
    Generate { aux: WasmBindgenAux, bound: nat },
    WriteClass { name: Seq<char>, class: ClassView },
    WriteClasses,
    Unexport,
    Unstart,
    GenInit { start: bool },
    FinalizeJs { module_name: Seq<char>, start: bool },
}

impl Call {
    /// Whether a call exposes helpers.
    pub open spec fn exposes(self) -> bool {
        ||| self is ShouldWrite
        ||| self is Expose
        ||| self is Run
    }

    /// Whether a call adds to the texts and the names of the glue alone.
    pub open spec fn writes(self) -> bool {
        ||| self is Global
        ||| self is Require
        ||| self is Import
        ||| self is Export
        ||| self is GenerateImport
        ||| self is AnswerImport
        ||| self is Enumeration
        ||| self is WriteClass
    }

    /// Whether a call adds dependencies.
    pub open spec fn installs(self) -> bool {
        ||| self is AddManifest
        ||| self is Manifest
    }

    /// Whether a call is about the module and what loads it.
    pub open spec fn ends(self) -> bool {
        ||| self is Unexport
        ||| self is Unstart
        ||| self is GenInit
        ||| self is FinalizeJs
    }

    /// Whether a call adds an export.
    pub open spec fn binds(self) -> bool {
        ||| self is GenerateExport
        ||| self is AnswerExport
    }
}

impl GlueView {
    /// The names that are asked for where a helper is exposed.
    #[verifier::opaque]
    pub open spec fn asked(self, helper: Helper) -> Set<Seq<char>>
        decreases helper.layer(), self.steps(helper).len() + 1,
    {
        if self.is_exposed(helper.key()) {
            set![helper.key()]
        } else {
            self.mark(helper.key()).asked_by(helper.layer(), self.steps(helper)).insert(
                helper.key(),
            )
        }
    }

    /// The names that are asked for where steps are performed.
    #[verifier::opaque]
    pub open spec fn asked_by(self, layer: nat, steps: Seq<Step>) -> Set<Seq<char>>
        decreases layer, steps.len(),
    {
        if steps.len() == 0 {
            Set::empty()
        } else {
            let before = self.perform(layer, steps.drop_last());
            let names = self.asked_by(layer, steps.drop_last());
            match steps.last() {
                Step::Expose(helper) => if before.result is Ok && helper.layer() < layer {
                    names.union(before.state.asked(helper))
                } else {
                    names
                },
                _ => names,
            }
        }
    }

    /// The state after a call that exposes helpers.
    #[verifier::opaque]
    pub open spec fn after_helpers(self, call: Call) -> GlueView {
        match call {
            Call::ShouldWrite { name } => if self.is_exposed(name) {
                self
            } else {
                self.mark(name)
            },
            Call::Expose { helper } => self.expose(helper).state,
            Call::Run { steps } => self.run(steps).state,
            _ => self,
        }
    }

    /// The state after a call that adds to the texts and the names of the glue alone.
    #[verifier::opaque]
    pub open spec fn after_texts(self, call: Call) -> GlueView {
        match call {
            Call::Global { text } => self.emit(text),
            Call::Require { name } => self.require_internal_export(name).state,
            Call::Import { source, fields } => self.import_name(source, fields).state,
            Call::Export { name, contents, comments } => self.export(
                name,
                contents,
                comments,
            ).state,
            Call::GenerateImport { id, js } => self.generate_import(id, js),
            Call::AnswerImport { import, provided } => self.answer_import(import, provided).state,
            Call::Enumeration { item } => self.generate_enum(item).state,
            Call::WriteClass { name, class } => self.write_class(name, class).state,
            _ => self,
        }
    }

    /// The state after a call that adds dependencies.
    #[verifier::opaque]
    pub open spec fn after_packages(self, call: Call) -> GlueView {
        match call {
            Call::AddManifest { path, manifest } => self.add_manifest(path, manifest).state,
            Call::Manifest { path, read } => self.process_package_json(path, read).state,
            _ => self,
        }
    }

    /// The state after a call that is about the module and what loads it.
    #[verifier::opaque]
    pub open spec fn after_end(self, call: Call) -> GlueView {
        match call {
            Call::Unexport => self.unexport_unused(),
            Call::Unstart => self.unstart(),
            Call::GenInit { start } => self.gen_init(start).state,
            Call::FinalizeJs { module_name, start } => self.finalize_js(module_name, start).state,
            _ => self,
        }
    }

    /// The state after a call that changes classes.
    #[verifier::opaque]
    pub open spec fn after_classes(self, call: Call) -> GlueView {
        match call {
            Call::RequireClassWrap { name } => self.require_class_wrap(name),
            Call::Structure { structure } => self.generate_struct(structure),
            Call::WriteClasses => self.write_classes().state,
            _ => self,
        }
    }

    /// The state after a call that adds an export.
    #[verifier::opaque]
    pub open spec fn after_exports(self, call: Call) -> GlueView {
        match call {
            Call::GenerateExport { export, glue } => self.generate_export(export, glue).state,
            Call::AnswerExport { export, translated } => self.answer_export(
                export,
                translated,
            ).state,
            _ => self,
        }
    }

    /// The state after a call that tells what comes next.
    #[verifier::opaque]
    pub open spec fn after_generate(self, aux: WasmBindgenAux, bound: nat) -> GlueView {
        self.generate(aux, bound).state
    }

    /// The state after a call.
    pub open spec fn after(self, call: Call) -> GlueView {
        if call.exposes() {
            self.after_helpers(call)
        } else if call.writes() {
            self.after_texts(call)
        } else if call.installs() {
            self.after_packages(call)
        } else if call.ends() {
            self.after_end(call)
        } else if call.binds() {
            self.after_exports(call)
        } else if let Call::Generate { aux, bound } = call {
            self.after_generate(aux, bound)
        } else {
            self.after_classes(call)
        }
    }

    /// The names that are asked for in a call.
    #[verifier::opaque]
    pub open spec fn asked_in(self, call: Call) -> Set<Seq<char>> {
        match call {
            Call::ShouldWrite { name } => set![name],
            Call::Expose { helper } => self.asked(helper),
            Call::Run { steps } => self.asked_by(top_layer(), steps),
            _ => Set::empty(),
        }
    }

    /// The state after some calls.
    pub open spec fn after_all(self, calls: Seq<Call>) -> GlueView
        decreases calls.len(),
    {
        if calls.len() == 0 {
            self
        } else {
            self.after_all(calls.drop_last()).after(calls.last())
        }
    }

    /// The names that are asked for in some calls.
    pub open spec fn asked_in_all(self, calls: Seq<Call>) -> Set<Seq<char>>
        decreases calls.len(),
    {
        if calls.len() == 0 {
            Set::empty()
        } else {
            self.asked_in_all(calls.drop_last()).union(
                self.after_all(calls.drop_last()).asked_in(calls.last()),
            )
        }
    }
}

/// Exposing a helper exposes what it asks for.
proof fn lemma_asked(state: GlueView, helper: Helper)
    requires
        state.open(),
    ensures
        state.expose(helper).state.open(),
        state.expose(helper).state.exposed->0 == state.exposed->0.union(state.asked(helper)),
    decreases helper.layer(), state.steps(helper).len() + 1,
{
    lemma_expose(state, helper);
    reveal_with_fuel(GlueView::asked, 2);
    reveal_with_fuel(GlueView::asked_by, 2);
    let key = helper.key();
    if state.is_exposed(key) {
        assert(state.exposed->0.union(set![key]) =~= state.exposed->0);
    } else {
        let marked = state.mark(key);
        lemma_asked_by(marked, helper.layer(), state.steps(helper));
        let names = marked.asked_by(helper.layer(), state.steps(helper));
        assert(state.exposed->0.insert(key).union(names) =~= state.exposed->0.union(
            names.insert(key),
        ));
    }
}

/// Performing steps exposes what they ask for.
proof fn lemma_asked_by(state: GlueView, layer: nat, steps: Seq<Step>)
    requires
        state.open(),
    ensures
        state.perform(layer, steps).state.open(),
        state.perform(layer, steps).state.exposed->0 == state.exposed->0.union(
            state.asked_by(layer, steps),
        ),
    decreases layer, steps.len(),
{
    lemma_perform(state, layer, steps);
    reveal_with_fuel(GlueView::asked, 2);
    reveal_with_fuel(GlueView::asked_by, 2);
    if steps.len() == 0 {
        assert(state.exposed->0.union(Set::empty()) =~= state.exposed->0);
    } else {
        let rest = steps.drop_last();
        let last = steps.last();
        let before = state.perform(layer, rest);
        lemma_asked_by(state, layer, rest);
        if before.result is Ok {
            if let Step::Expose(helper) = last {
                if helper.layer() < layer {
                    lemma_asked(before.state, helper);
                    assert(state.exposed->0.union(state.asked_by(layer, rest)).union(
                        before.state.asked(helper),
                    ) =~= state.exposed->0.union(
                        state.asked_by(layer, rest).union(before.state.asked(helper)),
                    ));
                }
            } else {
                lemma_step_exposes_none(before.state, layer, last);
            }
        }
    }
}

/// Enums leave the helpers, the classes and the imports alone.
pub proof fn lemma_enums_leave(state: GlueView, items: Seq<AuxEnum>)
    ensures
        state.generate_enums(items).state.exposed == state.exposed,
        state.generate_enums(items).state.classes == state.classes,
        state.generate_enums(items).state.imported == state.imported,
    decreases items.len(),
{
    if items.len() > 0 {
        lemma_enums_leave(state, items.drop_last());
    }
}

/// Structs expose nothing and import nothing from JavaScript.
proof fn lemma_structs_expose_none(state: GlueView, items: Seq<AuxStruct>)
    ensures
        state.generate_structs(items).exposed == state.exposed,
        state.generate_structs(items).imported == state.imported,
    decreases items.len(),
{
    if items.len() > 0 {
        lemma_structs_expose_none(state, items.drop_last());
    }
}

/// A manifest leaves the helpers, the classes and the imports alone.
proof fn lemma_manifest_leaves(
    state: GlueView,
    path: Seq<char>,
    manifest: Option<Seq<EntryView>>,
)
    ensures
        state.add_manifest(path, manifest).state.exposed == state.exposed,
        state.add_manifest(path, manifest).state.classes == state.classes,
        state.add_manifest(path, manifest).state.imported == state.imported,
{
    if let Some(entries) = manifest {
        if let Some(list) = entries[0].1 {
            lemma_dependencies_leave(state, path, list);
        }
    }
}

/// A `package.json` leaves the helpers, the classes and the imports alone.
proof fn lemma_file_leaves(
    state: GlueView,
    path: Seq<char>,
    contents: Result<Seq<char>, Seq<char>>,
)
    ensures
        state.process_package_json(path, contents).state.exposed == state.exposed,
        state.process_package_json(path, contents).state.classes == state.classes,
        state.process_package_json(path, contents).state.imported == state.imported,
{
    if let Ok(text) = contents {
        if let Ok(manifest) = parsed_manifest(text) {
            lemma_manifest_leaves(state, path, manifest);
        }
    }
}

/// Dependencies leave the helpers, the classes and the imports alone.
proof fn lemma_dependencies_leave(
    state: GlueView,
    path: Seq<char>,
    list: Seq<DependencyView>,
)
    ensures
        state.add_dependencies(path, list).state.exposed == state.exposed,
        state.add_dependencies(path, list).state.classes == state.classes,
        state.add_dependencies(path, list).state.imported == state.imported,
    decreases list.len(),
{
    if list.len() > 0 {
        lemma_dependencies_leave(state, path, list.drop_last());
    }
}

/// `package.json` files leave the helpers, the classes and the imports alone.
pub proof fn lemma_files_leave(state: GlueView, files: Seq<PackageJson>)
    ensures
        state.process_package_jsons(files).state.exposed == state.exposed,
        state.process_package_jsons(files).state.classes == state.classes,
        state.process_package_jsons(files).state.imported == state.imported,
    decreases files.len(),
{
    if files.len() > 0 {
        let before = state.process_package_jsons(files.drop_last());
        lemma_files_leave(state, files.drop_last());
        lemma_file_leaves(before.state, files.last().path@, files.last().text());
    }
}

/// Telling what comes next exposes nothing and imports nothing from JavaScript.
proof fn lemma_generate_exposes_none(state: GlueView, aux: WasmBindgenAux, bound: nat)
    ensures
        state.generate(aux, bound).state.exposed == state.exposed,
        state.generate(aux, bound).state.imported == state.imported,
{
    let enums = state.generate_enums(aux.enums@);
    lemma_enums_leave(state, aux.enums@);
    let structs = enums.state.generate_structs(aux.structs@);
    lemma_structs_expose_none(enums.state, aux.structs@);
    lemma_files_leave(
        GlueView { typescript: structs.typescript + aux.extra_typescript@, ..structs },
        aux.package_jsons@,
    );
}

/// The function that loads the module leaves the helpers, the classes and the imports alone.
proof fn lemma_init_leaves(state: GlueView, start: bool)
    ensures
        state.gen_init(start).state.exposed == state.exposed,
        state.gen_init(start).state.classes == state.classes,
        state.gen_init(start).state.imported == state.imported,
{
    lemma_hooked(state.hook_up_memory().state, "wbg"@, "imports.wbg."@, state.wasm_imports);
}

/// Putting the glue together leaves the helpers, the classes and the imports alone.
proof fn lemma_finalize_leaves(state: GlueView, module_name: Seq<char>, start: bool)
    ensures
        state.finalize_js(module_name, start).state.exposed == state.exposed,
        state.finalize_js(module_name, start).state.classes == state.classes,
        state.finalize_js(module_name, start).state.imported == state.imported,
{
    let path = "./"@ + module_name + ".js"@;
    let web = GlueView { imports_post: state.imports_post + "let wasm;\n"@, ..state };
    lemma_hooked(state, path, "\nmodule.exports."@, state.wasm_imports);
    lemma_hooked(state, path, "\nexport const "@, state.wasm_imports);
    lemma_init_leaves(state, start);
    lemma_init_leaves(web, start);
}

/// A call that adds to the texts leaves the helpers, the classes and the imports alone.
pub proof fn lemma_writing_leaves(state: GlueView, call: Call)
    requires
        call.writes(),
    ensures
        state.after(call).exposed == state.exposed,
        state.after(call).classes == state.classes,
        !(call is Import) ==> state.after(call).imported == state.imported,
{
    reveal(GlueView::after_texts);
}

/// A call that adds dependencies leaves the helpers, the classes and the imports alone.
pub proof fn lemma_installing_leaves(state: GlueView, call: Call)
    requires
        call.installs(),
    ensures
        state.after(call).exposed == state.exposed,
        state.after(call).classes == state.classes,
        state.after(call).imported == state.imported,
{
    reveal(GlueView::after_packages);
    match call {
        Call::AddManifest { path, manifest } => lemma_manifest_leaves(state, path, manifest),
        Call::Manifest { path, read } => lemma_file_leaves(state, path, read),
        _ => {},
    }
}

/// A call that is about the module leaves the helpers, the classes and the imports alone.
pub proof fn lemma_ending_leaves(state: GlueView, call: Call)
    requires
        call.ends(),
    ensures
        state.after(call).exposed == state.exposed,
        state.after(call).classes == state.classes,
        state.after(call).imported == state.imported,
{
    reveal(GlueView::after_end);
    match call {
        Call::GenInit { start } => lemma_init_leaves(state, start),
        Call::FinalizeJs { module_name, start } => lemma_finalize_leaves(state, module_name, start),
        _ => {},
    }
}

/// A call that adds an export exposes nothing and imports nothing from JavaScript.
proof fn lemma_binding_exposes_none(state: GlueView, call: Call)
    requires
        call.binds(),
    ensures
        state.after(call).exposed == state.exposed,
        state.after(call).imported == state.imported,
{
    reveal(GlueView::after_exports);
}

/// A call that changes classes exposes nothing and imports nothing from JavaScript.
proof fn lemma_classes_expose_none(state: GlueView, call: Call)
    requires
        call is RequireClassWrap || call is Structure || call is WriteClasses,
    ensures
        state.after(call).exposed == state.exposed,
        state.after(call).imported == state.imported,
{
    reveal(GlueView::after_classes);
    if call is WriteClasses {
        lemma_classes_frame(state);
    }
}

/// A call that exposes helpers exposes what it asks for.
proof fn lemma_exposing(state: GlueView, call: Call)
    requires
        state.open(),
        call.exposes(),
    ensures
        state.after(call).open(),
        state.after(call).exposed->0 == state.exposed->0.union(state.asked_in(call)),
{
    reveal(GlueView::asked_in);
    reveal(GlueView::after_helpers);
    match call {
        Call::ShouldWrite { name } => {
            if state.is_exposed(name) {
                assert(state.exposed->0.union(set![name]) =~= state.exposed->0);
            } else {
                assert(state.exposed->0.union(set![name]) =~= state.exposed->0.insert(name));
            }
        },
        Call::Expose { helper } => lemma_asked(state, helper),
        Call::Run { steps } => lemma_asked_by(state, top_layer(), steps),
        _ => {},
    }
}

/// A call exposes what it asks for.
pub proof fn law_call_exposes(state: GlueView, call: Call)
    requires
        state.open(),
    ensures
        state.after(call).open(),
        state.after(call).exposed->0 == state.exposed->0.union(state.asked_in(call)),
{
    if call.exposes() {
        lemma_exposing(state, call);
    } else {
        reveal(GlueView::asked_in);
        assert(state.exposed->0.union(Set::empty()) =~= state.exposed->0);
        if call.writes() {
            lemma_writing_leaves(state, call);
        } else if call.installs() {
            lemma_installing_leaves(state, call);
        } else if call.ends() {
            lemma_ending_leaves(state, call);
        } else if call.binds() {
            lemma_binding_exposes_none(state, call);
        } else if let Call::Generate { aux, bound } = call {
            reveal(GlueView::after_generate);
            lemma_generate_exposes_none(state, aux, bound);
        } else {
            lemma_classes_expose_none(state, call);
        }
    }
}

/// A call that exposes no helpers imports nothing from JavaScript, unless it is made for that.
pub proof fn lemma_imports_stay(state: GlueView, call: Call)
    requires
        !call.exposes(),
        !(call is Import),
    ensures
        state.after(call).imported == state.imported,
{
    if call.writes() {
        lemma_writing_leaves(state, call);
    } else if call.installs() {
        lemma_installing_leaves(state, call);
    } else if call.ends() {
        lemma_ending_leaves(state, call);
    } else if call.binds() {
        lemma_binding_exposes_none(state, call);
    } else if let Call::Generate { aux, bound } = call {
        reveal(GlueView::after_generate);
        lemma_generate_exposes_none(state, aux, bound);
    } else {
        lemma_classes_expose_none(state, call);
    }
}

/// Calls expose what they ask for.
pub proof fn law_calls_expose(state: GlueView, calls: Seq<Call>)
    requires
        state.open(),
    ensures
        state.after_all(calls).open(),
        state.after_all(calls).exposed->0 == state.exposed->0.union(state.asked_in_all(calls)),
    decreases calls.len(),
{
    if calls.len() == 0 {
        assert(state.exposed->0.union(Set::empty()) =~= state.exposed->0);
    } else {
        let rest = calls.drop_last();
        law_calls_expose(state, rest);
        let before = state.after_all(rest);
        law_call_exposes(before, calls.last());
        assert(state.exposed->0.union(state.asked_in_all(rest)).union(
            before.asked_in(calls.last()),
        ) =~= state.exposed->0.union(state.asked_in_all(calls)));
    }
}

/// Over a run, up to its end, exactly the names that were asked for are exposed. So a helper is
/// still to be written where nothing asked for it before.
pub proof fn law_exposed_is_asked_for(
    config: Bindgen,
    module: ModuleView,
    memory: usize,
    calls: Seq<Call>,
    name: Seq<char>,
)
    ensures
        ({
            let start = GlueView::start(config, module, memory);
            &&& start.after_all(calls).open()
            &&& start.after_all(calls).is_exposed(name) <==> start.asked_in_all(calls).contains(
                name,
            )
        }),
{
    law_calls_expose(GlueView::start(config, module, memory), calls);
}

} // verus!
