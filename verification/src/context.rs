//! The state of a run, and what all parts of the generator do to it.
use crate::bindings::{ImportNameView, JsImportName};
use crate::class::{class_views, classes_wf, require_class, ClassView, ExportedClass};
use crate::config::Bindgen;
use crate::error::{GlueError, GlueErrorView};
use crate::module::{
    add_memory, export_table, exports, memory, memory_ids, module_view, ExportItem, Limits, Memory,
    ModuleView,
};
use crate::names::{generate_identifier, identifier, NameMap, NameSet, UsedNames};
use crate::text::{has_suffix, same, trim, trimmed};
use vstd::multiset::Multiset;
use vstd::prelude::*;

verus! {

/// One imported item: its name in its module, and the local name where that is another.
pub type ImportedItem = (Seq<char>, Option<Seq<char>>);

/// The model of a [`Context`].
pub struct GlueView {
    /// The JavaScript behind the imports.
    pub globals: Seq<char>,
    /// The JavaScript right behind the imports.
    pub imports_post: Seq<char>,
    /// The TypeScript.
    pub typescript: Seq<char>,
    /// The helpers that are in `globals`; none once the glue is complete.
    pub exposed: Option<Set<Seq<char>>>,
    /// The internal exports of the module that the glue uses.
    pub required: Set<Seq<char>>,
    pub config: Bindgen,
    pub module: ModuleView,
    /// From a JavaScript module to what is imported from it.
    pub js_imports: Map<Seq<char>, Seq<ImportedItem>>,
    /// From an import of the WebAssembly module to the JavaScript that provides it.
    pub wasm_imports: Seq<(usize, Seq<char>)>,
    /// From an imported JavaScript item to its local name.
    pub imported: Map<ImportNameView, Seq<char>>,
    /// How often an identifier was asked for under each name.
    pub identifiers: Multiset<Seq<char>>,
    /// The exported classes; none once they have been written.
    pub classes: Option<Map<Seq<char>, ClassView>>,
    /// The memory that values are passed through.
    pub memory: usize,
    /// From an NPM package to the file that asks for it and the version that it asks for.
    pub dependencies: Map<Seq<char>, (Seq<char>, Seq<char>)>,
}

/// What an operation leads to: the state after it, and its result.
pub struct Outcome<T> {
    pub state: GlueView,
    pub result: Result<T, GlueErrorView>,
}

/// The operation succeeds.
pub open spec fn done<T>(state: GlueView, value: T) -> Outcome<T> {
    Outcome { state, result: Ok(value) }
}

/// The operation fails.
pub open spec fn failed<T>(state: GlueView, error: GlueErrorView) -> Outcome<T> {
    Outcome { state, result: Err(error) }
}

/// The model of a result without a value.
pub open spec fn unit_view(result: Result<(), GlueError>) -> Result<(), GlueErrorView> {
    match result {
        Ok(_) => Ok(()),
        Err(error) => Err(error@),
    }
}

/// The model of a result that is a text.
pub open spec fn text_view(result: Result<String, GlueError>) -> Result<Seq<char>, GlueErrorView> {
    match result {
        Ok(text) => Ok(text@),
        Err(error) => Err(error@),
    }
}

/// So many line feeds.
pub open spec fn feeds(n: nat) -> Seq<char> {
    Seq::new(n, |i: int| '\n')
}

/// How many line feeds separate the next item from the text before it: the fewest after which
/// the text ends with two blank lines or with a comment of its own line.
pub open spec fn gap(text: Seq<char>) -> nat {
    if "\n\n\n"@.is_suffix_of(text) || "*/\n"@.is_suffix_of(text) {
        0
    } else if "\n\n"@.is_suffix_of(text) || "*/"@.is_suffix_of(text) {
        1
    } else if "\n"@.is_suffix_of(text) {
        2
    } else {
        3
    }
}

/// `text` with one more item behind it.
#[verifier::opaque]
pub open spec fn with_item(text: Seq<char>, item: Seq<char>) -> Seq<char> {
    text + feeds(gap(text)) + trimmed(item) + "\n"@
}

impl GlueView {
    /// The state of a new run.
    pub open spec fn start(config: Bindgen, module: ModuleView, memory: usize) -> GlueView {
        GlueView {
            globals: Seq::empty(),
            imports_post: Seq::empty(),
            typescript: "/* tslint:disable */\n"@,
            exposed: Some(Set::empty()),
            required: Set::empty(),
            config,
            module,
            js_imports: Map::empty(),
            wasm_imports: Seq::empty(),
            imported: Map::empty(),
            identifiers: Multiset::empty(),
            classes: Some(Map::empty()),
            memory,
            dependencies: Map::empty(),
        }
    }

    /// Whether helpers can be exposed.
    pub open spec fn open(self) -> bool {
        self.exposed is Some
    }

    /// Whether a helper is exposed.
    pub open spec fn is_exposed(self, key: Seq<char>) -> bool {
        self.exposed is Some && self.exposed->0.contains(key)
    }

    /// A helper counts as exposed.
    pub open spec fn mark(self, key: Seq<char>) -> GlueView {
        GlueView { exposed: Some(self.exposed->0.insert(key)), ..self }
    }

    /// An item is added to the JavaScript.
    pub open spec fn emit(self, item: Seq<char>) -> GlueView {
        GlueView { globals: with_item(self.globals, item), ..self }
    }

    /// The glue uses an internal export of the module, which has to be there.
    ///
    /// An export that is missing is reported once.
    pub open spec fn require_internal_export(self, name: Seq<char>) -> Outcome<()> {
        let state = GlueView { required: self.required.insert(name), ..self };
        if self.required.contains(name) || self.module.exports_name(name) {
            done(state, ())
        } else {
            failed(state, GlueErrorView::MissingInternalExport(name))
        }
    }

    /// The memory that values are passed through.
    pub open spec fn memory_entry(self) -> Memory {
        self.module.memories[self.memory]
    }

    /// What that memory is called in the glue.
    pub open spec fn memory_name(self) -> Seq<char> {
        if self.memory_entry().import is Some {
            "memory"@
        } else {
            "wasm.memory"@
        }
    }
}

/// The local names of imported items, the last one for an item counts.
pub open spec fn imported_map(list: Seq<(JsImportName, String)>) -> Map<ImportNameView, Seq<char>>
    decreases list.len(),
{
    if list.len() == 0 {
        Map::empty()
    } else {
        imported_map(list.drop_last()).insert(list.last().0@, list.last().1@)
    }
}

/// The model of an imported item.
pub open spec fn item_view(item: (String, Option<String>)) -> ImportedItem {
    (
        item.0@,
        match item.1 {
            Some(rename) => Some(rename@),
            None => None,
        },
    )
}

/// The model of what is imported from one module.
pub open spec fn items_view(items: Vec<(String, Option<String>)>) -> Seq<ImportedItem> {
    items@.map_values(|item: (String, Option<String>)| item_view(item))
}

/// The JavaScript that provides imports.
pub open spec fn definitions_view(list: Seq<(usize, String)>) -> Seq<(usize, Seq<char>)> {
    list.map_values(|definition: (usize, String)| (definition.0, definition.1@))
}

/// The state of a run.
pub struct Context<'a> {
    /// The JavaScript behind the imports.
    pub(crate) globals: String,
    /// The JavaScript right behind the imports.
    pub(crate) imports_post: String,
    /// The TypeScript.
    pub(crate) typescript: String,
    /// The helpers that are in `globals`; none once the glue is complete.
    pub(crate) exposed_globals: Option<NameSet>,
    /// The internal exports of the module that the glue uses.
    pub(crate) required_internal_exports: NameSet,
    /// The options.
    pub(crate) config: &'a Bindgen,
    /// The WebAssembly module.
    pub module: &'a mut walrus::Module,
    /// From a JavaScript module to what is imported from it: the names, each with the local name
    /// where that is another.
    pub(crate) js_imports: NameMap<Vec<(String, Option<String>)>>,
    /// From an import of the module to the JavaScript that provides it.
    pub(crate) wasm_import_definitions: Vec<(usize, String)>,
    /// From an imported JavaScript item to its local name.
    pub(crate) imported_names: Vec<(JsImportName, String)>,
    /// How often an identifier was asked for under each name.
    pub(crate) defined_identifiers: UsedNames,
    /// The exported classes; none once they have been written.
    pub(crate) exported_classes: Option<NameMap<ExportedClass>>,
    /// The memory that values are passed through.
    pub(crate) memory: usize,
    /// From an NPM package to the file that asks for it and the version that it asks for.
    pub npm_dependencies: NameMap<(String, String)>,
}

impl<'a> View for Context<'a> {
    type V = GlueView;

    open(crate) spec fn view(&self) -> GlueView {
        self.model()
    }
}

impl<'a> Context<'a> {
    /// The model.
    #[verifier::opaque]
    pub open(crate) spec fn model(&self) -> GlueView {
        GlueView {
            globals: self.globals@,
            imports_post: self.imports_post@,
            typescript: self.typescript@,
            exposed: match self.exposed_globals {
                Some(exposed) => Some(exposed@),
                None => None,
            },
            required: self.required_internal_exports@,
            config: *self.config,
            module: module_view(*self.module),
            js_imports: self.js_imports@.map_values(
                |items: Vec<(String, Option<String>)>| items_view(items),
            ),
            wasm_imports: definitions_view(self.wasm_import_definitions@),
            imported: imported_map(self.imported_names@),
            identifiers: self.defined_identifiers@,
            classes: match self.exported_classes {
                Some(classes) => Some(class_views(classes@)),
                None => None,
            },
            memory: self.memory,
            dependencies: self.npm_dependencies@.map_values(
                |entry: (String, String)| (entry.0@, entry.1@),
            ),
        }
    }

    /// The maps are in order, and the memory is there as long as helpers can be exposed.
    #[verifier::opaque]
    pub open(crate) spec fn wf(&self) -> bool {
        &&& self.js_imports.wf()
        &&& self.npm_dependencies.wf()
        &&& self.exported_classes is Some ==> classes_wf(&self.exported_classes->0)
        &&& self.exposed_globals is Some ==> module_view(*self.module).memories.contains_key(
            self.memory,
        )
    }

    /// There are finitely many imports, classes, fields and dependencies, so each can be listed in
    /// the order of the names.
    pub proof fn law_finite(&self)
        requires
            self.wf(),
        ensures
            self@.js_imports.dom().finite(),
            self@.dependencies.dom().finite(),
            self@.classes is Some ==> self@.classes->0.dom().finite(),
            self@.classes is Some ==> forall|name: Seq<char>| #[trigger]
                self@.classes->0.contains_key(name)
                    ==> self@.classes->0[name].fields.dom().finite(),
    {
        reveal(Context::model);
        self.js_imports.law_finite();
        self.npm_dependencies.law_finite();
        assert(self@.js_imports.dom() =~= self.js_imports@.dom());
        assert(self@.dependencies.dom() =~= self.npm_dependencies@.dom());
        if let Some(classes) = &self.exported_classes {
            classes.law_finite();
            assert(self@.classes->0.dom() =~= classes@.dom());
            assert forall|name: Seq<char>| #[trigger]
                self@.classes->0.contains_key(name) implies self@.classes->0[name].fields.dom().finite() by {
                classes@[name].law_finite();
            }
        }
    }

    /// Starts a run for a module.
    ///
    /// The values go through the memory of the module. Where it has none, it gets one, which is
    /// removed in the end if nothing uses it.
    pub fn new(module: &'a mut walrus::Module, config: &'a Bindgen) -> (r: Result<
        Context<'a>,
        GlueError,
    >)
        ensures
            match r {
                Ok(context) => {
                    let before = module_view(*old(module));
                    let after = context@.module;
                    &&& context.wf()
                    &&& context@ == GlueView::start(*config, after, context@.memory)
                    &&& if before.memories.dom().is_empty() {
                        &&& after == ModuleView {
                            memories: before.memories.insert(
                                context@.memory,
                                Memory {
                                    import: None,
                                    limits: Limits { initial: 1, maximum: None, shared: false },
                                },
                            ),
                            ..before
                        }
                        &&& !before.names(ExportItem::Memory(context@.memory))
                    } else {
                        &&& after == before
                        &&& before.memories.dom() == set![context@.memory]
                    }
                },
                Err(error) => {
                    &&& error@ == GlueErrorView::MultipleMemories
                    &&& *final(module) == *old(module)
                    &&& exists|a: usize, b: usize|
                        a != b && #[trigger] module_view(*old(module)).memories.contains_key(a)
                            && #[trigger] module_view(*old(module)).memories.contains_key(b)
                },
            },
    {
        proof {
            reveal(Context::model);
            reveal(Context::wf);
        }
        let ids = memory_ids(module);
        let ghost memories = module_view(*module).memories;
        if ids.len() > 1 {
            proof {
                assert(ids@.to_set().contains(ids@[0]));
                assert(ids@.to_set().contains(ids@[1]));
                assert(memories.contains_key(ids@[0]) && memories.contains_key(ids@[1]));
            }
            return Err(GlueError::MultipleMemories);
        }
        let memory = if ids.len() == 1 {
            proof {
                assert(ids@ == seq![ids@[0]]);
                assert(ids@.to_set() =~= set![ids@[0]]);
                assert(memories.dom().contains(ids@[0]));
            }
            ids[0]
        } else {
            proof {
                assert(ids@.to_set() =~= Set::<usize>::empty());
            }
            add_memory(module, false, 1, None)
        };
        let context = Context {
            globals: String::new(),
            imports_post: String::new(),
            typescript: "/* tslint:disable */\n".to_string(),
            exposed_globals: Some(NameSet::new()),
            required_internal_exports: NameSet::new(),
            config,
            module,
            js_imports: NameMap::new(),
            wasm_import_definitions: Vec::new(),
            imported_names: Vec::new(),
            defined_identifiers: UsedNames::new(),
            exported_classes: Some(NameMap::new()),
            memory,
            npm_dependencies: NameMap::new(),
        };
        proof {
            let start = GlueView::start(*config, context@.module, memory);
            assert(context@.js_imports =~= start.js_imports);
            assert(context@.wasm_imports =~= start.wasm_imports);
            assert(context@.imported =~= start.imported);
            assert(context@.classes->0 =~= start.classes->0);
            assert(context@.dependencies =~= start.dependencies);
        }
        Ok(context)
    }

    /// Whether a helper is still to be written; it counts as written from now on.
    pub(crate) fn should_write_global(&mut self, name: &str) -> (r: bool)
        requires
            old(self).wf(),
            old(self)@.open(),
        ensures
            final(self).wf(),
            r == !old(self)@.is_exposed(name@),
            r ==> final(self)@ == old(self)@.mark(name@),
            !r ==> final(self)@ == old(self)@,
    {
        proof {
            reveal(Context::model);
            reveal(Context::wf);
            if self@.is_exposed(name@) {
                assert(self@.exposed->0.insert(name@) == self@.exposed->0);
            }
        }
        match &mut self.exposed_globals {
            Some(exposed) => exposed.insert(name),
            None => vstd::pervasive::unreached(),
        }
    }

    /// Adds an item to the JavaScript.
    ///
    /// A blank line separates it from what is before it, unless that is its own comment, and it
    /// ends with a line feed.
    pub fn global(&mut self, s: &str)
        requires
            old(self).wf(),
        ensures
            final(self).wf(),
            final(self)@ == old(self)@.emit(s@),
    {
        proof {
            reveal(Context::model);
            reveal(Context::wf);
        }
        let s = trim(s);
        proof {
            reveal(with_item);
        }
        let ghost start = self.globals@;
        let ghost mut n: nat = 0;
        assert(start + feeds(0) == start);
        while !has_suffix(self.globals.as_str(), "\n\n\n") && !has_suffix(
            self.globals.as_str(),
            "*/\n",
        )
            invariant
                n <= gap(start),
                self.globals@ == start + feeds(n),
                gap(self.globals@) == gap(start) - n,
                self@ == (GlueView { globals: self.globals@, ..old(self)@ }),
                self.wf(),
            decreases gap(start) - n,
        {
            proof {
                reveal(Context::model);
                reveal(Context::wf);
                lemma_gap(self.globals@);
                assert(start + feeds(n) + "\n"@ == start + feeds(n + 1)) by {
                    reveal_strlit("\n");
                }
                n = n + 1;
            }
            self.globals.append("\n");
        }
        self.globals.append(s);
        self.globals.append("\n");
    }

    /// Whether a helper is exposed.
    pub(crate) fn is_exposed(&self, name: &str) -> (r: bool)
        ensures
            r == self@.is_exposed(name@),
    {
        proof {
            reveal(Context::model);
        }
        match &self.exposed_globals {
            Some(exposed) => exposed.contains(name),
            None => false,
        }
    }

    /// Whether there is an export of that name.
    fn exports_name(&self, name: &str) -> (r: bool)
        ensures
            r == self@.module.exports_name(name@),
    {
        proof {
            reveal(Context::model);
        }
        let list = exports(self.module);
        let ghost view = self@.module;
        let ghost ids = list@.map_values(|export: (usize, String)| export.0);
        let mut i: usize = 0;
        while i < list.len()
            invariant
                i <= list.len(),
                ids == list@.map_values(|export: (usize, String)| export.0),
                ids.to_set() == view.exports.dom(),
                forall|j: int|
                    0 <= j < list@.len() ==> (#[trigger] list@[j]).1@ == view.exports[list@[j].0].name,
                forall|j: int| 0 <= j < i ==> (#[trigger] list@[j]).1@ != name@,
                view == self@.module,
            decreases list.len() - i,
        {
            if same(list[i].1.as_str(), name) {
                proof {
                    let id = list@[i as int].0;
                    assert(ids[i as int] == id);
                    assert(ids.to_set().contains(id));
                    assert(view.exports.contains_key(id) && view.exports[id].name == name@);
                }
                return true;
            }
            i += 1;
        }
        proof {
            if view.exports_name(name@) {
                let id = choose|i: usize|
                    #[trigger] view.exports.contains_key(i) && view.exports[i].name == name@;
                assert(ids.to_set().contains(id));
                let j = choose|j: int| 0 <= j < ids.len() && ids[j] == id;
                assert(list@[j].1@ == name@);
            }
        }
        false
    }

    /// Whether the glue can use an internal export of the module.
    pub(crate) fn can_require(&self, name: &str) -> (r: bool)
        ensures
            r == self@.require_internal_export(name@).result is Ok,
    {
        proof {
            reveal(Context::model);
        }
        self.required_internal_exports.contains(name) || self.exports_name(name)
    }

    /// Notes that the glue uses an internal export of the module, and fails where there is none.
    pub fn require_internal_export(&mut self, name: &str) -> (r: Result<(), GlueError>)
        requires
            old(self).wf(),
        ensures
            final(self).wf(),
            old(self)@.require_internal_export(name@) == (Outcome {
                state: final(self)@,
                result: unit_view(r),
            }),
    {
        proof {
            reveal(Context::model);
            reveal(Context::wf);
        }
        if !self.required_internal_exports.insert(name) {
            return Ok(());
        }
        if self.exports_name(name) {
            Ok(())
        } else {
            Err(GlueError::MissingInternalExport(name.to_string()))
        }
    }

    /// The options.
    pub(crate) fn options(&self) -> (r: &'a Bindgen)
        ensures
            *r == self@.config,
    {
        proof {
            reveal(Context::model);
        }
        self.config
    }

    /// Whether threads share the memory.
    pub(crate) fn memory_is_shared(&self) -> (r: bool)
        requires
            self.wf(),
            self@.open(),
        ensures
            r == self@.memory_entry().limits.shared,
    {
        proof {
            reveal(Context::model);
            reveal(Context::wf);
        }
        memory(self.module, self.memory).0.shared
    }

    /// Exports a table of the module.
    pub(crate) fn export_table(&mut self, name: &str, table: usize)
        requires
            old(self).wf(),
            old(self)@.module.tables.contains_key(table),
        ensures
            final(self).wf(),
            final(self)@ == (GlueView {
                module: old(self)@.module.export_item(name@, ExportItem::Table(table)),
                ..old(self)@
            }),
    {
        proof {
            reveal(Context::model);
            reveal(Context::wf);
        }
        export_table(self.module, name, table);
    }

    /// Hands out an identifier for `name`.
    pub(crate) fn define(&mut self, name: &str) -> (r: String)
        requires
            old(self).wf(),
        ensures
            final(self).wf(),
            final(self)@ == old(self)@.use_identifier(name@),
            r@ == identifier(old(self)@.identifiers, name@),
    {
        proof {
            reveal(Context::model);
            reveal(Context::wf);
        }
        generate_identifier(name, &mut self.defined_identifiers)
    }

    /// Whether the next identifier for `name` is `name` itself.
    pub fn identifier_is_free(&self, name: &str) -> (r: bool)
        ensures
            r == (identifier(self@.identifiers, name@) == name@),
    {
        proof {
            reveal(Context::model);
        }
        self.defined_identifiers.count(name) == 0 && !same(name, "default")
    }

    /// Adds documentation to the JavaScript and to the TypeScript.
    pub(crate) fn document(&mut self, docs: &str)
        requires
            old(self).wf(),
        ensures
            final(self).wf(),
            final(self)@ == (GlueView {
                globals: old(self)@.globals + docs@,
                typescript: old(self)@.typescript + docs@,
                ..old(self)@
            }),
    {
        proof {
            reveal(Context::model);
            reveal(Context::wf);
        }
        self.globals.append(docs);
        self.typescript.append(docs);
    }

    /// Adds a text to the TypeScript.
    pub(crate) fn add_typescript(&mut self, text: &str)
        requires
            old(self).wf(),
        ensures
            final(self).wf(),
            final(self)@ == (GlueView {
                typescript: old(self)@.typescript + text@,
                ..old(self)@
            }),
    {
        proof {
            reveal(Context::model);
            reveal(Context::wf);
        }
        self.typescript.append(text);
    }

    /// Takes the classes out.
    pub(crate) fn take_classes(&mut self) -> (r: NameMap<ExportedClass>)
        requires
            old(self).wf(),
            old(self)@.classes is Some,
        ensures
            final(self).wf(),
            classes_wf(&r),
            Some(class_views(r@)) == old(self)@.classes,
            final(self)@ == (GlueView { classes: None, ..old(self)@ }),
    {
        proof {
            reveal(Context::model);
            reveal(Context::wf);
        }
        match self.exported_classes.take() {
            Some(classes) => classes,
            None => vstd::pervasive::unreached(),
        }
    }

    /// The class of that name, which is added without members where there is none.
    pub(crate) fn class_mut(&mut self, name: &str) -> (r: &mut ExportedClass)
        requires
            old(self).wf(),
            old(self)@.classes is Some,
        ensures
            r.wf(),
            r@ == old(self)@.class(name@),
            final(r).wf() ==> final(self).wf(),
            final(self)@ == old(self)@.with_class(name@, final(r)@),
    {
        proof {
            reveal(Context::model);
            reveal(Context::wf);
        }
        require_class(&mut self.exported_classes, name)
    }

    /// What the memory is called in the glue. It is there until a run ends, and behind that where
    /// something in the module uses it.
    pub fn memory(&self) -> (r: &'static str)
        requires
            self.wf(),
            self@.open() || self@.module.memories.contains_key(self@.memory),
        ensures
            r@ == self@.memory_name(),
    {
        proof {
            reveal(Context::model);
            reveal(Context::wf);
        }
        if memory(self.module, self.memory).1.is_some() {
            "memory"
        } else {
            "wasm.memory"
        }
    }
}

/// One more line feed leaves one less to go.
proof fn lemma_gap(text: Seq<char>)
    requires
        gap(text) > 0,
    ensures
        gap(text + "\n"@) == gap(text) - 1,
{
    reveal_strlit("\n");
    reveal_strlit("\n\n");
    reveal_strlit("\n\n\n");
    reveal_strlit("*/");
    reveal_strlit("*/\n");
    assert("\n"@ == seq!['\n']);
    assert("\n\n"@ == seq!['\n', '\n']);
    assert("\n\n\n"@ == seq!['\n', '\n', '\n']);
    assert("*/"@ == seq!['*', '/']);
    assert("*/\n"@ == seq!['*', '/', '\n']);
    let next = text + "\n"@;
    let n = text.len() as int;
    assert("\n"@[0] == '\n');
    assert("\n\n"@[0] == '\n' && "\n\n"@[1] == '\n');
    assert("\n\n\n"@[0] == '\n' && "\n\n\n"@[1] == '\n' && "\n\n\n"@[2] == '\n');
    assert("*/"@[0] == '*' && "*/"@[1] == '/');
    assert("*/\n"@[0] == '*' && "*/\n"@[1] == '/' && "*/\n"@[2] == '\n');
    lemma_suffix(text, "\n"@);
    lemma_suffix(text, "\n\n"@);
    lemma_suffix(text, "*/"@);
    lemma_suffix(text, "*/\n"@);
    lemma_suffix(text, "\n\n\n"@);
    lemma_suffix(next, "\n"@);
    lemma_suffix(next, "\n\n"@);
    lemma_suffix(next, "\n\n\n"@);
    lemma_suffix(next, "*/"@);
    lemma_suffix(next, "*/\n"@);
    assert(next[n] == '\n');
    assert(n > 0 ==> next[n - 1] == text[n - 1]);
    assert(n > 1 ==> next[n - 2] == text[n - 2]);
}

/// An item stands apart from the text before it: there are two blank lines between them, or the
/// text ends with the comment of the item. The item ends with a line feed.
pub proof fn law_items_stand_apart(text: Seq<char>, item: Seq<char>)
    ensures
        with_item(text, item) == text + feeds(gap(text)) + trimmed(item) + "\n"@,
        "\n\n\n"@.is_suffix_of(text + feeds(gap(text))) || "*/\n"@.is_suffix_of(
            text + feeds(gap(text)),
        ),
        "\n"@.is_suffix_of(with_item(text, item)),
{
    reveal(with_item);
    assert(text + feeds(0) == text);
    lemma_gap_closed(text, 0);
    let all = with_item(text, item);
    let end = "\n"@;
    assert(all.subrange(all.len() - end.len(), all.len() as int) =~= end);
}

/// Line feeds close the gap one by one.
proof fn lemma_gap_closed(text: Seq<char>, n: nat)
    requires
        n <= gap(text),
        gap(text + feeds(n)) == gap(text) - n,
    ensures
        gap(text + feeds(gap(text))) == 0,
    decreases gap(text) - n,
{
    if n < gap(text) {
        lemma_gap(text + feeds(n));
        assert(text + feeds(n) + "\n"@ == text + feeds(n + 1)) by {
            reveal_strlit("\n");
        }
        lemma_gap_closed(text, n + 1);
    }
}

/// No fewer line feeds set an item apart: with each but the last there is neither what it takes.
pub proof fn law_gap_is_least(text: Seq<char>, n: nat)
    requires
        n < gap(text),
    ensures
        gap(text) <= 3,
        !"\n\n\n"@.is_suffix_of(text + feeds(n)),
        !"*/\n"@.is_suffix_of(text + feeds(n)),
{
    lemma_gap_left(text, n);
}

/// So many line feeds leave that many less to go.
proof fn lemma_gap_left(text: Seq<char>, n: nat)
    requires
        n <= gap(text),
    ensures
        gap(text + feeds(n)) == gap(text) - n,
    decreases n,
{
    if n == 0 {
        assert(text + feeds(0) == text);
    } else {
        let before = (n - 1) as nat;
        lemma_gap_left(text, before);
        lemma_gap(text + feeds(before));
        assert(text + feeds(before) + "\n"@ == text + feeds(n)) by {
            reveal_strlit("\n");
        }
    }
}

/// A text ends with another where its last characters are those of the other.
proof fn lemma_suffix(text: Seq<char>, end: Seq<char>)
    ensures
        end.is_suffix_of(text) == (end.len() <= text.len() && forall|i: int|
            0 <= i < end.len() ==> text[text.len() - end.len() + i] == #[trigger] end[i]),
{
    if end.len() <= text.len() {
        let last = text.subrange(text.len() - end.len(), text.len() as int);
        assert(forall|i: int|
            0 <= i < end.len() ==> #[trigger] last[i] == text[text.len() - end.len() + i]);
        if forall|i: int|
            0 <= i < end.len() ==> text[text.len() - end.len() + i] == #[trigger] end[i] {
            assert(last == end);
        }
    }
}

} // verus!
