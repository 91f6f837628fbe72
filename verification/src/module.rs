//! The WebAssembly module that the glue is generated for.
//!
//! The module itself is a `walrus::Module`. What it holds is modelled by a [`ModuleView`]: its
//! items are found by the index of their `walrus` id, which no other item of the same kind has,
//! dead or alive. An id of another module counts as one that no item has. The functions that call
//! `walrus` are at the end of the file; what they state of `walrus` is not proved.
use vstd::prelude::*;

verus! {

/// An item of a module, which an export can make known outside it.
#[derive(Clone, Copy)]
pub enum ExportItem {
    Function(usize),
    Table(usize),
    Memory(usize),
    Global(usize),
}

/// One export.
pub struct ExportView {
    pub name: Seq<char>,
    pub item: ExportItem,
}

/// One import: the module that it comes from, its name there, and what it is in the module that
/// imports it.
pub struct ImportView {
    pub module: Seq<char>,
    pub name: Seq<char>,
    pub item: ExportItem,
}

/// What a memory is asked to be.
#[derive(Clone, Copy)]
pub struct Limits {
    /// The initial size in pages.
    pub initial: u32,
    /// The maximum size in pages, if there is one.
    pub maximum: Option<u32>,
    /// Whether threads share the memory.
    pub shared: bool,
}

/// One memory.
pub struct Memory {
    /// The import that the memory comes from, if it is imported.
    pub import: Option<usize>,
    pub limits: Limits,
}

/// What a table holds.
#[derive(Clone, Copy)]
pub enum TableKind {
    Function,
    Anyref,
}

/// What a module holds, as far as the glue depends on it.
#[verifier::ext_equal]
pub struct ModuleView {
    pub exports: Map<usize, ExportView>,
    /// The id that the next export gets.
    pub next_export: usize,
    pub imports: Map<usize, ImportView>,
    pub memories: Map<usize, Memory>,
    pub tables: Map<usize, TableKind>,
    pub functions: Set<usize>,
    /// The functions that are not imported and whose code cannot be gone through: there is none, a
    /// part of it is missing, or a part contains itself.
    pub uncoded: Set<usize>,
    pub globals: Set<usize>,
    /// The start function.
    pub start: Option<usize>,
    /// Which item names which other: a function in its code, a table in its elements and their
    /// offsets, a memory in the offsets of its data, a global in its initial value.
    pub references: Set<(ExportItem, ExportItem)>,
    /// The memories that have data and the tables of functions that have elements.
    pub filled: Set<ExportItem>,
}

impl ModuleView {
    /// Whether an item is there.
    pub open spec fn has(self, item: ExportItem) -> bool {
        match item {
            ExportItem::Function(i) => self.functions.contains(i),
            ExportItem::Table(i) => self.tables.contains_key(i),
            ExportItem::Memory(i) => self.memories.contains_key(i),
            ExportItem::Global(i) => self.globals.contains(i),
        }
    }

    /// The module with one more export.
    pub open spec fn export_item(self, name: Seq<char>, item: ExportItem) -> ModuleView {
        ModuleView {
            exports: self.exports.insert(self.next_export, ExportView { name, item }),
            next_export: (self.next_export + 1) as usize,
            ..self
        }
    }

    /// Whether there is an export of that name.
    pub open spec fn exports_name(self, name: Seq<char>) -> bool {
        exists|i: usize| #[trigger] self.exports.contains_key(i) && self.exports[i].name == name
    }

    /// Whether there is an export of that item.
    pub open spec fn exports_item(self, item: ExportItem) -> bool {
        exists|i: usize| #[trigger] self.exports.contains_key(i) && self.exports[i].item == item
    }

    /// Whether an import is that item.
    pub open spec fn imports_item(self, item: ExportItem) -> bool {
        exists|i: usize| #[trigger] self.imports.contains_key(i) && self.imports[i].item == item
    }

    /// Whether an item is used whatever else is: it is exported, it is the start function, or it
    /// is imported and filled.
    pub open spec fn is_root(self, item: ExportItem) -> bool {
        ||| self.exports_item(item)
        ||| self.start is Some && item == ExportItem::Function(self.start->0)
        ||| self.imports_item(item) && self.filled.contains(item)
    }

    /// Whether each item of a list but the last names the next.
    pub open spec fn is_path(self, path: Seq<ExportItem>) -> bool {
        forall|i: int|
            0 <= i < path.len() - 1 ==> self.references.contains((#[trigger] path[i], path[i + 1]))
    }

    /// Whether a list leads to an item from one that is used whatever else is.
    pub open spec fn leads_to(self, path: Seq<ExportItem>, item: ExportItem) -> bool {
        path.len() > 0 && self.is_root(path[0]) && path.last() == item && self.is_path(path)
    }

    /// Whether something in the module uses an item.
    pub open spec fn used(self, item: ExportItem) -> bool {
        exists|path: Seq<ExportItem>| #[trigger] self.leads_to(path, item)
    }

    /// Whether all that is used is there, with code that can be gone through, and each memory and
    /// table that is imported.
    pub open spec fn intact(self) -> bool {
        &&& forall|item: ExportItem| #[trigger] self.used(item) ==> self.has(item)
        &&& forall|i: usize| #[trigger]
            self.used(ExportItem::Function(i)) ==> !self.uncoded.contains(i)
        &&& forall|i: usize| #[trigger]
            self.imports.contains_key(i) && (self.imports[i].item is Memory
                || self.imports[i].item is Table) ==> self.has(self.imports[i].item)
    }

    /// The module without the items that nothing uses.
    pub open spec fn collected(self) -> ModuleView {
        ModuleView {
            imports: Map::new(
                |i: usize| self.imports.contains_key(i) && self.used(self.imports[i].item),
                |i: usize| self.imports[i],
            ),
            memories: Map::new(
                |i: usize| self.memories.contains_key(i) && self.used(ExportItem::Memory(i)),
                |i: usize| self.memories[i],
            ),
            tables: Map::new(
                |i: usize| self.tables.contains_key(i) && self.used(ExportItem::Table(i)),
                |i: usize| self.tables[i],
            ),
            functions: self.functions.filter(|i: usize| self.used(ExportItem::Function(i))),
            uncoded: self.uncoded.filter(|i: usize| self.used(ExportItem::Function(i))),
            globals: self.globals.filter(|i: usize| self.used(ExportItem::Global(i))),
            references: self.references.filter(
                |pair: (ExportItem, ExportItem)| self.used(pair.0),
            ),
            filled: self.filled.filter(|item: ExportItem| self.used(item)),
            ..self
        }
    }

    /// Whether anything in the module names an item.
    pub open spec fn names(self, item: ExportItem) -> bool {
        ||| self.is_root(item)
        ||| self.imports_item(item)
        ||| exists|other: ExportItem| #[trigger] self.references.contains((other, item))
    }

    /// Whether the start function, if there is one, is there.
    pub open spec fn has_start(self) -> bool {
        self.start is Some ==> self.functions.contains(self.start->0)
    }

    /// Whether table `i` is there and holds that kind of values.
    pub open spec fn is_table(self, kind: TableKind, i: usize) -> bool {
        self.tables.contains_key(i) && self.tables[i] == kind
    }

    /// Whether table `i` is the first that holds that kind of values.
    pub open spec fn is_first_table(self, kind: TableKind, i: usize) -> bool {
        &&& self.is_table(kind, i)
        &&& forall|j: usize| #[trigger] self.is_table(kind, j) ==> i <= j
    }

    /// Whether there is a table that holds that kind of values.
    pub open spec fn has_table(self, kind: TableKind) -> bool {
        exists|i: usize| #[trigger] self.is_table(kind, i)
    }

    /// The first table that holds that kind of values.
    pub open spec fn first_table(self, kind: TableKind) -> usize {
        choose|i: usize| #[trigger] self.is_first_table(kind, i)
    }
}

/// Whether each id is smaller than all that follow it.
pub open spec fn ascending_ids(ids: Seq<usize>) -> bool {
    forall|i: int, j: int| 0 <= i < j < ids.len() ==> ids[i] < ids[j]
}

/// Whether what became of the search for an item, which is looked for only where there is an id,
/// is right: the id is handed out where it is among those that are there.
pub open spec fn is_found(
    found: Option<Option<usize>>,
    id: Option<usize>,
    ids: Set<usize>,
) -> bool {
    match found {
        None => id is None,
        Some(Some(i)) => id == Some(i) && ids.contains(i),
        Some(None) => id is Some && !ids.contains(id->0),
    }
}

/// Whether two indices are equal.
fn same_index(a: usize, b: usize) -> (r: bool)
    ensures
        r == (a == b),
{
    a == b
}

/// Whether a list holds an id.
pub(crate) fn holds_id(ids: &Vec<usize>, id: usize) -> (r: bool)
    ensures
        r == ids@.contains(id),
{
    let mut i: usize = 0;
    while i < ids.len()
        invariant
            i <= ids.len(),
            forall|j: int| 0 <= j < i ==> ids@[j] != id,
        decreases ids.len() - i,
    {
        if ids[i] == id {
            return true;
        }
        i += 1;
    }
    false
}

/// `walrus::Module`, whose contents are seen through [`module_view`] alone.
#[verifier::external_type_specification]
#[verifier::external_body]
pub struct ExModule(walrus::Module);

/// `failure::Error`, which `walrus` reports errors with.
#[verifier::external_type_specification]
#[verifier::external_body]
pub struct ExFailure(failure::Error);

/// What a module holds.
pub uninterp spec fn module_view(module: walrus::Module) -> ModuleView;

/// `walrus::ModuleMemories::iter`: the memories of the module, in ascending order of their ids.
#[verifier::external_body]
pub(crate) fn memory_ids(module: &walrus::Module) -> (r: Vec<usize>)
    ensures
        ascending_ids(r@),
        r@.to_set() == module_view(*module).memories.dom(),
{
    module.memories.iter().map(|memory| memory.id().index()).collect()
}

/// `walrus::ModuleMemories::get`: the memory with that id. It panics where there is none. Of a
/// memory that is imported the import is handed out, if the module has it.
#[verifier::external_body]
pub(crate) fn memory(module: &walrus::Module, id: usize) -> (r: (Limits, Option<Option<usize>>))
    requires
        module_view(*module).memories.contains_key(id),
    ensures
        r.0 == module_view(*module).memories[id].limits,
        is_found(r.1, module_view(*module).memories[id].import, module_view(*module).imports.dom()),
{
    let found = module.memories.iter().find(|memory| same_index(memory.id().index(), id));
    let memory = module.memories.get(found.unwrap().id());
    let import = memory.import.map(|id| {
        let found = module.imports.iter().find(|import| import.id() == id);
        found.map(|import| import.id().index())
    });
    let limits = Limits {
        initial: memory.initial,
        maximum: memory.maximum,
        shared: memory.shared,
    };
    (limits, import)
}

/// `walrus::ModuleMemories::add_local`: the module gets a memory of its own, under an id that no
/// other memory has had. So nothing names it yet.
#[verifier::external_body]
pub(crate) fn add_memory(
    module: &mut walrus::Module,
    shared: bool,
    initial: u32,
    maximum: Option<u32>,
) -> (r: usize)
    ensures
        !module_view(*old(module)).memories.contains_key(r),
        !module_view(*old(module)).names(ExportItem::Memory(r)),
        module_view(*final(module)) == (ModuleView {
            memories: module_view(*old(module)).memories.insert(
                r,
                Memory { import: None, limits: Limits { initial, maximum, shared } },
            ),
            ..module_view(*old(module))
        }),
{
    module.memories.add_local(shared, initial, maximum).index()
}

/// `walrus::ModuleExports::iter`: the exports of the module with their names, in ascending order
/// of their ids, which are smaller than the one that the next export gets.
#[verifier::external_body]
pub(crate) fn exports(module: &walrus::Module) -> (r: Vec<(usize, String)>)
    ensures
        ascending_ids(r@.map_values(|export: (usize, String)| export.0)),
        r@.map_values(|export: (usize, String)| export.0).to_set() == module_view(
            *module,
        ).exports.dom(),
        forall|i: int|
            0 <= i < r@.len() ==> (#[trigger] r@[i]).1@ == module_view(
                *module,
            ).exports[r@[i].0].name,
        forall|i: int|
            0 <= i < r@.len() ==> (#[trigger] r@[i]).0 < module_view(*module).next_export,
{
    module.exports.iter().map(|export| (export.id().index(), export.name.clone())).collect()
}

/// `walrus::ModuleExports::delete`: the export is gone. It panics where there is none with that
/// id.
#[verifier::external_body]
pub(crate) fn delete_export(module: &mut walrus::Module, id: usize)
    requires
        module_view(*old(module)).exports.contains_key(id),
    ensures
        module_view(*final(module)) == (ModuleView {
            exports: module_view(*old(module)).exports.remove(id),
            ..module_view(*old(module))
        }),
{
    let found = module.exports.iter().find(|export| same_index(export.id().index(), id));
    let id = found.unwrap().id();
    module.exports.delete(id);
}

/// `walrus::ModuleExports::add`, for a function: the module gets an export, under the next id,
/// which no other export has. The function has to be there.
#[verifier::external_body]
pub(crate) fn export_function(
    module: &mut walrus::Module,
    name: &str,
    function: usize,
) -> (r: usize)
    requires
        module_view(*old(module)).functions.contains(function),
    ensures
        r == module_view(*old(module)).next_export,
        !module_view(*old(module)).exports.contains_key(r),
        module_view(*final(module)) == module_view(*old(module)).export_item(
            name@,
            ExportItem::Function(function),
        ),
{
    let found = module.funcs.iter().find(|other| same_index(other.id().index(), function));
    let id = found.unwrap().id();
    module.exports.add(name, id).index()
}

/// `walrus::ModuleExports::add`, for a table: the module gets an export, under the next id, which
/// no other export has. The table has to be there.
#[verifier::external_body]
pub(crate) fn export_table(module: &mut walrus::Module, name: &str, table: usize) -> (r: usize)
    requires
        module_view(*old(module)).tables.contains_key(table),
    ensures
        r == module_view(*old(module)).next_export,
        !module_view(*old(module)).exports.contains_key(r),
        module_view(*final(module)) == module_view(*old(module)).export_item(
            name@,
            ExportItem::Table(table),
        ),
{
    let found = module.tables.iter().find(|other| same_index(other.id().index(), table));
    let id = found.unwrap().id();
    module.exports.add(name, id).index()
}

/// `walrus::ModuleImports::iter`: the imports of the module, in ascending order of their ids.
#[verifier::external_body]
pub(crate) fn import_ids(module: &walrus::Module) -> (r: Vec<usize>)
    ensures
        ascending_ids(r@),
        r@.to_set() == module_view(*module).imports.dom(),
{
    module.imports.iter().map(|import| import.id().index()).collect()
}

/// `walrus::ModuleImports::get_mut`: gives access to the import with that id, and panics where
/// there is none. The import is made to come from the module named `from`; its name, which does
/// not change, is handed back.
#[verifier::external_body]
pub(crate) fn move_import(module: &mut walrus::Module, id: usize, from: &str) -> (r: String)
    requires
        module_view(*old(module)).imports.contains_key(id),
    ensures
        r@ == module_view(*old(module)).imports[id].name,
        module_view(*final(module)) == (ModuleView {
            imports: module_view(*old(module)).imports.insert(
                id,
                ImportView { module: from@, ..module_view(*old(module)).imports[id] },
            ),
            ..module_view(*old(module))
        }),
{
    let found = module.imports.iter().find(|import| same_index(import.id().index(), id));
    let id = found.unwrap().id();
    let import = module.imports.get_mut(id);
    import.module = from.to_string();
    import.name.clone()
}

/// `walrus::ModuleTables::iter`: the tables of the module with what they hold, in ascending
/// order of their ids.
#[verifier::external_body]
pub(crate) fn tables(module: &walrus::Module) -> (r: Vec<(usize, TableKind)>)
    ensures
        ascending_ids(r@.map_values(|table: (usize, TableKind)| table.0)),
        r@.map_values(|table: (usize, TableKind)| table.0).to_set() == module_view(
            *module,
        ).tables.dom(),
        forall|i: int|
            0 <= i < r@.len() ==> (#[trigger] r@[i]).1 == module_view(*module).tables[r@[i].0],
{
    let kinds = module.tables.iter().map(|table| match table.kind {
        walrus::TableKind::Function(_) => (table.id().index(), TableKind::Function),
        walrus::TableKind::Anyref(_) => (table.id().index(), TableKind::Anyref),
    });
    kinds.collect()
}

/// `walrus::ModuleTables::main_function_table`: the one table that holds functions, if there is
/// one. It is an error where there are several.
#[verifier::external_body]
pub(crate) fn main_function_table(module: &walrus::Module) -> (r: Result<
    Option<usize>,
    failure::Error,
>)
    ensures
        match r {
            Ok(Some(i)) => forall|j: usize|
                #[trigger] module_view(*module).is_table(TableKind::Function, j) <==> j == i,
            Ok(None) => !module_view(*module).has_table(TableKind::Function),
            Err(_) => exists|i: usize, j: usize|
                i != j && #[trigger] module_view(*module).is_table(TableKind::Function, i)
                    && #[trigger] module_view(*module).is_table(TableKind::Function, j),
        },
{
    Ok(module.tables.main_function_table()?.map(|id| id.index()))
}

/// `walrus::ModuleFunctions::iter`, in search of the start function, where there is one: it is
/// handed out if the module has it.
#[verifier::external_body]
pub(crate) fn start(module: &walrus::Module) -> (r: Option<Option<usize>>)
    ensures
        is_found(r, module_view(*module).start, module_view(*module).functions),
{
    module.start.map(|id| {
        let found = module.funcs.iter().find(|function| function.id() == id);
        found.map(|function| function.id().index())
    })
}

/// `Option::take` on the start function of a `walrus::Module`: the module has none any more. The
/// function has to be there.
#[verifier::external_body]
pub(crate) fn take_start(module: &mut walrus::Module) -> (r: Option<usize>)
    requires
        module_view(*old(module)).has_start(),
    ensures
        r == module_view(*old(module)).start,
        module_view(*final(module)) == (ModuleView { start: None, ..module_view(*old(module)) }),
{
    module.start.take().map(|id| id.index())
}

/// `walrus::passes::gc::run`: removes the items that nothing uses. The search starts from the
/// exports, from the start function and from the imported memories and tables that are filled, and
/// goes on to what each item names. It panics on an item that is used and not there, on code that
/// is used and not there in full, and on an imported memory or table that is not there, and does
/// not end on code that contains itself.
#[verifier::external_body]
pub(crate) fn collect_garbage(module: &mut walrus::Module)
    requires
        module_view(*old(module)).intact(),
    ensures
        module_view(*final(module)) == module_view(*old(module)).collected(),
{
    walrus::passes::gc::run(module);
}

} // verus!
