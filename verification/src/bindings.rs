//! What is bound: the imports, exports, classes and enums that the glue connects.
use crate::text::same;
use vstd::prelude::*;

verus! {

/// The views of a list of strings.
pub open spec fn texts(list: Seq<String>) -> Seq<Seq<char>> {
    list.map_values(|text: String| text@)
}

/// A copy of a list of strings.
fn copy_texts(list: &Vec<String>) -> (r: Vec<String>)
    ensures
        texts(r@) == texts(list@),
{
    let mut r: Vec<String> = Vec::new();
    let mut i: usize = 0;
    while i < list.len()
        invariant
            i <= list.len(),
            texts(r@) == texts(list@).take(i as int),
        decreases list.len() - i,
    {
        let ghost before = r@;
        r.push(list[i].clone());
        assert(texts(r@) == texts(before).push(list@[i as int]@));
        assert(texts(list@).take(i as int + 1) == texts(list@).take(i as int).push(
            list@[i as int]@,
        ));
        i += 1;
    }
    assert(texts(list@).take(list@.len() as int) == texts(list@));
    r
}

/// Whether two lists of strings are equal.
fn same_texts(a: &Vec<String>, b: &Vec<String>) -> (r: bool)
    ensures
        r == (texts(a@) == texts(b@)),
{
    if a.len() != b.len() {
        assert(texts(a@).len() != texts(b@).len());
        return false;
    }
    let mut i: usize = 0;
    while i < a.len()
        invariant
            i <= a.len() == b.len(),
            forall|j: int| 0 <= j < i ==> texts(a@)[j] == texts(b@)[j],
        decreases a.len() - i,
    {
        if !same(a[i].as_str(), b[i].as_str()) {
            assert(texts(a@)[i as int] != texts(b@)[i as int]);
            return false;
        }
        i += 1;
    }
    assert(texts(a@) == texts(b@));
    true
}

/// Where an imported JavaScript item comes from.
pub enum JsImportName {
    /// From the global scope.
    Global { name: String },
    /// From a module.
    Module { module: String, name: String },
    /// From a JavaScript file of the crate.
    LocalModule { module: String, name: String },
    /// From JavaScript that the crate holds as text.
    InlineJs { unique_crate_identifier: String, snippet_idx_in_crate: usize, name: String },
    /// From the global scope, where the name may stand behind a prefix.
    VendorPrefixed { name: String, prefixes: Vec<String> },
}

/// The model of a [`JsImportName`].
pub enum ImportNameView {
    Global { name: Seq<char> },
    Module { module: Seq<char>, name: Seq<char> },
    LocalModule { module: Seq<char>, name: Seq<char> },
    InlineJs { crate_name: Seq<char>, snippet: nat, name: Seq<char> },
    VendorPrefixed { name: Seq<char>, prefixes: Seq<Seq<char>> },
}

impl View for JsImportName {
    type V = ImportNameView;

    open spec fn view(&self) -> ImportNameView {
        match *self {
            JsImportName::Global { name } => ImportNameView::Global { name: name@ },
            JsImportName::Module { module, name } => ImportNameView::Module {
                module: module@,
                name: name@,
            },
            JsImportName::LocalModule { module, name } => ImportNameView::LocalModule {
                module: module@,
                name: name@,
            },
            JsImportName::InlineJs { unique_crate_identifier, snippet_idx_in_crate, name } =>
                ImportNameView::InlineJs {
                crate_name: unique_crate_identifier@,
                snippet: snippet_idx_in_crate as nat,
                name: name@,
            },
            JsImportName::VendorPrefixed { name, prefixes } => ImportNameView::VendorPrefixed {
                name: name@,
                prefixes: texts(prefixes@),
            },
        }
    }
}

impl JsImportName {
    /// Whether two items come from the same place.
    pub fn is(&self, other: &JsImportName) -> (r: bool)
        ensures
            r == (self@ == other@),
    {
        match (self, other) {
            (JsImportName::Global { name: a }, JsImportName::Global { name: b }) => same(
                a.as_str(),
                b.as_str(),
            ),
            (
                JsImportName::Module { module: m, name: a },
                JsImportName::Module { module: n, name: b },
            ) => same(m.as_str(), n.as_str()) && same(a.as_str(), b.as_str()),
            (
                JsImportName::LocalModule { module: m, name: a },
                JsImportName::LocalModule { module: n, name: b },
            ) => same(m.as_str(), n.as_str()) && same(a.as_str(), b.as_str()),
            (
                JsImportName::InlineJs {
                    unique_crate_identifier: m,
                    snippet_idx_in_crate: i,
                    name: a,
                },
                JsImportName::InlineJs {
                    unique_crate_identifier: n,
                    snippet_idx_in_crate: j,
                    name: b,
                },
            ) => *i == *j && same(m.as_str(), n.as_str()) && same(a.as_str(), b.as_str()),
            (
                JsImportName::VendorPrefixed { name: a, prefixes: m },
                JsImportName::VendorPrefixed { name: b, prefixes: n },
            ) => same(a.as_str(), b.as_str()) && same_texts(m, n),
            _ => false,
        }
    }

    /// A copy.
    pub fn copy(&self) -> (r: JsImportName)
        ensures
            r@ == self@,
    {
        match self {
            JsImportName::Global { name } => JsImportName::Global { name: name.clone() },
            JsImportName::Module { module, name } => JsImportName::Module {
                module: module.clone(),
                name: name.clone(),
            },
            JsImportName::LocalModule { module, name } => JsImportName::LocalModule {
                module: module.clone(),
                name: name.clone(),
            },
            JsImportName::InlineJs { unique_crate_identifier, snippet_idx_in_crate, name } =>
                JsImportName::InlineJs {
                unique_crate_identifier: unique_crate_identifier.clone(),
                snippet_idx_in_crate: *snippet_idx_in_crate,
                name: name.clone(),
            },
            JsImportName::VendorPrefixed { name, prefixes } => JsImportName::VendorPrefixed {
                name: name.clone(),
                prefixes: copy_texts(prefixes),
            },
        }
    }
}

/// An imported JavaScript item, or a field of one.
pub struct JsImport {
    /// Where the item comes from.
    pub name: JsImportName,
    /// The fields that lead from the item to what is meant.
    pub fields: Vec<String>,
}

/// What an export of the module becomes in JavaScript.
pub enum AuxExportKind {
    /// A free function.
    Function(String),
    /// The constructor of a class.
    Constructor(String),
    /// The getter of a field.
    Getter { class: String, field: String },
    /// The setter of a field.
    Setter { class: String, field: String },
    /// A static method.
    StaticFunction { class: String, name: String },
    /// A method, which may consume the object it is called on.
    Method { class: String, name: String, consumed: bool },
}

/// An export of the module and what it becomes in JavaScript.
pub struct AuxExport {
    /// The id of the export.
    pub id: usize,
    /// The name that errors speak of.
    pub debug_name: String,
    /// The documentation.
    pub comments: String,
    /// The names of the arguments, where they are known.
    pub arg_names: Option<Vec<String>>,
    /// What the export becomes.
    pub kind: AuxExportKind,
}

/// An import of the module that JavaScript provides.
pub struct AuxImport {
    /// The id of the import.
    pub id: usize,
    /// A description of what is imported, for errors.
    pub description: String,
}

/// An exported enum.
pub struct AuxEnum {
    /// The name of the enum.
    pub name: String,
    /// The documentation.
    pub comments: String,
    /// The variants with their values.
    pub variants: Vec<(String, u32)>,
}

/// An exported struct.
pub struct AuxStruct {
    /// The name of the struct.
    pub name: String,
    /// The documentation.
    pub comments: String,
}

/// A `package.json` with NPM dependencies.
pub struct PackageJson {
    /// The path of the file.
    pub path: String,
    /// What the file holds, or why it could not be read.
    pub contents: Result<String, String>,
}

impl PackageJson {
    /// The model of what the file holds.
    pub open spec fn text(self) -> Result<Seq<char>, Seq<char>> {
        match self.contents {
            Ok(text) => Ok(text@),
            Err(reason) => Err(reason@),
        }
    }
}

/// All that is bound.
pub struct WasmBindgenAux {
    /// The exports, each once.
    pub export_map: Vec<AuxExport>,
    /// The imports, each once.
    pub import_map: Vec<AuxImport>,
    /// The ids of the imports whose last argument is spread.
    pub imports_with_variadic: Vec<usize>,
    /// The ids of the imports whose exceptions are caught.
    pub imports_with_catch: Vec<usize>,
    /// The exported enums.
    pub enums: Vec<AuxEnum>,
    /// The exported structs.
    pub structs: Vec<AuxStruct>,
    /// TypeScript that is added as it is.
    pub extra_typescript: String,
    /// The `package.json` files.
    pub package_jsons: Vec<PackageJson>,
}

} // verus!
