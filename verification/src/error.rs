//! What can go wrong while the glue is generated.
use vstd::prelude::*;

verus! {

/// Why the glue could not be generated.
pub enum GlueError {
    /// The module has several memories.
    MultipleMemories,
    /// A class would be exported under a name that is taken.
    ShadowedClass(String),
    /// The module lacks an export that the glue needs.
    MissingInternalExport(String),
    /// Something is imported from a module, which a script cannot do.
    ModuleImport(String),
    /// A class has two constructors.
    DuplicateConstructor(String),
    /// A global is imported under a name that is taken.
    ImportedTwice(String),
    /// The module has no table of functions.
    NoFunctionTable,
    /// The module has several tables of functions.
    MultipleFunctionTables,
    /// NPM dependencies are asked for, but nothing would install them.
    DependenciesUnsupported { path: String },
    /// A `package.json` could not be read.
    UnreadableManifest { path: String, reason: String },
    /// A `package.json` is not JSON; the text says why.
    InvalidJson(String),
    /// A `package.json` holds something other than an object.
    ManifestNotObject { path: String },
    /// A `package.json` has a key other than `dependencies`.
    ManifestKeys { path: String },
    /// The dependencies of a `package.json` are not an object.
    DependenciesNotObject { path: String },
    /// The version of a dependency is not a string.
    VersionNotString { path: String },
    /// Two `package.json` files ask for the same package.
    DuplicateDependency { name: String, path: String, previous: String },
    /// An export or an import could not be translated to JavaScript.
    Translation(String),
    /// The bindings for an export could not be generated.
    Export { name: String, cause: Box<GlueError> },
    /// The bindings for an import could not be generated.
    Import { description: String, cause: Box<GlueError> },
    /// An import that the glue provides is used by nothing, so it was removed.
    UnusedImport,
}

/// The model of a [`GlueError`].
pub enum GlueErrorView {
    MultipleMemories,
    ShadowedClass(Seq<char>),
    MissingInternalExport(Seq<char>),
    ModuleImport(Seq<char>),
    DuplicateConstructor(Seq<char>),
    ImportedTwice(Seq<char>),
    NoFunctionTable,
    MultipleFunctionTables,
    DependenciesUnsupported { path: Seq<char> },
    UnreadableManifest { path: Seq<char>, reason: Seq<char> },
    InvalidJson(Seq<char>),
    ManifestNotObject { path: Seq<char> },
    ManifestKeys { path: Seq<char> },
    DependenciesNotObject { path: Seq<char> },
    VersionNotString { path: Seq<char> },
    DuplicateDependency { name: Seq<char>, path: Seq<char>, previous: Seq<char> },
    Translation(Seq<char>),
    Export { name: Seq<char>, cause: Box<GlueErrorView> },
    Import { description: Seq<char>, cause: Box<GlueErrorView> },
    UnusedImport,
}

impl View for GlueError {
    type V = GlueErrorView;

    open spec fn view(&self) -> GlueErrorView {
        self.model()
    }
}

impl GlueError {
    /// The model of the error, and of what caused it.
    pub open spec fn model(self) -> GlueErrorView
        decreases self,
    {
        match self {
            GlueError::MultipleMemories => GlueErrorView::MultipleMemories,
            GlueError::ShadowedClass(name) => GlueErrorView::ShadowedClass(name@),
            GlueError::MissingInternalExport(name) => GlueErrorView::MissingInternalExport(name@),
            GlueError::ModuleImport(module) => GlueErrorView::ModuleImport(module@),
            GlueError::DuplicateConstructor(class) => GlueErrorView::DuplicateConstructor(class@),
            GlueError::ImportedTwice(name) => GlueErrorView::ImportedTwice(name@),
            GlueError::NoFunctionTable => GlueErrorView::NoFunctionTable,
            GlueError::MultipleFunctionTables => GlueErrorView::MultipleFunctionTables,
            GlueError::DependenciesUnsupported { path } => GlueErrorView::DependenciesUnsupported {
                path: path@,
            },
            GlueError::UnreadableManifest { path, reason } => GlueErrorView::UnreadableManifest {
                path: path@,
                reason: reason@,
            },
            GlueError::InvalidJson(reason) => GlueErrorView::InvalidJson(reason@),
            GlueError::ManifestNotObject { path } => GlueErrorView::ManifestNotObject {
                path: path@,
            },
            GlueError::ManifestKeys { path } => GlueErrorView::ManifestKeys { path: path@ },
            GlueError::DependenciesNotObject { path } => GlueErrorView::DependenciesNotObject {
                path: path@,
            },
            GlueError::VersionNotString { path } => GlueErrorView::VersionNotString { path: path@ },
            GlueError::DuplicateDependency { name, path, previous } =>
                GlueErrorView::DuplicateDependency {
                name: name@,
                path: path@,
                previous: previous@,
            },
            GlueError::Translation(text) => GlueErrorView::Translation(text@),
            GlueError::Export { name, cause } => GlueErrorView::Export {
                name: name@,
                cause: Box::new((*cause).model()),
            },
            GlueError::Import { description, cause } => GlueErrorView::Import {
                description: description@,
                cause: Box::new((*cause).model()),
            },
            GlueError::UnusedImport => GlueErrorView::UnusedImport,
        }
    }
}

impl GlueErrorView {
    /// What the error reads like, without what caused it.
    pub open spec fn message(self) -> Seq<char> {
        match self {
            GlueErrorView::MultipleMemories => "multiple memories currently not supported"@,
            GlueErrorView::ShadowedClass(name) => "cannot shadow already defined class `"@ + name
                + "`"@,
            GlueErrorView::MissingInternalExport(name) => "the exported function `"@ + name
                + "` is required to generate bindings but it was not found in the wasm file, perhaps the `std` feature of the `wasm-bindgen` crate needs to be enabled?"@,
            GlueErrorView::ModuleImport(module) => "importing from `"@ + module
                + "` isn't supported with `--target no-modules`"@,
            GlueErrorView::DuplicateConstructor(class) => "found duplicate constructor for class `"@
                + class + "`"@,
            GlueErrorView::ImportedTwice(name) => "cannot import `"@ + name
                + "` from two locations"@,
            GlueErrorView::NoFunctionTable => "no function table found in module"@,
            GlueErrorView::MultipleFunctionTables => "module contains more than one function table"@,
            GlueErrorView::DependenciesUnsupported { path } =>
                "NPM dependencies have been specified in `"@ + path
                + "` but this is only compatible with the `bundler` and `nodejs` targets"@,
            GlueErrorView::UnreadableManifest { path, reason } => "failed to read `"@ + path + "`"@,
            GlueErrorView::InvalidJson(reason) => reason,
            GlueErrorView::ManifestNotObject { path } =>
                "expected `package.json` to have an JSON object in `"@ + path + "`"@,
            GlueErrorView::ManifestKeys { path } => "NPM manifest found at `"@ + path
                + "` can currently only have one key, `dependencies`, and no other fields"@,
            GlueErrorView::DependenciesNotObject { path } =>
                "expected `dependencies` to be a JSON object in `"@ + path + "`"@,
            GlueErrorView::VersionNotString { path } =>
                "keys in `dependencies` are expected to be strings in `"@ + path + "`"@,
            GlueErrorView::DuplicateDependency { name, path, previous } =>
                "dependency on NPM package `"@ + name
                + "` specified in two `package.json` files, which at the time is not allowed:\n  * "@
                + path + "\n  * "@ + previous,
            GlueErrorView::Translation(text) => text,
            GlueErrorView::Export { name, cause } =>
                "failed to generate bindings for Rust export `"@ + name + "`"@,
            GlueErrorView::Import { description, cause } =>
                "failed to generate bindings for import `"@ + description + "`"@,
            GlueErrorView::UnusedImport => "an import of the module is not used"@,
        }
    }
}

/// `name` between two texts.
fn quote(before: &str, name: &str, after: &str) -> (r: String)
    ensures
        r@ == before@ + name@ + after@,
{
    let mut r = before.to_string();
    r.append(name);
    r.append(after);
    r
}

impl GlueError {
    /// What the error reads like, without what caused it.
    pub fn message(&self) -> (r: String)
        ensures
            r@ == self@.message(),
    {
        match self {
            GlueError::MultipleMemories => "multiple memories currently not supported".to_string(),
            GlueError::ShadowedClass(name) => quote(
                "cannot shadow already defined class `",
                name.as_str(),
                "`",
            ),
            GlueError::MissingInternalExport(name) => quote(
                "the exported function `",
                name.as_str(),
                "` is required to generate bindings but it was not found in the wasm file, perhaps the `std` feature of the `wasm-bindgen` crate needs to be enabled?",
            ),
            GlueError::ModuleImport(module) => quote(
                "importing from `",
                module.as_str(),
                "` isn't supported with `--target no-modules`",
            ),
            GlueError::DuplicateConstructor(class) => quote(
                "found duplicate constructor for class `",
                class.as_str(),
                "`",
            ),
            GlueError::ImportedTwice(name) => quote(
                "cannot import `",
                name.as_str(),
                "` from two locations",
            ),
            GlueError::NoFunctionTable => "no function table found in module".to_string(),
            GlueError::MultipleFunctionTables =>
                "module contains more than one function table".to_string(),
            GlueError::DependenciesUnsupported { path } => quote(
                "NPM dependencies have been specified in `",
                path.as_str(),
                "` but this is only compatible with the `bundler` and `nodejs` targets",
            ),
            GlueError::UnreadableManifest { path, reason: _ } => quote(
                "failed to read `",
                path.as_str(),
                "`",
            ),
            GlueError::InvalidJson(reason) => reason.clone(),
            GlueError::ManifestNotObject { path } => quote(
                "expected `package.json` to have an JSON object in `",
                path.as_str(),
                "`",
            ),
            GlueError::ManifestKeys { path } => quote(
                "NPM manifest found at `",
                path.as_str(),
                "` can currently only have one key, `dependencies`, and no other fields",
            ),
            GlueError::DependenciesNotObject { path } => quote(
                "expected `dependencies` to be a JSON object in `",
                path.as_str(),
                "`",
            ),
            GlueError::VersionNotString { path } => quote(
                "keys in `dependencies` are expected to be strings in `",
                path.as_str(),
                "`",
            ),
            GlueError::DuplicateDependency { name, path, previous } => {
                let mut r = quote(
                    "dependency on NPM package `",
                    name.as_str(),
                    "` specified in two `package.json` files, which at the time is not allowed:\n  * ",
                );
                r.append(path.as_str());
                r.append("\n  * ");
                r.append(previous.as_str());
                r
            },
            GlueError::Translation(text) => text.clone(),
            GlueError::Export { name, cause } => quote(
                "failed to generate bindings for Rust export `",
                name.as_str(),
                "`",
            ),
            GlueError::Import { description, cause } => quote(
                "failed to generate bindings for import `",
                description.as_str(),
                "`",
            ),
            GlueError::UnusedImport => "an import of the module is not used".to_string(),
        }
    }

    /// What caused the error, where it has a cause of its own.
    pub fn cause(&self) -> (r: Option<&GlueError>)
        ensures
            match self@ {
                GlueErrorView::Export { name, cause } => r is Some && r->0@ == *cause,
                GlueErrorView::Import { description, cause } => r is Some && r->0@ == *cause,
                _ => r is None,
            },
    {
        match self {
            GlueError::Export { name, cause } => Some(&**cause),
            GlueError::Import { description, cause } => Some(&**cause),
            _ => None,
        }
    }
}

} // verus!
