//! What the models of values tell apart, and what errors read like.
use crate::bindings::{texts, JsImportName, PackageJson};
use crate::error::{GlueError, GlueErrorView};
use crate::generate::{Action, ActionView, ExportGlue, ExportRequest};
use crate::parts::{holds, lemma_middle};
use vstd::prelude::*;

verus! {

/// Two imported items are the same if and only if they come from the same place by the same name.
pub proof fn law_same_import(a: JsImportName, b: JsImportName)
    ensures
        a@ == b@ <==> (match (a, b) {
            (JsImportName::Global { name: x }, JsImportName::Global { name: y }) => x@ == y@,
            (
                JsImportName::Module { module: m, name: x },
                JsImportName::Module { module: n, name: y },
            ) => m@ == n@ && x@ == y@,
            (
                JsImportName::LocalModule { module: m, name: x },
                JsImportName::LocalModule { module: n, name: y },
            ) => m@ == n@ && x@ == y@,
            (
                JsImportName::InlineJs {
                    unique_crate_identifier: m,
                    snippet_idx_in_crate: i,
                    name: x,
                },
                JsImportName::InlineJs {
                    unique_crate_identifier: n,
                    snippet_idx_in_crate: j,
                    name: y,
                },
            ) => m@ == n@ && i == j && x@ == y@,
            (
                JsImportName::VendorPrefixed { name: x, prefixes: m },
                JsImportName::VendorPrefixed { name: y, prefixes: n },
            ) => x@ == y@ && m@.len() == n@.len() && forall|i: int|
                0 <= i < m@.len() ==> (#[trigger] m@[i])@ == n@[i]@,
            _ => false,
        }),
{
    if let JsImportName::VendorPrefixed { name: x, prefixes: m } = a {
        if let JsImportName::VendorPrefixed { name: y, prefixes: n } = b {
            if texts(m@) == texts(n@) {
                assert(texts(m@).len() == texts(n@).len());
                assert forall|i: int| 0 <= i < m@.len() implies (#[trigger] m@[i])@ == n@[i]@ by {
                    assert(texts(m@)[i] == texts(n@)[i]);
                }
            }
            if m@.len() == n@.len() && forall|i: int|
                0 <= i < m@.len() ==> (#[trigger] m@[i])@ == n@[i]@ {
                assert(texts(m@) =~= texts(n@));
            }
        }
    }
}

/// The models of requests, translations and files hold the texts that these hold.
pub proof fn law_models(glue: ExportGlue, request: ExportRequest, action: Action, file: PackageJson)
    ensures
        glue@.js == glue.js@ && glue@.ts == glue.ts@ && glue@.js_doc == glue.js_doc@ && glue@.ret_ty
            == glue.ret_ty@,
        request@.js_name == request.js_name@ && request@.method == request.method
            && request@.prefix == request.prefix@ && request@.invocation == request.invocation@,
        request@.constructor is Some == request.constructor is Some,
        request.constructor is Some ==> request@.constructor->0 == request.constructor->0@,
        match action {
            Action::Export(asked) => action@ == ActionView::Export(asked@),
            Action::Import(asked) => action@ == (ActionView::Import {
                variadic: asked.variadic,
                catch: asked.catch,
                catch_and_rethrow: asked.catch_and_rethrow,
            }),
            Action::Done => action@ == ActionView::Done,
        },
        match file.contents {
            Ok(text) => file.text() == Ok::<_, Seq<char>>(text@),
            Err(reason) => file.text() == Err::<Seq<char>, _>(reason@),
        },
{
}

/// What an error is about: the name, the module, the class or the file that it speaks of.
pub open spec fn subject(error: GlueErrorView) -> Option<Seq<char>> {
    match error {
        GlueErrorView::ShadowedClass(name) => Some(name),
        GlueErrorView::MissingInternalExport(name) => Some(name),
        GlueErrorView::ModuleImport(module) => Some(module),
        GlueErrorView::DuplicateConstructor(class) => Some(class),
        GlueErrorView::ImportedTwice(name) => Some(name),
        GlueErrorView::DependenciesUnsupported { path } => Some(path),
        GlueErrorView::UnreadableManifest { path, reason } => Some(path),
        GlueErrorView::ManifestNotObject { path } => Some(path),
        GlueErrorView::ManifestKeys { path } => Some(path),
        GlueErrorView::DependenciesNotObject { path } => Some(path),
        GlueErrorView::VersionNotString { path } => Some(path),
        GlueErrorView::DuplicateDependency { name, path, previous } => Some(name),
        GlueErrorView::Export { name, cause } => Some(name),
        GlueErrorView::Import { description, cause } => Some(description),
        _ => None,
    }
}

/// An error names what it is about. Where two files ask for a package, it names both.
pub proof fn law_message(error: GlueErrorView)
    ensures
        subject(error) is Some ==> holds(error.message(), subject(error)->0),
        error matches GlueErrorView::DuplicateDependency { name, path, previous } ==> holds(
            error.message(),
            path,
        ) && holds(error.message(), previous) && error.message() == "dependency on NPM package `"@
            + name
            + "` specified in two `package.json` files, which at the time is not allowed:\n  * "@
            + path + "\n  * "@ + previous,
        error matches GlueErrorView::InvalidJson(reason) ==> error.message() == reason,
        error matches GlueErrorView::Translation(text) ==> error.message() == text,
{
    let text = error.message();
    if let GlueErrorView::DuplicateDependency { name, path, previous } = error {
        let (a, b, c) = (
            "dependency on NPM package `"@,
            "` specified in two `package.json` files, which at the time is not allowed:\n  * "@,
            "\n  * "@,
        );
        let none = Seq::<char>::empty();
        lemma_middle(a, name, b + path + c + previous);
        assert(a + name + (b + path + c + previous) =~= text);
        lemma_middle(a + name + b, path, c + previous);
        assert(a + name + b + path + (c + previous) =~= text);
        lemma_middle(a + name + b + path + c, previous, none);
        assert(a + name + b + path + c + previous + none =~= text);
    } else if subject(error) is Some {
        let name = subject(error)->0;
        let (a, b) = frame(error);
        lemma_middle(a, name, b);
        assert(text == a + name + b);
    }
}

/// What stands around the name in a message.
spec fn frame(error: GlueErrorView) -> (Seq<char>, Seq<char>) {
    match error {
        GlueErrorView::ShadowedClass(name) => (
            "cannot shadow already defined class `"@,
            "`"@,
        ),
        GlueErrorView::MissingInternalExport(name) => (
            "the exported function `"@,
            "` is required to generate bindings but it was not found in the wasm file, perhaps the `std` feature of the `wasm-bindgen` crate needs to be enabled?"@,
        ),
        GlueErrorView::ModuleImport(module) => (
            "importing from `"@,
            "` isn't supported with `--target no-modules`"@,
        ),
        GlueErrorView::DuplicateConstructor(class) => (
            "found duplicate constructor for class `"@,
            "`"@,
        ),
        GlueErrorView::ImportedTwice(name) => ("cannot import `"@, "` from two locations"@),
        GlueErrorView::DependenciesUnsupported { path } => (
            "NPM dependencies have been specified in `"@,
            "` but this is only compatible with the `bundler` and `nodejs` targets"@,
        ),
        GlueErrorView::UnreadableManifest { path, reason } => ("failed to read `"@, "`"@),
        GlueErrorView::ManifestNotObject { path } => (
            "expected `package.json` to have an JSON object in `"@,
            "`"@,
        ),
        GlueErrorView::ManifestKeys { path } => (
            "NPM manifest found at `"@,
            "` can currently only have one key, `dependencies`, and no other fields"@,
        ),
        GlueErrorView::DependenciesNotObject { path } => (
            "expected `dependencies` to be a JSON object in `"@,
            "`"@,
        ),
        GlueErrorView::VersionNotString { path } => (
            "keys in `dependencies` are expected to be strings in `"@,
            "`"@,
        ),
        GlueErrorView::Export { name, cause } => (
            "failed to generate bindings for Rust export `"@,
            "`"@,
        ),
        _ => ("failed to generate bindings for import `"@, "`"@),
    }
}

/// The model of an error is about what the error is about, and has the cause that the error has.
pub proof fn law_error_model(error: GlueError)
    ensures
        match error {
            GlueError::Export { name, cause } => error@ == (GlueErrorView::Export {
                name: name@,
                cause: Box::new(cause@),
            }),
            GlueError::Import { description, cause } => error@ == (GlueErrorView::Import {
                description: description@,
                cause: Box::new(cause@),
            }),
            GlueError::ShadowedClass(name) => error@ == GlueErrorView::ShadowedClass(name@),
            GlueError::MissingInternalExport(name) => error@
                == GlueErrorView::MissingInternalExport(name@),
            GlueError::ModuleImport(name) => error@ == GlueErrorView::ModuleImport(name@),
            GlueError::DuplicateConstructor(name) => error@ == GlueErrorView::DuplicateConstructor(
                name@,
            ),
            GlueError::ImportedTwice(name) => error@ == GlueErrorView::ImportedTwice(name@),
            GlueError::InvalidJson(reason) => error@ == GlueErrorView::InvalidJson(reason@),
            GlueError::Translation(text) => error@ == GlueErrorView::Translation(text@),
            GlueError::DuplicateDependency { name, path, previous } => error@ == (
            GlueErrorView::DuplicateDependency { name: name@, path: path@, previous: previous@ }),
            GlueError::UnreadableManifest { path, reason } => error@ == (
            GlueErrorView::UnreadableManifest { path: path@, reason: reason@ }),
            _ => true,
        },
{
}

} // verus!
