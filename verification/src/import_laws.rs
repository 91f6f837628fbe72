//! What holds of the items that the glue imports from JavaScript.
use crate::bindings::ImportNameView;
use crate::context::GlueView;
use crate::error::GlueErrorView;
use crate::imports::{first_defined, with_fields};
use crate::names::identifier;
use crate::parts::joined;
use crate::text::decimal;
use vstd::prelude::*;

verus! {

/// The JavaScript module that an item is imported from, if it is imported from one. Texts that a
/// crate holds, and files beside it, are among the snippets.
pub open spec fn source(import: ImportNameView) -> Option<Seq<char>> {
    match import {
        ImportNameView::Module { module, name } => Some(module),
        ImportNameView::LocalModule { module, name } => Some("./snippets/"@ + module),
        ImportNameView::InlineJs { crate_name, snippet, name } => Some(
            "./snippets/"@ + crate_name + "/inline"@ + decimal(snippet) + ".js"@,
        ),
        _ => None,
    }
}

/// What an item is called where it comes from.
pub open spec fn outer_name(import: ImportNameView) -> Seq<char> {
    match import {
        ImportNameView::Module { module, name } => name,
        ImportNameView::LocalModule { module, name } => name,
        ImportNameView::InlineJs { crate_name, snippet, name } => name,
        ImportNameView::VendorPrefixed { name, prefixes } => name,
        ImportNameView::Global { name } => name,
    }
}

/// An item of a module is imported the first time it is used: it comes last in the list for its
/// module, with its local name where that is another. The lists of other modules stay as they are.
pub proof fn law_imported_item(state: GlueView, import: ImportNameView, fields: Seq<Seq<char>>)
    requires
        source(import) is Some,
        !state.imported.contains_key(import),
    ensures
        ({
            let outcome = state.import_name(import, fields);
            let after = outcome.state;
            let module = source(import)->0;
            let name = outer_name(import);
            let local = identifier(state.identifiers, name);
            let before = if state.js_imports.contains_key(module) {
                state.js_imports[module]
            } else {
                Seq::empty()
            };
            &&& outcome.result == Ok::<_, GlueErrorView>(joined(seq![local] + fields, "."@))
            &&& after.js_imports.contains_key(module)
            &&& after.js_imports[module].drop_last() == before
            &&& after.js_imports[module].last().0 == name
            &&& after.js_imports[module].last().1 == (if local == name {
                None
            } else {
                Some(local)
            })
            &&& forall|other: Seq<char>|
                other != module ==> #[trigger] after.js_imports.contains_key(other)
                    == state.js_imports.contains_key(other) && after.js_imports[other]
                    == state.js_imports[other]
            &&& after.imported == state.imported.insert(import, local)
            &&& after.identifiers == state.identifiers.insert(name)
            &&& after.imports_post == state.imports_post
        }),
{
    law_fields(identifier(state.identifiers, outer_name(import)), fields);
    let after = state.import_name(import, fields).state;
    let module = source(import)->0;
    let before = if state.js_imports.contains_key(module) {
        state.js_imports[module]
    } else {
        Seq::empty()
    };
    assert(after.js_imports[module].drop_last() =~= before);
}

/// An item that has a local name keeps it, and nothing changes.
pub proof fn law_known_item(state: GlueView, import: ImportNameView, fields: Seq<Seq<char>>)
    requires
        state.imported.contains_key(import),
    ensures
        state.import_name(import, fields).state == state,
        state.import_name(import, fields).result == Ok::<_, GlueErrorView>(
            joined(seq![state.imported[import]] + fields, "."@),
        ),
{
    law_fields(state.imported[import], fields);
}

/// A global keeps its name. Where something else is called so, it is refused.
pub proof fn law_global_item(state: GlueView, name: Seq<char>, fields: Seq<Seq<char>>)
    requires
        !state.imported.contains_key(ImportNameView::Global { name }),
    ensures
        ({
            let outcome = state.import_name(ImportNameView::Global { name }, fields);
            let free = identifier(state.identifiers, name) == name;
            &&& outcome.result == (if free {
                Ok(joined(seq![name] + fields, "."@))
            } else {
                Err(GlueErrorView::ImportedTwice(name))
            })
            &&& outcome.state.identifiers == state.identifiers.insert(name)
            &&& outcome.state.js_imports == state.js_imports
            &&& outcome.state.imports_post == state.imports_post
        }),
{
    law_fields(name, fields);
}

/// An item with vendor prefixes gets a constant right behind the imports: the first of its names
/// that is defined, without a prefix and then with each in turn.
pub proof fn law_prefixed_item(
    state: GlueView,
    name: Seq<char>,
    prefixes: Seq<Seq<char>>,
    fields: Seq<Seq<char>>,
)
    requires
        !state.imported.contains_key(ImportNameView::VendorPrefixed { name, prefixes }),
    ensures
        ({
            let outcome = state.import_name(
                ImportNameView::VendorPrefixed { name, prefixes },
                fields,
            );
            &&& outcome.result == Ok::<_, GlueErrorView>(joined(seq!["l"@ + name] + fields, "."@))
            &&& outcome.state.imports_post == state.imports_post + "const l"@ + name + " = "@
                + first_defined(name, Seq::empty(), prefixes) + ";\n"@
            &&& outcome.state.js_imports == state.js_imports
            &&& outcome.state.identifiers == state.identifiers
        }),
{
    law_fields("l"@ + name, fields);
}

/// An expression for the first of some names that is defined asks for one after the other, and is
/// the last where none is.
pub proof fn law_first_defined(name: Seq<char>, prefix: Seq<char>, others: Seq<Seq<char>>)
    ensures
        others.len() == 0 ==> first_defined(name, prefix, others) == prefix + name,
        others.len() > 0 ==> first_defined(name, prefix, others) == "(typeof "@ + prefix + name
            + " !== 'undefined' ? "@ + prefix + name + " : "@ + first_defined(
            name,
            others[0],
            others.skip(1),
        ) + ")"@,
{
}

/// The fields that lead on from a name stand behind it, each behind a dot.
pub proof fn law_fields(name: Seq<char>, fields: Seq<Seq<char>>)
    ensures
        with_fields(name, fields) == joined(seq![name] + fields, "."@),
    decreases fields.len(),
{
    let all = seq![name] + fields;
    if fields.len() == 0 {
        assert(all =~= seq![name]);
    } else {
        law_fields(name, fields.drop_last());
        assert(all.drop_last() =~= seq![name] + fields.drop_last());
        assert(all.last() == fields.last());
    }
}

} // verus!
