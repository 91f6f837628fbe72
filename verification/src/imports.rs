//! Imported JavaScript items and the local names that they get.
use crate::bindings::{texts, ImportNameView, JsImport, JsImportName};
use crate::context::{
    done, failed, imported_map, item_view, items_view, text_view, Context, GlueView, ImportedItem,
    Outcome,
};
use crate::error::{GlueError, GlueErrorView};
use crate::names::{generate_identifier, identifier};
use crate::text::{decimal, same, to_decimal};
use vstd::prelude::*;

verus! {

/// An expression for the first of `prefix + name` and the names with the other prefixes that is
/// defined, or for the last of them where none is.
pub open spec fn first_defined(name: Seq<char>, prefix: Seq<char>, others: Seq<Seq<char>>) -> Seq<
    char,
>
    decreases others.len(),
{
    if others.len() == 0 {
        prefix + name
    } else {
        "(typeof "@ + prefix + name + " !== 'undefined' ? "@ + prefix + name + " : "@
            + first_defined(name, others[0], others.skip(1)) + ")"@
    }
}

/// `name` and the fields that lead on from it.
pub open spec fn with_fields(name: Seq<char>, fields: Seq<Seq<char>>) -> Seq<char>
    decreases fields.len(),
{
    if fields.len() == 0 {
        name
    } else {
        with_fields(name, fields.drop_last()) + "."@ + fields.last()
    }
}

/// The JavaScript module of a text that a crate holds.
pub open spec fn inline_module(crate_name: Seq<char>, snippet: nat) -> Seq<char> {
    "./snippets/"@ + crate_name + "/inline"@ + decimal(snippet) + ".js"@
}

impl GlueView {
    /// An identifier is handed out.
    pub open spec fn use_identifier(self, name: Seq<char>) -> GlueView {
        GlueView { identifiers: self.identifiers.insert(name), ..self }
    }

    /// An item of a JavaScript module is imported, under an identifier of its own.
    pub open spec fn import_from(self, module: Seq<char>, name: Seq<char>) -> Outcome<Seq<char>> {
        let local = identifier(self.identifiers, name);
        let item: ImportedItem = (
            name,
            if name == local {
                None
            } else {
                Some(local)
            },
        );
        let before = if self.js_imports.contains_key(module) {
            self.js_imports[module]
        } else {
            Seq::empty()
        };
        done(
            GlueView {
                js_imports: self.js_imports.insert(module, before.push(item)),
                ..self.use_identifier(name)
            },
            local,
        )
    }

    /// An item gets a local name that it does not have yet.
    pub open spec fn import_new(self, import: ImportNameView) -> Outcome<Seq<char>> {
        match import {
            ImportNameView::Module { module, name } => self.import_from(module, name),
            ImportNameView::LocalModule { module, name } => self.import_from(
                "./snippets/"@ + module,
                name,
            ),
            ImportNameView::InlineJs { crate_name, snippet, name } => self.import_from(
                inline_module(crate_name, snippet),
                name,
            ),
            ImportNameView::VendorPrefixed { name, prefixes } => done(
                GlueView {
                    imports_post: self.imports_post + "const l"@ + name + " = "@ + first_defined(
                        name,
                        Seq::empty(),
                        prefixes,
                    ) + ";\n"@,
                    ..self
                },
                "l"@ + name,
            ),
            ImportNameView::Global { name } => {
                let state = self.use_identifier(name);
                if identifier(self.identifiers, name) == name {
                    done(state, name)
                } else {
                    failed(state, GlueErrorView::ImportedTwice(name))
                }
            },
        }
    }

    /// The local name of an item: the one that it has, or a new one.
    pub open spec fn local_name(self, import: ImportNameView) -> Outcome<Seq<char>> {
        if self.imported.contains_key(import) {
            done(self, self.imported[import])
        } else {
            let new = self.import_new(import);
            match new.result {
                Ok(name) => done(
                    GlueView { imported: new.state.imported.insert(import, name), ..new.state },
                    name,
                ),
                Err(error) => new,
            }
        }
    }

    /// An expression for an item, or for a field of one.
    pub open spec fn import_name(self, import: ImportNameView, fields: Seq<Seq<char>>) -> Outcome<
        Seq<char>,
    > {
        let local = self.local_name(import);
        match local.result {
            Ok(name) => done(local.state, with_fields(name, fields)),
            Err(error) => local,
        }
    }
}

/// Writes an expression for the first of some names that is defined.
fn switch(dst: &mut String, name: &str, prefix: &str, prefixes: &Vec<String>, from: usize)
    requires
        from <= prefixes@.len(),
    ensures
        final(dst)@ == old(dst)@ + first_defined(
            name@,
            prefix@,
            texts(prefixes@).skip(from as int),
        ),
    decreases prefixes@.len() - from,
{
    let ghost others = texts(prefixes@).skip(from as int);
    let ghost start = dst@;
    if from == prefixes.len() {
        dst.append(prefix);
        dst.append(name);
        assert(dst@ == start + (prefix@ + name@));
        return ;
    }
    dst.append("(typeof ");
    dst.append(prefix);
    dst.append(name);
    dst.append(" !== 'undefined' ? ");
    dst.append(prefix);
    dst.append(name);
    dst.append(" : ");
    switch(dst, name, prefixes[from].as_str(), prefixes, from + 1);
    dst.append(")");
    proof {
        assert(others[0] == prefixes@[from as int]@);
        assert(others.skip(1) == texts(prefixes@).skip(from as int + 1));
        let rest = first_defined(name@, others[0], others.skip(1));
        let head = "(typeof "@ + prefix@ + name@ + " !== 'undefined' ? "@ + prefix@ + name@ + " : "@;
        assert(dst@ == start + (head + rest + ")"@));
    }
}

/// Adds the fields that lead on from `name`.
fn add_fields(name: String, fields: &Vec<String>) -> (r: String)
    ensures
        r@ == with_fields(name@, texts(fields@)),
{
    let mut r = name;
    let mut i: usize = 0;
    let ghost all = texts(fields@);
    assert(all.take(0) == Seq::<Seq<char>>::empty());
    while i < fields.len()
        invariant
            i <= fields.len(),
            all == texts(fields@),
            r@ == with_fields(name@, all.take(i as int)),
        decreases fields.len() - i,
    {
        assert(all.take(i as int + 1).drop_last() == all.take(i as int));
        r.append(".");
        r.append(fields[i].as_str());
        i += 1;
    }
    assert(all.take(all.len() as int) == all);
    r
}

impl<'a> Context<'a> {
    /// The local name of an item that has one.
    fn known_name(&self, import: &JsImportName) -> (r: Option<String>)
        ensures
            match r {
                Some(name) => self@.imported.contains_key(import@) && self@.imported[import@]
                    == name@,
                None => !self@.imported.contains_key(import@),
            },
    {
        proof {
            reveal(Context::model);
        }
        let mut i: usize = self.imported_names.len();
        let ghost list = self.imported_names@;
        assert(list.take(list.len() as int) == list);
        while i > 0
            invariant
                i <= list.len(),
                list == self.imported_names@,
                imported_map(list).contains_key(import@) == imported_map(
                    list.take(i as int),
                ).contains_key(import@),
                imported_map(list).contains_key(import@) ==> imported_map(list)[import@]
                    == imported_map(list.take(i as int))[import@],
            decreases i,
        {
            proof {
                reveal(Context::model);
                assert(list.take(i as int).drop_last() == list.take(i as int - 1));
            }
            if self.imported_names[i - 1].0.is(import) {
                return Some(self.imported_names[i - 1].1.clone());
            }
            i -= 1;
        }
        assert(list.take(0).len() == 0);
        None
    }

    /// Imports an item of a JavaScript module.
    fn import_from(&mut self, module: &str, name: &str) -> (r: String)
        requires
            old(self).wf(),
        ensures
            final(self).wf(),
            old(self)@.import_from(module@, name@) == done(final(self)@, r@),
    {
        proof {
            reveal(Context::model);
            reveal(Context::wf);
        }
        let unique_name = generate_identifier(name, &mut self.defined_identifiers);
        let rename = if same(name, unique_name.as_str()) {
            None
        } else {
            Some(unique_name.clone())
        };
        let item = (name.to_string(), rename);
        let ghost before = self.js_imports@;
        let items = self.js_imports.entry(module, Vec::new());
        let ghost old_items = *items;
        items.push(item);
        proof {
            let new_items = self.js_imports@[module@];
            assert(items_view(new_items) == items_view(old_items).push(item_view(item)));
            assert(!before.contains_key(module@) ==> items_view(old_items) == Seq::<
                ImportedItem,
            >::empty());
            assert(self@.js_imports =~= old(self)@.js_imports.insert(
                module@,
                items_view(new_items),
            ));
        }
        unique_name
    }

    /// Gives a local name to an item that has none.
    fn import_new(&mut self, import: &JsImportName) -> (r: Result<String, GlueError>)
        requires
            old(self).wf(),
        ensures
            final(self).wf(),
            old(self)@.import_new(import@) == (Outcome {
                state: final(self)@,
                result: text_view(r),
            }),
    {
        proof {
            reveal(Context::model);
            reveal(Context::wf);
        }
        match import {
            JsImportName::Module { module, name } => Ok(
                self.import_from(module.as_str(), name.as_str()),
            ),
            JsImportName::LocalModule { module, name } => {
                let mut path = "./snippets/".to_string();
                path.append(module.as_str());
                Ok(self.import_from(path.as_str(), name.as_str()))
            },
            JsImportName::InlineJs { unique_crate_identifier, snippet_idx_in_crate, name } => {
                let mut path = "./snippets/".to_string();
                path.append(unique_crate_identifier.as_str());
                path.append("/inline");
                path.append(to_decimal(*snippet_idx_in_crate as u64).as_str());
                path.append(".js");
                Ok(self.import_from(path.as_str(), name.as_str()))
            },
            JsImportName::VendorPrefixed { name, prefixes } => {
                self.imports_post.append("const l");
                self.imports_post.append(name.as_str());
                self.imports_post.append(" = ");
                assert(texts(prefixes@).skip(0) == texts(prefixes@));
                let none = String::new();
                switch(&mut self.imports_post, name.as_str(), none.as_str(), prefixes, 0);
                self.imports_post.append(";\n");
                let mut local = "l".to_string();
                local.append(name.as_str());
                Ok(local)
            },
            JsImportName::Global { name } => {
                let unique_name = generate_identifier(name.as_str(), &mut self.defined_identifiers);
                if !same(unique_name.as_str(), name.as_str()) {
                    return Err(GlueError::ImportedTwice(name.clone()));
                }
                Ok(unique_name)
            },
        }
    }

    /// An expression for an imported item, or for a field of one.
    ///
    /// The item gets a local name the first time.
    pub fn import_name(&mut self, import: &JsImport) -> (r: Result<String, GlueError>)
        requires
            old(self).wf(),
        ensures
            final(self).wf(),
            old(self)@.import_name(import.name@, texts(import.fields@)) == (Outcome {
                state: final(self)@,
                result: text_view(r),
            }),
    {
        if let Some(name) = self.known_name(&import.name) {
            return Ok(add_fields(name, &import.fields));
        }
        let name = match self.import_new(&import.name) {
            Ok(name) => name,
            Err(error) => return Err(error),
        };
        proof {
            reveal(Context::model);
            reveal(Context::wf);
        }
        let ghost before = self.imported_names@;
        self.imported_names.push((import.name.copy(), name.clone()));
        assert(self.imported_names@.drop_last() == before);
        Ok(add_fields(name, &import.fields))
    }
}

} // verus!
