//! The JavaScript that the glue exports: functions, constants and classes.
use crate::class::{class_views, classes_wf, ClassView, ExportedClass};
use crate::config::{Bindgen, OutputMode};
use crate::context::{done, failed, unit_view, Context, GlueView, Outcome};
use crate::error::{GlueError, GlueErrorView};
use crate::names::{identifier, in_order};
use crate::snippets::{
    CLASS_FINALIZATION_0, CLASS_FINALIZATION_1, CLASS_FINALIZATION_2, CLASS_FREE_0, CLASS_FREE_1,
    CLASS_FREE_2, CLASS_FREE_FUNCTION_0, CLASS_FREE_FUNCTION_1, CLASS_FREE_FUNCTION_2,
    CLASS_FREE_UNREGISTER, CLASS_NO_CONSTRUCTOR, CLASS_WRAP_0, CLASS_WRAP_1, CLASS_WRAP_2,
    CLASS_WRAP_REGISTER,
};
use crate::text::{has_prefix, same, trim, trimmed};
use vstd::prelude::*;

verus! {

/// Whether a text holds ASCII characters only.
pub open spec fn is_ascii(text: Seq<char>) -> bool {
    forall|i: int| 0 <= i < text.len() ==> (#[trigger] text[i] as u32) < 128
}

/// An ASCII character in lower case.
pub open spec fn lower(c: char) -> char {
    if 'A' <= c <= 'Z' {
        ((c as u32) + 32) as char
    } else {
        c
    }
}

/// What `wasm_bindgen_shared::free_function` gives.
pub uninterp spec fn free_function_name(class: Seq<char>) -> Seq<char>;

/// The name of the export that frees an object of a class.
pub open spec fn free_name(class: Seq<char>) -> Seq<char> {
    if is_ascii(class) {
        "__wbg_"@ + class.map_values(|c: char| lower(c)) + "_free"@
    } else {
        free_function_name(class)
    }
}

/// `wasm_bindgen_shared::free_function`: the name of a class in lower case, between `__wbg_` and
/// `_free`. It is stated for ASCII names; how other letters change in lower case is left unsaid.
#[verifier::external_body]
fn free_function(class: &str) -> (r: String)
    ensures
        r@ == free_name(class@),
        !is_ascii(class@) ==> r@ == free_function_name(class@),
{
    wasm_bindgen_shared::free_function(class)
}

/// How an item is exported. In the glue it is called `definition`, which is `name` but for
/// functions of ES modules.
pub open spec fn export_text(
    mode: OutputMode,
    name: Seq<char>,
    definition: Seq<char>,
    contents: Seq<char>,
) -> Seq<char> {
    let class = "class"@.is_prefix_of(contents);
    if mode.uses_es_modules() {
        if "function"@.is_prefix_of(contents) {
            let body = contents.skip("function"@.len() as int);
            if name == definition {
                "export function "@ + name + body + "\n"@
            } else {
                "function "@ + definition + body + "\nexport { "@ + definition + " as "@ + name
                    + " };\n"@
            }
        } else if class {
            "export "@ + contents + "\n"@
        } else {
            "export const "@ + name + " = "@ + contents + ";\n"@
        }
    } else {
        let exports = if mode.nodejs() {
            "module.exports."@
        } else {
            "__exports."@
        };
        if class {
            contents + "\n"@ + exports + name + " = "@ + name + ";\n"@
        } else {
            exports + name + " = "@ + contents + ";\n"@
        }
    }
}

/// What a method needs that makes an object of a pointer.
pub open spec fn class_wrap(config: Bindgen, name: Seq<char>) -> Seq<char> {
    CLASS_WRAP_0@ + name + CLASS_WRAP_1@ + (if config.weak_refs {
        name + CLASS_WRAP_REGISTER@
    } else {
        Seq::empty()
    }) + CLASS_WRAP_2@
}

/// The method that frees an object.
pub open spec fn class_free(config: Bindgen, name: Seq<char>) -> Seq<char> {
    CLASS_FREE_0@ + (if config.weak_refs {
        name + CLASS_FREE_UNREGISTER@
    } else {
        Seq::empty()
    }) + CLASS_FREE_1@ + name + CLASS_FREE_2@
}

/// A class in JavaScript.
pub open spec fn class_js(config: Bindgen, name: Seq<char>, class: ClassView) -> Seq<char> {
    "class "@ + name + " {\n"@ + (if config.debug && !class.has_constructor {
        CLASS_NO_CONSTRUCTOR@
    } else {
        ""@
    }) + (if class.wrap_needed {
        class_wrap(config, name)
    } else {
        Seq::empty()
    }) + class_free(config, name) + class.contents + "}\n"@
}

/// A field in TypeScript. A field without a setter is read-only.
pub open spec fn field_ts(name: Seq<char>, ty: Seq<char>, has_setter: bool) -> Seq<char> {
    (if has_setter {
        ""@
    } else {
        "readonly "@
    }) + name + ": "@ + ty + ";\n"@
}

/// The fields with those names in TypeScript.
pub open spec fn fields_ts(
    fields: Map<Seq<char>, (Seq<char>, bool)>,
    names: Seq<Seq<char>>,
) -> Seq<char>
    decreases names.len(),
{
    if names.len() == 0 {
        Seq::empty()
    } else {
        let field = fields[names.last()];
        fields_ts(fields, names.drop_last()) + field_ts(names.last(), field.0, field.1)
    }
}

/// A class in TypeScript; the fields stand in the order of their names.
pub open spec fn class_ts(name: Seq<char>, class: ClassView) -> Seq<char> {
    "export class "@ + name + " {\n"@ + "  free(): void;"@ + class.typescript + fields_ts(
        class.fields,
        in_order(class.fields.dom()),
    ) + "}\n"@
}

/// The function that frees what a pointer points to.
pub open spec fn free_text(name: Seq<char>) -> Seq<char> {
    CLASS_FREE_FUNCTION_0@ + name + CLASS_FREE_FUNCTION_1@ + free_name(name)
        + CLASS_FREE_FUNCTION_2@
}

/// What frees the objects that JavaScript drops.
pub open spec fn finalization_text(name: Seq<char>) -> Seq<char> {
    CLASS_FINALIZATION_0@ + name + CLASS_FINALIZATION_1@ + name + CLASS_FINALIZATION_2@
}

impl GlueView {
    /// Whether an item can be exported: constants of ES modules can only where their name is
    /// free.
    pub open spec fn can_export(self, name: Seq<char>, contents: Seq<char>) -> bool {
        ||| !self.config.mode.uses_es_modules()
        ||| "class"@.is_prefix_of(contents)
        ||| "function"@.is_prefix_of(trimmed(contents))
        ||| identifier(self.identifiers, name) == name
    }

    /// An item is exported. A class has to get the name that it has outside.
    pub open spec fn export(
        self,
        name: Seq<char>,
        contents: Seq<char>,
        comments: Option<Seq<char>>,
    ) -> Outcome<()> {
        let definition = identifier(self.identifiers, name);
        let used = self.use_identifier(name);
        if "class"@.is_prefix_of(contents) && definition != name {
            failed(used, GlueErrorView::ShadowedClass(name))
        } else {
            let docs = match comments {
                Some(docs) => docs,
                None => Seq::empty(),
            };
            done(
                GlueView {
                    globals: used.globals + docs,
                    typescript: used.typescript + docs,
                    ..used
                }.emit(export_text(self.config.mode, name, definition, trimmed(contents))),
                (),
            )
        }
    }

    /// What is written before a class.
    pub open spec fn write_free(self, name: Seq<char>) -> GlueView {
        let state = self.emit(free_text(name));
        if self.config.weak_refs {
            state.emit(finalization_text(name))
        } else {
            state
        }
    }

    /// A class is written.
    pub open spec fn write_class(self, name: Seq<char>, class: ClassView) -> Outcome<()> {
        let exported = self.write_free(name).export(
            name,
            class_js(self.config, name, class),
            Some(class.comments),
        );
        match exported.result {
            Ok(_) => done(
                GlueView {
                    typescript: exported.state.typescript + class_ts(name, class),
                    ..exported.state
                },
                (),
            ),
            Err(error) => exported,
        }
    }

    /// The classes with those names are written, up to the first that cannot be.
    pub open spec fn write_each(
        self,
        classes: Map<Seq<char>, ClassView>,
        names: Seq<Seq<char>>,
    ) -> Outcome<()>
        decreases names.len(),
    {
        if names.len() == 0 {
            done(self, ())
        } else {
            let before = self.write_each(classes, names.drop_last());
            match before.result {
                Ok(_) => before.state.write_class(names.last(), classes[names.last()]),
                Err(error) => before,
            }
        }
    }

    /// All classes are written, in the order of their names.
    pub open spec fn write_classes(self) -> Outcome<()> {
        GlueView { classes: None, ..self }.write_each(
            self.classes->0,
            in_order(self.classes->0.dom()),
        )
    }

    /// The class of that name; one without members where there is none yet.
    pub open spec fn class(self, name: Seq<char>) -> ClassView {
        if self.classes->0.contains_key(name) {
            self.classes->0[name]
        } else {
            ClassView::empty()
        }
    }

    /// A class is changed or added.
    pub open spec fn with_class(self, name: Seq<char>, class: ClassView) -> GlueView {
        GlueView { classes: Some(self.classes->0.insert(name, class)), ..self }
    }

    /// A class needs a function that makes an object of a pointer.
    pub open spec fn require_class_wrap(self, name: Seq<char>) -> GlueView {
        self.with_class(name, ClassView { wrap_needed: true, ..self.class(name) })
    }
}

/// Writes the method that makes an object of a pointer.
fn write_wrap(config: &Bindgen, name: &str) -> (r: String)
    ensures
        r@ == class_wrap(*config, name@),
{
    let mut register = String::new();
    if config.weak_refs {
        register.append(name);
        register.append(CLASS_WRAP_REGISTER);
        assert(register@ == name@ + CLASS_WRAP_REGISTER@);
    }
    let mut r = CLASS_WRAP_0.to_string();
    r.append(name);
    r.append(CLASS_WRAP_1);
    r.append(register.as_str());
    r.append(CLASS_WRAP_2);
    r
}

/// Writes the method that frees an object.
fn write_free(config: &Bindgen, name: &str) -> (r: String)
    ensures
        r@ == class_free(*config, name@),
{
    let mut unregister = String::new();
    if config.weak_refs {
        unregister.append(name);
        unregister.append(CLASS_FREE_UNREGISTER);
        assert(unregister@ == name@ + CLASS_FREE_UNREGISTER@);
    }
    let mut r = CLASS_FREE_0.to_string();
    r.append(unregister.as_str());
    r.append(CLASS_FREE_1);
    r.append(name);
    r.append(CLASS_FREE_2);
    r
}

/// Writes a class in JavaScript.
fn write_class_js(config: &Bindgen, name: &str, class: &ExportedClass) -> (r: String)
    ensures
        r@ == class_js(*config, name@, class@),
{
    let mut r = "class ".to_string();
    r.append(name);
    r.append(" {\n");
    if config.debug && !class.has_constructor {
        r.append(CLASS_NO_CONSTRUCTOR);
    } else {
        r.append("");
    }
    let mut wrap = String::new();
    if class.wrap_needed {
        wrap = write_wrap(config, name);
    }
    r.append(wrap.as_str());
    r.append(write_free(config, name).as_str());
    r.append(class.contents.as_str());
    r.append("}\n");
    r
}

/// Writes a class in TypeScript.
fn write_class_ts(name: &str, class: &ExportedClass) -> (r: String)
    requires
        class.wf(),
    ensures
        r@ == class_ts(name@, class@),
{
    let mut r = "export class ".to_string();
    r.append(name);
    r.append(" {\n");
    r.append("  free(): void;");
    r.append(class.typescript.as_str());
    let ghost names = in_order(class@.fields.dom());
    let mut fields = String::new();
    let mut i: usize = 0;
    assert(class@.fields.dom() =~= class.typescript_fields@.dom());
    while i < class.typescript_fields.len()
        invariant
            class.wf(),
            class@.fields.dom() == class.typescript_fields@.dom(),
            names == in_order(class@.fields.dom()),
            i <= names.len(),
            fields@ == fields_ts(class@.fields, names.take(i as int)),
        decreases names.len() - i,
    {
        let field = class.typescript_fields.name_at(i);
        let (ty, has_setter) = class.typescript_fields.value_at(i);
        if *has_setter {
            fields.append("");
        } else {
            fields.append("readonly ");
        }
        fields.append(field);
        fields.append(": ");
        fields.append(ty.as_str());
        fields.append(";\n");
        proof {
            let done = names.take(i as int);
            let all = names.take(i as int + 1);
            assert(all.drop_last() == done);
            assert(all.last() == field@);
            assert(fields@ == fields_ts(class@.fields, done) + field_ts(field@, ty@, *has_setter));
        }
        i += 1;
    }
    assert(names.take(names.len() as int) == names);
    r.append(fields.as_str());
    r.append("}\n");
    r
}

/// Writes how an item is exported.
fn write_export(mode: &OutputMode, name: &str, definition: &str, contents: &str) -> (r: String)
    ensures
        r@ == export_text(*mode, name@, definition@, contents@),
{
    let class = has_prefix(contents, "class");
    let mut r = String::new();
    if mode.uses_es_modules() {
        if has_prefix(contents, "function") {
            proof {
                reveal_strlit("function");
            }
            let len = contents.unicode_len();
            let body = contents.substring_char(8, len);
            assert(body@ == contents@.skip(8));
            if same(name, definition) {
                r.append("export function ");
                r.append(name);
                r.append(body);
                r.append("\n");
            } else {
                r.append("function ");
                r.append(definition);
                r.append(body);
                r.append("\nexport { ");
                r.append(definition);
                r.append(" as ");
                r.append(name);
                r.append(" };\n");
            }
        } else if class {
            r.append("export ");
            r.append(contents);
            r.append("\n");
        } else {
            r.append("export const ");
            r.append(name);
            r.append(" = ");
            r.append(contents);
            r.append(";\n");
        }
    } else {
        let exports = if mode.nodejs() {
            "module.exports."
        } else {
            "__exports."
        };
        if class {
            r.append(contents);
            r.append("\n");
            r.append(exports);
            r.append(name);
            r.append(" = ");
            r.append(name);
            r.append(";\n");
        } else {
            r.append(exports);
            r.append(name);
            r.append(" = ");
            r.append(contents);
            r.append(";\n");
        }
    }
    assert(r@ == export_text(*mode, name@, definition@, contents@));
    r
}

impl<'a> Context<'a> {
    /// Whether an item can be exported: constants of ES modules can only where their name is
    /// free.
    pub fn can_export(&self, name: &str, contents: &str) -> (r: bool)
        ensures
            r == self@.can_export(name@, contents@),
    {
        !self.options().mode.uses_es_modules() || has_prefix(contents, "class") || has_prefix(
            trim(contents),
            "function",
        ) || self.identifier_is_free(name)
    }

    /// Exports an item. A class has to get the name that it has outside.
    pub fn export(&mut self, export_name: &str, contents: &str, comments: Option<String>) -> (r:
        Result<(), GlueError>)
        requires
            old(self).wf(),
            old(self)@.can_export(export_name@, contents@),
        ensures
            final(self).wf(),
            old(self)@.export(
                export_name@,
                contents@,
                match comments {
                    Some(docs) => Some(docs@),
                    None => None,
                },
            ) == (Outcome { state: final(self)@, result: unit_view(r) }),
    {
        let definition_name = self.define(export_name);
        if has_prefix(contents, "class") && !same(definition_name.as_str(), export_name) {
            return Err(GlueError::ShadowedClass(export_name.to_string()));
        }
        let contents = trim(contents);
        let docs = match comments {
            Some(docs) => docs,
            None => String::new(),
        };
        self.document(docs.as_str());
        let global = write_export(
            &self.options().mode,
            export_name,
            definition_name.as_str(),
            contents,
        );
        self.global(global.as_str());
        Ok(())
    }

    /// Writes a class.
    pub fn write_class(&mut self, name: &str, class: &ExportedClass) -> (r: Result<(), GlueError>)
        requires
            old(self).wf(),
            class.wf(),
        ensures
            final(self).wf(),
            old(self)@.write_class(name@, class@) == (Outcome {
                state: final(self)@,
                result: unit_view(r),
            }),
    {
        let config = self.options();
        let mut free = CLASS_FREE_FUNCTION_0.to_string();
        free.append(name);
        free.append(CLASS_FREE_FUNCTION_1);
        free.append(free_function(name).as_str());
        free.append(CLASS_FREE_FUNCTION_2);
        self.global(free.as_str());
        if config.weak_refs {
            let mut finalization = CLASS_FINALIZATION_0.to_string();
            finalization.append(name);
            finalization.append(CLASS_FINALIZATION_1);
            finalization.append(name);
            finalization.append(CLASS_FINALIZATION_2);
            self.global(finalization.as_str());
        }
        let js = write_class_js(config, name, class);
        let ts = write_class_ts(name, class);
        proof {
            lemma_class_prefix(*config, name@, class@);
        }
        match self.export(name, js.as_str(), Some(class.comments.clone())) {
            Ok(()) => {},
            Err(error) => return Err(error),
        }
        self.add_typescript(ts.as_str());
        Ok(())
    }

    /// Writes all classes, in the order of their names.
    pub fn write_classes(&mut self) -> (r: Result<(), GlueError>)
        requires
            old(self).wf(),
            old(self)@.classes is Some,
        ensures
            final(self).wf(),
            old(self)@.write_classes() == (Outcome { state: final(self)@, result: unit_view(r) }),
    {
        let classes = self.take_classes();
        let ghost start = self@;
        let ghost all = class_views(classes@);
        let ghost names = in_order(all.dom());
        assert(all.dom() =~= classes@.dom());
        let mut i: usize = 0;
        while i < classes.len()
            invariant
                classes_wf(&classes),
                all == class_views(classes@),
                all.dom() == classes@.dom(),
                names == in_order(all.dom()),
                i <= names.len(),
                self.wf(),
                start.write_each(all, names.take(i as int)) == done(self@, ()),
                old(self)@.write_classes() == start.write_each(all, names),
            decreases names.len() - i,
        {
            proof {
                assert(names.take(i as int + 1).drop_last() == names.take(i as int));
            }
            let name = classes.name_at(i);
            let class = classes.value_at(i);
            match self.write_class(name, class) {
                Ok(()) => {},
                Err(error) => {
                    proof {
                        lemma_write_stops(start, all, names, i as int + 1);
                    }
                    return Err(error);
                },
            }
            i += 1;
        }
        assert(names.take(names.len() as int) == names);
        Ok(())
    }

    /// Notes that a class needs a function that makes an object of a pointer.
    pub fn require_class_wrap(&mut self, name: &str)
        requires
            old(self).wf(),
            old(self)@.classes is Some,
        ensures
            final(self).wf(),
            final(self)@ == old(self)@.require_class_wrap(name@),
    {
        self.class_mut(name).wrap_needed = true;
    }
}

/// A class in JavaScript starts with `class`.
proof fn lemma_class_prefix(config: Bindgen, name: Seq<char>, class: ClassView)
    ensures
        "class"@.is_prefix_of(class_js(config, name, class)),
{
    reveal_strlit("class");
    reveal_strlit("class ");
    let js = class_js(config, name, class);
    assert("class "@.is_prefix_of(js)) by {
        assert(js.take("class "@.len() as int) == "class "@);
    }
    assert("class"@ == "class "@.take(5));
    assert(js.take(5) == "class"@);
}

/// The classes behind one that cannot be written are not written.
proof fn lemma_write_stops(
    state: GlueView,
    classes: Map<Seq<char>, ClassView>,
    names: Seq<Seq<char>>,
    n: int,
)
    requires
        0 <= n <= names.len(),
        state.write_each(classes, names.take(n)).result is Err,
    ensures
        state.write_each(classes, names) == state.write_each(classes, names.take(n)),
    decreases names.len() - n,
{
    if n == names.len() {
        assert(names.take(n) == names);
    } else {
        assert(names.take(n + 1).drop_last() == names.take(n));
        lemma_write_stops(state, classes, names, n + 1);
    }
}

} // verus!
