//! The JavaScript classes that are exported.
use crate::names::NameMap;
use crate::text::{lines, split_lines};
use vstd::prelude::*;

verus! {

/// An exported class, as far as it has been put together.
pub struct ExportedClass {
    pub(crate) comments: String,
    pub(crate) contents: String,
    pub(crate) typescript: String,
    pub(crate) has_constructor: bool,
    pub(crate) wrap_needed: bool,
    /// From the name of a field to its type and whether it has a setter.
    pub(crate) typescript_fields: NameMap<(String, bool)>,
}

/// The model of an [`ExportedClass`].
#[verifier::ext_equal]
pub struct ClassView {
    /// The documentation of the class.
    pub comments: Seq<char>,
    /// The members, in JavaScript.
    pub contents: Seq<char>,
    /// The members but for the fields, in TypeScript.
    pub typescript: Seq<char>,
    pub has_constructor: bool,
    /// Whether the class needs a function that makes an object of a pointer.
    pub wrap_needed: bool,
    /// From the name of a field to its TypeScript type and whether it has a setter.
    pub fields: Map<Seq<char>, (Seq<char>, bool)>,
}

impl View for ExportedClass {
    type V = ClassView;

    open(crate) spec fn view(&self) -> ClassView {
        ClassView {
            comments: self.comments@,
            contents: self.contents@,
            typescript: self.typescript@,
            has_constructor: self.has_constructor,
            wrap_needed: self.wrap_needed,
            fields: self.typescript_fields@.map_values(|field: (String, bool)| (field.0@, field.1)),
        }
    }
}

impl ClassView {
    /// A class without members.
    pub open spec fn empty() -> ClassView {
        ClassView {
            comments: Seq::empty(),
            contents: Seq::empty(),
            typescript: Seq::empty(),
            has_constructor: false,
            wrap_needed: false,
            fields: Map::empty(),
        }
    }

    /// The class with one more method.
    pub open spec fn push(
        self,
        docs: Seq<char>,
        function_name: Seq<char>,
        function_prefix: Seq<char>,
        js: Seq<char>,
        ts: Seq<char>,
    ) -> ClassView {
        ClassView {
            contents: self.contents + docs + function_prefix + function_name + js + "\n"@,
            typescript: self.typescript + docs + "  "@ + function_prefix + ts + "\n"@,
            ..self
        }
    }

    /// The class with a getter or a setter for a field.
    ///
    /// The type of the field is the last that was given, and none where none was. The field has
    /// a setter once one was added.
    pub open spec fn push_field(
        self,
        docs: Seq<char>,
        field: Seq<char>,
        js: Seq<char>,
        ts: Option<Seq<char>>,
        getter: bool,
    ) -> ClassView {
        let before = if self.fields.contains_key(field) {
            self.fields[field]
        } else {
            (Seq::empty(), false)
        };
        let ty = match ts {
            Some(ts) => ts,
            None => before.0,
        };
        ClassView {
            contents: self.contents + docs + (if getter {
                "get "@
            } else {
                "set "@
            }) + field + js + "\n"@,
            fields: self.fields.insert(field, (ty, before.1 || !getter)),
            ..self
        }
    }
}

impl ExportedClass {
    /// The fields are kept in order.
    pub open(crate) spec fn wf(&self) -> bool {
        self.typescript_fields.wf()
    }

    /// A class has finitely many fields.
    pub proof fn law_finite(&self)
        ensures
            self@.fields.dom().finite(),
    {
        self.typescript_fields.law_finite();
        assert(self@.fields.dom() =~= self.typescript_fields@.dom());
    }

    /// Adds a method.
    pub fn push(
        &mut self,
        docs: &str,
        function_name: &str,
        function_prefix: &str,
        js: &str,
        ts: &str,
    )
        requires
            old(self).wf(),
        ensures
            final(self).wf(),
            final(self)@ == old(self)@.push(docs@, function_name@, function_prefix@, js@, ts@),
    {
        self.contents.append(docs);
        self.contents.append(function_prefix);
        self.contents.append(function_name);
        self.contents.append(js);
        self.contents.append("\n");
        self.typescript.append(docs);
        self.typescript.append("  ");
        self.typescript.append(function_prefix);
        self.typescript.append(ts);
        self.typescript.append("\n");
    }

    /// Adds a getter or a setter for a field.
    ///
    /// `ts` is the type of the field, not a signature. It is known of getters only, but each
    /// field has a getter.
    pub fn push_field(
        &mut self,
        docs: &str,
        field: &str,
        js: &str,
        ts: Option<&str>,
        getter: bool,
    )
        requires
            old(self).wf(),
        ensures
            final(self).wf(),
            final(self)@ == old(self)@.push_field(
                docs@,
                field@,
                js@,
                match ts {
                    Some(ts) => Some(ts@),
                    None => None,
                },
                getter,
            ),
    {
        self.contents.append(docs);
        if getter {
            self.contents.append("get ");
        } else {
            self.contents.append("set ");
        }
        self.contents.append(field);
        self.contents.append(js);
        self.contents.append("\n");
        let ghost fields = self.typescript_fields@;
        let entry = self.typescript_fields.entry(field, (String::new(), false));
        if let Some(ts) = ts {
            entry.0 = ts.to_string();
        }
        entry.1 = entry.1 || !getter;
        assert(self@.fields =~= fields.map_values(
            |field: (String, bool)| (field.0@, field.1),
        ).insert(field@, (self.typescript_fields@[field@].0@, self.typescript_fields@[field@].1)));
    }
}

impl Default for ExportedClass {
    /// A class without members.
    fn default() -> (r: ExportedClass)
        ensures
            r.wf(),
            r@ == ClassView::empty(),
    {
        let r = ExportedClass {
            comments: String::new(),
            contents: String::new(),
            typescript: String::new(),
            has_constructor: false,
            wrap_needed: false,
            typescript_fields: NameMap::new(),
        };
        assert(r@.fields =~= Map::<Seq<char>, (Seq<char>, bool)>::empty());
        r
    }
}

/// The models of some classes.
pub open spec fn class_views(classes: Map<Seq<char>, ExportedClass>) -> Map<Seq<char>, ClassView> {
    classes.map_values(|class: ExportedClass| class@)
}

/// Whether the classes are in order, and the fields of each.
pub open spec fn classes_wf(classes: &NameMap<ExportedClass>) -> bool {
    &&& classes.wf()
    &&& forall|name: Seq<char>| #[trigger] classes@.contains_key(name) ==> classes@[name].wf()
}

/// The class of that name, which is added without members where there is none.
pub fn require_class<'a>(
    exported_classes: &'a mut Option<NameMap<ExportedClass>>,
    name: &str,
) -> (r: &'a mut ExportedClass)
    requires
        *old(exported_classes) is Some,
        classes_wf(&(*old(exported_classes))->0),
    ensures
        r.wf(),
        r@ == (if (*old(exported_classes))->0@.contains_key(name@) {
            (*old(exported_classes))->0@[name@]@
        } else {
            ClassView::empty()
        }),
        *final(exported_classes) is Some,
        final(r).wf() ==> classes_wf(&(*final(exported_classes))->0),
        (*final(exported_classes))->0@ == (*old(exported_classes))->0@.insert(name@, *final(r)),
        class_views((*final(exported_classes))->0@) == class_views(
            (*old(exported_classes))->0@,
        ).insert(name@, final(r)@),
{
    match exported_classes {
        Some(classes) => {
            let ghost before = classes@;
            proof {
                assert forall|class: ExportedClass|
                    class_views(#[trigger] before.insert(name@, class)) == class_views(
                        before,
                    ).insert(name@, class@) by {
                    assert(class_views(before.insert(name@, class)) =~= class_views(before).insert(
                        name@,
                        class@,
                    ));
                }
            }
            classes.entry(name, ExportedClass::default())
        },
        None => vstd::pervasive::unreached(),
    }
}

/// Each line of `lines` with `before` in front of it and `after` behind it.
pub open spec fn framed(lines: Seq<Seq<char>>, before: Seq<char>, after: Seq<char>) -> Seq<char>
    decreases lines.len(),
{
    if lines.len() == 0 {
        Seq::empty()
    } else {
        framed(lines.drop_last(), before, after) + before + lines.last() + after
    }
}

/// A JavaScript documentation comment: the lines of `comments`, then those of the JSDoc part.
pub open spec fn doc_comment(comments: Seq<char>, js_doc_comments: Option<Seq<char>>) -> Seq<char> {
    "/**\n"@ + framed(lines(comments), "*"@, "\n"@) + (match js_doc_comments {
        Some(docs) => framed(lines(docs), "* "@, " \n"@),
        None => Seq::empty(),
    }) + "*/\n"@
}

/// The lines of `text`, each with `before` in front of it and `after` behind it.
fn frame_lines(text: &str, before: &str, after: &str) -> (r: String)
    ensures
        r@ == framed(lines(text@), before@, after@),
{
    let list = split_lines(text);
    let ghost all = lines(text@);
    let mut r = String::new();
    let mut i: usize = 0;
    assert(all.len() == list@.len());
    while i < list.len()
        invariant
            all == list@.map_values(|line: String| line@),
            i <= list.len(),
            r@ == framed(all.take(i as int), before@, after@),
        decreases list.len() - i,
    {
        assert(all.take(i as int + 1).drop_last() == all.take(i as int));
        r.append(before);
        r.append(list[i].as_str());
        r.append(after);
        i += 1;
    }
    assert(all.take(all.len() as int) == all);
    r
}

/// A JavaScript documentation comment.
pub fn format_doc_comments(comments: &str, js_doc_comments: Option<String>) -> (r: String)
    ensures
        r@ == doc_comment(
            comments@,
            match js_doc_comments {
                Some(docs) => Some(docs@),
                None => None,
            },
        ),
{
    let mut r = "/**\n".to_string();
    r.append(frame_lines(comments, "*", "\n").as_str());
    let doc = match js_doc_comments {
        Some(docs) => frame_lines(docs.as_str(), "* ", " \n"),
        None => String::new(),
    };
    r.append(doc.as_str());
    r.append("*/\n");
    r
}

} // verus!
